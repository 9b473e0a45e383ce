use relay_info::info::Fee;
use relay_info::info::PaymentMethod;
use relay_info::info::RelayInfo;
use relay_info::settings::Authorization;
use relay_info::settings::Grpc;
use relay_info::settings::Info;
use relay_info::settings::PayToRelay;
use relay_info::settings::PayToRelayByCashu;
use relay_info::settings::Settings;
use relay_info::settings::VerifiedUsers;

/// A settings snapshot with every feature disabled and no identity data.
fn base_settings() -> Settings {
    Settings {
        info: Info {
            relay_url: None,
            name: None,
            description: None,
            pubkey: None,
            contact: None,
            relay_icon: None,
        },
        authorization: Authorization {
            nip42_auth: false,
            pubkey_whitelist: None,
        },
        pay_to_relay: PayToRelay {
            enabled: false,
            admission_cost: 0,
            cost_per_event: 0,
        },
        pay_to_relay_by_cashu: PayToRelayByCashu {
            enabled: false,
            cost_per_event: 0,
            unit: String::new(),
            mints: Vec::new(),
            kinds: None,
        },
        verified_users: VerifiedUsers { enabled: false },
        grpc: Grpc {
            restricts_write: false,
        },
    }
}

fn nips_of(doc: &RelayInfo) -> Vec<i64> {
    doc.supported_nips.clone().expect("supported_nips must always be present")
}

#[test]
fn supported_nips_strictly_ascending() {
    for auth in [false, true] {
        let mut s = base_settings();
        s.authorization.nip42_auth = auth;
        let nips = nips_of(&RelayInfo::from(s, None));
        for w in nips.windows(2) {
            assert!(w[0] < w[1], "not strictly ascending: {:?}", nips);
        }
    }
}

#[test]
fn baseline_nips_without_auth() {
    let nips = nips_of(&RelayInfo::from(base_settings(), None));
    assert_eq!(nips, vec![1, 2, 9, 11, 12, 15, 16, 20, 22, 33, 40]);
}

#[test]
fn nip42_present_exactly_once_when_enabled() {
    let mut s = base_settings();
    s.authorization.nip42_auth = true;
    let nips = nips_of(&RelayInfo::from(s, None));
    assert_eq!(nips, vec![1, 2, 9, 11, 12, 15, 16, 20, 22, 33, 40, 42]);
    assert_eq!(nips.iter().filter(|&&n| n == 42).count(), 1);
}

#[test]
fn nip42_absent_when_disabled() {
    let nips = nips_of(&RelayInfo::from(base_settings(), None));
    assert!(!nips.contains(&42));
}

#[test]
fn payment_required_iff_some_mechanism_enabled() {
    for (p, pc) in [(false, false), (true, false), (false, true), (true, true)] {
        let mut s = base_settings();
        s.pay_to_relay.enabled = p;
        s.pay_to_relay_by_cashu.enabled = pc;
        let doc = RelayInfo::from(s, None);
        let lim = doc.limitation.expect("limitation must always be present");
        assert_eq!(lim.payment_required, Some(p || pc));
    }
}

#[test]
fn restricted_writes_iff_any_restriction() {
    // (payment, verified users, allow-list, external policy) -> expected
    for payment in [false, true] {
        for verified in [false, true] {
            for whitelist in [false, true] {
                for grpc in [false, true] {
                    let mut s = base_settings();
                    s.pay_to_relay.enabled = payment;
                    s.verified_users.enabled = verified;
                    s.authorization.pubkey_whitelist = if whitelist {
                        Some(vec!["a0".to_string()])
                    } else {
                        None
                    };
                    s.grpc.restricts_write = grpc;
                    let doc = RelayInfo::from(s, None);
                    let lim = doc.limitation.expect("limitation must always be present");
                    assert_eq!(
                        lim.restricted_writes,
                        Some(payment || verified || whitelist || grpc)
                    );
                }
            }
        }
    }
}

#[test]
fn disabled_payment_omits_url_and_fees() {
    let mut s = base_settings();
    s.info.relay_url = Some("wss://relay.example/".to_string());
    s.pay_to_relay.admission_cost = 5;
    s.pay_to_relay.cost_per_event = 2;
    // Both payment mechanisms stay disabled.
    let doc = RelayInfo::from(s, None);
    assert_eq!(doc.payment_url, None);
    assert_eq!(doc.fees, None);
}

#[test]
fn admission_fee_converted_to_minor_units() {
    let mut s = base_settings();
    s.pay_to_relay.enabled = true;
    s.pay_to_relay.admission_cost = 5;
    s.pay_to_relay.cost_per_event = 0;
    let doc = RelayInfo::from(s, None);
    let fees = doc.fees.expect("fees must be present when payment is enabled");
    assert_eq!(
        fees.admission,
        Some(vec![Fee {
            amount: 5000,
            unit: "msats".to_string(),
            method: None,
            kinds: None,
        }])
    );
    assert_eq!(fees.publication, None);
}

#[test]
fn cashu_publication_fee_passed_through() {
    let mut s = base_settings();
    s.pay_to_relay_by_cashu.enabled = true;
    s.pay_to_relay_by_cashu.cost_per_event = 3;
    s.pay_to_relay_by_cashu.unit = "sat".to_string();
    s.pay_to_relay_by_cashu.mints = vec!["https://mint.example".to_string()];
    let doc = RelayInfo::from(s, None);
    assert_eq!(doc.payment_url, None);
    let fees = doc.fees.expect("fees must be present when payment is enabled");
    assert_eq!(fees.admission, None);
    assert_eq!(
        fees.publication,
        Some(vec![Fee {
            amount: 3,
            unit: "sat".to_string(),
            method: Some(PaymentMethod::Cashu {
                mints: vec!["https://mint.example".to_string()],
            }),
            kinds: None,
        }])
    );
}

#[test]
fn publication_fees_ordered_primary_then_cashu() {
    let mut s = base_settings();
    s.pay_to_relay.enabled = true;
    s.pay_to_relay.cost_per_event = 2;
    s.pay_to_relay_by_cashu.enabled = true;
    s.pay_to_relay_by_cashu.cost_per_event = 7;
    s.pay_to_relay_by_cashu.unit = "sat".to_string();
    s.pay_to_relay_by_cashu.mints = vec!["https://mint.example".to_string()];
    s.pay_to_relay_by_cashu.kinds = Some(vec![1, 30023]);
    let doc = RelayInfo::from(s, None);
    let publication = doc
        .fees
        .expect("fees must be present when payment is enabled")
        .publication
        .expect("publication fees must be present");
    assert_eq!(publication.len(), 2);
    assert_eq!(publication[0].amount, 2000);
    assert_eq!(publication[0].unit, "msats");
    assert_eq!(publication[0].method, None);
    assert_eq!(publication[0].kinds, None);
    assert_eq!(publication[1].amount, 7);
    assert_eq!(publication[1].unit, "sat");
    assert_eq!(
        publication[1].method,
        Some(PaymentMethod::Cashu {
            mints: vec!["https://mint.example".to_string()],
        })
    );
    assert_eq!(publication[1].kinds, Some(vec![1, 30023]));
}

#[test]
fn payment_url_joins_secure_scheme() {
    let mut s = base_settings();
    s.pay_to_relay.enabled = true;
    s.pay_to_relay.admission_cost = 0;
    s.info.relay_url = Some("wss://relay.example/".to_string());
    let doc = RelayInfo::from(s, None);
    assert_eq!(doc.payment_url, Some("https://relay.example/join".to_string()));
    let fees = doc.fees.expect("fees must be present when payment is enabled");
    assert_eq!(fees.admission, None);
}

#[test]
fn payment_url_joins_plain_scheme() {
    let mut s = base_settings();
    s.pay_to_relay.enabled = true;
    s.info.relay_url = Some("ws://relay.example/".to_string());
    let doc = RelayInfo::from(s, None);
    assert_eq!(doc.payment_url, Some("http://relay.example/join".to_string()));
}

#[test]
fn payment_url_absent_without_websocket_scheme() {
    let mut s = base_settings();
    s.pay_to_relay.enabled = true;
    s.info.relay_url = Some("https://relay.example/".to_string());
    let doc = RelayInfo::from(s, None);
    assert_eq!(doc.payment_url, None);
}

#[test]
fn payment_url_absent_without_relay_url() {
    let mut s = base_settings();
    s.pay_to_relay.enabled = true;
    let doc = RelayInfo::from(s, None);
    assert_eq!(doc.payment_url, None);
}

#[test]
fn identity_fields_mirrored() {
    let mut s = base_settings();
    s.info.relay_url = Some("wss://relay.example/".to_string());
    s.info.name = Some("a relay".to_string());
    s.info.description = Some("a test relay".to_string());
    s.info.pubkey = Some("deadbeef".to_string());
    s.info.contact = Some("admin@relay.example".to_string());
    s.info.relay_icon = Some("https://relay.example/icon.png".to_string());
    let doc = RelayInfo::from(s, Some("0.9.1".to_string()));
    assert_eq!(doc.id, Some("wss://relay.example/".to_string()));
    assert_eq!(doc.name, Some("a relay".to_string()));
    assert_eq!(doc.description, Some("a test relay".to_string()));
    assert_eq!(doc.pubkey, Some("deadbeef".to_string()));
    assert_eq!(doc.contact, Some("admin@relay.example".to_string()));
    assert_eq!(doc.icon, Some("https://relay.example/icon.png".to_string()));
    assert_eq!(
        doc.software,
        Some("https://git.sr.ht/~gheartsfield/nostr-rs-relay".to_string())
    );
    assert_eq!(doc.version, Some("0.9.1".to_string()));
}

#[test]
fn version_absent_when_not_embedded() {
    let doc = RelayInfo::from(base_settings(), None);
    assert_eq!(doc.version, None);
}

#[test]
fn builder_is_deterministic() {
    let make = || {
        let mut s = base_settings();
        s.info.relay_url = Some("wss://relay.example/".to_string());
        s.info.name = Some("a relay".to_string());
        s.authorization.nip42_auth = true;
        s.pay_to_relay.enabled = true;
        s.pay_to_relay.admission_cost = 4;
        s.pay_to_relay.cost_per_event = 1;
        s.pay_to_relay_by_cashu.enabled = true;
        s.pay_to_relay_by_cashu.cost_per_event = 9;
        s.pay_to_relay_by_cashu.unit = "sat".to_string();
        s.pay_to_relay_by_cashu.mints = vec!["https://mint.example".to_string()];
        s.pay_to_relay_by_cashu.kinds = Some(vec![1]);
        s
    };
    let first = RelayInfo::from(make(), Some("0.9.1".to_string()));
    let second = RelayInfo::from(make(), Some("0.9.1".to_string()));
    assert_eq!(first, second);
}

#[test]
fn cashu_constructor_carries_mints() {
    let mints = vec!["https://mint.example".to_string()];
    assert_eq!(
        PaymentMethod::cashu(mints.clone()),
        PaymentMethod::Cashu { mints }
    );
}

#[test]
fn verified_users_enabled_flag() {
    assert!(VerifiedUsers { enabled: true }.is_enabled());
    assert!(!VerifiedUsers { enabled: false }.is_enabled());
}
