//! The public capability document and its builder.
//!
//! [`RelayInfo`] is the externally visible metadata document of the relay:
//! identity fields, the list of supported protocol-extension identifiers,
//! payment limitations, an optional payment URL, and an optional fee
//! schedule.  [`RelayInfo::from`] derives it deterministically from a
//! [`Settings`] snapshot; its contract pins the whole result, at the level
//! of views, to the specification function [`build_spec`].

use crate::settings::Settings;
use crate::settings::SettingsView;
use vstd::prelude::*;

verus! {

/// A payment mechanism a fee can be settled through.
///
/// Currently the only variant is the alternate-currency mechanism, which
/// carries the minting/issuer endpoints that are accepted.  The set of
/// variants is meant to grow additively.
#[derive(PartialEq, Eq, Debug, Clone)]
pub enum PaymentMethod {
    /// Payment by alternate minted currency through the listed mints.
    Cashu { mints: Vec<String> },
}

/// Mathematical view of [`PaymentMethod`].
#[verifier::ext_equal]
pub enum PaymentMethodView {
    Cashu { mints: Seq<Seq<char>> },
}

impl View for PaymentMethod {
    type V = PaymentMethodView;

    open spec fn view(&self) -> PaymentMethodView {
        match self {
            PaymentMethod::Cashu { mints } => PaymentMethodView::Cashu {
                mints: mints.deep_view(),
            },
        }
    }
}

impl DeepView for PaymentMethod {
    type V = PaymentMethodView;

    open spec fn deep_view(&self) -> PaymentMethodView {
        self.view()
    }
}

impl PaymentMethod {
    /// The alternate-currency payment mechanism with the given mints.
    pub fn cashu(mints: Vec<String>) -> (r: Self)
        ensures
            r@ == (PaymentMethodView::Cashu { mints: mints.deep_view() }),
    {
        Self::Cashu { mints }
    }
}

/// One entry of a fee schedule.
#[derive(PartialEq, Eq, Debug)]
pub struct Fee {
    /// The amount, in the smallest denomination of `unit`.
    pub amount: u64,
    /// Label of the currency unit the amount is stated in.
    pub unit: String,
    /// The payment mechanism, where one other than the relay's primary
    /// billing applies.
    pub method: Option<PaymentMethod>,
    /// Event kinds the fee applies to; absent means all kinds.
    pub kinds: Option<Vec<u64>>,
}

/// Mathematical view of [`Fee`].
#[verifier::ext_equal]
pub struct FeeView {
    pub amount: int,
    pub unit: Seq<char>,
    pub method: Option<PaymentMethodView>,
    pub kinds: Option<Seq<u64>>,
}

impl View for Fee {
    type V = FeeView;

    open spec fn view(&self) -> FeeView {
        FeeView {
            amount: self.amount as int,
            unit: self.unit@,
            method: self.method.deep_view(),
            kinds: self.kinds.deep_view(),
        }
    }
}

impl DeepView for Fee {
    type V = FeeView;

    open spec fn deep_view(&self) -> FeeView {
        self.view()
    }
}

/// The relay's fee schedule: admission fees and publication fees.
///
/// Each list is omitted entirely when it would be empty.
#[derive(PartialEq, Eq, Debug)]
pub struct Fees {
    /// One-time fees for gaining write access.
    pub admission: Option<Vec<Fee>>,
    /// Per-event fees for publishing.
    pub publication: Option<Vec<Fee>>,
}

/// Mathematical view of [`Fees`].
#[verifier::ext_equal]
pub struct FeesView {
    pub admission: Option<Seq<FeeView>>,
    pub publication: Option<Seq<FeeView>>,
}

impl View for Fees {
    type V = FeesView;

    open spec fn view(&self) -> FeesView {
        FeesView {
            admission: self.admission.deep_view(),
            publication: self.publication.deep_view(),
        }
    }
}

impl DeepView for Fees {
    type V = FeesView;

    open spec fn deep_view(&self) -> FeesView {
        self.view()
    }
}

/// Payment and write restrictions of the relay.
///
/// Both fields are optional only for wire-format flexibility; this builder
/// always sets both whenever it emits a `Limitation` at all.
#[derive(PartialEq, Eq, Debug)]
pub struct Limitation {
    /// Whether some payment is required to use the relay.
    pub payment_required: Option<bool>,
    /// Whether writes are restricted in any way.
    pub restricted_writes: Option<bool>,
}

/// Mathematical view of [`Limitation`].
#[verifier::ext_equal]
pub struct LimitationView {
    pub payment_required: Option<bool>,
    pub restricted_writes: Option<bool>,
}

impl View for Limitation {
    type V = LimitationView;

    open spec fn view(&self) -> LimitationView {
        LimitationView {
            payment_required: self.payment_required,
            restricted_writes: self.restricted_writes,
        }
    }
}

impl DeepView for Limitation {
    type V = LimitationView;

    open spec fn deep_view(&self) -> LimitationView {
        self.view()
    }
}

/// The public capability document of the relay.
///
/// Every absent optional field is omitted entirely from any serialized wire
/// form, never emitted as null; the serialization layer is an external
/// collaborator.
#[derive(PartialEq, Eq, Debug)]
pub struct RelayInfo {
    /// Canonical URL of the relay.
    pub id: Option<String>,
    /// Human-readable relay name.
    pub name: Option<String>,
    /// Human-readable relay description.
    pub description: Option<String>,
    /// Public key of the relay operator.
    pub pubkey: Option<String>,
    /// Contact address of the relay operator.
    pub contact: Option<String>,
    /// URL of an icon for the relay.
    pub icon: Option<String>,
    /// Identifiers of the protocol extensions the relay supports, strictly
    /// ascending and duplicate-free.
    pub supported_nips: Option<Vec<i64>>,
    /// Fixed identifier of the relay implementation.
    pub software: Option<String>,
    /// Build-time version of the relay implementation, if embedded.
    pub version: Option<String>,
    /// Payment and write restrictions.
    pub limitation: Option<Limitation>,
    /// URL for completing relay admission payment.
    pub payment_url: Option<String>,
    /// The fee schedule.
    pub fees: Option<Fees>,
}

/// Mathematical view of [`RelayInfo`].
#[verifier::ext_equal]
pub struct RelayInfoView {
    pub id: Option<Seq<char>>,
    pub name: Option<Seq<char>>,
    pub description: Option<Seq<char>>,
    pub pubkey: Option<Seq<char>>,
    pub contact: Option<Seq<char>>,
    pub icon: Option<Seq<char>>,
    pub supported_nips: Option<Seq<i64>>,
    pub software: Option<Seq<char>>,
    pub version: Option<Seq<char>>,
    pub limitation: Option<LimitationView>,
    pub payment_url: Option<Seq<char>>,
    pub fees: Option<FeesView>,
}

impl View for RelayInfo {
    type V = RelayInfoView;

    open spec fn view(&self) -> RelayInfoView {
        RelayInfoView {
            id: self.id.deep_view(),
            name: self.name.deep_view(),
            description: self.description.deep_view(),
            pubkey: self.pubkey.deep_view(),
            contact: self.contact.deep_view(),
            icon: self.icon.deep_view(),
            supported_nips: self.supported_nips.deep_view(),
            software: self.software.deep_view(),
            version: self.version.deep_view(),
            limitation: self.limitation.deep_view(),
            payment_url: self.payment_url.deep_view(),
            fees: self.fees.deep_view(),
        }
    }
}

/// Label of the relay's primary billing unit: the minor denomination that
/// primary-currency fee amounts are stated in.
pub open spec fn unit_label() -> Seq<char> {
    "msats"@
}

/// Fixed identifier of the relay implementation.
pub open spec fn software_url() -> Seq<char> {
    "https://git.sr.ht/~gheartsfield/nostr-rs-relay"@
}

/// The baseline protocol extensions every instance of this relay supports.
pub open spec fn baseline_nips() -> Seq<i64> {
    seq![1i64, 2i64, 9i64, 11i64, 12i64, 15i64, 16i64, 20i64, 22i64, 33i64, 40i64]
}

/// The advertised protocol extensions: the baseline, extended with the
/// sender-authentication extension (42) when that is enabled, kept in
/// ascending order.
pub open spec fn supported_nips_spec(nip42_auth: bool) -> Seq<i64> {
    if nip42_auth {
        baseline_nips().push(42i64)
    } else {
        baseline_nips()
    }
}

/// Whether some payment is required: any payment mechanism is enabled.
pub open spec fn payment_required_spec(s: SettingsView) -> bool {
    s.pay_to_relay.enabled || s.pay_to_relay_by_cashu.enabled
}

/// Whether writes are restricted: payment is required, or users must be
/// verified, or an allow-list is configured, or the external policy service
/// restricts writes.
pub open spec fn restricted_writes_spec(s: SettingsView) -> bool {
    payment_required_spec(s) || s.verified_users_enabled
        || s.authorization.pubkey_whitelist is Some || s.grpc_restricts_write
}

/// The admission fee schedule: one primary-currency entry when pay-to-relay
/// is enabled with a strictly positive admission cost, absent otherwise.
/// Major-unit costs are converted to the minor denomination.
pub open spec fn admission_fees_spec(s: SettingsView) -> Option<Seq<FeeView>> {
    if s.pay_to_relay.enabled && s.pay_to_relay.admission_cost > 0 {
        Some(
            seq![
                FeeView {
                    amount: s.pay_to_relay.admission_cost * 1000,
                    unit: unit_label(),
                    method: None,
                    kinds: None,
                },
            ],
        )
    } else {
        None
    }
}

/// The publication fee schedule: a primary-currency entry when pay-to-relay
/// is enabled with a strictly positive per-event cost, then an
/// alternate-currency entry when that mechanism is enabled; absent when both
/// are missing.
pub open spec fn publication_fees_spec(s: SettingsView) -> Option<Seq<FeeView>> {
    let primary: Seq<FeeView> = if s.pay_to_relay.enabled && s.pay_to_relay.cost_per_event > 0 {
        seq![
            FeeView {
                amount: s.pay_to_relay.cost_per_event * 1000,
                unit: unit_label(),
                method: None,
                kinds: None,
            },
        ]
    } else {
        Seq::empty()
    };
    let all = if s.pay_to_relay_by_cashu.enabled {
        primary.push(
            FeeView {
                amount: s.pay_to_relay_by_cashu.cost_per_event as int,
                unit: s.pay_to_relay_by_cashu.unit,
                method: Some(
                    PaymentMethodView::Cashu { mints: s.pay_to_relay_by_cashu.mints },
                ),
                kinds: s.pay_to_relay_by_cashu.kinds,
            },
        )
    } else {
        primary
    };
    if all.len() == 0 {
        None
    } else {
        Some(all)
    }
}

/// The fee schedule: present exactly when some payment mechanism is enabled.
pub open spec fn fees_spec(s: SettingsView) -> Option<FeesView> {
    if payment_required_spec(s) {
        Some(
            FeesView { admission: admission_fees_spec(s), publication: publication_fees_spec(s) },
        )
    } else {
        None
    }
}

/// Rewrites a relay URL into the admission-payment URL: the WebSocket scheme
/// prefix is replaced by the matching HTTP scheme and the fixed `join` path
/// segment is appended.  A URL that does not begin with a recognised
/// WebSocket scheme yields no payment URL rather than a corrupted one.
pub open spec fn payment_url_of(u: Seq<char>) -> Option<Seq<char>> {
    if u.len() >= 6 && u.subrange(0, 6) == "wss://"@ {
        Some("https://"@ + u.subrange(6, u.len() as int) + "join"@)
    } else if u.len() >= 5 && u.subrange(0, 5) == "ws://"@ {
        Some("http://"@ + u.subrange(5, u.len() as int) + "join"@)
    } else {
        None
    }
}

/// The admission-payment URL: derived from the relay URL only when
/// pay-to-relay is enabled and a relay URL is configured.
pub open spec fn payment_url_spec(s: SettingsView) -> Option<Seq<char>> {
    if s.pay_to_relay.enabled && s.info.relay_url is Some {
        payment_url_of(s.info.relay_url->0)
    } else {
        None
    }
}

/// Whether `u` begins with the prefix `p`, compared character by character.
fn str_has_prefix(u: &str, p: &str) -> (b: bool)
    ensures
        b == (u@.len() >= p@.len() && u@.subrange(0, p@.len() as int) == p@),
{
    let un = u.unicode_len();
    let pn = p.unicode_len();
    if un < pn {
        return false;
    }
    let mut i: usize = 0;
    while i < pn
        invariant
            pn == p@.len(),
            un == u@.len(),
            un >= pn,
            i <= pn,
            forall|j: int| 0 <= j < i ==> u@[j] == p@[j],
        decreases pn - i,
    {
        if u.get_char(i) != p.get_char(i) {
            proof {
                assert(u@.subrange(0, pn as int)[i as int] == u@[i as int]);
            }
            return false;
        }
        i += 1;
    }
    proof {
        assert(u@.subrange(0, pn as int) =~= p@);
    }
    true
}

/// Rewrites a relay URL into the admission-payment URL, as
/// [`payment_url_of`] describes: a recognised WebSocket scheme prefix is
/// replaced by the matching HTTP scheme and `join` is appended; any other
/// URL yields `None`.
fn derive_payment_url(u: &str) -> (r: Option<String>)
    ensures
        r.deep_view() == payment_url_of(u@),
{
    proof {
        reveal_strlit("wss://");
        reveal_strlit("ws://");
    }
    if str_has_prefix(u, "wss://") {
        let n = u.unicode_len();
        let rest = u.substring_char(6, n);
        let s = String::from_str("https://").concat(rest).concat("join");
        proof {
            assert(s@ =~= "https://"@ + u@.subrange(6, u@.len() as int) + "join"@);
        }
        Some(s)
    } else if str_has_prefix(u, "ws://") {
        let n = u.unicode_len();
        let rest = u.substring_char(5, n);
        let s = String::from_str("http://").concat(rest).concat("join");
        proof {
            assert(s@ =~= "http://"@ + u@.subrange(5, u@.len() as int) + "join"@);
        }
        Some(s)
    } else {
        None
    }
}

/// Builds the advertised protocol-extension list, as
/// [`supported_nips_spec`] describes: the baseline identifiers, with the
/// sender-authentication identifier appended when that extension is
/// enabled.  The result stays in ascending order.
fn supported_nips(nip42_auth: bool) -> (v: Vec<i64>)
    ensures
        v@ == supported_nips_spec(nip42_auth),
{
    let mut v: Vec<i64> = Vec::new();
    v.push(1);
    v.push(2);
    v.push(9);
    v.push(11);
    v.push(12);
    v.push(15);
    v.push(16);
    v.push(20);
    v.push(22);
    v.push(33);
    v.push(40);
    proof {
        assert(v@ =~= baseline_nips());
    }
    if nip42_auth {
        v.push(42);
    }
    v
}

/// What the document builder returns: the full capability document, at the
/// level of views, as a function of the settings snapshot and the injected
/// build-time version string.
pub open spec fn build_spec(s: SettingsView, version: Option<Seq<char>>) -> RelayInfoView {
    RelayInfoView {
        id: s.info.relay_url,
        name: s.info.name,
        description: s.info.description,
        pubkey: s.info.pubkey,
        contact: s.info.contact,
        icon: s.info.relay_icon,
        supported_nips: Some(supported_nips_spec(s.authorization.nip42_auth)),
        software: Some(software_url()),
        version: version,
        limitation: Some(
            LimitationView {
                payment_required: Some(payment_required_spec(s)),
                restricted_writes: Some(restricted_writes_spec(s)),
            },
        ),
        payment_url: payment_url_spec(s),
        fees: fees_spec(s),
    }
}

impl RelayInfo {
    /// Derives the public capability document from a settings snapshot.
    ///
    /// The transformation is total and deterministic: the whole result, at
    /// the level of views, equals [`build_spec`] of the settings' view and
    /// the injected build-time version string.  Absent optional settings
    /// only make dependent fields absent; they never make the builder fail.
    /// The preconditions merely keep the minor-denomination conversion of
    /// the primary-currency costs within the machine word.
    pub fn from(c: Settings, version: Option<String>) -> (r: RelayInfo)
        requires
            c.pay_to_relay.enabled ==> c.pay_to_relay.admission_cost * 1000 <= u64::MAX,
            c.pay_to_relay.enabled ==> c.pay_to_relay.cost_per_event * 1000 <= u64::MAX,
        ensures
            r@ == build_spec(c@, version.deep_view()),
    {
        let Settings {
            info,
            authorization,
            pay_to_relay: p,
            pay_to_relay_by_cashu: pc,
            verified_users,
            grpc,
        } = c;

        let supported = supported_nips(authorization.nip42_auth);

        let limitation = Limitation {
            payment_required: Some(p.enabled || pc.enabled),
            restricted_writes: Some(
                p.enabled || pc.enabled || verified_users.is_enabled()
                    || authorization.pubkey_whitelist.is_some() || grpc.restricts_write,
            ),
        };

        let mut payment_url: Option<String> = None;
        let mut fees: Option<Fees> = None;
        if p.enabled || pc.enabled {
            let admission: Option<Vec<Fee>> = if p.enabled && p.admission_cost > 0 {
                let mut af: Vec<Fee> = Vec::new();
                af.push(
                    Fee {
                        amount: p.admission_cost * 1000,
                        unit: String::from_str("msats"),
                        method: None,
                        kinds: None,
                    },
                );
                Some(af)
            } else {
                None
            };

            let mut post: Vec<Fee> = Vec::new();
            if p.enabled && p.cost_per_event > 0 {
                post.push(
                    Fee {
                        amount: p.cost_per_event * 1000,
                        unit: String::from_str("msats"),
                        method: None,
                        kinds: None,
                    },
                );
            }
            if pc.enabled {
                post.push(
                    Fee {
                        amount: pc.cost_per_event,
                        unit: pc.unit,
                        method: Some(PaymentMethod::cashu(pc.mints)),
                        kinds: pc.kinds,
                    },
                );
            }
            let publication: Option<Vec<Fee>> = if post.len() == 0 {
                None
            } else {
                Some(post)
            };
            fees = Some(Fees { admission, publication });

            if p.enabled {
                payment_url = match &info.relay_url {
                    Some(u) => derive_payment_url(u.as_str()),
                    None => None,
                };
            }
        }

        let r = RelayInfo {
            id: info.relay_url,
            name: info.name,
            description: info.description,
            pubkey: info.pubkey,
            contact: info.contact,
            icon: info.relay_icon,
            supported_nips: Some(supported),
            software: Some(String::from_str("https://git.sr.ht/~gheartsfield/nostr-rs-relay")),
            version,
            limitation: Some(limitation),
            payment_url,
            fees,
        };
        proof {
            assert(r@ =~~= build_spec(c@, version.deep_view()));
        }
        r
    }
}

} // verus!
