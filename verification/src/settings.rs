//! The relay's private operating configuration, as far as the capability
//! document reads it.
//!
//! The configuration subsystem that loads and validates these values is an
//! external collaborator; this crate only consumes a read-only snapshot.
//! Every type carries a mathematical view (`@`) over sequences of characters
//! and unbounded integers, so that the document builder's contract can speak
//! of the configuration independently of `String` and `Vec` representations.

use vstd::prelude::*;

verus! {

/// Public identity information of the relay.
pub struct Info {
    /// Canonical WebSocket URL of the relay, if one is configured.
    pub relay_url: Option<String>,
    /// Human-readable relay name.
    pub name: Option<String>,
    /// Human-readable relay description.
    pub description: Option<String>,
    /// Public key of the relay operator.
    pub pubkey: Option<String>,
    /// Contact address of the relay operator.
    pub contact: Option<String>,
    /// URL of an icon for the relay.
    pub relay_icon: Option<String>,
}

/// Mathematical view of [`Info`].
#[verifier::ext_equal]
pub struct InfoView {
    pub relay_url: Option<Seq<char>>,
    pub name: Option<Seq<char>>,
    pub description: Option<Seq<char>>,
    pub pubkey: Option<Seq<char>>,
    pub contact: Option<Seq<char>>,
    pub relay_icon: Option<Seq<char>>,
}

impl View for Info {
    type V = InfoView;

    open spec fn view(&self) -> InfoView {
        InfoView {
            relay_url: self.relay_url.deep_view(),
            name: self.name.deep_view(),
            description: self.description.deep_view(),
            pubkey: self.pubkey.deep_view(),
            contact: self.contact.deep_view(),
            relay_icon: self.relay_icon.deep_view(),
        }
    }
}

/// Sender-authentication settings.
pub struct Authorization {
    /// Whether the sender-authentication protocol extension is enabled.
    pub nip42_auth: bool,
    /// Optional allow-list of public keys permitted to write.
    pub pubkey_whitelist: Option<Vec<String>>,
}

/// Mathematical view of [`Authorization`].
#[verifier::ext_equal]
pub struct AuthorizationView {
    pub nip42_auth: bool,
    pub pubkey_whitelist: Option<Seq<Seq<char>>>,
}

impl View for Authorization {
    type V = AuthorizationView;

    open spec fn view(&self) -> AuthorizationView {
        AuthorizationView {
            nip42_auth: self.nip42_auth,
            pubkey_whitelist: self.pubkey_whitelist.deep_view(),
        }
    }
}

/// Settings for payment in the relay's primary billing unit.
pub struct PayToRelay {
    /// Whether pay-to-relay is enabled.
    pub enabled: bool,
    /// One-time admission cost, in major units of the primary currency.
    pub admission_cost: u64,
    /// Per-event publication cost, in major units of the primary currency.
    pub cost_per_event: u64,
}

/// Mathematical view of [`PayToRelay`].
#[verifier::ext_equal]
pub struct PayToRelayView {
    pub enabled: bool,
    pub admission_cost: u64,
    pub cost_per_event: u64,
}

impl View for PayToRelay {
    type V = PayToRelayView;

    open spec fn view(&self) -> PayToRelayView {
        PayToRelayView {
            enabled: self.enabled,
            admission_cost: self.admission_cost,
            cost_per_event: self.cost_per_event,
        }
    }
}

/// Settings for payment by an alternate minted currency.
pub struct PayToRelayByCashu {
    /// Whether alternate-currency payment is enabled.
    pub enabled: bool,
    /// Per-event publication cost, already in the unit's minor denomination.
    pub cost_per_event: u64,
    /// Label of the alternate currency unit.
    pub unit: String,
    /// Endpoints of the accepted minting/issuer services.
    pub mints: Vec<String>,
    /// Event kinds the fee applies to; `None` means all kinds.
    pub kinds: Option<Vec<u64>>,
}

/// Mathematical view of [`PayToRelayByCashu`].
#[verifier::ext_equal]
pub struct PayToRelayByCashuView {
    pub enabled: bool,
    pub cost_per_event: u64,
    pub unit: Seq<char>,
    pub mints: Seq<Seq<char>>,
    pub kinds: Option<Seq<u64>>,
}

impl View for PayToRelayByCashu {
    type V = PayToRelayByCashuView;

    open spec fn view(&self) -> PayToRelayByCashuView {
        PayToRelayByCashuView {
            enabled: self.enabled,
            cost_per_event: self.cost_per_event,
            unit: self.unit@,
            mints: self.mints.deep_view(),
            kinds: self.kinds.deep_view(),
        }
    }
}

/// Verified-users settings: whether writes require a verified user.
pub struct VerifiedUsers {
    /// Whether user verification is enabled.
    pub enabled: bool,
}

impl VerifiedUsers {
    /// Whether user verification is enabled.
    pub fn is_enabled(&self) -> (b: bool)
        ensures
            b == self.enabled,
    {
        self.enabled
    }
}

/// Settings of the external policy service consulted over RPC.
pub struct Grpc {
    /// Whether the external policy service restricts writes.
    pub restricts_write: bool,
}

/// A read-only snapshot of the relay's configuration.
pub struct Settings {
    /// Public identity information.
    pub info: Info,
    /// Sender-authentication settings.
    pub authorization: Authorization,
    /// Primary-currency payment settings.
    pub pay_to_relay: PayToRelay,
    /// Alternate-currency payment settings.
    pub pay_to_relay_by_cashu: PayToRelayByCashu,
    /// Verified-users settings.
    pub verified_users: VerifiedUsers,
    /// External write-restriction policy settings.
    pub grpc: Grpc,
}

/// Mathematical view of [`Settings`].
#[verifier::ext_equal]
pub struct SettingsView {
    pub info: InfoView,
    pub authorization: AuthorizationView,
    pub pay_to_relay: PayToRelayView,
    pub pay_to_relay_by_cashu: PayToRelayByCashuView,
    pub verified_users_enabled: bool,
    pub grpc_restricts_write: bool,
}

impl View for Settings {
    type V = SettingsView;

    open spec fn view(&self) -> SettingsView {
        SettingsView {
            info: self.info@,
            authorization: self.authorization@,
            pay_to_relay: self.pay_to_relay@,
            pay_to_relay_by_cashu: self.pay_to_relay_by_cashu@,
            verified_users_enabled: self.verified_users.enabled,
            grpc_restricts_write: self.grpc.restricts_write,
        }
    }
}

} // verus!
