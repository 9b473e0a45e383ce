//! Proved laws of the capability-document builder.
//!
//! Each proof function here states a property that holds of every document
//! the builder can return, over the same specification functions that
//! [`crate::info::RelayInfo::from`] is contracted against.

use crate::info::build_spec;
use crate::info::payment_required_spec;
use crate::info::supported_nips_spec;
use crate::settings::SettingsView;
use vstd::prelude::*;

verus! {

/// For all settings, the advertised protocol-extension list is strictly
/// ascending, and therefore free of duplicates.
pub proof fn lemma_supported_nips_strictly_ascending(s: SettingsView, version: Option<Seq<char>>)
    ensures
        ({
            let d = build_spec(s, version);
            &&& d.supported_nips is Some
            &&& forall|i: int, j: int|
                0 <= i < j < d.supported_nips->0.len() ==> d.supported_nips->0[i]
                    < d.supported_nips->0[j]
        }),
{
    let nips = supported_nips_spec(s.authorization.nip42_auth);
    assert forall|i: int, j: int| 0 <= i < j < nips.len() implies nips[i] < nips[j] by {
        assert(nips[i] < nips[j]);
    }
}

/// The sender-authentication extension identifier (42) is advertised if and
/// only if that extension is enabled, and never more than once: any two
/// positions holding it coincide.
pub proof fn lemma_nip42_exactly_when_enabled(s: SettingsView, version: Option<Seq<char>>)
    ensures
        ({
            let nips = build_spec(s, version).supported_nips->0;
            &&& nips.contains(42) <==> s.authorization.nip42_auth
            &&& forall|i: int, j: int|
                0 <= i < nips.len() && 0 <= j < nips.len() && nips[i] == 42 && nips[j] == 42
                    ==> i == j
        }),
{
    let nips = supported_nips_spec(s.authorization.nip42_auth);
    if s.authorization.nip42_auth {
        assert(nips[11] == 42);
        assert(nips.contains(42));
    } else {
        assert forall|i: int| 0 <= i < nips.len() implies nips[i] != 42 by {
            assert(nips[i] != 42);
        }
    }
    lemma_supported_nips_strictly_ascending(s, version);
}

/// Payment is declared required exactly when some payment mechanism —
/// pay-to-relay or alternate-currency pay — is enabled; the limitation
/// object itself is always present.
pub proof fn lemma_payment_required(s: SettingsView, version: Option<Seq<char>>)
    ensures
        ({
            let d = build_spec(s, version);
            &&& d.limitation is Some
            &&& d.limitation->0.payment_required == Some(
                s.pay_to_relay.enabled || s.pay_to_relay_by_cashu.enabled,
            )
        }),
{
}

/// Writes are declared restricted exactly when payment is required, or
/// verified users are demanded, or an allow-list is configured, or the
/// external policy service restricts writes.
pub proof fn lemma_restricted_writes(s: SettingsView, version: Option<Seq<char>>)
    ensures
        ({
            let d = build_spec(s, version);
            &&& d.limitation is Some
            &&& d.limitation->0.restricted_writes == Some(
                (s.pay_to_relay.enabled || s.pay_to_relay_by_cashu.enabled)
                    || s.verified_users_enabled || s.authorization.pubkey_whitelist is Some
                    || s.grpc_restricts_write,
            )
        }),
{
}

/// When no payment mechanism is enabled, the document carries neither a
/// payment URL nor a fee schedule.
pub proof fn lemma_disabled_payment_omits_fields(s: SettingsView, version: Option<Seq<char>>)
    ensures
        !s.pay_to_relay.enabled && !s.pay_to_relay_by_cashu.enabled ==> ({
            let d = build_spec(s, version);
            &&& d.payment_url is None
            &&& d.fees is None
        }),
{
}

/// Presence of the fee schedule and its parts, for all settings:
/// the schedule exists exactly when payment is required; within it, the
/// admission list exists exactly when pay-to-relay is enabled with a
/// strictly positive admission cost, and the publication list exactly when
/// pay-to-relay carries a strictly positive per-event cost or the
/// alternate-currency mechanism is enabled.  A payment URL is only ever
/// present when pay-to-relay is enabled and a relay URL is configured.
pub proof fn lemma_fee_schedule_presence(s: SettingsView, version: Option<Seq<char>>)
    ensures
        ({
            let d = build_spec(s, version);
            &&& d.fees is Some <==> payment_required_spec(s)
            &&& d.fees is Some ==> (d.fees->0.admission is Some <==> (s.pay_to_relay.enabled
                && s.pay_to_relay.admission_cost > 0))
            &&& d.fees is Some ==> (d.fees->0.publication is Some <==> ((s.pay_to_relay.enabled
                && s.pay_to_relay.cost_per_event > 0) || s.pay_to_relay_by_cashu.enabled))
            &&& d.payment_url is Some ==> s.pay_to_relay.enabled && s.info.relay_url is Some
        }),
{
}

/// The builder is deterministic: identical settings and version strings
/// yield structurally identical documents.
pub proof fn lemma_build_deterministic(
    s1: SettingsView,
    s2: SettingsView,
    v1: Option<Seq<char>>,
    v2: Option<Seq<char>>,
)
    ensures
        s1 == s2 && v1 == v2 ==> build_spec(s1, v1) == build_spec(s2, v2),
{
}

} // verus!
