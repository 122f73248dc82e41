//! The reconciliation controller's decisions.
//!
//! The watch loop feeds each observed event into
//! [`handle_cert_issuer_events`], which updates the shared index and says
//! what to do next; the loop then performs the action — running the fan-out
//! engine, or resynchronizing the watch — and reschedules itself with
//! [`requeue_after_seconds`].  Failures are rescheduled, never crash the
//! loop, and a transport failure only triggers a resynchronization.

use vstd::prelude::*;
use crate::cert_issuer::CertIssuer;
use crate::certificate::Certificate;
use crate::store::{
    holds_unchanged, index_of_issuer_named, names_unique, same_identity_and_version, Store,
};

verus! {

/// One observation of the issuer watch.  `Applied` covers both a new and a
/// modified resource, as the watch delivers them; `Disconnected` is any
/// transport-level failure of the stream.
pub enum CertIssuerEvent {
    Applied(CertIssuer),
    Deleted(CertIssuer),
    Disconnected,
}

/// What the loop must do after an event: run the issuance and fan-out for
/// the issuer the event carried, or re-list and resume the watch from the
/// current bookmark.
#[derive(Clone, Copy, Debug, PartialEq, Eq, Structural)]
pub enum ReconcileAction {
    IssueAndReplicate,
    Resync,
}

/// Seconds until the next routine reconciliation after a success.
pub const RESYNC_SECONDS: u64 = 600;

/// Seconds until the retry after a failed reconciliation.
pub const RETRY_SECONDS: u64 = 1;

/// Schedules the next reconciliation: the routine interval after a success,
/// a short backoff after a failure.
pub fn requeue_after_seconds(succeeded: bool) -> (s: u64)
    ensures
        succeeded ==> s == RESYNC_SECONDS,
        !succeeded ==> s == RETRY_SECONDS,
{
    if succeeded {
        600
    } else {
        1
    }
}

/// Reacts to one issuer event.
///
/// An applied resource the index already holds unchanged is left alone —
/// this is what keeps a watch reconnection, which re-delivers every resource,
/// from re-issuing certificates that did not change.  A changed or new
/// resource is recorded and reconciled.  A deleted resource only leaves the
/// index: its derived objects are owned by it, and the platform's garbage
/// collection cascades the deletion.
pub fn handle_cert_issuer_events(store: &mut Store, event: CertIssuerEvent) -> (action: Option<
    ReconcileAction,
>)
    ensures
        final(store).home_namespace() == old(store).home_namespace(),
        final(store).certificates() == old(store).certificates(),
        names_unique(old(store).issuers()) ==> names_unique(final(store).issuers()),
        (event matches CertIssuerEvent::Disconnected ==> {
            &&& final(store).issuers() == old(store).issuers()
            &&& action == Some(ReconcileAction::Resync)
        }),
        (event matches CertIssuerEvent::Applied(ci) ==> ({
            &&& holds_unchanged(old(store).issuers(), ci) ==> {
                &&& final(store).issuers() == old(store).issuers()
                &&& action is None
            }
            &&& !holds_unchanged(old(store).issuers(), ci) ==> {
                &&& action == Some(ReconcileAction::IssueAndReplicate)
                &&& ci.name is None ==> final(store).issuers() == old(store).issuers()
                &&& ci.name matches Some(nm) ==> ({
                    let idx = index_of_issuer_named(old(store).issuers(), nm@);
                    if idx == -1 {
                        final(store).issuers() == old(store).issuers().push(ci)
                    } else {
                        final(store).issuers() == old(store).issuers().remove(idx).push(ci)
                    }
                })
            }
        })),
        (event matches CertIssuerEvent::Deleted(ci) ==> ({
            &&& action is None
            &&& ci.name is None ==> final(store).issuers() == old(store).issuers()
            &&& ci.name matches Some(nm) ==> ({
                let idx = index_of_issuer_named(old(store).issuers(), nm@);
                if idx == -1 {
                    final(store).issuers() == old(store).issuers()
                } else {
                    final(store).issuers() == old(store).issuers().remove(idx)
                }
            })
        })),
{
    match event {
        CertIssuerEvent::Applied(cert_issuer) => {
            if store.contains_unchanged(&cert_issuer) {
                None
            } else {
                store.add_cert_issuer(cert_issuer);
                Some(ReconcileAction::IssueAndReplicate)
            }
        },
        CertIssuerEvent::Deleted(cert_issuer) => {
            store.delete_cert_issuer(&cert_issuer);
            None
        },
        CertIssuerEvent::Disconnected => Some(ReconcileAction::Resync),
    }
}

/// Resync safety: an issuer the index holds in the delivered version is
/// never reconciled again, so a disconnect-and-replay of the watch creates
/// no second cache certificate for a resource that did not change.
pub proof fn lemma_resync_safety(stored: Seq<CertIssuer>, ci: CertIssuer, j: int)
    requires
        0 <= j < stored.len(),
        same_identity_and_version(stored[j], ci),
    ensures
        holds_unchanged(stored, ci),
{
}

/// Whether the engine may skip calling the certificate authority: only under
/// the reuse policy, and only when a cache certificate for the resource is
/// already discoverable.  Re-issuing on every reconciliation is the
/// always-refresh policy; which to run is the deployment's choice.
pub enum CachePolicy {
    AlwaysReissue,
    ReuseExisting,
}

/// Decides whether this reconciliation must call the certificate authority.
pub fn needs_issuance(policy: &CachePolicy, existing_cache: &Option<Certificate>) -> (b: bool)
    ensures
        b == (policy is AlwaysReissue || existing_cache is None),
{
    match policy {
        CachePolicy::AlwaysReissue => true,
        CachePolicy::ReuseExisting => match existing_cache {
            Some(_) => false,
            None => true,
        },
    }
}

/// How often a run of reconciliations calls the certificate authority, given
/// whether a cache certificate was discoverable at each of them.
pub open spec fn count_issuances(policy: CachePolicy, cache_present: Seq<bool>) -> nat
    decreases cache_present.len(),
{
    if cache_present.len() == 0 {
        0
    } else {
        (if policy is AlwaysReissue || !cache_present[0] {
            1nat
        } else {
            0nat
        }) + count_issuances(policy, cache_present.drop_first())
    }
}

proof fn lemma_count_issuances_all_present(cache_present: Seq<bool>)
    requires
        forall|i: int| 0 <= i < cache_present.len() ==> cache_present[i],
    ensures
        count_issuances(CachePolicy::ReuseExisting, cache_present) == 0,
    decreases cache_present.len(),
{
    if cache_present.len() > 0 {
        lemma_count_issuances_all_present(cache_present.drop_first());
    }
}

/// Single issuance per resource: under the reuse policy, a run of
/// reconciliations whose first finds no cache certificate and whose every
/// later one finds the cache discoverable calls the certificate authority
/// exactly once.
pub proof fn lemma_single_issuance(cache_present: Seq<bool>)
    requires
        cache_present.len() >= 1,
        !cache_present[0],
        forall|i: int| 1 <= i < cache_present.len() ==> cache_present[i],
    ensures
        count_issuances(CachePolicy::ReuseExisting, cache_present) == 1,
{
    lemma_count_issuances_all_present(cache_present.drop_first());
}

/// The always-refresh policy issues at every reconciliation, discoverable
/// cache or not.
pub proof fn lemma_always_reissue(cache_present: Seq<bool>)
    ensures
        count_issuances(CachePolicy::AlwaysReissue, cache_present) == cache_present.len(),
    decreases cache_present.len(),
{
    if cache_present.len() > 0 {
        lemma_always_reissue(cache_present.drop_first());
    }
}

} // verus!
