use certmaster::cert_issuer::dns_provider::{DigitalOcean, DnsProvider};
use certmaster::cert_issuer::{CertIssuer, CertIssuerSpec};
use certmaster::certificate::{Certificate, LabelSet};
use certmaster::reconcile::{
    handle_cert_issuer_events, needs_issuance, requeue_after_seconds, CachePolicy,
    CertIssuerEvent, ReconcileAction, RESYNC_SECONDS, RETRY_SECONDS,
};
use certmaster::store::Store;

fn issuer(name: &str, version: &str) -> CertIssuer {
    CertIssuer {
        name: Some(name.to_string()),
        uid: Some(format!("uid-{}", name)),
        resource_version: Some(version.to_string()),
        spec: CertIssuerSpec {
            domain_name: "example.com".to_string(),
            dns_provider: DnsProvider::DigitalOcean(DigitalOcean {
                auth_token: "token".to_string(),
            }),
            secret_name: None,
            namespaces: vec!["default".to_string()],
        },
    }
}

#[test]
fn store_defaults_home_namespace() {
    let store = Store::new(None);
    assert_eq!(store.get_namespace().as_str(), "kuberails");
    let store = Store::new(Some("certs".to_string()));
    assert_eq!(store.get_namespace().as_str(), "certs");
}

#[test]
fn store_upserts_by_name() {
    let mut store = Store::new(None);
    store.add_cert_issuer(issuer("a", "1"));
    store.add_cert_issuer(issuer("a", "2"));
    store.add_cert_issuer(issuer("b", "1"));
    assert_eq!(store.cert_issuer_count(), 2);
    assert!(store.contains_unchanged(&issuer("a", "2")));
    assert!(!store.contains_unchanged(&issuer("a", "1")));
}

#[test]
fn store_delete_removes_by_name() {
    let mut store = Store::new(None);
    store.add_cert_issuer(issuer("a", "1"));
    store.add_cert_issuer(issuer("b", "1"));
    store.delete_cert_issuer(&issuer("a", "9"));
    assert_eq!(store.cert_issuer_count(), 1);
    assert!(!store.contains_unchanged(&issuer("a", "1")));
    assert!(store.contains_unchanged(&issuer("b", "1")));
}

#[test]
fn store_records_certificates() {
    let mut store = Store::new(None);
    assert_eq!(store.cert_count(), 0);
    store.add_cert(Certificate {
        name: "c".to_string(),
        namespace: "default".to_string(),
        labels: LabelSet {
            managed_by: None,
            cert_issuer: None,
            cert_name: None,
            cached: None,
            cache_name: None,
        },
        owner_references: vec![],
        type_: None,
        data: vec![],
    });
    assert_eq!(store.cert_count(), 1);
}

#[test]
fn applied_event_triggers_reconciliation() {
    let mut store = Store::new(None);
    let action = handle_cert_issuer_events(&mut store, CertIssuerEvent::Applied(issuer("a", "1")));
    assert_eq!(action, Some(ReconcileAction::IssueAndReplicate));
    assert_eq!(store.cert_issuer_count(), 1);
}

#[test]
fn replayed_event_is_ignored_after_reconnect() {
    let mut store = Store::new(None);
    handle_cert_issuer_events(&mut store, CertIssuerEvent::Applied(issuer("a", "1")));

    let action = handle_cert_issuer_events(&mut store, CertIssuerEvent::Disconnected);
    assert_eq!(action, Some(ReconcileAction::Resync));

    // The re-list after the reconnect re-delivers the unchanged resource.
    let action = handle_cert_issuer_events(&mut store, CertIssuerEvent::Applied(issuer("a", "1")));
    assert_eq!(action, None);
    assert_eq!(store.cert_issuer_count(), 1);
}

#[test]
fn modified_resource_is_reconciled_again() {
    let mut store = Store::new(None);
    handle_cert_issuer_events(&mut store, CertIssuerEvent::Applied(issuer("a", "1")));
    let action = handle_cert_issuer_events(&mut store, CertIssuerEvent::Applied(issuer("a", "2")));
    assert_eq!(action, Some(ReconcileAction::IssueAndReplicate));
    assert_eq!(store.cert_issuer_count(), 1);
}

#[test]
fn deleted_event_only_leaves_the_index() {
    let mut store = Store::new(None);
    handle_cert_issuer_events(&mut store, CertIssuerEvent::Applied(issuer("a", "1")));
    let action = handle_cert_issuer_events(&mut store, CertIssuerEvent::Deleted(issuer("a", "1")));
    assert_eq!(action, None);
    assert_eq!(store.cert_issuer_count(), 0);
}

#[test]
fn requeue_schedule() {
    assert_eq!(requeue_after_seconds(true), RESYNC_SECONDS);
    assert_eq!(requeue_after_seconds(true), 600);
    assert_eq!(requeue_after_seconds(false), RETRY_SECONDS);
    assert_eq!(requeue_after_seconds(false), 1);
}

#[test]
fn issuance_policy() {
    let cache: Option<Certificate> = None;
    assert!(needs_issuance(&CachePolicy::AlwaysReissue, &cache));
    assert!(needs_issuance(&CachePolicy::ReuseExisting, &cache));
    let cache = Some(Certificate {
        name: "c".to_string(),
        namespace: "kuberails".to_string(),
        labels: LabelSet {
            managed_by: None,
            cert_issuer: None,
            cert_name: None,
            cached: None,
            cache_name: None,
        },
        owner_references: vec![],
        type_: None,
        data: vec![],
    });
    assert!(needs_issuance(&CachePolicy::AlwaysReissue, &cache));
    assert!(!needs_issuance(&CachePolicy::ReuseExisting, &cache));
}
