use certmaster::cert_issuer::dns_provider::{ApiToken, Cloudflare, DigitalOcean, DnsProvider};
use certmaster::cert_issuer::{default_namespace, owner_reference, CertIssuer, CertIssuerSpec};
use certmaster::certificate::{
    cache_and_create_for_namespaces, cert_watch_filter_matches, collect_created, create_cache,
    create_from_cached_cert, Certificate, KeyEntry, KeyMaterial, LabelSet,
};
use certmaster::consts::labels::{MANAGED_BY_VALUE, TLS};
use certmaster::error::{Error, IdentityField};

fn acme_issuer() -> CertIssuer {
    CertIssuer {
        name: Some("acme-example".to_string()),
        uid: Some("uid-1234".to_string()),
        resource_version: Some("1".to_string()),
        spec: CertIssuerSpec {
            domain_name: "example.com".to_string(),
            dns_provider: DnsProvider::DigitalOcean(DigitalOcean {
                auth_token: "token".to_string(),
            }),
            secret_name: None,
            namespaces: default_namespace(),
        },
    }
}

fn tls_material() -> KeyMaterial {
    KeyMaterial {
        entries: vec![
            KeyEntry { key: "tls.crt".to_string(), value: b"certificate-bytes".to_vec() },
            KeyEntry { key: "tls.key".to_string(), value: b"key-bytes".to_vec() },
        ],
    }
}

#[test]
fn default_namespace_is_default() {
    assert_eq!(default_namespace(), vec!["default".to_string()]);
    assert_eq!(certmaster::crd::default_namespace(), vec!["default".to_string()]);
    assert_eq!(certmaster::crds::default_namespace(), vec!["default".to_string()]);
}

#[test]
fn owner_reference_carries_issuer_identity() {
    let issuer = acme_issuer();
    let owner = owner_reference(&issuer).unwrap();
    assert_eq!(owner.api_version, "certmaster.kuberails.com/v1");
    assert_eq!(owner.kind, "CertIssuer");
    assert_eq!(owner.name, "acme-example");
    assert_eq!(owner.uid, "uid-1234");
    assert_eq!(owner.controller, None);
}

#[test]
fn owner_reference_requires_name_and_uid() {
    let mut issuer = acme_issuer();
    issuer.uid = None;
    match owner_reference(&issuer) {
        Err(Error::MissingIdentityField(IdentityField::Uid)) => {}
        other => panic!("expected missing uid, got {:?}", other.map(|_| ())),
    }
    issuer.name = None;
    match owner_reference(&issuer) {
        Err(Error::MissingIdentityField(IdentityField::Name)) => {}
        other => panic!("expected missing name, got {:?}", other.map(|_| ())),
    }
}

#[test]
fn acme_example_scenario() {
    let issuer = acme_issuer();
    let home = "kuberails".to_string();
    let plan = cache_and_create_for_namespaces(&issuer, &home, tls_material()).unwrap();

    let cache = &plan.cache;
    assert_eq!(cache.namespace, "kuberails");
    assert_eq!(cache.name.len(), 36);
    assert_eq!(cache.labels.managed_by.as_deref(), Some(MANAGED_BY_VALUE));
    assert_eq!(cache.labels.cert_issuer.as_deref(), Some("acme-example"));
    assert_eq!(cache.labels.cert_name.as_deref(), Some("acme-example"));
    assert_eq!(cache.labels.cached.as_deref(), Some("true"));
    assert_eq!(cache.labels.cache_name, None);
    assert_eq!(cache.type_, None);
    assert_eq!(cache.owner_references.len(), 1);
    assert_eq!(cache.owner_references[0].controller, Some(true));

    assert_eq!(plan.copies.len(), 1);
    let copy = &plan.copies[0];
    assert_eq!(copy.name, "acme-example");
    assert_eq!(copy.namespace, "default");
    assert_eq!(copy.type_.as_deref(), Some(TLS));
    assert_eq!(copy.labels.cached, None);
    assert_eq!(copy.labels.cache_name.as_deref(), Some(cache.name.as_str()));
    assert_eq!(copy.data.len(), cache.data.len());
    for (a, b) in copy.data.iter().zip(cache.data.iter()) {
        assert_eq!(a.key, b.key);
        assert_eq!(a.value, b.value);
    }
}

#[test]
fn explicit_secret_name_wins() {
    let mut issuer = acme_issuer();
    issuer.spec.secret_name = Some("my-cert".to_string());
    let home = "kuberails".to_string();
    let cache = create_cache(&issuer, &home, tls_material()).unwrap();
    assert_eq!(cache.labels.cert_name.as_deref(), Some("my-cert"));
    let copy = create_from_cached_cert(&cache, &"default".to_string());
    assert_eq!(copy.name, "my-cert");
}

#[test]
fn copy_without_logical_name_gets_fresh_identity() {
    let cache = Certificate {
        name: "cache-1".to_string(),
        namespace: "kuberails".to_string(),
        labels: LabelSet {
            managed_by: Some(MANAGED_BY_VALUE.to_string()),
            cert_issuer: Some("acme-example".to_string()),
            cert_name: None,
            cached: Some("true".to_string()),
            cache_name: None,
        },
        owner_references: vec![],
        type_: None,
        data: vec![],
    };
    let copy = create_from_cached_cert(&cache, &"default".to_string());
    assert_eq!(copy.name.len(), 36);
    assert_eq!(copy.labels.cache_name.as_deref(), Some("cache-1"));
}

#[test]
fn fan_out_covers_every_namespace() {
    let mut issuer = acme_issuer();
    issuer.spec.dns_provider = DnsProvider::Cloudflare(Cloudflare::ApiToken(ApiToken {
        token: "cf".to_string(),
    }));
    issuer.spec.namespaces =
        vec!["a".to_string(), "b".to_string(), "c".to_string()];
    let home = "kuberails".to_string();
    let plan = cache_and_create_for_namespaces(&issuer, &home, tls_material()).unwrap();
    assert_eq!(plan.copies.len(), 3);
    for (copy, ns) in plan.copies.iter().zip(["a", "b", "c"]) {
        assert_eq!(copy.namespace, ns);
        assert_eq!(copy.labels.cache_name.as_deref(), Some(plan.cache.name.as_str()));
    }
    let all_ok: Vec<Result<Certificate, Error>> = plan.copies.into_iter().map(Ok).collect();
    let created = collect_created(all_ok);
    assert_eq!(created.len(), 3);
}

#[test]
fn failed_namespace_is_dropped_silently() {
    let issuer = acme_issuer();
    let home = "kuberails".to_string();
    let cache = create_cache(&issuer, &home, tls_material()).unwrap();
    let a = create_from_cached_cert(&cache, &"a".to_string());
    let c = create_from_cached_cert(&cache, &"c".to_string());
    let outcomes: Vec<Result<Certificate, Error>> =
        vec![Ok(a), Err(Error::StoreWriteFailed), Ok(c)];
    let created = collect_created(outcomes);
    assert_eq!(created.len(), 2);
    assert_eq!(created[0].namespace, "a");
    assert_eq!(created[1].namespace, "c");
}

#[test]
fn missing_identity_aborts_whole_fan_out() {
    let mut issuer = acme_issuer();
    issuer.name = None;
    let home = "kuberails".to_string();
    match cache_and_create_for_namespaces(&issuer, &home, tls_material()) {
        Err(Error::MissingIdentityField(IdentityField::Name)) => {}
        other => panic!("expected missing name, got {:?}", other.map(|_| ())),
    }
}

#[test]
fn copies_inherit_issuer_ownership() {
    let issuer = acme_issuer();
    let home = "kuberails".to_string();
    let plan = cache_and_create_for_namespaces(&issuer, &home, tls_material()).unwrap();
    let copy = &plan.copies[0];
    assert_eq!(copy.owner_references.len(), 1);
    let owner = &copy.owner_references[0];
    assert_eq!(owner.kind, "CertIssuer");
    assert_eq!(owner.name, "acme-example");
    assert_eq!(owner.uid, "uid-1234");
    assert_eq!(owner.controller, Some(true));
}

#[test]
fn watch_filter_tells_copies_from_cache() {
    let issuer = acme_issuer();
    let home = "kuberails".to_string();
    let plan = cache_and_create_for_namespaces(&issuer, &home, tls_material()).unwrap();
    assert!(!cert_watch_filter_matches(&plan.cache.labels));
    assert!(cert_watch_filter_matches(&plan.copies[0].labels));
}

#[test]
fn watch_filter_ignores_foreign_objects() {
    let foreign = LabelSet {
        managed_by: Some("someone-else".to_string()),
        cert_issuer: Some("acme-example".to_string()),
        cert_name: None,
        cached: None,
        cache_name: None,
    };
    assert!(!cert_watch_filter_matches(&foreign));
    let unlabeled = LabelSet {
        managed_by: None,
        cert_issuer: None,
        cert_name: None,
        cached: None,
        cache_name: None,
    };
    assert!(!cert_watch_filter_matches(&unlabeled));
}

#[test]
fn object_to_owner_reference_checks_identity() {
    let ok = certmaster::crd::object_to_owner_reference(
        "certmaster.kuberails.com/v1".to_string(),
        "CertIssuer".to_string(),
        Some("n".to_string()),
        Some("u".to_string()),
    )
    .unwrap();
    assert_eq!(ok.name, "n");
    assert_eq!(ok.uid, "u");
    match certmaster::crd::object_to_owner_reference(
        "v".to_string(),
        "K".to_string(),
        Some("n".to_string()),
        None,
    ) {
        Err(Error::MissingIdentityField(IdentityField::Uid)) => {}
        other => panic!("expected missing uid, got {:?}", other.map(|_| ())),
    }
}
