//! The cache-and-fan-out engine.
//!
//! One successful issuance produces a single cache certificate in the
//! controller's home namespace; from it, one copy per declared namespace is
//! derived.  Provenance lives entirely in metadata: the cache carries
//! `cached=true`, each copy carries `cache-name` pointing back at the cache,
//! and both carry the owner reference of the issuer itself, so deleting the
//! issuer cascades deletion of everything derived.
//!
//! The functions here build the objects and collect the outcomes; the
//! surrounding process persists them and reports each outcome back.

use vstd::prelude::*;
use crate::cert_issuer::{is_issuer_owner_reference, owner_reference, CertIssuer};
use crate::consts::labels::{cached_true_value, managed_by_value, tls_type};
use crate::error::{Error, IdentityField};
use crate::meta::{clone_owner_references, OwnerReference};

verus! {

/// The labels this controller reads and writes, one field per key of the
/// label contract.  A `None` field means the key is absent on the object.
pub struct LabelSet {
    /// `app.kubernetes.io/managed-by`
    pub managed_by: Option<String>,
    /// `certmaster.kuberails.com/certIssuer`: the issuer's name.
    pub cert_issuer: Option<String>,
    /// `certmaster.kuberails.com/certName`: the logical certificate name.
    pub cert_name: Option<String>,
    /// `certmaster.kuberails.com/cached`: `"true"` on the cache object only.
    pub cached: Option<String>,
    /// `certmaster.kuberails.com/cacheName`: on a copy, the cache's identity.
    pub cache_name: Option<String>,
}

impl Clone for LabelSet {
    fn clone(&self) -> (res: Self)
        ensures
            res == *self,
    {
        LabelSet {
            managed_by: match &self.managed_by {
                Some(s) => Some(s.clone()),
                None => None,
            },
            cert_issuer: match &self.cert_issuer {
                Some(s) => Some(s.clone()),
                None => None,
            },
            cert_name: match &self.cert_name {
                Some(s) => Some(s.clone()),
                None => None,
            },
            cached: match &self.cached {
                Some(s) => Some(s.clone()),
                None => None,
            },
            cache_name: match &self.cache_name {
                Some(s) => Some(s.clone()),
                None => None,
            },
        }
    }
}

/// One entry of key material: a logical field name and its bytes.
pub struct KeyEntry {
    pub key: String,
    pub value: Vec<u8>,
}

/// What the certificate authority hands back for a domain.
pub struct KeyMaterial {
    pub entries: Vec<KeyEntry>,
}

/// A secret object as this controller shapes it: the cache certificate or a
/// namespace copy.
pub struct Certificate {
    pub name: String,
    pub namespace: String,
    pub labels: LabelSet,
    pub owner_references: Vec<OwnerReference>,
    /// The platform classification; `kubernetes.io/tls` on namespace copies.
    pub type_: Option<String>,
    pub data: Vec<KeyEntry>,
}

/// Holds when `a` and `b` carry identical key material: the same field names
/// and the same bytes, in the same order.
pub open spec fn same_data(a: Seq<KeyEntry>, b: Seq<KeyEntry>) -> bool {
    &&& a.len() == b.len()
    &&& forall|i: int| #![auto] 0 <= i < a.len() ==> a[i].key == b[i].key && a[i].value@ == b[i].value@
}

fn clone_bytes(v: &Vec<u8>) -> (res: Vec<u8>)
    ensures
        res@ == v@,
{
    let mut res: Vec<u8> = Vec::new();
    let mut i: usize = 0;
    while i < v.len()
        invariant
            i <= v.len(),
            res@ == v@.subrange(0, i as int),
        decreases v.len() - i,
    {
        res.push(v[i]);
        i = i + 1;
        proof {
            assert(res@ =~= v@.subrange(0, i as int));
        }
    }
    proof {
        assert(res@ =~= v@);
    }
    res
}

fn clone_data(v: &Vec<KeyEntry>) -> (res: Vec<KeyEntry>)
    ensures
        same_data(res@, v@),
{
    let mut res: Vec<KeyEntry> = Vec::new();
    let mut i: usize = 0;
    while i < v.len()
        invariant
            i <= v.len(),
            same_data(res@, v@.subrange(0, i as int)),
        decreases v.len() - i,
    {
        res.push(KeyEntry { key: v[i].key.clone(), value: clone_bytes(&v[i].value) });
        i = i + 1;
    }
    res
}

/// Relies on `uuid::Uuid::new_v4` and the hyphenated form its `Display`
/// renders: a fresh random identifier of exactly 36 characters.  Nothing is
/// assumed about which identifier comes back.
#[verifier::external_body]
fn fresh_identity() -> (r: String)
    ensures
        r@.len() == 36,
{
    uuid::Uuid::new_v4().to_string()
}

/// The logical certificate name of an issuer: its explicit `secret_name` if
/// declared, else the issuer's own name.
pub open spec fn resolved_cert_name(issuer: CertIssuer) -> String {
    match issuer.spec.secret_name {
        Some(s) => s,
        None => issuer.name->0,
    }
}

/// The labels of the cache certificate built for an issuer.
pub open spec fn is_cache_labels(l: LabelSet, issuer: CertIssuer) -> bool {
    &&& l.managed_by matches Some(v) && v@ == managed_by_value()
    &&& l.cert_issuer == Some(issuer.name->0)
    &&& l.cert_name == Some(resolved_cert_name(issuer))
    &&& l.cached matches Some(c) && c@ == cached_true_value()
    &&& l.cache_name is None
}

/// Holds when `c` is the cache certificate the engine builds for `issuer`
/// from `material`, to live in `home_namespace`: a fresh generated identity,
/// the cache label set, and a single controlling owner reference to the
/// issuer itself.
pub open spec fn cache_built_for(
    c: Certificate,
    issuer: CertIssuer,
    home_namespace: String,
    material: Seq<KeyEntry>,
) -> bool {
    &&& c.namespace == home_namespace
    &&& c.name@.len() == 36
    &&& is_cache_labels(c.labels, issuer)
    &&& c.owner_references@.len() == 1
    &&& is_issuer_owner_reference(c.owner_references@[0], issuer)
    &&& c.owner_references@[0].controller == Some(true)
    &&& c.type_ is None
    &&& c.data@ == material
}

/// Builds the single cache certificate for one successful issuance.
///
/// The identity is generated fresh, never derived from the domain, so
/// repeated issuances cannot collide.  The caller persists the result in the
/// controller's home namespace; on a write failure the whole attempt is
/// retried, nothing of the fan-out having started.
pub fn create_cache(issuer: &CertIssuer, home_namespace: &String, material: KeyMaterial) -> (r:
    Result<Certificate, Error>)
    ensures
        issuer.name is None ==> (r matches Err(e) && e == Error::MissingIdentityField(
            IdentityField::Name,
        )),
        issuer.name is Some && issuer.uid is None ==> (r matches Err(e) && e
            == Error::MissingIdentityField(IdentityField::Uid)),
        issuer.name is Some && issuer.uid is Some ==> (r matches Ok(c) && cache_built_for(
            c,
            *issuer,
            *home_namespace,
            material.entries@,
        )),
{
    let cert_issuer_name = match &issuer.name {
        Some(n) => n.clone(),
        None => {
            return Err(Error::MissingIdentityField(IdentityField::Name));
        },
    };
    let mut owner = match owner_reference(issuer) {
        Ok(o) => o,
        Err(e) => {
            return Err(e);
        },
    };
    owner.controller = Some(true);

    let cert_name = match &issuer.spec.secret_name {
        Some(s) => s.clone(),
        None => cert_issuer_name.clone(),
    };

    let labels = LabelSet {
        managed_by: Some("v1.certmaster.kuberails.com".to_owned()),
        cert_issuer: Some(cert_issuer_name),
        cert_name: Some(cert_name),
        cached: Some("true".to_owned()),
        cache_name: None,
    };

    let mut owner_references: Vec<OwnerReference> = Vec::new();
    owner_references.push(owner);

    Ok(
        Certificate {
            name: fresh_identity(),
            namespace: home_namespace.clone(),
            labels,
            owner_references,
            type_: None,
            data: material.entries,
        },
    )
}

/// Holds when `copy` is the namespace copy derived from `cached` for `ns`:
/// the same material and owner references, the cache's labels minus `cached`
/// plus a `cache-name` back-reference, named after the logical certificate
/// name when the cache carries one.
pub open spec fn copy_derived_from(copy: Certificate, cached: Certificate, ns: String) -> bool {
    &&& copy.namespace == ns
    &&& (cached.labels.cert_name matches Some(n) ==> copy.name == n)
    &&& (cached.labels.cert_name is None ==> copy.name@.len() == 36)
    &&& copy.labels.managed_by == cached.labels.managed_by
    &&& copy.labels.cert_issuer == cached.labels.cert_issuer
    &&& copy.labels.cert_name == cached.labels.cert_name
    &&& copy.labels.cached is None
    &&& copy.labels.cache_name == Some(cached.name)
    &&& copy.owner_references@ == cached.owner_references@
    &&& (copy.type_ matches Some(t) && t@ == tls_type())
    &&& same_data(copy.data@, cached.data@)
}

/// Derives the copy of `cached` for one target namespace.
///
/// The copy inherits the cache's owner references unchanged — it is owned by
/// the issuer, not by the cache — and back-references the cache only through
/// its `cache-name` label.
pub fn create_from_cached_cert(cached: &Certificate, ns: &String) -> (copy: Certificate)
    ensures
        copy_derived_from(copy, *cached, *ns),
{
    let mut labels = cached.labels.clone();

    let name = match &labels.cert_name {
        Some(n) => n.clone(),
        None => fresh_identity(),
    };

    labels.cached = None;
    labels.cache_name = Some(cached.name.clone());

    Certificate {
        name,
        namespace: ns.clone(),
        labels,
        owner_references: clone_owner_references(&cached.owner_references),
        type_: Some("kubernetes.io/tls".to_owned()),
        data: clone_data(&cached.data),
    }
}

/// The cache certificate together with the copies to fan out, one per
/// declared namespace, in declaration order.
pub struct FanOutPlan {
    pub cache: Certificate,
    pub copies: Vec<Certificate>,
}

/// Builds the cache certificate and every namespace copy for one issuance.
///
/// The caller persists the cache first — a failure there aborts the whole
/// attempt — then attempts every copy independently and hands the outcomes to
/// [`collect_created`]: one failing namespace never blocks the others.
pub fn cache_and_create_for_namespaces(
    issuer: &CertIssuer,
    home_namespace: &String,
    material: KeyMaterial,
) -> (r: Result<FanOutPlan, Error>)
    ensures
        issuer.name is None ==> (r matches Err(e) && e == Error::MissingIdentityField(
            IdentityField::Name,
        )),
        issuer.name is Some && issuer.uid is None ==> (r matches Err(e) && e
            == Error::MissingIdentityField(IdentityField::Uid)),
        issuer.name is Some && issuer.uid is Some ==> (r matches Ok(p) && cache_built_for(
            p.cache,
            *issuer,
            *home_namespace,
            material.entries@,
        ) && p.copies@.len() == issuer.spec.namespaces@.len() && (forall|i: int|
            #![auto]
            0 <= i < p.copies@.len() ==> copy_derived_from(
                p.copies@[i],
                p.cache,
                issuer.spec.namespaces@[i],
            ))),
{
    let cached = match create_cache(issuer, home_namespace, material) {
        Ok(c) => c,
        Err(e) => {
            return Err(e);
        },
    };

    let mut copies: Vec<Certificate> = Vec::new();
    let mut i: usize = 0;
    while i < issuer.spec.namespaces.len()
        invariant
            i <= issuer.spec.namespaces.len(),
            copies@.len() == i,
            forall|j: int|
                #![auto]
                0 <= j < i as int ==> copy_derived_from(
                    copies@[j],
                    cached,
                    issuer.spec.namespaces@[j],
                ),
        decreases issuer.spec.namespaces.len() - i,
    {
        let copy = create_from_cached_cert(&cached, &issuer.spec.namespaces[i]);
        copies.push(copy);
        i = i + 1;
    }

    Ok(FanOutPlan { cache: cached, copies })
}

/// The certificates of the successful outcomes, in order; failures vanish.
pub open spec fn ok_values(s: Seq<Result<Certificate, Error>>) -> Seq<Certificate>
    decreases s.len(),
{
    if s.len() == 0 {
        Seq::empty()
    } else {
        match s[0] {
            Result::Ok(c) => seq![c] + ok_values(s.drop_first()),
            Result::Err(_) => ok_values(s.drop_first()),
        }
    }
}

/// Collection distributes over concatenation of outcome sequences.
pub proof fn lemma_ok_values_concat(a: Seq<Result<Certificate, Error>>, b: Seq<
    Result<Certificate, Error>,
>)
    ensures
        ok_values(a + b) == ok_values(a) + ok_values(b),
    decreases a.len(),
{
    if a.len() == 0 {
        assert(a + b =~= b);
        assert(ok_values(a) + ok_values(b) =~= ok_values(b));
    } else {
        assert((a + b)[0] == a[0]);
        assert((a + b).drop_first() =~= a.drop_first() + b);
        lemma_ok_values_concat(a.drop_first(), b);
        match a[0] {
            Result::Ok(c) => {
                assert(seq![c] + (ok_values(a.drop_first()) + ok_values(b)) =~= (seq![c]
                    + ok_values(a.drop_first())) + ok_values(b));
            },
            Result::Err(_) => {},
        }
    }
}

/// Keeps the certificates whose creation succeeded, in creation order, and
/// drops every failed namespace write: the best-effort boundary of the
/// fan-out.
pub fn collect_created(outcomes: Vec<Result<Certificate, Error>>) -> (created: Vec<Certificate>)
    ensures
        created@ == ok_values(outcomes@),
{
    let ghost orig: Seq<Result<Certificate, Error>> = outcomes@;
    let mut remaining = outcomes;
    let mut created: Vec<Certificate> = Vec::new();
    while remaining.len() > 0
        invariant
            ok_values(orig) == created@ + ok_values(remaining@),
        decreases remaining.len(),
    {
        let ghost before: Seq<Result<Certificate, Error>> = remaining@;
        let r = remaining.remove(0);
        proof {
            assert(remaining@ =~= before.drop_first());
        }
        match r {
            Result::Ok(c) => {
                let ghost prev: Seq<Certificate> = created@;
                created.push(c);
                proof {
                    assert(prev + ok_values(before) =~= created@ + ok_values(remaining@));
                }
            },
            Result::Err(_) => {},
        }
    }
    proof {
        assert(created@ =~= created@ + ok_values(remaining@));
    }
    created
}

/// Fan-out completeness under success: when every namespace write succeeds,
/// the collected result is one copy per declared namespace, in declaration
/// order, each back-referencing the cache's identity through `cache-name`.
pub proof fn lemma_fan_out_completeness(
    cache: Certificate,
    copies: Seq<Certificate>,
    namespaces: Seq<String>,
    outcomes: Seq<Result<Certificate, Error>>,
)
    requires
        copies.len() == namespaces.len(),
        forall|i: int| #![auto] 0 <= i < copies.len() ==> copy_derived_from(copies[i], cache, namespaces[i]),
        outcomes.len() == copies.len(),
        forall|i: int| #![auto] 0 <= i < outcomes.len() ==> outcomes[i] == Result::<
            Certificate,
            Error,
        >::Ok(copies[i]),
    ensures
        ok_values(outcomes) == copies,
        forall|i: int|
            #![auto]
            0 <= i < copies.len() ==> copies[i].namespace == namespaces[i]
                && copies[i].labels.cache_name == Some(cache.name),
    decreases outcomes.len(),
{
    if outcomes.len() == 0 {
        assert(ok_values(outcomes) =~= copies);
    } else {
        lemma_fan_out_completeness(
            cache,
            copies.drop_first(),
            namespaces.drop_first(),
            outcomes.drop_first(),
        );
        assert(ok_values(outcomes) =~= copies);
    }
}

/// Partial fan-out resilience, kept half: every successful creation survives
/// collection, whatever happened to the other namespaces.
pub proof fn lemma_partial_fan_out(outcomes: Seq<Result<Certificate, Error>>, i: int)
    requires
        0 <= i < outcomes.len(),
        outcomes[i] is Ok,
    ensures
        ok_values(outcomes).contains(outcomes[i]->Ok_0),
{
    let a = outcomes.subrange(0, i);
    let m = seq![outcomes[i]];
    let b = outcomes.subrange(i + 1, outcomes.len() as int);
    assert(outcomes =~= (a + m) + b);
    lemma_ok_values_concat(a + m, b);
    lemma_ok_values_concat(a, m);
    let c = outcomes[i]->Ok_0;
    assert(m.drop_first() =~= Seq::<Result<Certificate, Error>>::empty());
    assert(ok_values(m.drop_first()) == Seq::<Certificate>::empty());
    assert(m[0] == Result::<Certificate, Error>::Ok(c));
    assert(ok_values(m) == seq![c] + Seq::<Certificate>::empty());
    assert(ok_values(m) =~= seq![c]);
    let full = ok_values(outcomes);
    assert(full[ok_values(a).len() as int] == c);
}

/// Partial fan-out resilience, dropped half: a failed namespace write changes
/// nothing in what the other namespaces receive.
pub proof fn lemma_error_dropped(outcomes: Seq<Result<Certificate, Error>>, i: int)
    requires
        0 <= i < outcomes.len(),
        outcomes[i] is Err,
    ensures
        ok_values(outcomes) == ok_values(outcomes.remove(i)),
{
    let a = outcomes.subrange(0, i);
    let m = seq![outcomes[i]];
    let b = outcomes.subrange(i + 1, outcomes.len() as int);
    assert(outcomes =~= (a + m) + b);
    assert(outcomes.remove(i) =~= a + b);
    lemma_ok_values_concat(a + m, b);
    lemma_ok_values_concat(a, m);
    lemma_ok_values_concat(a, b);
    assert(m.drop_first() =~= Seq::<Result<Certificate, Error>>::empty());
    assert(ok_values(m.drop_first()) == Seq::<Certificate>::empty());
    assert(m[0] is Err);
    assert(ok_values(m) =~= Seq::<Certificate>::empty());
    assert(ok_values(a) + ok_values(m) =~= ok_values(a));
}

/// Ownership cascade: a namespace copy derived from the cache built for an
/// issuer carries that issuer's owner reference — same kind, name and unique
/// identifier, with the controller flag — and never one naming the cache's
/// own kind, so deleting the issuer suffices to collect every copy.
pub proof fn lemma_ownership_cascade(
    issuer: CertIssuer,
    cache: Certificate,
    copy: Certificate,
    home_namespace: String,
    material: Seq<KeyEntry>,
    ns: String,
)
    requires
        cache_built_for(cache, issuer, home_namespace, material),
        copy_derived_from(copy, cache, ns),
    ensures
        copy.owner_references@.len() == 1,
        is_issuer_owner_reference(copy.owner_references@[0], issuer),
        copy.owner_references@[0].controller == Some(true),
        copy.owner_references@[0].kind@ != "Secret"@,
{
    reveal_strlit("CertIssuer");
    reveal_strlit("Secret");
    assert(copy.owner_references@[0] == cache.owner_references@[0]);
    assert(copy.owner_references@[0].kind@.len() == 10);
}

/// The predicate of the certificate watch: managed by this controller, tied
/// to some issuer, and not the cache object itself.
pub open spec fn watch_filter_matches(l: LabelSet) -> bool {
    &&& l.managed_by matches Some(v) && v@ == managed_by_value()
    &&& l.cert_issuer is Some
    &&& !(l.cached matches Some(c) && c@ == cached_true_value())
}

/// Decides whether the certificate watch observes an object with labels `l`.
///
/// The watch stream scopes itself with the label selector
/// `managed-by=<value>,cert-issuer,cached!=true`; this is that selector's
/// meaning on the label vocabulary the controller writes.
pub fn cert_watch_filter_matches(l: &LabelSet) -> (b: bool)
    ensures
        b == watch_filter_matches(*l),
{
    let managed = match &l.managed_by {
        Some(v) => {
            let expected: String = "v1.certmaster.kuberails.com".to_owned();
            *v == expected
        },
        None => false,
    };
    let issuer_present = match &l.cert_issuer {
        Some(_) => true,
        None => false,
    };
    let cached_true = match &l.cached {
        Some(c) => {
            let true_value: String = "true".to_owned();
            *c == true_value
        },
        None => false,
    };
    managed && issuer_present && !cached_true
}

/// Label exclusivity, one direction: the certificate watch never matches the
/// cache object the engine builds.
pub proof fn lemma_watch_filter_excludes_cache(
    cache: Certificate,
    issuer: CertIssuer,
    home_namespace: String,
    material: Seq<KeyEntry>,
)
    requires
        cache_built_for(cache, issuer, home_namespace, material),
    ensures
        !watch_filter_matches(cache.labels),
{
}

/// Label exclusivity, other direction: the certificate watch matches every
/// namespace copy derived from that cache.
pub proof fn lemma_watch_filter_includes_copy(
    copy: Certificate,
    cache: Certificate,
    issuer: CertIssuer,
    home_namespace: String,
    material: Seq<KeyEntry>,
    ns: String,
)
    requires
        cache_built_for(cache, issuer, home_namespace, material),
        copy_derived_from(copy, cache, ns),
    ensures
        watch_filter_matches(copy.labels),
{
}

} // verus!
