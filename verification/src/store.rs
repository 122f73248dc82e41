//! The shared in-memory index: the issuer resources and certificate objects
//! currently known to the controller, keyed by resource name, together with
//! the controller's home namespace.
//!
//! The watch loop mutates the index on each event; readers only ever take a
//! point-in-time snapshot.  The process around the loop wraps one `Store` in
//! its lock and holds the lock only across a mutation, never across an
//! issuance.

use vstd::prelude::*;
use crate::cert_issuer::CertIssuer;
use crate::certificate::Certificate;

verus! {

/// Holds when `ci` carries `name` as its resource name.
pub open spec fn issuer_named(ci: CertIssuer, name: Seq<char>) -> bool {
    ci.name matches Some(n) && n@ == name
}

/// The two optional strings spell the same text, or are both absent.
pub open spec fn opt_string_view_eq(a: Option<String>, b: Option<String>) -> bool {
    match (a, b) {
        (Some(x), Some(y)) => x@ == y@,
        (None, None) => true,
        _ => false,
    }
}

/// Holds when `a` and `b` are deliveries of the same named resource in the
/// same version: nothing changed between the two observations.
pub open spec fn same_identity_and_version(a: CertIssuer, b: CertIssuer) -> bool {
    &&& a.name matches Some(an) && b.name matches Some(bn) && an@ == bn@
    &&& opt_string_view_eq(a.resource_version, b.resource_version)
}

/// Holds when some entry of `s` is an unchanged delivery of `ci`.
pub open spec fn holds_unchanged(s: Seq<CertIssuer>, ci: CertIssuer) -> bool {
    exists|j: int| 0 <= j < s.len() && same_identity_and_version(#[trigger] s[j], ci)
}

/// The first index of `s` whose entry is named `name`, or `-1` if none is.
pub open spec fn index_of_issuer_named(s: Seq<CertIssuer>, name: Seq<char>) -> int
    decreases s.len(),
{
    if s.len() == 0 {
        -1
    } else if issuer_named(s[0], name) {
        0
    } else {
        let rest = index_of_issuer_named(s.drop_first(), name);
        if rest == -1 {
            -1
        } else {
            rest + 1
        }
    }
}

proof fn lemma_index_of_issuer_named_absent(s: Seq<CertIssuer>, name: Seq<char>)
    requires
        forall|j: int| 0 <= j < s.len() ==> !issuer_named(#[trigger] s[j], name),
    ensures
        index_of_issuer_named(s, name) == -1,
    decreases s.len(),
{
    if s.len() > 0 {
        lemma_index_of_issuer_named_absent(s.drop_first(), name);
    }
}

proof fn lemma_index_of_issuer_named_first(s: Seq<CertIssuer>, name: Seq<char>, k: int)
    requires
        0 <= k < s.len(),
        issuer_named(s[k], name),
        forall|j: int| 0 <= j < k ==> !issuer_named(#[trigger] s[j], name),
    ensures
        index_of_issuer_named(s, name) == k,
    decreases s.len(),
{
    if k > 0 {
        lemma_index_of_issuer_named_first(s.drop_first(), name, k - 1);
    }
}

/// The index holds a genuine mapping: every entry is named, and no two
/// entries share a name.  Construction establishes this and every mutation
/// preserves it, so replacing or removing "the entry of a name" is exact.
pub open spec fn names_unique(s: Seq<CertIssuer>) -> bool {
    &&& forall|i: int| 0 <= i < s.len() ==> (#[trigger] s[i]).name is Some
    &&& forall|i: int, j: int|
        0 <= i < j < s.len() ==> (#[trigger] s[i]).name->0@ != (#[trigger] s[j]).name->0@
}

/// The index: last-known issuer resources and certificate objects, plus the
/// home namespace every cache certificate is written to.
pub struct Store {
    namespace: String,
    cert_issuers: Vec<CertIssuer>,
    certs: Vec<Certificate>,
}

impl Store {
    /// The controller's home namespace.
    pub closed spec fn home_namespace(&self) -> String {
        self.namespace
    }

    /// The issuer resources currently known, in insertion order.
    pub closed spec fn issuers(&self) -> Seq<CertIssuer> {
        self.cert_issuers@
    }

    /// The certificate objects currently known, in insertion order.
    pub closed spec fn certificates(&self) -> Seq<Certificate> {
        self.certs@
    }

    /// Builds an empty index.
    ///
    /// The home namespace comes from the deployment's environment; when the
    /// environment names none, the controller's own default applies.
    pub fn new(namespace: Option<String>) -> (s: Store)
        ensures
            (namespace matches Some(n) ==> s.home_namespace() == n),
            (namespace is None ==> s.home_namespace()@ == "kuberails"@),
            s.issuers() == Seq::<CertIssuer>::empty(),
            s.certificates() == Seq::<Certificate>::empty(),
            names_unique(s.issuers()),
    {
        let ns = match namespace {
            Some(n) => n,
            None => "kuberails".to_owned(),
        };
        let s = Store { namespace: ns, cert_issuers: Vec::new(), certs: Vec::new() };
        proof {
            assert(s.issuers() =~= Seq::<CertIssuer>::empty());
            assert(s.certificates() =~= Seq::<Certificate>::empty());
        }
        s
    }

    /// The namespace every cache certificate is created in.
    pub fn get_namespace(&self) -> (r: &String)
        ensures
            *r == self.home_namespace(),
    {
        &self.namespace
    }

    /// Whether the index already holds `cert_issuer` unchanged: same name,
    /// same resource version.
    pub fn contains_unchanged(&self, cert_issuer: &CertIssuer) -> (b: bool)
        ensures
            b == holds_unchanged(self.issuers(), *cert_issuer),
    {
        let mut i: usize = 0;
        while i < self.cert_issuers.len()
            invariant
                i <= self.cert_issuers.len(),
                forall|j: int|
                    0 <= j < i as int ==> !same_identity_and_version(
                        #[trigger] self.issuers()[j],
                        *cert_issuer,
                    ),
            decreases self.cert_issuers.len() - i,
        {
            let entry = &self.cert_issuers[i];
            let names_match = match (&entry.name, &cert_issuer.name) {
                (Some(a), Some(b)) => *a == *b,
                _ => false,
            };
            let versions_match = match (&entry.resource_version, &cert_issuer.resource_version) {
                (Some(a), Some(b)) => *a == *b,
                (None, None) => true,
                _ => false,
            };
            if names_match && versions_match {
                return true;
            }
            i = i + 1;
        }
        false
    }

    /// Inserts `cert_issuer` or replaces the entry of the same name: the
    /// index maps each resource name to its last-known value.  A resource
    /// without a name has no identity to key on and is not stored.
    pub fn add_cert_issuer(&mut self, cert_issuer: CertIssuer)
        ensures
            final(self).home_namespace() == old(self).home_namespace(),
            final(self).certificates() == old(self).certificates(),
            cert_issuer.name is None ==> final(self).issuers() == old(self).issuers(),
            cert_issuer.name matches Some(nm) ==> ({
                let idx = index_of_issuer_named(old(self).issuers(), nm@);
                if idx == -1 {
                    final(self).issuers() == old(self).issuers().push(cert_issuer)
                } else {
                    final(self).issuers() == old(self).issuers().remove(idx).push(cert_issuer)
                }
            }),
            names_unique(old(self).issuers()) ==> names_unique(final(self).issuers()),
    {
        let ghost inserted = cert_issuer;
        let name = match &cert_issuer.name {
            Some(n) => n.clone(),
            None => {
                return ;
            },
        };
        let mut i: usize = 0;
        while i < self.cert_issuers.len()
            invariant
                *self == *old(self),
                i <= self.cert_issuers.len(),
                cert_issuer == inserted,
                cert_issuer.name matches Some(cn) && cn@ == name@,
                forall|j: int|
                    0 <= j < i as int ==> !issuer_named(#[trigger] self.issuers()[j], name@),
            decreases self.cert_issuers.len() - i,
        {
            let same = match &self.cert_issuers[i].name {
                Some(n) => *n == name,
                None => false,
            };
            if same {
                proof {
                    lemma_index_of_issuer_named_first(self.issuers(), name@, i as int);
                }
                let ghost o = self.issuers();
                let ghost k: int = i as int;
                self.cert_issuers.remove(i);
                self.cert_issuers.push(cert_issuer);
                proof {
                    if names_unique(o) {
                        let f = self.issuers();
                        assert(f =~= o.remove(k).push(inserted));
                        assert(o.remove(k) =~= o.subrange(0, k) + o.subrange(
                            k + 1,
                            o.len() as int,
                        ));
                        assert forall|p: int| 0 <= p < f.len() implies (#[trigger] f[p]).name
                            is Some by {
                            if p < f.len() - 1 {
                                if p < k {
                                    assert(f[p] == o[p]);
                                } else {
                                    assert(f[p] == o[p + 1]);
                                }
                            } else {
                                assert(f[p] == inserted);
                            }
                        }
                        assert forall|p: int, q: int|
                            0 <= p < q < f.len() implies (#[trigger] f[p]).name->0@ != (
                        #[trigger] f[q]).name->0@ by {
                            let op = if p < k {
                                p
                            } else {
                                p + 1
                            };
                            assert(f[p] == o[op]);
                            if q < f.len() - 1 {
                                let oq = if q < k {
                                    q
                                } else {
                                    q + 1
                                };
                                assert(f[q] == o[oq]);
                                assert(op < oq);
                            } else {
                                assert(f[q] == inserted);
                                assert(o[k].name->0@ == name@);
                                assert(op != k);
                            }
                        }
                    }
                }
                return ;
            }
            i = i + 1;
        }
        proof {
            lemma_index_of_issuer_named_absent(self.issuers(), name@);
        }
        self.cert_issuers.push(cert_issuer);
        proof {
            if names_unique(old(self).issuers()) {
                let o = old(self).issuers();
                let f = self.issuers();
                assert(f =~= o.push(inserted));
                assert forall|p: int| 0 <= p < f.len() implies (#[trigger] f[p]).name is Some by {
                    if p < f.len() - 1 {
                        assert(f[p] == o[p]);
                    } else {
                        assert(f[p] == inserted);
                    }
                }
                assert forall|p: int, q: int|
                    0 <= p < q < f.len() implies (#[trigger] f[p]).name->0@ != (#[trigger] f[q]).name->0@ by {
                    assert(f[p] == o[p]);
                    if q < f.len() - 1 {
                        assert(f[q] == o[q]);
                    } else {
                        assert(f[q] == inserted);
                        assert(!issuer_named(o[p], name@));
                    }
                }
            }
        }
    }

    /// Removes the entry named like `cert_issuer`, if the index holds one.
    ///
    /// Nothing else is cleaned up here: every derived object is owned by the
    /// issuer and the platform's garbage collection cascades the deletion.
    pub fn delete_cert_issuer(&mut self, cert_issuer: &CertIssuer)
        ensures
            final(self).home_namespace() == old(self).home_namespace(),
            final(self).certificates() == old(self).certificates(),
            cert_issuer.name is None ==> final(self).issuers() == old(self).issuers(),
            cert_issuer.name matches Some(nm) ==> ({
                let idx = index_of_issuer_named(old(self).issuers(), nm@);
                if idx == -1 {
                    final(self).issuers() == old(self).issuers()
                } else {
                    final(self).issuers() == old(self).issuers().remove(idx)
                }
            }),
            names_unique(old(self).issuers()) ==> names_unique(final(self).issuers()),
    {
        let name = match &cert_issuer.name {
            Some(n) => n,
            None => {
                return ;
            },
        };
        let mut i: usize = 0;
        while i < self.cert_issuers.len()
            invariant
                *self == *old(self),
                i <= self.cert_issuers.len(),
                cert_issuer.name matches Some(n) && n@ == name@,
                forall|j: int|
                    0 <= j < i as int ==> !issuer_named(#[trigger] self.issuers()[j], name@),
            decreases self.cert_issuers.len() - i,
        {
            let same = match &self.cert_issuers[i].name {
                Some(n) => *n == *name,
                None => false,
            };
            if same {
                proof {
                    lemma_index_of_issuer_named_first(self.issuers(), name@, i as int);
                }
                self.cert_issuers.remove(i);
                proof {
                    if names_unique(old(self).issuers()) {
                        let o = old(self).issuers();
                        let f = self.issuers();
                        let k = i as int;
                        assert(f =~= o.remove(k));
                        assert(f =~= o.subrange(0, k) + o.subrange(k + 1, o.len() as int));
                        assert forall|p: int| 0 <= p < f.len() implies (#[trigger] f[p]).name
                            is Some by {
                            if p < k {
                                assert(f[p] == o[p]);
                            } else {
                                assert(f[p] == o[p + 1]);
                            }
                        }
                        assert forall|p: int, q: int|
                            0 <= p < q < f.len() implies (#[trigger] f[p]).name->0@ != (
                        #[trigger] f[q]).name->0@ by {
                            let op = if p < k {
                                p
                            } else {
                                p + 1
                            };
                            let oq = if q < k {
                                q
                            } else {
                                q + 1
                            };
                            assert(f[p] == o[op]);
                            assert(f[q] == o[oq]);
                            assert(op < oq);
                        }
                    }
                }
                return ;
            }
            i = i + 1;
        }
        proof {
            lemma_index_of_issuer_named_absent(self.issuers(), name@);
        }
    }

    /// How many issuer resources the index currently holds.
    pub fn cert_issuer_count(&self) -> (n: usize)
        ensures
            n == self.issuers().len(),
    {
        self.cert_issuers.len()
    }

    /// How many certificate objects the index currently holds.
    pub fn cert_count(&self) -> (n: usize)
        ensures
            n == self.certificates().len(),
    {
        self.certs.len()
    }

    /// Records one certificate object observed or created by the controller.
    pub fn add_cert(&mut self, cert: Certificate)
        ensures
            final(self).home_namespace() == old(self).home_namespace(),
            final(self).issuers() == old(self).issuers(),
            final(self).certificates() == old(self).certificates().push(cert),
    {
        self.certs.push(cert);
    }
}

} // verus!
