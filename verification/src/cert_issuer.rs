//! The issuer resource: the user-declared request for a certificate and its
//! replication targets, and the owner reference every derived object carries
//! back to it.

pub mod dns_provider;

use vstd::prelude::*;
use crate::error::{Error, IdentityField};
use crate::meta::OwnerReference;
use dns_provider::DnsProvider;

verus! {

/// What a user declares: a domain, a DNS credential, an optional explicit
/// secret name, and the namespaces the issued material must be copied to.
pub struct CertIssuerSpec {
    pub domain_name: String,
    pub dns_provider: DnsProvider,
    pub secret_name: Option<String>,
    /// Never empty once decoding has applied [`default_namespace`].
    pub namespaces: Vec<String>,
}

/// The issuer resource as the watch delivers it: the declared spec together
/// with the metadata the controller reads.  The controller never mutates an
/// issuer, it only observes it.
pub struct CertIssuer {
    /// `.metadata.name`; required for indexing and for owner references.
    pub name: Option<String>,
    /// `.metadata.uid`, the stable unique identifier of this incarnation.
    pub uid: Option<String>,
    /// `.metadata.resourceVersion`; two deliveries with equal versions carry
    /// an unchanged resource.
    pub resource_version: Option<String>,
    pub spec: CertIssuerSpec,
}

/// The API group/version every owner reference names.
pub open spec fn api_version() -> Seq<char> {
    "certmaster.kuberails.com/v1"@
}

/// The kind every owner reference names.
pub open spec fn kind() -> Seq<char> {
    "CertIssuer"@
}

/// The namespace list a declaration gets when it names none.
pub fn default_namespace() -> (res: Vec<String>)
    ensures
        res@.len() == 1,
        res@[0]@ == "default"@,
{
    let mut res: Vec<String> = Vec::new();
    res.push("default".to_owned());
    res
}

/// Holds when `o` is the owner reference of `issuer`: the fixed group/version
/// and kind, and the issuer's own name and unique identifier.
pub open spec fn is_issuer_owner_reference(o: OwnerReference, issuer: CertIssuer) -> bool {
    &&& o.api_version@ == api_version()
    &&& o.kind@ == kind()
    &&& issuer.name matches Some(n) && o.name == n
    &&& issuer.uid matches Some(u) && o.uid == u
}

/// Builds the owner reference that links a derived object to `cert_issuer`.
///
/// A missing name or unique identifier is a hard failure of this resource,
/// never silently defaulted.
pub fn owner_reference(cert_issuer: &CertIssuer) -> (r: Result<OwnerReference, Error>)
    ensures
        cert_issuer.name is None ==> (r matches Err(e) && e == Error::MissingIdentityField(
            IdentityField::Name,
        )),
        cert_issuer.name is Some && cert_issuer.uid is None ==> (r matches Err(e) && e
            == Error::MissingIdentityField(IdentityField::Uid)),
        cert_issuer.name is Some && cert_issuer.uid is Some ==> (r matches Ok(o)
            && is_issuer_owner_reference(o, *cert_issuer) && o.controller is None),
{
    let name = match &cert_issuer.name {
        Some(n) => n.clone(),
        None => {
            return Err(Error::MissingIdentityField(IdentityField::Name));
        },
    };
    let uid = match &cert_issuer.uid {
        Some(u) => u.clone(),
        None => {
            return Err(Error::MissingIdentityField(IdentityField::Uid));
        },
    };
    Ok(
        OwnerReference {
            api_version: "certmaster.kuberails.com/v1".to_owned(),
            kind: "CertIssuer".to_owned(),
            name,
            uid,
            controller: None,
        },
    )
}

fn clone_strings(v: &Vec<String>) -> (res: Vec<String>)
    ensures
        res@ == v@,
{
    let mut res: Vec<String> = Vec::new();
    let mut i: usize = 0;
    while i < v.len()
        invariant
            i <= v.len(),
            res@ == v@.subrange(0, i as int),
        decreases v.len() - i,
    {
        res.push(v[i].clone());
        i = i + 1;
        proof {
            assert(res@ =~= v@.subrange(0, i as int));
        }
    }
    proof {
        assert(res@ =~= v@);
    }
    res
}

impl Clone for CertIssuerSpec {
    fn clone(&self) -> (res: Self)
        ensures
            res.domain_name == self.domain_name,
            res.dns_provider == self.dns_provider,
            res.secret_name == self.secret_name,
            res.namespaces@ == self.namespaces@,
    {
        CertIssuerSpec {
            domain_name: self.domain_name.clone(),
            dns_provider: self.dns_provider.clone(),
            secret_name: match &self.secret_name {
                Some(s) => Some(s.clone()),
                None => None,
            },
            namespaces: clone_strings(&self.namespaces),
        }
    }
}

impl Clone for CertIssuer {
    fn clone(&self) -> (res: Self)
        ensures
            res.name == self.name,
            res.uid == self.uid,
            res.resource_version == self.resource_version,
            res.spec.domain_name == self.spec.domain_name,
            res.spec.dns_provider == self.spec.dns_provider,
            res.spec.secret_name == self.spec.secret_name,
            res.spec.namespaces@ == self.spec.namespaces@,
    {
        CertIssuer {
            name: match &self.name {
                Some(s) => Some(s.clone()),
                None => None,
            },
            uid: match &self.uid {
                Some(s) => Some(s.clone()),
                None => None,
            },
            resource_version: match &self.resource_version {
                Some(s) => Some(s.clone()),
                None => None,
            },
            spec: self.spec.clone(),
        }
    }
}

} // verus!
