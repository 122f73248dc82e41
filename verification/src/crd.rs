//! An earlier shape of the issuer resource definition, kept alongside the
//! current one in [`crate::cert_issuer`]: a flat provider descriptor instead
//! of the tagged credential union, and the generic owner-reference builder.

use vstd::prelude::*;
use crate::error::{Error, IdentityField};
use crate::meta::OwnerReference;

verus! {

/// The declared request, in this older shape.
pub struct CertIssuerSpec {
    pub domain_name: String,
    pub dns_provider: DnsProviderSpec,
    pub secret_name: Option<String>,
    /// Never empty once decoding has applied [`default_namespace`].
    pub namespaces: Vec<String>,
}

/// A provider descriptor: which provider, and one key pair.
pub struct DnsProviderSpec {
    pub provider: DnsProvider,
    pub key: String,
    pub secret_key: String,
}

/// The providers this older shape knew.
#[derive(Clone, Copy, Debug, PartialEq, Eq, Structural)]
pub enum DnsProvider {
    DigitalOcean,
    Cloudflare,
}

/// The namespace list a declaration gets when it names none.
pub fn default_namespace() -> (res: Vec<String>)
    ensures
        res@.len() == 1,
        res@[0]@ == "default"@,
{
    let mut res: Vec<String> = Vec::new();
    res.push("default".to_owned());
    res
}

/// Builds the owner reference for any resource, from its kind coordinates
/// and metadata.  A missing name or unique identifier is a hard failure,
/// never silently defaulted.
pub fn object_to_owner_reference(
    api_version: String,
    kind: String,
    name: Option<String>,
    uid: Option<String>,
) -> (r: Result<OwnerReference, Error>)
    ensures
        name is None ==> (r matches Err(e) && e == Error::MissingIdentityField(
            IdentityField::Name,
        )),
        name is Some && uid is None ==> (r matches Err(e) && e == Error::MissingIdentityField(
            IdentityField::Uid,
        )),
        name is Some && uid is Some ==> (r matches Ok(o) && o.api_version == api_version && o.kind
            == kind && o.name == name->0 && o.uid == uid->0 && o.controller is None),
{
    let name = match name {
        Some(n) => n,
        None => {
            return Err(Error::MissingIdentityField(IdentityField::Name));
        },
    };
    let uid = match uid {
        Some(u) => u,
        None => {
            return Err(Error::MissingIdentityField(IdentityField::Uid));
        },
    };
    Ok(OwnerReference { api_version, kind, name, uid, controller: None })
}

/// The secret object a reconciliation produces, under this module's older
/// vocabulary.
pub type Cert = crate::certificate::Certificate;

} // verus!
