//! The resource shapes the schema-export tool publishes: a reduced issuer
//! declaration whose providers all take one basic key pair.  The tool itself
//! renders these as a custom resource definition and an API schema; the
//! shapes live here so the published schema and the controller agree.

use vstd::prelude::*;

verus! {

/// The declared request, as the published schema spells it.
pub struct CertIssuerSpec {
    pub domain_name: String,
    pub dns_provider: DnsProvider,
    pub secret_name: Option<String>,
    /// Never empty once decoding has applied [`default_namespace`].
    pub namespaces: Vec<String>,
}

/// The providers the published schema offers.
pub enum DnsProvider {
    DigitalOcean(BasicAuth),
    Cloudflare(BasicAuth),
}

/// One key pair, the credential shape every published provider takes.
pub struct BasicAuth {
    pub key: String,
    pub secret_key: String,
}

/// The namespace list a declaration gets when it names none.
pub fn default_namespace() -> (res: Vec<String>)
    ensures
        res@.len() == 1,
        res@[0]@ == "default"@,
{
    let mut res: Vec<String> = Vec::new();
    res.push("default".to_owned());
    res
}

} // verus!
