//! The DNS-provider credential: a tagged union with one active variant,
//! holding the provider-specific secrets the certificate authority needs to
//! complete a DNS challenge.  Pure data; the controller only carries it.

use vstd::prelude::*;

verus! {

/// The credential for one supported DNS provider.
pub enum DnsProvider {
    DigitalOcean(DigitalOcean),
    Cloudflare(Cloudflare),
    Route53(Route53),
}

/// A Route53 credential; profile and hosted zone are optional refinements.
pub struct Route53 {
    pub access_key: String,
    pub secret_access_key: String,
    pub region: String,
    pub profile: Option<String>,
    pub hosted_zone_id: Option<String>,
}

/// A DigitalOcean personal access token.
pub struct DigitalOcean {
    pub auth_token: String,
}

/// A Cloudflare credential: either a legacy email-and-key pair or a scoped
/// API token.  On the wire the two shapes are told apart structurally.
pub enum Cloudflare {
    EmailAndKey(EmailAndKey),
    ApiToken(ApiToken),
}

/// The legacy Cloudflare credential shape.
pub struct EmailAndKey {
    pub api_email: String,
    pub api_key: String,
}

/// The scoped Cloudflare API token shape.
pub struct ApiToken {
    pub token: String,
}

impl Clone for Route53 {
    fn clone(&self) -> (res: Self)
        ensures
            res == *self,
    {
        Route53 {
            access_key: self.access_key.clone(),
            secret_access_key: self.secret_access_key.clone(),
            region: self.region.clone(),
            profile: match &self.profile {
                Some(p) => Some(p.clone()),
                None => None,
            },
            hosted_zone_id: match &self.hosted_zone_id {
                Some(z) => Some(z.clone()),
                None => None,
            },
        }
    }
}

impl Clone for DigitalOcean {
    fn clone(&self) -> (res: Self)
        ensures
            res == *self,
    {
        DigitalOcean { auth_token: self.auth_token.clone() }
    }
}

impl Clone for EmailAndKey {
    fn clone(&self) -> (res: Self)
        ensures
            res == *self,
    {
        EmailAndKey { api_email: self.api_email.clone(), api_key: self.api_key.clone() }
    }
}

impl Clone for ApiToken {
    fn clone(&self) -> (res: Self)
        ensures
            res == *self,
    {
        ApiToken { token: self.token.clone() }
    }
}

impl Clone for Cloudflare {
    fn clone(&self) -> (res: Self)
        ensures
            res == *self,
    {
        match self {
            Cloudflare::EmailAndKey(e) => Cloudflare::EmailAndKey(e.clone()),
            Cloudflare::ApiToken(t) => Cloudflare::ApiToken(t.clone()),
        }
    }
}

impl Clone for DnsProvider {
    fn clone(&self) -> (res: Self)
        ensures
            res == *self,
    {
        match self {
            DnsProvider::DigitalOcean(d) => DnsProvider::DigitalOcean(d.clone()),
            DnsProvider::Cloudflare(c) => DnsProvider::Cloudflare(c.clone()),
            DnsProvider::Route53(r) => DnsProvider::Route53(r.clone()),
        }
    }
}

} // verus!
