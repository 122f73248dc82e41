//! The label contract: every cache object and every namespace copy carries
//! `managed-by`, `cert-issuer` and `cert-name`; the cache alone carries
//! `cached=true`, and each copy instead carries `cache-name` pointing back at
//! the cache it was derived from.  External tooling and the controller's own
//! certificate watch rely on exactly this vocabulary to tell cache objects
//! from delivered copies.

use vstd::prelude::*;

verus! {

pub const CACHED: &'static str = "certmaster.kuberails.com/cached";

pub const CACHE_NAME: &'static str = "certmaster.kuberails.com/cacheName";

pub const CERT_ISSUER: &'static str = "certmaster.kuberails.com/certIssuer";

pub const CERT_NAME: &'static str = "certmaster.kuberails.com/certName";

pub const MANAGED_BY_KEY: &'static str = "app.kubernetes.io/managed-by";

pub const MANAGED_BY_VALUE: &'static str = "v1.certmaster.kuberails.com";

pub const TLS: &'static str = "kubernetes.io/tls";

/// The value of the `managed-by` label on every object this controller writes.
pub open spec fn managed_by_value() -> Seq<char> {
    "v1.certmaster.kuberails.com"@
}

/// The value of the `cached` label on the cache object.
pub open spec fn cached_true_value() -> Seq<char> {
    "true"@
}

/// The classification every namespace copy carries.
pub open spec fn tls_type() -> Seq<char> {
    "kubernetes.io/tls"@
}

} // verus!
