//! A verified model of a certificate-replication controller.
//!
//! A `CertIssuer` resource declares a domain, a DNS-provider credential and a
//! list of target namespaces.  The controller issues the certificate once,
//! caches it as a single secret object in its home namespace, and fans the
//! material out as one independently owned copy per declared namespace.
//! Provenance is tracked entirely through labels and owner references, so
//! deleting the issuer cascades deletion of every derived object.
//!
//! This crate holds the data model and the decision logic of that protocol:
//! how the cache object and each namespace copy are derived, which labels the
//! certificate watch matches, and how the reconciliation loop reacts to watch
//! events.  The surrounding process (cluster client, watch transport, the
//! certificate authority call) performs the I/O and feeds plain values in.

pub mod cert_issuer;
pub mod certificate;
pub mod consts;
pub mod crd;
pub mod crds;
pub mod error;
pub mod meta;
pub mod reconcile;
pub mod store;
