//! Fixed vocabulary the controller writes onto the wire.

pub mod labels;
