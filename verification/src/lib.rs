//! Validation of the HTTP method named by a connector's `http` argument.
//!
//! The argument is an object whose keys may name an HTTP method. Exactly one
//! of its entries must do so. [`validate::validate_http_method_arg`] picks
//! that entry, or reports why there is none to pick, with the places in the
//! schema source that the report is about.

pub mod location;
pub mod message;
pub mod method;
pub mod syntax;
pub mod validate;
pub mod laws;


