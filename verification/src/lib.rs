//! Service dispatch and backend execution core of a local RPC daemon.
//!
//! The daemon exposes a fixed set of named methods over a socket owned by an
//! outer server loop. This crate holds the verified core: the dynamic value
//! domain shared by requests and results, the parameter map, the method
//! registry with its introspection data, request dispatch and validation, the
//! classification of backend outcomes into results or structured errors, and
//! the state discipline of the persistent warm backend session.

pub mod cold;
pub mod error;
pub mod gmail;
pub mod json;
pub mod methods;
pub mod numeric;
pub mod params;
pub mod paths;
pub mod value;
pub mod warm;
