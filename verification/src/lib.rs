//! A stateless gateway in front of a travel-inventory search provider.
//!
//! The crate holds the decisions of the gateway: request validation, the
//! shape of the authenticated upstream call, the classification of what the
//! provider answered, the endpoint-specific reshaping of its JSON body and the
//! uniform mapping of failures to client replies. Performing the HTTP exchange
//! itself is left to the caller, which feeds each outcome back in.

pub mod error;
pub mod handler;
pub mod json;
pub mod request;
pub mod response;
pub mod text;
pub mod transform;
pub mod upstream;
