//! The description of the service's HTTP interface. The document itself is
//! generated beside the server; here stand the types that name it.

use vstd::prelude::*;

verus! {

/// The OpenAPI document of the service.
#[derive(Debug, Clone, Copy)]
pub struct ApiDoc;

/// The part of the document that declares bearer authentication.
#[derive(Debug, Clone, Copy)]
pub struct SecurityAddon;

} // verus!
