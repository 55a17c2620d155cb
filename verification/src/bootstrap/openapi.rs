//! The OpenAPI document of the HTTP API.

use vstd::prelude::*;

verus! {

/// The OpenAPI document: the health, login, current-user and post endpoints, with a
/// JWT bearer scheme (the `Authorization` header) as the default security.
pub struct ApiDoc;

} // verus!
