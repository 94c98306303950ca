//! The service's own listening configuration. Reading it from the
//! environment is the surrounding program's concern; the library only
//! carries the value.

use vstd::prelude::*;

verus! {

/// The port the HTTP listener binds.
pub struct ApiConfig {
    pub port: u16,
}

} // verus!
