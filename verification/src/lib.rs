//! A minimal file-storage service, verified.
//!
//! The library models the service's observable state as a map from relative
//! paths to byte contents, and gives each HTTP route an exact contract:
//! uploads insert, deletes remove, downloads read, and the listing enumerates
//! exactly the stored paths.

use vstd::prelude::*;

pub mod client;
pub mod ids;
pub mod laws;
pub mod media;
pub mod paths;
pub mod response;
pub mod router;
pub mod store;

verus! {

} // verus!
