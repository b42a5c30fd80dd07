//! A storage engine core that maps object keys to files under one root
//! directory, and the HTTP mapping that sits in front of it.

pub mod error;
pub mod http;
pub mod key;
pub mod model;
pub mod settings;
pub mod storage;

pub use error::{IoFailure, StorageError};
pub use storage::FileStorage;

use vstd::prelude::*;

verus! {

/// The greeting for `name`.
pub fn greet(name: &str) -> (greeting: String)
    ensures
        greeting@ == "Hello, "@ + name@ + "!"@,
{
    "Hello, ".to_owned().concat(name).concat("!")
}

} // verus!
