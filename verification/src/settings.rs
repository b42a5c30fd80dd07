//! What a storage node is configured with, and the defaults for what is
//! left unset.

use vstd::prelude::*;

verus! {

/// The variable that holds the address to listen on.
pub const ADDR_VAR: &'static str = "FILESTORAGE_ADDR";

/// The variable that holds the root directory of the store.
pub const DATA_DIR_VAR: &'static str = "FILESTORAGE_DATA_DIR";

/// The address to listen on when none is set.
pub const DEFAULT_ADDR: &'static str = "127.0.0.1:8080";

/// The root directory of the store when none is set.
pub const DEFAULT_DATA_DIR: &'static str = "data";

/// The configuration of a storage node.
#[derive(Debug, PartialEq, Eq)]
pub struct Settings {
    /// The socket address to listen on, as text.
    pub bind_address: String,
    /// The root directory of the store.
    pub storage_root: String,
}

/// `value` where it is set, and `default` where it is not.
pub open spec fn or_default(value: Option<String>, default: Seq<char>) -> Seq<char> {
    match value {
        Some(text) => text@,
        None => default,
    }
}

impl Settings {
    /// The settings for the values found under [`ADDR_VAR`] and
    /// [`DATA_DIR_VAR`]: each is taken as it is, or replaced by its default
    /// where the variable is not set.
    pub fn from_env(addr: Option<String>, data_dir: Option<String>) -> (settings: Settings)
        ensures
            settings.bind_address@ == or_default(addr, DEFAULT_ADDR@),
            settings.storage_root@ == or_default(data_dir, DEFAULT_DATA_DIR@),
    {
        let bind_address = match addr {
            Some(text) => text,
            None => DEFAULT_ADDR.to_owned(),
        };
        let storage_root = match data_dir {
            Some(text) => text,
            None => DEFAULT_DATA_DIR.to_owned(),
        };
        Settings { bind_address, storage_root }
    }
}

} // verus!
