//! The development settings read from `config.toml`.
use vstd::prelude::*;

verus! {

/// The server endpoint, a sample file and the access token.
#[derive(Clone, Debug)]
pub struct Config {
    pub endpoint: String,
    pub file_path: String,
    pub file_name: String,
    pub token: String,
}

} // verus!
