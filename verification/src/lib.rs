//! The session of a command-line client for a hosting API: the token pair
//! and its lifecycle, the environment file that keeps it, the encrypted
//! store of the credentials that renew it, and the small rules of the
//! client's commands and tables.
use vstd::prelude::*;

pub mod auth;
pub mod cli;
pub mod credentials;
pub mod defs;
pub mod env_file;
pub mod error;
pub mod formatting;
pub mod json;
pub mod lifecycle;
pub mod session;
pub mod text;
pub mod token;

verus! {

/// The root of every endpoint of the hosting API, with its trailing slash.
pub fn get_base_url() -> (url: &'static str)
    ensures
        url@ == "https://api.artisanhosting.net/v1/"@,
{
    "https://api.artisanhosting.net/v1/"
}

} // verus!
