//! The settings with which the service starts.
//!
//! At its start the service opens a pool of at most [`MAX_CONNECTIONS`]
//! connections to the database at [`database_url`], runs
//! [`Statement::CreateTable`](crate::storage::Statement::CreateTable) on it,
//! and listens on [`LISTEN_ADDRESS`]. It does not start where the database
//! cannot be reached or the table cannot be created.

use vstd::prelude::*;

verus! {

/// The most connections that the pool holds at a time. A request that finds
/// them all in use waits for one.
pub const MAX_CONNECTIONS: u32 = 5;

/// The database that is used where none is configured: a file beside the
/// program.
pub const DEFAULT_DATABASE_URL: &'static str = "sqlite://axum.db";

/// The variable of the environment that names the database.
pub const DATABASE_URL_VARIABLE: &'static str = "DATABASE_URL";

/// The socket address on which the service listens.
pub const LISTEN_ADDRESS: &'static str = "127.0.0.1:3000";

/// The location of the database: the configured one, or the default where
/// none is configured.
pub open spec fn spec_database_url(configured: Option<Seq<char>>) -> Seq<char> {
    match configured {
        Some(url) => url,
        None => DEFAULT_DATABASE_URL@,
    }
}

/// The location of the database, given the value of
/// [`DATABASE_URL_VARIABLE`] if it is set.
pub fn database_url(configured: Option<String>) -> (url: String)
    ensures
        url@ == spec_database_url(crate::models::text_view(configured)),
{
    match configured {
        Some(url) => url,
        None => DEFAULT_DATABASE_URL.to_owned(),
    }
}

} // verus!
