//! What every service has: an action that is asked of it, and its kind.

use vstd::prelude::*;

verus! {

/// What is asked of a service. The actions are independent of each other:
/// none has to come before another.
#[derive(Clone, Copy, Debug, PartialEq, Eq, Structural)]
pub enum Action {
    Create,
    Pause,
    Delete,
    Upgrade,
    Downgrade,
    Backup,
    Restore,
    Clone,
}

/// How a database is reached and what it is stored on.
#[derive(Debug, PartialEq, Eq)]
pub struct DatabaseOptions {
    pub login: String,
    pub password: String,
    pub host: String,
    pub port: u16,
    pub disk_size_in_gib: u32,
    pub database_disk_type: String,
}

/// The database engines.
#[derive(Debug, PartialEq, Eq)]
pub enum DatabaseType<'a> {
    PostgreSQL(&'a DatabaseOptions),
    MongoDB(&'a DatabaseOptions),
    MySQL(&'a DatabaseOptions),
    Redis(&'a DatabaseOptions),
}

/// The kinds of service.
#[derive(Debug, PartialEq, Eq)]
pub enum ServiceType<'a> {
    Application,
    ExternalService,
    Database(DatabaseType<'a>),
    Router,
}

} // verus!
