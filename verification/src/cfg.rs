//! Configuration of the database connection.
use vstd::prelude::*;

verus! {

/// Where the database is and how many connections its pool may open.
pub struct DatabaseConfig {
    pub url: String,
    pub max_connections: u32,
}

} // verus!
