pub mod hobby_psql_model;
pub mod task_psql_model;
pub mod user_psql_model;

use vstd::prelude::*;

verus! {

/// A database operation that failed (no row, a broken connection, a
/// constraint that refused the write).
#[derive(Debug, Clone, Copy, PartialEq, Eq)]
pub struct DbError;

} // verus!
