use vstd::prelude::*;

verus! {

/// What went wrong with a database query: no row was found, the database
/// reported an error, or something else failed (the connection, decoding, ...).
#[derive(Debug, PartialEq, Eq, Clone, Copy, Structural)]
pub enum DbError {
    RowNotFound,
    Database,
    Other,
}

/// Whether a query failed only because it found no row.
pub fn is_row_not_found(err: DbError) -> (r: bool)
    ensures
        r == (err == DbError::RowNotFound),
{
    match err {
        DbError::RowNotFound => true,
        _ => false,
    }
}

} // verus!
