use vstd::prelude::*;

use crate::note::{CreateMovie, Movie};
use crate::table::StoreError;

verus! {

/// The HTTP status of a request the store carried out.
pub const STATUS_OK: u16 = 200;

/// The HTTP status of a request the store failed.
pub const STATUS_SERVER_ERROR: u16 = 500;

/// The list handler's fallback: notes the store could not read show as no
/// notes at all, so a failed list looks to the client like an empty one.
pub fn list_or_empty(fetched: Result<Vec<Movie>, StoreError>) -> (r: Vec<Movie>)
    ensures
        fetched is Ok ==> r@ == fetched->Ok_0@,
        fetched is Err ==> r@.len() == 0,
{
    match fetched {
        Ok(notes) => notes,
        Err(_) => Vec::new(),
    }
}

/// The create handler's answer once the store has tried the insert:
/// `inserted` is the id the store gave the new row, or why it failed.
pub fn created_note(inserted: Result<i64, StoreError>, payload: CreateMovie) -> (r: Result<
    Movie,
    StoreError,
>)
    ensures
        r is Ok <==> inserted is Ok,
        inserted is Ok ==> r->Ok_0@ == payload@.with_id(inserted->Ok_0 as int),
        inserted is Err ==> r->Err_0 == inserted->Err_0,
{
    match inserted {
        Ok(id) => Ok(Movie::from_insert(payload, id)),
        Err(e) => Err(e),
    }
}

/// The status a write request answers with: success whatever the store
/// changed, and a server error, never a crash, when the store failed.
pub fn reply_status<T>(done: &Result<T, StoreError>) -> (r: u16)
    ensures
        done is Ok ==> r == STATUS_OK,
        done is Err ==> r == STATUS_SERVER_ERROR,
{
    match done {
        Ok(_) => STATUS_OK,
        Err(_) => STATUS_SERVER_ERROR,
    }
}

} // verus!
