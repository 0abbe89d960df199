use vstd::prelude::*;

use crate::quote::{now_micros, CreateQuote, Quote, QuoteModel};
use crate::status::Status;
use crate::store::{delete_model, has_id, models_of, update_model, QuoteStore};

verus! {

/// The liveness probe: always success, and no storage is touched — the
/// function cannot even name the store.
pub fn health() -> (s: Status)
    ensures
        s == Status::Success,
{
    Status::Success
}

/// The status a write aimed at one identifier reports, from its
/// affected-row count: no row matched means not-found, else success.
pub fn rows_affected_status(n: u64) -> (s: Status)
    ensures
        s == if n == 0 {
            Status::NotFound
        } else {
            Status::Success
        },
{
    if n == 0 {
        Status::NotFound
    } else {
        Status::Success
    }
}

/// The status a create reports, from the outcome of its one storage
/// attempt: created on success, else a generic server error.
pub fn create_outcome_status(succeeded: bool) -> (s: Status)
    ensures
        s == if succeeded {
            Status::Created
        } else {
            Status::InternalServerError
        },
{
    if succeeded {
        Status::Created
    } else {
        Status::InternalServerError
    }
}

/// The status a read of all quotes reports, from the outcome of its one
/// storage attempt: success, else a generic server error.
pub fn read_outcome_status(succeeded: bool) -> (s: Status)
    ensures
        s == if succeeded {
            Status::Success
        } else {
            Status::InternalServerError
        },
{
    if succeeded {
        Status::Success
    } else {
        Status::InternalServerError
    }
}

/// The status an update or delete reports, from the outcome of its one
/// storage attempt: a failed attempt is collapsed into a generic server
/// error, a finished one is mapped by its affected-row count.
pub fn write_outcome_status(outcome: Option<u64>) -> (s: Status)
    ensures
        outcome matches Some(n) ==> s == if n == 0 {
            Status::NotFound
        } else {
            Status::Success
        },
        outcome is None ==> s == Status::InternalServerError,
{
    match outcome {
        Some(n) => rows_affected_status(n),
        None => Status::InternalServerError,
    }
}

/// Create a quote from the caller's payload under a given identifier and a
/// given creation time: the record is stored and returned, unless the
/// identifier is already taken, in which case the store is left unchanged
/// and a generic server error is reported.
pub fn create_quote_with(store: &mut QuoteStore, payload: CreateQuote, id: u128, ts: i64) -> (r:
    Result<(Status, Quote), Status>)
    requires
        old(store).wf(),
    ensures
        final(store).wf(),
        !has_id(old(store)@, id) ==> (r matches Ok(p) && p.0 == Status::Created && p.1@
            == (QuoteModel {
            id,
            book: payload.book@,
            quote: payload.quote@,
            inserted_at: ts as int,
            updated_at: ts as int,
        }) && final(store)@ == old(store)@.push(p.1@)),
        has_id(old(store)@, id) ==> (r matches Err(e) && e == Status::InternalServerError
            && final(store)@ == old(store)@),
{
    let q = Quote { id, book: payload.book, quote: payload.quote, inserted_at: ts, updated_at: ts };
    let copy = q.duplicate();
    match store.insert(q) {
        Ok(()) => Ok((Status::Created, copy)),
        Err(_) => Err(Status::InternalServerError),
    }
}

/// Create a quote from the caller's payload: a fresh random identifier and
/// the current time are drawn, the record is stored and returned. Whatever
/// identifier was drawn, either the record was appended as returned — its
/// two timestamps equal, its identifier previously absent — or it collided
/// with a stored one and the store is unchanged under a generic server
/// error. Into an empty store no drawn identifier can collide, so there
/// success is owed.
pub fn create_quote(store: &mut QuoteStore, payload: CreateQuote) -> (r: Result<
    (Status, Quote),
    Status,
>)
    requires
        old(store).wf(),
    ensures
        final(store).wf(),
        r matches Ok(p) ==> p.0 == Status::Created && p.1@.book == payload.book@ && p.1@.quote
            == payload.quote@ && p.1@.inserted_at == p.1@.updated_at && !has_id(old(store)@, p.1@.id) && final(store)@ == old(store)@.push(p.1@),
        r matches Err(e) ==> e == Status::InternalServerError && final(store)@ == old(store)@,
        old(store)@.len() == 0 ==> r is Ok,
{
    let q = Quote::new(payload.quote, payload.book);
    let copy = q.duplicate();
    match store.insert(q) {
        Ok(()) => Ok((Status::Created, copy)),
        Err(_) => Err(Status::InternalServerError),
    }
}

/// The create endpoint as routed: a body that could not be read as the
/// expected JSON object is rejected before any storage access, with the
/// store untouched.
pub fn create_quote_request(store: &mut QuoteStore, body: Option<CreateQuote>) -> (r: Result<
    (Status, Quote),
    Status,
>)
    requires
        old(store).wf(),
    ensures
        final(store).wf(),
        body is None ==> (r matches Err(e) && e == Status::BadRequest && final(store)@ == old(store)@),
        body matches Some(payload) ==> {
            &&& r matches Ok(p) ==> p.0 == Status::Created && p.1@.book == payload.book@
                && p.1@.quote == payload.quote@ && p.1@.inserted_at == p.1@.updated_at && !has_id(old(store)@, p.1@.id) && final(store)@ == old(store)@.push(p.1@)
            &&& r matches Err(e) ==> e == Status::InternalServerError && final(store)@ == old(store)@
            &&& old(store)@.len() == 0 ==> r is Ok
        },
{
    match body {
        None => Err(Status::BadRequest),
        Some(payload) => create_quote(store, payload),
    }
}

/// Read every stored quote: always success, and the array lists exactly the
/// store's contents — empty when nothing is stored.
pub fn read_quotes(store: &QuoteStore) -> (r: (Status, Vec<Quote>))
    ensures
        r.0 == Status::Success,
        models_of(r.1@) == store@,
{
    (Status::Success, store.select_all())
}

/// Update the quote carrying `id` with the caller's payload and a given
/// modification time: the matching record's text is fully replaced and its
/// modification time refreshed under a success status, or nothing matched,
/// nothing changed, and not-found is reported.
pub fn update_quote_with(store: &mut QuoteStore, id: u128, payload: CreateQuote, ts: i64) -> (s:
    Status)
    requires
        old(store).wf(),
    ensures
        final(store).wf(),
        final(store)@ == update_model(old(store)@, id, payload.book@, payload.quote@, ts as int),
        s == if has_id(old(store)@, id) {
            Status::Success
        } else {
            Status::NotFound
        },
{
    let n = store.update_by_id(id, payload.book, payload.quote, ts);
    rows_affected_status(n)
}

/// Update the quote carrying `id` with the caller's payload, refreshing its
/// modification time to the current time: the record's text is fully
/// replaced under a success status, or nothing matched, nothing changed,
/// and not-found is reported.
pub fn update_quote(store: &mut QuoteStore, id: u128, payload: CreateQuote) -> (s: Status)
    requires
        old(store).wf(),
    ensures
        final(store).wf(),
        exists|ts: int|
            final(store)@ == update_model(old(store)@, id, payload.book@, payload.quote@, ts),
        s == if has_id(old(store)@, id) {
            Status::Success
        } else {
            Status::NotFound
        },
{
    let now: i64 = now_micros();
    update_quote_with(store, id, payload, now)
}

/// The update endpoint as routed: a path identifier or a body that could
/// not be parsed is rejected before any storage access, with the store
/// untouched.
pub fn update_quote_request(store: &mut QuoteStore, id: Option<u128>, body: Option<CreateQuote>)
    -> (s: Status)
    requires
        old(store).wf(),
    ensures
        final(store).wf(),
        id is None || body is None ==> s == Status::BadRequest && final(store)@ == old(store)@,
        id matches Some(i) ==> body matches Some(payload) ==> {
            &&& exists|ts: int|
                final(store)@ == update_model(old(store)@, i, payload.book@, payload.quote@, ts)
            &&& s == if has_id(old(store)@, i) {
                Status::Success
            } else {
                Status::NotFound
            }
        },
{
    match (id, body) {
        (Some(i), Some(payload)) => update_quote(store, i, payload),
        _ => Status::BadRequest,
    }
}

/// Delete the quote carrying `id`: the matching record is removed under a
/// success status, or nothing matched, nothing changed, and not-found is
/// reported.
pub fn delete_quote(store: &mut QuoteStore, id: u128) -> (s: Status)
    requires
        old(store).wf(),
    ensures
        final(store).wf(),
        final(store)@ == delete_model(old(store)@, id),
        s == if has_id(old(store)@, id) {
            Status::Success
        } else {
            Status::NotFound
        },
{
    let n = store.delete_by_id(id);
    rows_affected_status(n)
}

/// The delete endpoint as routed: a path identifier that could not be
/// parsed is rejected before any storage access, with the store untouched.
pub fn delete_quote_request(store: &mut QuoteStore, id: Option<u128>) -> (s: Status)
    requires
        old(store).wf(),
    ensures
        final(store).wf(),
        id is None ==> s == Status::BadRequest && final(store)@ == old(store)@,
        id matches Some(i) ==> final(store)@ == delete_model(old(store)@, i) && s == if has_id(old(store)@, i) {
            Status::Success
        } else {
            Status::NotFound
        },
{
    match id {
        Some(i) => delete_quote(store, i),
        None => Status::BadRequest,
    }
}

} // verus!

