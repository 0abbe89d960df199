use quotes::handlers::{
    create_outcome_status, create_quote, create_quote_request, create_quote_with, delete_quote,
    delete_quote_request, health, read_outcome_status, read_quotes, rows_affected_status,
    update_quote, update_quote_request, update_quote_with, write_outcome_status,
};
use quotes::quote::{CreateQuote, Quote};
use quotes::status::Status;
use quotes::store::QuoteStore;

fn payload(book: &str, quote: &str) -> CreateQuote {
    CreateQuote { book: String::from(book), quote: String::from(quote) }
}

#[test]
fn health_always_succeeds() {
    assert_eq!(health(), Status::Success);
    assert_eq!(health().code(), 200);
}

#[test]
fn status_codes_match_http() {
    assert_eq!(Status::Success.code(), 200);
    assert_eq!(Status::Created.code(), 201);
    assert_eq!(Status::BadRequest.code(), 400);
    assert_eq!(Status::NotFound.code(), 404);
    assert_eq!(Status::InternalServerError.code(), 500);
}

#[test]
fn empty_store_reads_empty_array() {
    let store = QuoteStore::new();
    let (status, rows) = read_quotes(&store);
    assert_eq!(status, Status::Success);
    assert!(rows.is_empty());
}

#[test]
fn create_then_read_round_trip() {
    let mut store = QuoteStore::new();
    let r = create_quote_with(&mut store, payload("B", "Q"), 7, 5);
    let (status, created) = r.expect("fresh identifier must be accepted");
    assert_eq!(status, Status::Created);
    assert_eq!(created.id, 7);
    assert_eq!(created.book, "B");
    assert_eq!(created.quote, "Q");
    assert_eq!(created.inserted_at, created.updated_at);

    let (status, rows) = read_quotes(&store);
    assert_eq!(status, Status::Success);
    assert_eq!(rows.len(), 1);
    let matching: Vec<&Quote> = rows.iter().filter(|q| q.id == 7).collect();
    assert_eq!(matching.len(), 1);
    assert_eq!(matching[0].book, "B");
    assert_eq!(matching[0].quote, "Q");
    assert_eq!(matching[0].inserted_at, matching[0].updated_at);
}

#[test]
fn create_draws_fresh_identifier_and_one_time() {
    let mut store = QuoteStore::new();
    let r = create_quote(&mut store, payload("B", "Q"));
    let (status, created) = r.expect("creating into an empty store is owed success");
    assert_eq!(status, Status::Created);
    assert_eq!(created.book, "B");
    assert_eq!(created.quote, "Q");
    assert_eq!(created.inserted_at, created.updated_at);
    let (_, rows) = read_quotes(&store);
    assert_eq!(rows.len(), 1);
    assert_eq!(rows[0].id, created.id);
}

#[test]
fn quote_new_captures_one_time() {
    let q = Quote::new(String::from("Q"), String::from("B"));
    assert_eq!(q.book, "B");
    assert_eq!(q.quote, "Q");
    assert_eq!(q.inserted_at, q.updated_at);
}

#[test]
fn independently_created_quotes_have_distinct_ids() {
    let mut store = QuoteStore::new();
    let (_, first) = create_quote(&mut store, payload("B1", "Q1")).expect("first create");
    let (_, second) = create_quote(&mut store, payload("B2", "Q2")).expect("second create");
    assert_ne!(first.id, second.id);

    let q1 = Quote::new(String::from("Q"), String::from("B"));
    let q2 = Quote::new(String::from("Q"), String::from("B"));
    assert_ne!(q1.id, q2.id);
}

#[test]
fn duplicate_identifier_is_refused_and_store_unchanged() {
    let mut store = QuoteStore::new();
    create_quote_with(&mut store, payload("B", "Q"), 7, 5).expect("first insert");
    let r = create_quote_with(&mut store, payload("C", "R"), 7, 6);
    assert_eq!(r.err(), Some(Status::InternalServerError));
    let (_, rows) = read_quotes(&store);
    assert_eq!(rows.len(), 1);
    assert_eq!(rows[0].book, "B");
    assert_eq!(rows[0].quote, "Q");
}

#[test]
fn update_replaces_text_and_refreshes_modification_time() {
    let mut store = QuoteStore::new();
    create_quote_with(&mut store, payload("B", "Q"), 7, 5).expect("create");
    let status = update_quote_with(&mut store, 7, payload("B2", "Q2"), 9);
    assert_eq!(status, Status::Success);

    let (_, rows) = read_quotes(&store);
    assert_eq!(rows.len(), 1);
    assert_eq!(rows[0].id, 7);
    assert_eq!(rows[0].book, "B2");
    assert_eq!(rows[0].quote, "Q2");
    assert_eq!(rows[0].inserted_at, 5);
    assert_eq!(rows[0].updated_at, 9);
    assert!(rows[0].updated_at > 5);
}

#[test]
fn update_with_current_clock_moves_modification_time() {
    let mut store = QuoteStore::new();
    let (_, created) = create_quote(&mut store, payload("B", "Q")).expect("create");
    let status = update_quote(&mut store, created.id, payload("B2", "Q2"));
    assert_eq!(status, Status::Success);
    let (_, rows) = read_quotes(&store);
    assert_eq!(rows.len(), 1);
    assert_eq!(rows[0].id, created.id);
    assert_eq!(rows[0].book, "B2");
    assert_eq!(rows[0].quote, "Q2");
    assert_eq!(rows[0].inserted_at, created.inserted_at);
    assert!(rows[0].updated_at >= created.updated_at);
}

#[test]
fn update_of_never_created_identifier_is_not_found() {
    let mut store = QuoteStore::new();
    create_quote_with(&mut store, payload("B", "Q"), 7, 5).expect("create");
    let status = update_quote_with(&mut store, 123456789, payload("X", "Y"), 9);
    assert_eq!(status, Status::NotFound);
    let (_, rows) = read_quotes(&store);
    assert_eq!(rows.len(), 1);
    assert_eq!(rows[0].book, "B");
    assert_eq!(rows[0].quote, "Q");
    assert_eq!(rows[0].updated_at, 5);
}

#[test]
fn delete_removes_the_matching_record() {
    let mut store = QuoteStore::new();
    create_quote_with(&mut store, payload("B", "Q"), 7, 5).expect("create");
    create_quote_with(&mut store, payload("C", "R"), 8, 6).expect("create");
    let status = delete_quote(&mut store, 7);
    assert_eq!(status, Status::Success);
    let (_, rows) = read_quotes(&store);
    assert_eq!(rows.len(), 1);
    assert_eq!(rows[0].id, 8);
}

#[test]
fn delete_of_never_created_identifier_is_not_found() {
    let mut store = QuoteStore::new();
    let status = delete_quote(&mut store, 987654321);
    assert_eq!(status, Status::NotFound);
    let (_, rows) = read_quotes(&store);
    assert!(rows.is_empty());
}

#[test]
fn malformed_body_is_rejected_before_any_write() {
    let mut store = QuoteStore::new();
    let r = create_quote_request(&mut store, None);
    assert_eq!(r.err(), Some(Status::BadRequest));
    let (_, rows) = read_quotes(&store);
    assert!(rows.is_empty());
}

#[test]
fn well_formed_body_passes_the_routed_create() {
    let mut store = QuoteStore::new();
    let r = create_quote_request(&mut store, Some(payload("B", "Q")));
    let (status, created) = r.expect("create through the routed endpoint");
    assert_eq!(status, Status::Created);
    assert_eq!(created.book, "B");
    let (_, rows) = read_quotes(&store);
    assert_eq!(rows.len(), 1);
}

#[test]
fn malformed_path_identifier_is_rejected_before_any_write() {
    let mut store = QuoteStore::new();
    create_quote_with(&mut store, payload("B", "Q"), 7, 5).expect("create");

    let status = update_quote_request(&mut store, None, Some(payload("X", "Y")));
    assert_eq!(status, Status::BadRequest);
    let status = update_quote_request(&mut store, Some(7), None);
    assert_eq!(status, Status::BadRequest);
    let status = delete_quote_request(&mut store, None);
    assert_eq!(status, Status::BadRequest);

    let (_, rows) = read_quotes(&store);
    assert_eq!(rows.len(), 1);
    assert_eq!(rows[0].book, "B");
    assert_eq!(rows[0].quote, "Q");

    let status = update_quote_request(&mut store, Some(7), Some(payload("X", "Y")));
    assert_eq!(status, Status::Success);
    let status = delete_quote_request(&mut store, Some(7));
    assert_eq!(status, Status::Success);
    let (_, rows) = read_quotes(&store);
    assert!(rows.is_empty());
}

#[test]
fn affected_row_counts_map_to_statuses() {
    assert_eq!(rows_affected_status(0), Status::NotFound);
    assert_eq!(rows_affected_status(1), Status::Success);
    assert_eq!(write_outcome_status(Some(0)), Status::NotFound);
    assert_eq!(write_outcome_status(Some(1)), Status::Success);
    assert_eq!(write_outcome_status(None), Status::InternalServerError);
}

#[test]
fn create_and_read_outcomes_map_to_statuses() {
    assert_eq!(create_outcome_status(true), Status::Created);
    assert_eq!(create_outcome_status(false), Status::InternalServerError);
    assert_eq!(read_outcome_status(true), Status::Success);
    assert_eq!(read_outcome_status(false), Status::InternalServerError);
}

#[test]
fn store_counts_its_records() {
    let mut store = QuoteStore::new();
    assert_eq!(store.len(), 0);
    store
        .insert(Quote {
            id: 1,
            book: String::from("B"),
            quote: String::from("Q"),
            inserted_at: 5,
            updated_at: 5,
        })
        .expect("insert");
    assert_eq!(store.len(), 1);
    assert_eq!(store.delete_by_id(1), 1);
    assert_eq!(store.len(), 0);
    assert_eq!(store.delete_by_id(1), 0);
}

#[test]
fn update_by_id_reports_affected_rows() {
    let mut store = QuoteStore::new();
    create_quote_with(&mut store, payload("B", "Q"), 7, 5).expect("create");
    let n = store.update_by_id(7, String::from("B2"), String::from("Q2"), 9);
    assert_eq!(n, 1);
    let n = store.update_by_id(8, String::from("B3"), String::from("Q3"), 9);
    assert_eq!(n, 0);
}
