use vstd::prelude::*;

verus! {

/// The mathematical model of one stored quote.
///
/// The identifier is the 128-bit value of a UUID; the two timestamps are
/// microseconds since the Unix epoch, UTC.
pub ghost struct QuoteModel {
    pub id: u128,
    pub book: Seq<char>,
    pub quote: Seq<char>,
    pub inserted_at: int,
    pub updated_at: int,
}

impl QuoteModel {
    /// A record is time-ordered when it was not modified before it was created.
    pub open spec fn time_ordered(self) -> bool {
        self.inserted_at <= self.updated_at
    }
}

/// One quote record: a passage and the work it is taken from, under a unique
/// identifier, with its creation and last-modification times.
///
/// `id` holds the 128-bit value of a UUID; `inserted_at` and `updated_at`
/// hold microseconds since the Unix epoch, UTC.
pub struct Quote {
    pub id: u128,
    pub book: String,
    pub quote: String,
    pub inserted_at: i64,
    pub updated_at: i64,
}

impl View for Quote {
    type V = QuoteModel;

    open spec fn view(&self) -> QuoteModel {
        QuoteModel {
            id: self.id,
            book: self.book@,
            quote: self.quote@,
            inserted_at: self.inserted_at as int,
            updated_at: self.updated_at as int,
        }
    }
}

/// The payload of a create or update request: the two free-text fields the
/// caller supplies. No validation of the text is performed; empty strings
/// are accepted.
#[derive(Debug)]
pub struct CreateQuote {
    pub book: String,
    pub quote: String,
}

/// Relies on uuid::Uuid::new_v4: a freshly generated random UUID, handed on
/// as its 128-bit value. The result is random, so nothing is promised of it.
#[verifier::external_body]
pub(crate) fn random_id() -> u128 {
    uuid::Uuid::new_v4().as_u128()
}

/// Relies on chrono::Utc::now: the current UTC time, handed on as
/// microseconds since the Unix epoch. The result depends on the clock, so
/// nothing is promised of it.
#[verifier::external_body]
pub(crate) fn now_micros() -> i64 {
    chrono::Utc::now().timestamp_micros()
}

impl Quote {
    /// Construct a fresh record: a new random identifier, and the current
    /// time captured once for both timestamps.
    pub fn new(quote: String, book: String) -> (q: Quote)
        ensures
            q@.book == book@,
            q@.quote == quote@,
            q@.inserted_at == q@.updated_at,
    {
        let now: i64 = now_micros();
        Quote { id: random_id(), book, quote, inserted_at: now, updated_at: now }
    }

    /// A copy of this record, equal to it in the model.
    pub fn duplicate(&self) -> (r: Quote)
        ensures
            r@ == self@,
    {
        Quote {
            id: self.id,
            book: self.book.clone(),
            quote: self.quote.clone(),
            inserted_at: self.inserted_at,
            updated_at: self.updated_at,
        }
    }
}

} // verus!
