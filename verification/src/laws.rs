use vstd::prelude::*;

use crate::quote::QuoteModel;
use crate::store::{
    delete_model, has_id, ids_unique, index_of_id, lemma_found_index_is_index_of_id, replaced,
    rows_touched, update_model,
};

verus! {

/// How many stored records carry the identifier `id`.
pub open spec fn count_of_id(s: Seq<QuoteModel>, id: u128) -> nat
    decreases s.len(),
{
    if s.len() == 0 {
        0
    } else {
        count_of_id(s.drop_last(), id) + if s.last().id == id {
            1nat
        } else {
            0nat
        }
    }
}

/// Every stored record is time-ordered: none was modified before it was
/// created.
pub open spec fn all_time_ordered(s: Seq<QuoteModel>) -> bool {
    forall|i: int| 0 <= i < s.len() ==> s[i].time_ordered()
}

/// An identifier that no record carries is carried zero times.
proof fn lemma_count_absent(s: Seq<QuoteModel>, id: u128)
    requires
        !has_id(s, id),
    ensures
        count_of_id(s, id) == 0,
    decreases s.len(),
{
    if s.len() > 0 {
        let t = s.drop_last();
        if has_id(t, id) {
            let i = choose|i: int| 0 <= i < t.len() && t[i].id == id;
            assert(t[i] == s[i]);
            assert(has_id(s, id));
        }
        lemma_count_absent(t, id);
        assert(s.last() == s[s.len() - 1]);
    }
}

/// Law: accepting a record under a fresh identifier keeps identifiers
/// unique.
pub proof fn lemma_insert_keeps_ids_unique(s: Seq<QuoteModel>, q: QuoteModel)
    requires
        ids_unique(s),
        !has_id(s, q.id),
    ensures
        ids_unique(s.push(q)),
{
    let post = s.push(q);
    assert forall|i: int, j: int| 0 <= i < j < post.len() implies post[i].id != post[j].id by {
        if j < s.len() {
            assert(post[i] == s[i] && post[j] == s[j]);
        } else {
            assert(post[i] == s[i] && post[j] == q);
            assert(s[i].id != q.id);
        }
    }
}

/// Law: creating a quote and then reading all quotes yields the previous
/// records and exactly one record carrying the fresh identifier — with the
/// caller's text, and created and modified at one and the same time.
pub proof fn lemma_create_round_trip(s: Seq<QuoteModel>, q: QuoteModel)
    requires
        ids_unique(s),
        !has_id(s, q.id),
        q.inserted_at == q.updated_at,
    ensures
        has_id(s.push(q), q.id),
        ids_unique(s.push(q)),
        count_of_id(s.push(q), q.id) == 1,
        index_of_id(s.push(q), q.id) == s.len(),
        s.push(q)[index_of_id(s.push(q), q.id)] == q,
        s.push(q)[index_of_id(s.push(q), q.id)].time_ordered(),
{
    let post = s.push(q);
    let k = s.len() as int;
    assert(post[k] == q);
    lemma_insert_keeps_ids_unique(s, q);
    lemma_found_index_is_index_of_id(post, q.id, k);
    assert(post.drop_last() =~= s);
    lemma_count_absent(s, q.id);
    assert(post.last() == q);
}

/// Law: creating a quote and then updating it with new text and a strictly
/// later time leaves its identifier and creation time unchanged, fully
/// replaces its text, and moves its modification time strictly past the
/// original one.
pub proof fn lemma_update_semantics(
    s: Seq<QuoteModel>,
    q: QuoteModel,
    book2: Seq<char>,
    quote2: Seq<char>,
    ts2: int,
)
    requires
        ids_unique(s),
        !has_id(s, q.id),
        q.inserted_at == q.updated_at,
        ts2 > q.updated_at,
    ensures
        ({
            let created = s.push(q);
            let updated = update_model(created, q.id, book2, quote2, ts2);
            &&& updated.len() == created.len()
            &&& has_id(updated, q.id)
            &&& ids_unique(updated)
            &&& updated[index_of_id(updated, q.id)] == (QuoteModel {
                id: q.id,
                book: book2,
                quote: quote2,
                inserted_at: q.inserted_at,
                updated_at: ts2,
            })
            &&& updated[index_of_id(updated, q.id)].updated_at > q.updated_at
            &&& updated[index_of_id(updated, q.id)].time_ordered()
        }),
{
    let created = s.push(q);
    let k = s.len() as int;
    assert(created[k] == q);
    lemma_insert_keeps_ids_unique(s, q);
    lemma_found_index_is_index_of_id(created, q.id, k);
    let m = replaced(created[k], book2, quote2, ts2);
    let updated = update_model(created, q.id, book2, quote2, ts2);
    assert(updated == created.update(k, m));
    assert(updated[k] == m);
    assert forall|i: int, j: int| 0 <= i < j < updated.len() implies updated[i].id
        != updated[j].id by {
        assert(updated[i].id == created[i].id && updated[j].id == created[j].id);
    }
    lemma_found_index_is_index_of_id(updated, q.id, k);
}

/// Law: an update or delete aimed at an identifier that no record carries
/// touches no row and leaves the store exactly as it was.
pub proof fn lemma_not_found_no_effect(
    s: Seq<QuoteModel>,
    id: u128,
    book: Seq<char>,
    quote: Seq<char>,
    ts: int,
)
    requires
        !has_id(s, id),
    ensures
        update_model(s, id, book, quote, ts) == s,
        delete_model(s, id) == s,
        rows_touched(s, id) == 0,
{
}

/// Law: two quotes the store accepted one after the other never share an
/// identifier, and all stored identifiers stay pairwise distinct.
pub proof fn lemma_created_ids_distinct(s: Seq<QuoteModel>, q1: QuoteModel, q2: QuoteModel)
    requires
        ids_unique(s),
        !has_id(s, q1.id),
        !has_id(s.push(q1), q2.id),
    ensures
        q1.id != q2.id,
        ids_unique(s.push(q1).push(q2)),
{
    let once = s.push(q1);
    let k = s.len() as int;
    assert(once[k] == q1);
    assert(once[k].id != q2.id);
    lemma_insert_keeps_ids_unique(s, q1);
    lemma_insert_keeps_ids_unique(once, q2);
}

/// Law: an update reassigns no identifier — every record keeps its place
/// and its identifier — and uniqueness is kept.
pub proof fn lemma_update_keeps_ids(
    s: Seq<QuoteModel>,
    id: u128,
    book: Seq<char>,
    quote: Seq<char>,
    ts: int,
)
    requires
        ids_unique(s),
    ensures
        update_model(s, id, book, quote, ts).len() == s.len(),
        forall|i: int|
            0 <= i < s.len() ==> update_model(s, id, book, quote, ts)[i].id == s[i].id,
        ids_unique(update_model(s, id, book, quote, ts)),
{
    let u = update_model(s, id, book, quote, ts);
    assert forall|i: int| 0 <= i < s.len() implies u[i].id == s[i].id by {
        if has_id(s, id) {
            let k = index_of_id(s, id);
            assert(u == s.update(k, replaced(s[k], book, quote, ts)));
        }
    }
    assert forall|i: int, j: int| 0 <= i < j < u.len() implies u[i].id != u[j].id by {
        assert(u[i].id == s[i].id && u[j].id == s[j].id);
    }
}

/// Law: a delete keeps the remaining records' identifiers unique.
pub proof fn lemma_delete_keeps_ids_unique(s: Seq<QuoteModel>, id: u128)
    requires
        ids_unique(s),
    ensures
        ids_unique(delete_model(s, id)),
{
    let d = delete_model(s, id);
    if has_id(s, id) {
        let k = index_of_id(s, id);
        assert forall|a: int, b: int| 0 <= a < b < d.len() implies d[a].id != d[b].id by {
            let oa: int = if a < k {
                a
            } else {
                a + 1
            };
            let ob: int = if b < k {
                b
            } else {
                b + 1
            };
            assert(d[a] == s[oa] && d[b] == s[ob]);
        }
    }
}

/// Law: every store operation keeps all records time-ordered. Creation
/// writes one time to both fields; an update refreshes the modification
/// time to one no earlier than the matched record's creation time; a
/// delete only removes.
pub proof fn lemma_time_order_invariant(
    s: Seq<QuoteModel>,
    q: QuoteModel,
    id: u128,
    book: Seq<char>,
    quote: Seq<char>,
    ts: int,
)
    requires
        all_time_ordered(s),
        q.inserted_at == q.updated_at,
        has_id(s, id) ==> ts >= s[index_of_id(s, id)].inserted_at,
    ensures
        all_time_ordered(s.push(q)),
        all_time_ordered(update_model(s, id, book, quote, ts)),
        all_time_ordered(delete_model(s, id)),
{
    let post = s.push(q);
    assert forall|i: int| 0 <= i < post.len() implies post[i].time_ordered() by {
        if i < s.len() {
            assert(post[i] == s[i]);
        } else {
            assert(post[i] == q);
        }
    }
    let u = update_model(s, id, book, quote, ts);
    assert forall|i: int| 0 <= i < u.len() implies u[i].time_ordered() by {
        if has_id(s, id) {
            let k = index_of_id(s, id);
            assert(u == s.update(k, replaced(s[k], book, quote, ts)));
            if i != k {
                assert(u[i] == s[i]);
            }
        }
    }
    let d = delete_model(s, id);
    assert forall|i: int| 0 <= i < d.len() implies d[i].time_ordered() by {
        if has_id(s, id) {
            let k = index_of_id(s, id);
            let oi: int = if i < k {
                i
            } else {
                i + 1
            };
            assert(d[i] == s[oi]);
        }
    }
}

} // verus!
