use vstd::prelude::*;

use crate::laws::{
    lemma_delete_keeps_ids_unique, lemma_insert_keeps_ids_unique, lemma_update_keeps_ids,
};
use crate::quote::{Quote, QuoteModel};

verus! {

/// The models of a sequence of records.
pub open spec fn models_of(rows: Seq<Quote>) -> Seq<QuoteModel> {
    rows.map_values(|q: Quote| q@)
}

/// Whether some stored record carries the identifier `id`.
pub open spec fn has_id(s: Seq<QuoteModel>, id: u128) -> bool {
    exists|i: int| 0 <= i < s.len() && s[i].id == id
}

/// The index of the record carrying `id`, meaningful only when `has_id`.
pub open spec fn index_of_id(s: Seq<QuoteModel>, id: u128) -> int {
    choose|i: int| 0 <= i < s.len() && s[i].id == id
}

/// No two stored records share an identifier.
pub open spec fn ids_unique(s: Seq<QuoteModel>) -> bool {
    forall|i: int, j: int| 0 <= i < j < s.len() ==> s[i].id != s[j].id
}

/// The record `q` with its text replaced and its modification time refreshed;
/// identifier and creation time untouched.
pub open spec fn replaced(q: QuoteModel, book: Seq<char>, quote: Seq<char>, ts: int) -> QuoteModel {
    QuoteModel { id: q.id, book, quote, inserted_at: q.inserted_at, updated_at: ts }
}

/// The store contents after an update of `id`: the matching record replaced,
/// or everything unchanged when no record matches.
pub open spec fn update_model(
    s: Seq<QuoteModel>,
    id: u128,
    book: Seq<char>,
    quote: Seq<char>,
    ts: int,
) -> Seq<QuoteModel> {
    if has_id(s, id) {
        s.update(index_of_id(s, id), replaced(s[index_of_id(s, id)], book, quote, ts))
    } else {
        s
    }
}

/// The store contents after a delete of `id`: the matching record removed,
/// or everything unchanged when no record matches.
pub open spec fn delete_model(s: Seq<QuoteModel>, id: u128) -> Seq<QuoteModel> {
    if has_id(s, id) {
        s.remove(index_of_id(s, id))
    } else {
        s
    }
}

/// The affected-row count of a write aimed at `id`: 1 when a record matches,
/// else 0. Identifiers are unique, so no write ever touches more rows.
pub open spec fn rows_touched(s: Seq<QuoteModel>, id: u128) -> int {
    if has_id(s, id) {
        1
    } else {
        0
    }
}

/// Under unique identifiers, any position whose record carries `id` is the
/// position that `index_of_id` denotes.
pub proof fn lemma_found_index_is_index_of_id(s: Seq<QuoteModel>, id: u128, i: int)
    requires
        ids_unique(s),
        0 <= i < s.len(),
        s[i].id == id,
    ensures
        has_id(s, id),
        index_of_id(s, id) == i,
{
    assert(has_id(s, id));
    let k = index_of_id(s, id);
    assert(0 <= k < s.len() && s[k].id == id);
    if k < i {
        assert(s[k].id != s[i].id);
    } else if i < k {
        assert(s[i].id != s[k].id);
    }
}

/// An in-memory quote store: the persistence accessor over the `quotes`
/// table, realized as a table of records with unique identifiers.
pub struct QuoteStore {
    rows: Vec<Quote>,
}

impl View for QuoteStore {
    type V = Seq<QuoteModel>;

    closed spec fn view(&self) -> Seq<QuoteModel> {
        models_of(self.rows@)
    }
}

/// The one way an in-memory write can be refused: the primary-key constraint,
/// an insert under an identifier that is already present.
#[derive(Clone, Copy, Debug, PartialEq, Eq, Structural)]
pub enum StoreError {
    DuplicateId,
}

impl QuoteStore {
    /// The store invariant: the primary key holds, identifiers are unique.
    pub open spec fn wf(self) -> bool {
        ids_unique(self@)
    }

    /// A fresh store holding nothing.
    pub fn new() -> (s: QuoteStore)
        ensures
            s@ == Seq::<QuoteModel>::empty(),
            s.wf(),
    {
        let s = QuoteStore { rows: Vec::new() };
        proof {
            assert(s@ =~= Seq::<QuoteModel>::empty());
        }
        s
    }

    /// How many records are stored.
    pub fn len(&self) -> (n: usize)
        ensures
            n == self@.len(),
    {
        self.rows.len()
    }

    /// Write one fully-formed record. The primary key is enforced: an
    /// identifier already present refuses the write and leaves the store
    /// unchanged.
    pub fn insert(&mut self, q: Quote) -> (r: Result<(), StoreError>)
        requires
            old(self).wf(),
        ensures
            final(self).wf(),
            has_id(old(self)@, q@.id) ==> (r matches Err(e) && e == StoreError::DuplicateId
                && final(self)@ == old(self)@),
            !has_id(old(self)@, q@.id) ==> r is Ok && final(self)@ == old(self)@.push(q@),
    {
        match self.find_index(q.id) {
            Some(_) => Err(StoreError::DuplicateId),
            None => {
                let ghost pre = self@;
                let ghost m = q@;
                self.rows.push(q);
                proof {
                    assert(self@ =~= pre.push(m));
                    lemma_insert_keeps_ids_unique(pre, m);
                }
                Ok(())
            },
        }
    }

    /// Overwrite the record carrying `id` with new text and a new
    /// modification time, leaving its identifier and creation time untouched.
    /// The affected-row count is returned: 1 when a record matched, else 0.
    pub fn update_by_id(&mut self, id: u128, book: String, quote: String, ts: i64) -> (n: u64)
        requires
            old(self).wf(),
        ensures
            final(self).wf(),
            n as int == rows_touched(old(self)@, id),
            final(self)@ == update_model(old(self)@, id, book@, quote@, ts as int),
    {
        match self.find_index(id) {
            None => 0,
            Some(i) => {
                let ghost pre = self@;
                proof {
                    lemma_found_index_is_index_of_id(pre, id, i as int);
                }
                let old_q = self.rows.remove(i);
                let new_q = Quote {
                    id: old_q.id,
                    book,
                    quote,
                    inserted_at: old_q.inserted_at,
                    updated_at: ts,
                };
                let ghost m = new_q@;
                self.rows.insert(i, new_q);
                proof {
                    assert(m == replaced(pre[i as int], book@, quote@, ts as int));
                    assert(self@ =~= pre.update(i as int, m));
                    assert(self@ == update_model(pre, id, book@, quote@, ts as int));
                    lemma_update_keeps_ids(pre, id, book@, quote@, ts as int);
                }
                1
            },
        }
    }

    /// Remove the record carrying `id`. The affected-row count is returned:
    /// 1 when a record matched, else 0.
    pub fn delete_by_id(&mut self, id: u128) -> (n: u64)
        requires
            old(self).wf(),
        ensures
            final(self).wf(),
            n as int == rows_touched(old(self)@, id),
            final(self)@ == delete_model(old(self)@, id),
    {
        match self.find_index(id) {
            None => 0,
            Some(i) => {
                let ghost pre = self@;
                proof {
                    lemma_found_index_is_index_of_id(pre, id, i as int);
                }
                let _ = self.rows.remove(i);
                proof {
                    assert(self@ =~= pre.remove(i as int));
                    lemma_delete_keeps_ids_unique(pre, id);
                }
                1
            },
        }
    }

    /// Every stored record, as copies, in storage order. Callers may not
    /// rely on any particular ordering.
    pub fn select_all(&self) -> (r: Vec<Quote>)
        ensures
            models_of(r@) == self@,
    {
        let n = self.rows.len();
        let mut out: Vec<Quote> = Vec::new();
        let mut i: usize = 0;
        while i < n
            invariant
                n == self@.len(),
                0 <= i <= n,
                out@.len() == i,
                forall|j: int| 0 <= j < i ==> out@[j]@ == self@[j],
            decreases n - i,
        {
            let copy = self.rows[i].duplicate();
            out.push(copy);
            i = i + 1;
        }
        proof {
            assert(models_of(out@) =~= self@);
        }
        out
    }

    /// The position of the record carrying `id`, if any.
    fn find_index(&self, id: u128) -> (r: Option<usize>)
        ensures
            match r {
                Some(i) => 0 <= i < self@.len() && self@[i as int].id == id,
                None => !has_id(self@, id),
            },
    {
        let n = self.rows.len();
        let mut i: usize = 0;
        while i < n
            invariant
                n == self@.len(),
                0 <= i <= n,
                forall|j: int| 0 <= j < i ==> self@[j].id != id,
            decreases n - i,
        {
            if self.rows[i].id == id {
                return Some(i);
            }
            i = i + 1;
        }
        None
    }
}

} // verus!
