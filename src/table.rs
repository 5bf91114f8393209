use vstd::prelude::*;

use crate::note::{CreateMovie, CreateView, Movie, NoteView};

verus! {

/// The abstract state of the table: its rows in the order they were created,
/// and the id the next created row will get.
pub struct TableView {
    pub rows: Seq<NoteView>,
    pub next_id: int,
}

/// The table of a freshly created store.
pub open spec fn empty_table() -> TableView {
    TableView { rows: Seq::empty(), next_id: 1 }
}

/// Creating a note: it gets the next id, which is never handed out again.
pub open spec fn insert_spec(t: TableView, p: CreateView) -> TableView {
    TableView { rows: t.rows.push(p.with_id(t.next_id)), next_id: t.next_id + 1 }
}

/// Creating the notes of `ps`, in order.
pub open spec fn insert_all_spec(t: TableView, ps: Seq<CreateView>) -> TableView
    decreases ps.len(),
{
    if ps.len() == 0 {
        t
    } else {
        insert_spec(insert_all_spec(t, ps.drop_last()), ps.last())
    }
}

/// Whether a note is kept by a delete keyed on the catalog id `v`.
pub open spec fn kept_by(n: NoteView, v: int) -> bool {
    n.tmdb_id != v
}

/// The notes that a delete keyed on the catalog id `v` keeps.
pub open spec fn keep(v: int) -> spec_fn(NoteView) -> bool {
    |n: NoteView| kept_by(n, v)
}

/// Deleting by catalog id: every note with that catalog id goes, the others stay.
pub open spec fn remove_spec(t: TableView, v: int) -> TableView {
    TableView { rows: t.rows.filter(keep(v)), next_id: t.next_id }
}

/// What a list returns: every note, the most recently created first.
pub open spec fn list_spec(t: TableView) -> Seq<NoteView> {
    t.rows.reverse()
}

/// Ids grow strictly along `s`.
pub open spec fn ids_ascending(s: Seq<NoteView>) -> bool {
    forall|i: int, j: int| 0 <= i < j < s.len() ==> s[i].id < s[j].id
}

/// Ids grow strictly along the rows and stay below the next id.
pub open spec fn table_wf(t: TableView) -> bool {
    &&& 1 <= t.next_id
    &&& ids_ascending(t.rows)
    &&& forall|i: int| 0 <= i < t.rows.len() ==> 1 <= #[trigger] t.rows[i].id < t.next_id
}

/// Why the store could not do what was asked of it.
#[derive(Debug, Clone, Copy, PartialEq, Eq, Structural)]
pub enum StoreError {
    /// Every id the store can give has been given.
    IdsExhausted,
    /// The store behind the service failed.
    Backend,
}

/// An in-memory table of movie notes.
#[derive(Debug)]
pub struct MovieTable {
    rows: Vec<Movie>,
    next_id: i64,
}

impl View for MovieTable {
    type V = TableView;

    closed spec fn view(&self) -> TableView {
        TableView { rows: self.rows@.map_values(|m: Movie| m@), next_id: self.next_id as int }
    }
}

impl MovieTable {
    pub open spec fn wf(&self) -> bool {
        table_wf(self@)
    }

    /// An empty table.
    pub fn new() -> (r: MovieTable)
        ensures
            r.wf(),
            r@ == empty_table(),
    {
        let r = MovieTable { rows: Vec::new(), next_id: 1 };
        assert(r@.rows =~= Seq::<NoteView>::empty());
        r
    }

    /// An empty table that has already handed out every id below `next_id`,
    /// as a store does once all its notes are deleted.
    pub fn starting_at(next_id: i64) -> (r: MovieTable)
        requires
            1 <= next_id,
        ensures
            r.wf(),
            r@ == (TableView { rows: Seq::empty(), next_id: next_id as int }),
    {
        let r = MovieTable { rows: Vec::new(), next_id };
        assert(r@.rows =~= Seq::<NoteView>::empty());
        r
    }

    /// Creates a note from `payload` and returns it with its new id. Fails
    /// only when no id is left to give.
    pub fn add_movie(&mut self, payload: CreateMovie) -> (r: Result<Movie, StoreError>)
        requires
            old(self).wf(),
        ensures
            final(self).wf(),
            old(self)@.next_id < i64::MAX <==> r is Ok,
            r is Ok ==> r->Ok_0@ == payload@.with_id(old(self)@.next_id),
            r is Ok ==> final(self)@ == insert_spec(old(self)@, payload@),
            r is Err ==> r->Err_0 is IdsExhausted && final(self)@ == old(self)@,
    {
        if self.next_id == i64::MAX {
            return Err(StoreError::IdsExhausted);
        }
        let id = self.next_id;
        let m = Movie::from_insert(payload, id);
        let stored = m.duplicate();
        let ghost before = self@;
        self.rows.push(stored);
        self.next_id = id + 1;
        assert(self@.rows =~= before.rows.push(m@));
        Ok(m)
    }

    /// Every note, the most recently created first.
    pub fn list_movies(&self) -> (r: Vec<Movie>)
        ensures
            r@.map_values(|m: Movie| m@) == list_spec(self@),
    {
        let mut out: Vec<Movie> = Vec::new();
        let n = self.rows.len();
        let mut k: usize = n;
        while k > 0
            invariant
                k <= n,
                n == self.rows@.len(),
                out@.len() == n - k,
                forall|i: int| 0 <= i < n - k ==> #[trigger] out@[i]@ == self.rows@[n - 1 - i]@,
            decreases k,
        {
            k = k - 1;
            let m = self.rows[k].duplicate();
            out.push(m);
        }
        assert(out@.map_values(|m: Movie| m@) =~= list_spec(self@));
        out
    }

    /// Deletes every note whose catalog id is `tmdb_id`, and only those.
    pub fn remove_movie(&mut self, tmdb_id: i64)
        requires
            old(self).wf(),
        ensures
            final(self).wf(),
            final(self)@ == remove_spec(old(self)@, tmdb_id as int),
    {
        let ghost before = self@;
                let mut kept: Vec<Movie> = Vec::new();
        let n = self.rows.len();
        let mut k: usize = 0;
        while k < n
            invariant
                k <= n,
                n == self.rows@.len(),
                self@ == before,
                kept@.map_values(|m: Movie| m@) == before.rows.take(k as int).filter(keep(tmdb_id as int)),
            decreases n - k,
        {
            let ghost prev = kept@.map_values(|m: Movie| m@);
            if self.rows[k].tmdb_id != tmdb_id {
                let m = self.rows[k].duplicate();
                kept.push(m);
            }
            proof {
                let s = before.rows.take(k as int + 1);
                assert(s.drop_last() =~= before.rows.take(k as int));
                assert(s.last() == before.rows[k as int]);
                reveal(Seq::filter);
                assert(kept@.map_values(|m: Movie| m@) =~= s.filter(keep(tmdb_id as int)));
            }
            k = k + 1;
        }
        assert(before.rows.take(n as int) =~= before.rows);
        self.rows = kept;
        proof {
            lemma_filter_keeps_wf(before, tmdb_id as int);
        }
    }
}

/// Deleting by catalog id keeps the table well formed.
pub proof fn lemma_filter_keeps_wf(t: TableView, v: int)
    requires
        table_wf(t),
    ensures
        table_wf(remove_spec(t, v)),
{
    lemma_filter_ascending(t.rows, v);
    let f = t.rows.filter(keep(v));
    assert forall|i: int| 0 <= i < f.len() implies 1 <= #[trigger] f[i].id < t.next_id by {
        assert(f.contains(f[i]));
        t.rows.lemma_filter_contains_rev(keep(v), f[i]);
    }
}

/// Deleting by catalog id keeps the rows in ascending id order, and keeps
/// nothing that was not there.
proof fn lemma_filter_ascending(s: Seq<NoteView>, v: int)
    requires
        ids_ascending(s),
    ensures
        ids_ascending(s.filter(keep(v))),
    decreases s.len(),
{
    if s.len() > 0 {
        let r = s.drop_last();
        let e = s.last();
        lemma_filter_ascending(r, v);
        assert(r.push(e) =~= s);
        r.lemma_filter_push(e, keep(v));
        let fr = r.filter(keep(v));
        let f = s.filter(keep(v));
        if kept_by(e, v) {
            assert forall|i: int, j: int| 0 <= i < j < f.len() implies f[i].id < f[j].id by {
                if j == f.len() - 1 {
                    assert(fr.contains(fr[i]));
                    r.lemma_filter_contains_rev(keep(v), fr[i]);
                }
            }
        }
    }
}

} // verus!
