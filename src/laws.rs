use vstd::prelude::*;

use crate::note::{CreateView, NoteView};
use crate::table::{
    empty_table, insert_all_spec, insert_spec, keep, kept_by, list_spec, remove_spec, table_wf,
    TableView,
};

verus! {

/// Creating a note keeps the table well formed. The new note gets an id that
/// no note in the table has, every id handed out before is below it, and the
/// next id after it is larger still; deleting never lowers the next id. So no
/// id is returned by two creates.
pub proof fn lemma_created_id_fresh(t: TableView, p: CreateView, v: int)
    requires
        table_wf(t),
    ensures
        table_wf(insert_spec(t, p)),
        insert_spec(t, p).rows.last() == p.with_id(t.next_id),
        forall|i: int| 0 <= i < t.rows.len() ==> #[trigger] t.rows[i].id != t.next_id,
        insert_spec(t, p).next_id > t.next_id,
        remove_spec(t, v).next_id == t.next_id,
{
    let t2 = insert_spec(t, p);
    assert forall|i: int, j: int| 0 <= i < j < t2.rows.len() implies t2.rows[i].id
        < t2.rows[j].id by {
        if j == t.rows.len() {
            assert(1 <= t.rows[i].id < t.next_id);
        }
    }
    assert forall|i: int| 0 <= i < t2.rows.len() implies 1 <= #[trigger] t2.rows[i].id
        < t2.next_id by {
        if i < t.rows.len() {
            assert(1 <= t.rows[i].id < t.next_id);
        }
    }
}

/// Creating the notes of `ps` on an empty table and then listing gives
/// exactly those notes, each with the id it was given, the most recent first.
pub proof fn lemma_list_after_creates(ps: Seq<CreateView>)
    ensures
        list_spec(insert_all_spec(empty_table(), ps)) == Seq::new(
            ps.len(),
            |i: int| ps[ps.len() - 1 - i].with_id(ps.len() - i),
        ),
{
    lemma_rows_after_creates(ps);
    assert(list_spec(insert_all_spec(empty_table(), ps)) =~= Seq::new(
        ps.len(),
        |i: int| ps[ps.len() - 1 - i].with_id(ps.len() - i),
    ));
}

proof fn lemma_rows_after_creates(ps: Seq<CreateView>)
    ensures
        insert_all_spec(empty_table(), ps).rows == Seq::new(
            ps.len(),
            |i: int| ps[i].with_id(i + 1),
        ),
        insert_all_spec(empty_table(), ps).next_id == ps.len() + 1,
    decreases ps.len(),
{
    if ps.len() > 0 {
        lemma_rows_after_creates(ps.drop_last());
        assert(insert_all_spec(empty_table(), ps).rows =~= Seq::new(
            ps.len(),
            |i: int| ps[i].with_id(i + 1),
        ));
    } else {
        assert(insert_all_spec(empty_table(), ps).rows =~= Seq::new(
            ps.len(),
            |i: int| ps[i].with_id(i + 1),
        ));
    }
}

/// Listing an empty table gives no notes.
pub proof fn lemma_list_empty()
    ensures
        list_spec(empty_table()) == Seq::<NoteView>::empty(),
{
    assert(list_spec(empty_table()) =~= Seq::<NoteView>::empty());
}

/// After deleting by the catalog id `v`, a list holds exactly the notes that
/// were listed before and do not have catalog id `v`.
pub proof fn lemma_remove_exact(t: TableView, v: int, n: NoteView)
    ensures
        list_spec(remove_spec(t, v)).contains(n) <==> (list_spec(t).contains(n) && n.tmdb_id
            != v),
{
    broadcast use vstd::seq_lib::group_filter_ensures;

    let f = t.rows.filter(keep(v));
    lemma_reverse_contains(t.rows, n);
    lemma_reverse_contains(f, n);
    if f.contains(n) {
        t.rows.lemma_filter_contains_rev(keep(v), n);
        let i = choose|i: int| 0 <= i < f.len() && f[i] == n;
        assert(kept_by(f[i], v));
    }
    if t.rows.contains(n) && n.tmdb_id != v {
        let i = choose|i: int| 0 <= i < t.rows.len() && t.rows[i] == n;
        assert(kept_by(t.rows[i], v));
    }
}

proof fn lemma_reverse_contains(s: Seq<NoteView>, n: NoteView)
    ensures
        s.reverse().contains(n) <==> s.contains(n),
{
    if s.contains(n) {
        let i = choose|i: int| 0 <= i < s.len() && s[i] == n;
        assert(s.reverse()[s.len() - 1 - i] == n);
    }
    if s.reverse().contains(n) {
        let i = choose|i: int| 0 <= i < s.len() && s.reverse()[i] == n;
        assert(s[s.len() - 1 - i] == n);
    }
}

/// Deleting by a catalog id that no note has changes nothing.
pub proof fn lemma_remove_absent(t: TableView, v: int)
    requires
        forall|i: int| 0 <= i < t.rows.len() ==> #[trigger] t.rows[i].tmdb_id != v,
    ensures
        remove_spec(t, v) == t,
        list_spec(remove_spec(t, v)) == list_spec(t),
{
    lemma_filter_all_kept(t.rows, v);
}

proof fn lemma_filter_all_kept(s: Seq<NoteView>, v: int)
    requires
        forall|i: int| 0 <= i < s.len() ==> #[trigger] s[i].tmdb_id != v,
    ensures
        s.filter(keep(v)) == s,
    decreases s.len(),
{
    if s.len() == 0 {
        assert(s.filter(keep(v)) =~= s) by {
            reveal(Seq::filter);
        }
    } else {
        let r = s.drop_last();
        assert forall|i: int| 0 <= i < r.len() implies #[trigger] r[i].tmdb_id != v by {
            assert(s[i] == r[i]);
        }
        lemma_filter_all_kept(r, v);
        assert(r.push(s.last()) =~= s);
        r.lemma_filter_push(s.last(), keep(v));
    }
}

/// Two notes created with the same catalog id are both gone after a delete
/// by that catalog id.
pub proof fn lemma_same_catalog_id_removed(t: TableView, a: CreateView, b: CreateView)
    requires
        a.tmdb_id == b.tmdb_id,
    ensures
        ({
            let t2 = insert_spec(insert_spec(t, a), b);
            let after = list_spec(remove_spec(t2, a.tmdb_id));
            &&& !after.contains(a.with_id(t.next_id))
            &&& !after.contains(b.with_id(t.next_id + 1))
        }),
{
    let t2 = insert_spec(insert_spec(t, a), b);
    lemma_remove_exact(t2, a.tmdb_id, a.with_id(t.next_id));
    lemma_remove_exact(t2, a.tmdb_id, b.with_id(t.next_id + 1));
}

/// A note just created is the first one listed, holds exactly the submitted
/// fields, and is the only listed note with its id.
pub proof fn lemma_round_trip(t: TableView, p: CreateView)
    requires
        table_wf(t),
    ensures
        ({
            let listed = list_spec(insert_spec(t, p));
            &&& listed.len() > 0
            &&& listed[0] == p.with_id(t.next_id)
            &&& forall|i: int|
                0 <= i < listed.len() && (#[trigger] listed[i]).id == t.next_id ==> listed[i]
                    == p.with_id(t.next_id)
        }),
{
    let listed = list_spec(insert_spec(t, p));
    assert forall|i: int|
        0 <= i < listed.len() && (#[trigger] listed[i]).id == t.next_id implies listed[i]
        == p.with_id(t.next_id) by {
        if i > 0 {
            let k = t.rows.len() - i;
            assert(listed[i] == t.rows[k]);
            assert(1 <= t.rows[k].id < t.next_id);
        }
    }
}

} // verus!
