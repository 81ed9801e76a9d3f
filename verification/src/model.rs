use vstd::prelude::*;
use crate::num::dec_int;

verus! {

/// One stored task as the model sees it: its id, its text, and its
/// creation timestamp.
pub type SpecRow = (int, Seq<char>, Seq<char>);

/// Well-formedness of the task table: ids the store hands out start at 1,
/// every stored id is below the next id to be assigned, and no id occurs
/// twice.
pub open spec fn table_wf(rows: Seq<SpecRow>, next: int) -> bool {
    &&& next >= 1
    &&& forall|j: int| 0 <= j < rows.len() ==> 1 <= (#[trigger] rows[j]).0 < next
    &&& forall|j: int, k: int|
        0 <= j < rows.len() && 0 <= k < rows.len() && j != k ==> (#[trigger] rows[j]).0 != (
        #[trigger] rows[k]).0
}

/// The table after deleting id `id`: every row with that id is gone, the
/// rest keep their order.
pub open spec fn remove_id(rows: Seq<SpecRow>, id: int) -> Seq<SpecRow> {
    rows.filter(|r: SpecRow| r.0 != id)
}

/// One task rendered as a listing line: `<id>. <task> - <created_at>`.
pub open spec fn render_row(r: SpecRow) -> Seq<char> {
    dec_int(r.0) + ". "@ + r.1 + " - "@ + r.2
}

/// Every row of the table rendered, one line per row, in table order.
pub open spec fn render_all(rows: Seq<SpecRow>) -> Seq<Seq<char>> {
    rows.map_values(|r: SpecRow| render_row(r))
}

/// Every row that survives a deletion stood in the table before it.
proof fn lemma_remove_id_elem_of(rows: Seq<SpecRow>, id: int, i: int)
    requires
        0 <= i < remove_id(rows, id).len(),
    ensures
        exists|j: int| 0 <= j < rows.len() && rows[j] == remove_id(rows, id)[i],
    decreases rows.len(),
{
    reveal(Seq::filter);
    let d = rows.drop_last();
    let fd = remove_id(d, id);
    if rows.last().0 != id && i == remove_id(rows, id).len() - 1 {
        assert(rows[rows.len() - 1] == remove_id(rows, id)[i]);
    } else {
        lemma_remove_id_elem_of(d, id, i);
        let j = choose|j: int| 0 <= j < d.len() && d[j] == fd[i];
        assert(rows[j] == remove_id(rows, id)[i]);
    }
}

/// Deleting an id keeps the table well-formed, and does not advance the
/// next id: ids are never reused after a deletion.
pub proof fn lemma_remove_id_wf(rows: Seq<SpecRow>, next: int, id: int)
    requires
        table_wf(rows, next),
    ensures
        table_wf(remove_id(rows, id), next),
    decreases rows.len(),
{
    reveal(Seq::filter);
    if rows.len() > 0 {
        let d = rows.drop_last();
        assert(table_wf(d, next));
        lemma_remove_id_wf(d, next, id);
        let fd = remove_id(d, id);
        if rows.last().0 != id {
            assert forall|i: int| 0 <= i < fd.len() implies (#[trigger] fd[i]).0 != rows.last().0 by {
                lemma_remove_id_elem_of(d, id, i);
                let j = choose|j: int| 0 <= j < d.len() && d[j] == fd[i];
                assert(rows[j].0 != rows[rows.len() - 1].0);
            }
            assert(remove_id(rows, id) == fd.push(rows.last()));
        }
    }
}

/// Deleting the same id twice changes nothing the second time: the rows
/// that survive the first deletion all survive the second.
pub proof fn lemma_remove_id_idempotent(rows: Seq<SpecRow>, id: int)
    ensures
        remove_id(remove_id(rows, id), id) == remove_id(rows, id),
    decreases rows.len(),
{
    reveal(Seq::filter);
    if rows.len() == 0 {
        assert(remove_id(rows, id) == rows);
    } else {
        let d = rows.drop_last();
        lemma_remove_id_idempotent(d, id);
        let fd = remove_id(d, id);
        if rows.last().0 != id {
            assert(remove_id(rows, id) == fd.push(rows.last()));
            assert(fd.push(rows.last()).drop_last() =~= fd);
            assert(fd.push(rows.last()).last() == rows.last());
        }
    }
}

/// Adding a row under the next id uses an id no existing row has, keeps
/// the table well-formed under the advanced next id, and appends exactly
/// one rendered line — the new row's — to the listing.
pub proof fn lemma_add_fresh_and_listed(rows: Seq<SpecRow>, next: int, text: Seq<char>, ts: Seq<char>)
    requires
        table_wf(rows, next),
    ensures
        forall|j: int| 0 <= j < rows.len() ==> (#[trigger] rows[j]).0 != next,
        table_wf(rows.push((next, text, ts)), next + 1),
        render_all(rows.push((next, text, ts))) == render_all(rows).push(
            render_row((next, text, ts)),
        ),
        render_all(rows.push((next, text, ts))).contains(render_row((next, text, ts))),
{
    let grown = rows.push((next, text, ts));
    assert forall|j: int, k: int|
        0 <= j < grown.len() && 0 <= k < grown.len() && j != k implies (#[trigger] grown[j]).0 != (
    #[trigger] grown[k]).0 by {
        if j < rows.len() && k < rows.len() {
            assert(rows[j].0 != rows[k].0);
        }
    }
    assert(render_all(grown) =~= render_all(rows).push(render_row((next, text, ts))));
    assert(render_all(grown)[grown.len() - 1] == render_row((next, text, ts)));
}

} // verus!
