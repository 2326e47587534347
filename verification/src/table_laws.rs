use vstd::prelude::*;

use crate::row::{numbered, EventId, RowWithoutEventId};
use crate::table::{ids_from, increasing, next_after, numbered_from, Table, TableView};

verus! {

/// Appending rows one after another stores them numbered in order from the
/// table's next event id, after the rows it already held, and moves the next
/// event id on by the number of rows.
pub proof fn lemma_append_all_numbers_in_order(t: TableView, rows: Seq<RowWithoutEventId>)
    ensures
        t.append_all(rows) == (TableView {
            id: t.id,
            next_event_id: t.next_event_id + rows.len(),
            rows: t.rows + numbered_from(rows, t.next_event_id),
        }),
    decreases rows.len(),
{
    if rows.len() > 0 {
        lemma_append_all_numbers_in_order(t, rows.drop_last());
        assert(t.rows + numbered_from(rows, t.next_event_id) =~= (t.rows + numbered_from(
            rows.drop_last(),
            t.next_event_id,
        )).push(crate::row::numbered(rows.last(), (t.next_event_id + rows.len() - 1) as EventId)));
    }
}

/// Appending `a` and then `b` leaves the table as appending `a + b` at once.
pub proof fn lemma_append_all_in_two_batches(
    t: TableView,
    a: Seq<RowWithoutEventId>,
    b: Seq<RowWithoutEventId>,
)
    ensures
        t.append_all(a + b) == t.append_all(a).append_all(b),
{
    lemma_append_all_numbers_in_order(t, a + b);
    lemma_append_all_numbers_in_order(t, a);
    lemma_append_all_numbers_in_order(t.append_all(a), b);
    assert(numbered_from(a + b, t.next_event_id) =~= numbered_from(a, t.next_event_id)
        + numbered_from(b, t.next_event_id + a.len()));
    assert(t.rows + numbered_from(a + b, t.next_event_id) =~= (t.rows + numbered_from(
        a,
        t.next_event_id,
    )) + numbered_from(b, t.next_event_id + a.len()));
}

/// The event ids handed out for a batch are those its rows are stored under,
/// in the same order.
pub proof fn lemma_batch_ids_are_stored_ids(t: TableView, rows: Seq<RowWithoutEventId>)
    requires
        0 <= t.next_event_id,
        t.next_event_id + rows.len() <= EventId::MAX,
    ensures
        forall|i: int|
            0 <= i < rows.len() ==> {
                &&& #[trigger] t.append_all(rows).rows[t.rows.len() + i].event_id == ids_from(
                    t.next_event_id,
                    rows.len(),
                )[i]
                &&& t.append_all(rows).rows[t.rows.len() + i].event_id == t.next_event_id + i
            },
{
    lemma_append_all_numbers_in_order(t, rows);
}

/// Appending a row to a well-formed table, while event ids remain, keeps it
/// well-formed.
pub proof fn lemma_append_keeps_well_formed(t: TableView, row: RowWithoutEventId)
    requires
        t.well_formed(),
        t.next_event_id < EventId::MAX,
    ensures
        t.append(row).well_formed(),
{
    let r = t.append(row).rows;
    assert forall|i: int, j: int| 0 <= i < j < r.len() implies #[trigger] r[i].event_id
        < #[trigger] r[j].event_id by {
        if j == r.len() - 1 && i < t.rows.len() {
            assert(t.rows[i].event_id <= t.rows.last().event_id);
        }
    }
}

/// Appending a batch to a well-formed table, while event ids remain, keeps it
/// well-formed.
pub proof fn lemma_append_all_keeps_well_formed(t: TableView, rows: Seq<RowWithoutEventId>)
    requires
        t.well_formed(),
        t.next_event_id + rows.len() <= EventId::MAX,
    ensures
        t.append_all(rows).well_formed(),
    decreases rows.len(),
{
    if rows.len() > 0 {
        lemma_append_all_keeps_well_formed(t, rows.drop_last());
        lemma_append_all_numbers_in_order(t, rows.drop_last());
        lemma_append_keeps_well_formed(t.append_all(rows.drop_last()), rows.last());
    }
}

/// A table that started empty and was only appended to numbers its rows
/// 1, 2, 3, ... in order, and stays so after one more append.
pub proof fn lemma_append_keeps_dense(t: TableView, row: RowWithoutEventId)
    requires
        t.dense(),
        t.next_event_id < EventId::MAX,
    ensures
        t.append(row).dense(),
{
}

/// In a well-formed table no two rows share an event id.
pub proof fn lemma_event_ids_unique(t: TableView)
    requires
        t.well_formed(),
    ensures
        forall|i: int, j: int|
            0 <= i < t.rows.len() && 0 <= j < t.rows.len() && i != j ==> t.rows[i].event_id
                != t.rows[j].event_id,
{
    assert forall|i: int, j: int|
        0 <= i < t.rows.len() && 0 <= j < t.rows.len() && i != j implies t.rows[i].event_id
        != t.rows[j].event_id by {
        if i < j {
            assert(t.rows[i].event_id < t.rows[j].event_id);
        } else {
            assert(t.rows[j].event_id < t.rows[i].event_id);
        }
    }
}

/// A well-formed table, stored and read back from its rows, can be rebuilt
/// (its last event id leaves room for the next) and resumes at the same next
/// event id, with the same rows, well-formed again.
pub proof fn lemma_reload_resumes(t: &Table)
    requires
        t@.well_formed(),
    ensures
        t@.rows.len() > 0 ==> t@.rows.last().event_id < EventId::MAX,
        next_after(t@.rows) == t@.next_event_id,
        increasing(t@.rows),
{
}

/// A stored row is the client's row unchanged but for the event id it is
/// stamped with.
pub proof fn lemma_numbered_keeps_the_row(row: RowWithoutEventId, event_id: EventId)
    ensures
        numbered(row, event_id).id == row.id,
        numbered(row, event_id).type_ == row.type_,
        numbered(row, event_id).payload == row.payload,
        numbered(row, event_id).event_id == event_id,
{
}

/// Appending a row keeps every row already stored and the table's id, adds
/// one row at the end that is the client's row (its id, type and payload)
/// under the table's next event id, and moves the next event id on by one.
pub proof fn lemma_append_adds_the_row_at_the_end(t: TableView, row: RowWithoutEventId)
    requires
        0 <= t.next_event_id <= EventId::MAX,
    ensures
        t.append(row).id == t.id,
        t.append(row).next_event_id == t.next_event_id + 1,
        t.append(row).rows.len() == t.rows.len() + 1,
        forall|i: int| 0 <= i < t.rows.len() ==> #[trigger] t.append(row).rows[i] == t.rows[i],
        t.append(row).rows[t.rows.len() as int].id == row.id,
        t.append(row).rows[t.rows.len() as int].type_ == row.type_,
        t.append(row).rows[t.rows.len() as int].payload == row.payload,
        t.append(row).rows[t.rows.len() as int].event_id == t.next_event_id,
{
}

/// Appending a batch keeps every row already stored and the table's id,
/// adds the batch's rows after them in the batch's order, each the client's
/// row under the next event id plus its position, and moves the next event
/// id on by the batch's size.
pub proof fn lemma_append_all_adds_the_rows_in_order(t: TableView, rows: Seq<RowWithoutEventId>)
    requires
        0 <= t.next_event_id,
        t.next_event_id + rows.len() <= EventId::MAX,
    ensures
        t.append_all(rows).id == t.id,
        t.append_all(rows).next_event_id == t.next_event_id + rows.len(),
        t.append_all(rows).rows.len() == t.rows.len() + rows.len(),
        forall|i: int| 0 <= i < t.rows.len() ==> #[trigger] t.append_all(rows).rows[i] == t.rows[i],
        forall|i: int|
            0 <= i < rows.len() ==> {
                let stored = #[trigger] t.append_all(rows).rows[t.rows.len() + i];
                &&& stored.id == rows[i].id
                &&& stored.type_ == rows[i].type_
                &&& stored.payload == rows[i].payload
                &&& stored.event_id == t.next_event_id + i
            },
{
    lemma_append_all_numbers_in_order(t, rows);
    assert forall|i: int| 0 <= i < t.rows.len() implies #[trigger] t.append_all(rows).rows[i]
        == t.rows[i] by {
        assert((t.rows + numbered_from(rows, t.next_event_id))[i] == t.rows[i]);
    }
    assert forall|i: int| 0 <= i < rows.len() implies {
        let stored = #[trigger] t.append_all(rows).rows[t.rows.len() + i];
        &&& stored.id == rows[i].id
        &&& stored.type_ == rows[i].type_
        &&& stored.payload == rows[i].payload
        &&& stored.event_id == t.next_event_id + i
    } by {
        assert((t.rows + numbered_from(rows, t.next_event_id))[t.rows.len() + i] == numbered_from(
            rows,
            t.next_event_id,
        )[i]);
    }
}

/// The event ids of a batch count up by one from the first, one per row.
pub proof fn lemma_ids_count_up(first: int, n: nat)
    requires
        0 <= first,
        first + n <= EventId::MAX + 1,
    ensures
        ids_from(first, n).len() == n,
        forall|i: int| 0 <= i < n ==> #[trigger] ids_from(first, n)[i] == first + i,
{
}

/// A table read back from rows resumes one past the last row's event id, or
/// at 1 when there are no rows.
pub proof fn lemma_next_after_last_row(rows: Seq<crate::row::Row>)
    ensures
        rows.len() == 0 ==> next_after(rows) == 1,
        rows.len() > 0 ==> next_after(rows) == rows[rows.len() - 1].event_id + 1,
{
}

} // verus!
