use vstd::prelude::*;

use crate::row::{add_event_id, numbered, EventId, Row, RowWithoutEventId};
use crate::table_laws::{
    lemma_append_all_keeps_well_formed, lemma_append_all_numbers_in_order,
    lemma_append_adds_the_row_at_the_end, lemma_append_keeps_well_formed, lemma_ids_count_up,
};

verus! {

/// The rows of a table stand in strictly increasing event-id order.
pub open spec fn increasing(rows: Seq<Row>) -> bool {
    forall|i: int, j: int| 0 <= i < j < rows.len() ==> #[trigger] rows[i].event_id < #[trigger] rows[j].event_id
}

/// The event id a table holding `rows` hands out next: one past the last
/// row's, or 1 for a table with no rows.
pub open spec fn next_after(rows: Seq<Row>) -> int {
    if rows.len() == 0 {
        1
    } else {
        rows.last().event_id + 1
    }
}

/// `rows`, numbered in order from `first` on.
pub open spec fn numbered_from(rows: Seq<RowWithoutEventId>, first: int) -> Seq<Row> {
    Seq::new(rows.len(), |i: int| numbered(rows[i], (first + i) as EventId))
}

/// The event ids `first`, `first + 1`, ... , `n` of them.
pub open spec fn ids_from(first: int, n: nat) -> Seq<EventId> {
    Seq::new(n, |i: int| (first + i) as EventId)
}

/// What a table is: its id, the event id it hands out next, and its rows in
/// the order they were appended.
pub struct TableView {
    pub id: u128,
    pub next_event_id: int,
    pub rows: Seq<Row>,
}

impl TableView {
    /// The table after `row` is appended: the row is stored under the next
    /// event id, and the next event id moves on by one.
    pub open spec fn append(self, row: RowWithoutEventId) -> TableView {
        TableView {
            id: self.id,
            next_event_id: self.next_event_id + 1,
            rows: self.rows.push(numbered(row, self.next_event_id as EventId)),
        }
    }

    /// The table after each of `rows` is appended in turn.
    pub open spec fn append_all(self, rows: Seq<RowWithoutEventId>) -> TableView
        decreases rows.len(),
    {
        if rows.len() == 0 {
            self
        } else {
            self.append_all(rows.drop_last()).append(rows.last())
        }
    }

    /// The next event id follows the last row's, and the rows' event ids
    /// increase strictly.
    pub open spec fn well_formed(self) -> bool {
        &&& increasing(self.rows)
        &&& self.next_event_id == next_after(self.rows)
    }

    /// Every row's event id is its position counted from 1, as in a table
    /// that was created empty and only appended to.
    pub open spec fn dense(self) -> bool {
        &&& forall|i: int| 0 <= i < self.rows.len() ==> #[trigger] self.rows[i].event_id == i + 1
        &&& self.next_event_id == self.rows.len() + 1
    }
}

/// A table of rows, each stamped with the event id it was appended under.
pub struct Table {
    pub id: u128,
    pub next_event_id: EventId,
    pub rows: Vec<Row>,
}

impl View for Table {
    type V = TableView;

    open spec fn view(&self) -> TableView {
        TableView { id: self.id, next_event_id: self.next_event_id as int, rows: self.rows@ }
    }
}

impl Table {
    /// A table as it is read back from its file: `rows` in the order they
    /// were stored, and the next event id one past the last row's (1 when
    /// there is none).
    pub fn new_from_disk(id: u128, rows: Vec<Row>) -> (table: Self)
        requires
            rows@.len() > 0 ==> rows@.last().event_id < EventId::MAX,
        ensures
            table@.id == id,
            table@.rows == rows@,
            table@.next_event_id == next_after(rows@),
            rows@.len() == 0 ==> table.next_event_id == 1,
            rows@.len() > 0 ==> table.next_event_id == rows@.last().event_id + 1,
            table@.well_formed() <==> increasing(rows@),
    {
        let next_event_id: EventId = if rows.len() == 0 {
            1
        } else {
            rows[rows.len() - 1].event_id + 1
        };
        Self { id, next_event_id, rows }
    }

    /// A new table with no rows; its first row gets event id 1.
    pub fn brand_new(id: u128) -> (table: Self)
        ensures
            table@ == (TableView { id, next_event_id: 1, rows: Seq::empty() }),
            table@.well_formed(),
            table@.dense(),
    {
        Self { id, next_event_id: 1, rows: Vec::new() }
    }

    /// The event id the next appended row gets.
    pub fn get_next_event_id(&self) -> (next: EventId)
        ensures
            next == self@.next_event_id,
    {
        self.next_event_id
    }

    /// All rows, in the order they were appended.
    pub fn read_all(&self) -> (rows: &[Row])
        ensures
            rows@ == self@.rows,
    {
        self.rows.as_slice()
    }

    /// Appends `row` under the next event id and returns that id.
    pub fn append(&mut self, row: RowWithoutEventId) -> (event_id: EventId)
        requires
            old(self).next_event_id < EventId::MAX,
        ensures
            event_id == old(self).next_event_id,
            final(self)@ == old(self)@.append(row),
            final(self).id == old(self).id,
            final(self).next_event_id == old(self).next_event_id + 1,
            final(self)@.rows.drop_last() == old(self)@.rows,
            final(self)@.rows.last().id == row.id,
            final(self)@.rows.last().type_ == row.type_,
            final(self)@.rows.last().payload == row.payload,
            final(self)@.rows.last().event_id == event_id,
            old(self)@.well_formed() ==> final(self)@.well_formed(),
            old(self)@.dense() ==> final(self)@.dense(),
    {
        proof {
            lemma_append_adds_the_row_at_the_end(self@, row);
            assert(self@.append(row).rows.drop_last() =~= self@.rows);
            if self@.well_formed() {
                lemma_append_keeps_well_formed(self@, row);
            }
        }
        let event_id: EventId = self.next_event_id;
        let row = add_event_id(row, event_id);
        self.rows.push(row);
        self.next_event_id = self.next_event_id + 1;
        event_id
    }

    /// Appends each of `rows` in turn, numbering them from the next event
    /// id on, and returns their event ids in the same order.
    pub fn append_multiple(&mut self, rows: Vec<RowWithoutEventId>) -> (event_ids: Vec<EventId>)
        requires
            old(self).next_event_id + rows@.len() <= EventId::MAX,
        ensures
            event_ids@ == ids_from(old(self).next_event_id as int, rows@.len()),
            event_ids@.len() == rows@.len(),
            forall|i: int|
                0 <= i < rows@.len() ==> #[trigger] event_ids@[i] == old(self).next_event_id + i,
            final(self)@ == old(self)@.append_all(rows@),
            final(self)@.rows == old(self)@.rows + numbered_from(rows@, old(self)@.next_event_id),
            final(self)@.next_event_id == old(self)@.next_event_id + rows@.len(),
            old(self)@.well_formed() ==> final(self)@.well_formed(),
    {
        let ghost start = self@;
        let ghost all = rows@;
        let mut event_ids: Vec<EventId> = Vec::new();
        for row in it: rows
            invariant
                it.seq() == all,
                start.next_event_id + all.len() <= EventId::MAX,
                self@ == start.append_all(all.take(it.index())),
                self@.next_event_id == start.next_event_id + it.index(),
                event_ids@ == ids_from(start.next_event_id, it.index() as nat),
        {
            proof {
                assert(all.take(it.index() + 1).drop_last() == all.take(it.index()));
            }
            let event_id: EventId = self.append(row);
            event_ids.push(event_id);
            proof {
                assert(event_ids@ =~= ids_from(start.next_event_id, (it.index() + 1) as nat));
            }
        }
        proof {
            assert(all.take(all.len() as int) == all);
            lemma_append_all_numbers_in_order(start, all);
            lemma_ids_count_up(start.next_event_id, all.len());
            if start.well_formed() {
                lemma_append_all_keeps_well_formed(start, all);
            }
        }
        event_ids
    }
}

} // verus!
