use vstd::prelude::*;

use crate::row::{EventId, RowWithoutEventId};
use crate::table::{ids_from, Table, TableView};

verus! {

/// Appends one row to a table.
pub struct AppendRow {
    pub table: u128,
    pub row: RowWithoutEventId,
}

impl AppendRow {
    pub fn new(table: u128, row: RowWithoutEventId) -> (request: Self)
        ensures
            request.table == table,
            request.row == row,
    {
        Self { table, row }
    }
}

/// Appends several rows to a table, in order.
pub struct AppendRows {
    pub table: u128,
    pub rows: Vec<RowWithoutEventId>,
}

impl AppendRows {
    pub fn new(table: u128, rows: Vec<RowWithoutEventId>) -> (request: Self)
        ensures
            request.table == table,
            request.rows == rows,
    {
        Self { table, rows }
    }
}

/// Reads all rows of a table.
pub struct RowsRequest {
    pub table: u128,
}

impl RowsRequest {
    pub fn new(table: u128) -> (request: Self)
        ensures
            request.table == table,
    {
        Self { table }
    }
}

/// Creates a table.
pub struct CreateTable {
    pub table: u128,
}

/// What a client can ask of the database.
pub enum Request {
    AppendRow(AppendRow),
    AppendRows(AppendRows),
    Rows(RowsRequest),
}

impl Request {
    /// The table a request addresses.
    pub open spec fn addressed_table(&self) -> u128 {
        match self {
            Request::AppendRow(r) => r.table,
            Request::AppendRows(r) => r.table,
            Request::Rows(r) => r.table,
        }
    }

    /// Whether a request changes the table it addresses.
    pub open spec fn writes(&self) -> bool {
        !(self is Rows)
    }

    /// The table a request addresses.
    pub fn table(&self) -> (table: u128)
        ensures
            table == self.addressed_table(),
            self matches Request::AppendRow(r) ==> table == r.table,
            self matches Request::AppendRows(r) ==> table == r.table,
            self matches Request::Rows(r) ==> table == r.table,
    {
        match self {
            Request::AppendRow(r) => r.table,
            Request::AppendRows(r) => r.table,
            Request::Rows(r) => r.table,
        }
    }

    /// Whether a request changes the table it addresses (and so needs it
    /// for writing), rather than only reading it.
    pub fn is_write(&self) -> (write: bool)
        ensures
            write == self.writes(),
            write == !(self is Rows),
    {
        match self {
            Request::Rows(_) => false,
            _ => true,
        }
    }

    /// Whether the table `t` has event ids left for every row the request
    /// would append to it.
    pub open spec fn fits(&self, t: TableView) -> bool {
        match self {
            Request::AppendRow(_) => t.next_event_id < EventId::MAX,
            Request::AppendRows(r) => t.next_event_id + r.rows@.len() <= EventId::MAX,
            Request::Rows(_) => true,
        }
    }

    /// Whether the table a request would be applied to has event ids left
    /// for every row the request appends.
    pub fn fits_in(&self, table: &Table) -> (fits: bool)
        ensures
            fits == self.fits(table@),
            self is AppendRow ==> (fits <==> table.next_event_id < EventId::MAX),
            self matches Request::AppendRows(r) ==> (fits <==> table.next_event_id + r.rows@.len()
                <= EventId::MAX),
            self is Rows ==> fits,
    {
        match self {
            Request::AppendRow(_) => table.next_event_id < EventId::MAX,
            Request::AppendRows(r) => r.rows.len() <= (EventId::MAX - table.next_event_id) as usize,
            Request::Rows(_) => true,
        }
    }
}

impl From<AppendRow> for Request {
    fn from(value: AppendRow) -> (request: Self) {
        Request::AppendRow(value)
    }
}

impl vstd::std_specs::convert::FromSpecImpl<AppendRow> for Request {
    open spec fn obeys_from_spec() -> bool {
        true
    }

    open spec fn from_spec(v: AppendRow) -> Request {
        Request::AppendRow(v)
    }
}

impl From<AppendRows> for Request {
    fn from(value: AppendRows) -> (request: Self) {
        Request::AppendRows(value)
    }
}

impl vstd::std_specs::convert::FromSpecImpl<AppendRows> for Request {
    open spec fn obeys_from_spec() -> bool {
        true
    }

    open spec fn from_spec(v: AppendRows) -> Request {
        Request::AppendRows(v)
    }
}

impl From<RowsRequest> for Request {
    fn from(value: RowsRequest) -> (request: Self) {
        Request::Rows(value)
    }
}

impl vstd::std_specs::convert::FromSpecImpl<RowsRequest> for Request {
    open spec fn obeys_from_spec() -> bool {
        true
    }

    open spec fn from_spec(v: RowsRequest) -> Request {
        Request::Rows(v)
    }
}

/// What the database answers: the event id of an appended row, the event
/// ids of appended rows, or the rows of a table (held in whatever form `R`
/// the caller reads them through).
pub enum Response<R> {
    AppendRow(EventId),
    AppendRows(Vec<EventId>),
    Rows(R),
}

impl<R> Response<R> {
    /// The event id of the appended row.
    pub fn as_append_row(&self) -> (event_id: EventId)
        requires
            self is AppendRow,
        ensures
            event_id == self->AppendRow_0,
    {
        match self {
            Response::AppendRow(event_id) => *event_id,
            _ => vstd::pervasive::unreached(),
        }
    }

    /// The event ids of the appended rows, in the order of the rows.
    pub fn as_append_rows(&self) -> (event_ids: &[EventId])
        requires
            self is AppendRows,
        ensures
            event_ids@ == self->AppendRows_0@,
    {
        match self {
            Response::AppendRows(event_ids) => event_ids.as_slice(),
            _ => vstd::pervasive::unreached(),
        }
    }

    /// The rows of the table that was read.
    pub fn as_rows(&self) -> (rows: &R)
        requires
            self is Rows,
        ensures
            *rows == self->Rows_0,
    {
        match self {
            Response::Rows(rows) => rows,
            _ => vstd::pervasive::unreached(),
        }
    }
}

/// Carries out a request that writes, on the table it addresses: appends
/// its row, or its rows in order, and answers with the event id, or event
/// ids, they were stored under.
pub fn apply_write<R>(request: Request, table: &mut Table) -> (response: Response<R>)
    requires
        request.writes(),
        request.fits(old(table)@),
    ensures
        match request {
            Request::AppendRow(r) => {
                &&& response == Response::<R>::AppendRow(old(table)@.next_event_id as EventId)
                &&& final(table)@ == old(table)@.append(r.row)
            },
            Request::AppendRows(r) => {
                &&& response matches Response::AppendRows(ids)
                &&& ids@ == ids_from(old(table)@.next_event_id, r.rows@.len())
                &&& final(table)@ == old(table)@.append_all(r.rows@)
            },
            Request::Rows(_) => false,
        },
{
    match request {
        Request::AppendRow(append_row) => {
            let event_id: EventId = table.append(append_row.row);
            Response::AppendRow(event_id)
        },
        Request::AppendRows(append_rows) => {
            let event_ids = table.append_multiple(append_rows.rows);
            Response::AppendRows(event_ids)
        },
        Request::Rows(_) => vstd::pervasive::unreached(),
    }
}

} // verus!
