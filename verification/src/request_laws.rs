use vstd::prelude::*;

use crate::request::{AppendRow, AppendRows, Request, RowsRequest};
use crate::row::EventId;
use crate::table::TableView;
use vstd::std_specs::convert::FromSpec;

verus! {

/// A request addresses exactly the table named in what it was built from,
/// whether built directly or through `From`, for every 128-bit table id.
pub proof fn lemma_request_addresses_its_table(a: AppendRow, b: AppendRows, c: RowsRequest)
    ensures
        Request::AppendRow(a).addressed_table() == a.table,
        Request::AppendRows(b).addressed_table() == b.table,
        Request::Rows(c).addressed_table() == c.table,
        <Request as FromSpec<AppendRow>>::from_spec(a) == Request::AppendRow(a),
        <Request as FromSpec<AppendRows>>::from_spec(b) == Request::AppendRows(b),
        <Request as FromSpec<RowsRequest>>::from_spec(c) == Request::Rows(c),
        <Request as FromSpec<AppendRow>>::from_spec(a).addressed_table() == a.table,
        <Request as FromSpec<AppendRows>>::from_spec(b).addressed_table() == b.table,
        <Request as FromSpec<RowsRequest>>::from_spec(c).addressed_table() == c.table,
{
}

/// Every request that appends writes, one row or a batch of any size; only
/// a request for the rows of a table does not.
pub proof fn lemma_only_reads_do_not_write(request: Request, a: AppendRow, b: AppendRows, c: RowsRequest)
    ensures
        request.writes() <==> !(request is Rows),
        Request::AppendRow(a).writes(),
        Request::AppendRows(b).writes(),
        !Request::Rows(c).writes(),
{
}

/// A request fits a table exactly when the table has an event id left for
/// each row the request appends: one for a single row, one per row for a
/// batch, none for a read; how many rows the table already holds plays no
/// part.
pub proof fn lemma_fits_when_event_ids_remain(request: Request, t: TableView)
    ensures
        request is AppendRow ==> (request.fits(t) <==> t.next_event_id < EventId::MAX),
        request matches Request::AppendRows(r) ==> (request.fits(t) <==> t.next_event_id
            + r.rows@.len() <= EventId::MAX),
        request is Rows ==> request.fits(t),
        forall|rows: Seq<crate::row::Row>|
            request.fits(t) == request.fits(TableView { rows: rows, ..t }),
{
}

} // verus!
