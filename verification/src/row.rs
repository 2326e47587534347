use vstd::prelude::*;

verus! {

/// The number a table gives each row it appends; the first row of a new
/// table gets 1, each later row the next number.
pub type EventId = u32;

/// A row as a client hands it in, before the table has numbered it.
#[derive(Clone, Debug, PartialEq, Eq)]
pub struct RowWithoutEventId {
    pub id: Option<u128>,
    pub type_: String,
    pub payload: Vec<u8>,
}

impl RowWithoutEventId {
    pub fn new(id: Option<u128>, type_: String, payload: Vec<u8>) -> (row: Self)
        ensures
            row.id == id,
            row.type_ == type_,
            row.payload == payload,
    {
        Self { id, type_, payload }
    }
}

/// A row as a table stores it: the client's row and its event id.
#[derive(Clone, Debug, PartialEq, Eq)]
pub struct Row {
    pub id: Option<u128>,
    pub type_: String,
    pub payload: Vec<u8>,
    pub event_id: EventId,
}

/// The stored form of `row` under `event_id`.
pub open spec fn numbered(row: RowWithoutEventId, event_id: EventId) -> Row {
    Row { id: row.id, type_: row.type_, payload: row.payload, event_id }
}

/// Stamps `row` with `event_id`, keeping every other field.
pub fn add_event_id(row: RowWithoutEventId, event_id: EventId) -> (stored: Row)
    ensures
        stored == numbered(row, event_id),
        stored.id == row.id,
        stored.type_ == row.type_,
        stored.payload == row.payload,
        stored.event_id == event_id,
{
    Row { id: row.id, type_: row.type_, payload: row.payload, event_id }
}

} // verus!
