//! An append-only event store: tables of rows, each row stamped with the
//! event id that the table hands out when the row is appended.

pub mod frame;
pub mod request;
pub mod row;
pub mod sender;
pub mod table;
pub mod table_id;
pub mod table_laws;

pub use request::{
    apply_write, AppendRow, AppendRows, CreateTable, Request, Response, RowsRequest,
};
pub use row::{add_event_id, EventId, Row, RowWithoutEventId};
pub use sender::Sender;
pub use table::Table;
pub mod request_laws;
