use rkyv::{rancor, string::ArchivedString, vec::ArchivedVec};

use brunhilde::{
    apply_write, AppendRow, AppendRows, Request, Response, RowWithoutEventId, RowsRequest, Table,
};

const TABLE_ID: u128 = 0x936d_a01f_9abd_4d9d_80c7_02af_85c8_22a8;

fn read(request: Request, table: &Table) -> Vec<brunhilde::Row> {
    assert!(!request.is_write());
    assert_eq!(request.table(), table.id);
    table.read_all().to_vec()
}

#[test]
fn test_create_table() {
    let mut table = Table::brand_new(TABLE_ID);
    let row_id: u128 = 0x550e_8400_e29b_41d4_a716_4466_5544_0000;
    let payload: Vec<String> = vec!["foo".to_owned(), "bar".to_owned()];
    let response: Response<()> = apply_write(
        AppendRow::new(
            TABLE_ID,
            RowWithoutEventId::new(
                Some(row_id),
                "INSERT_FOO".to_owned(),
                rkyv::to_bytes::<rancor::Error>(&payload).unwrap().into_vec(),
            ),
        )
        .into(),
        &mut table,
    );
    let event_id = response.as_append_row();
    let rows = read(RowsRequest::new(TABLE_ID).into(), &table);
    assert_eq!(rows.len(), 1);
    assert_eq!(rows[0].id, Some(row_id));
    assert_eq!(rows[0].type_, "INSERT_FOO".to_owned());
    assert_eq!(
        rkyv::access::<ArchivedVec<ArchivedString>, rancor::Error>(&rows[0].payload).unwrap(),
        payload.as_slice()
    );
    assert_eq!(rows[0].event_id, event_id);
}

#[test]
fn test_append_rows() {
    let mut table = Table::brand_new(TABLE_ID);
    let rows = vec![
        RowWithoutEventId::new(
            None,
            "INSERT_FOO".to_owned(),
            rkyv::to_bytes::<rancor::Error>(&vec!["foo".to_owned(), "bar".to_owned()])
                .unwrap()
                .into_vec(),
        ),
        RowWithoutEventId::new(
            None,
            "UPDATE_FOO".to_owned(),
            rkyv::to_bytes::<rancor::Error>(&vec!["baz".to_owned(), "quux".to_owned()])
                .unwrap()
                .into_vec(),
        ),
        RowWithoutEventId::new(
            Some(0x6ba7_b810_9dad_11d1_80b4_00c0_4fd4_30c8),
            "SOMETHING_ELSE".to_owned(),
            rkyv::to_bytes::<rancor::Error>(&"whee".to_owned())
                .unwrap()
                .into_vec(),
        ),
    ];
    let response: Response<()> =
        apply_write(AppendRows::new(TABLE_ID, rows.clone()).into(), &mut table);
    let event_ids = response.as_append_rows();
    let response_rows = read(RowsRequest::new(TABLE_ID).into(), &table);
    assert_eq!(response_rows.len(), 3);
    assert_eq!(response_rows[0].id, None);
    assert_eq!(response_rows[0].type_, "INSERT_FOO".to_owned());
    assert_eq!(
        rkyv::access::<ArchivedVec<ArchivedString>, rancor::Error>(&response_rows[0].payload)
            .unwrap(),
        vec!["foo".to_owned(), "bar".to_owned()].as_slice(),
    );
    assert_eq!(response_rows[0].event_id, event_ids[0]);
    assert_eq!(response_rows[2].id, Some(rows[2].id.unwrap()));
}

#[test]
fn requests_name_their_table_and_kind() {
    let row = RowWithoutEventId::new(None, "T".to_owned(), vec![]);
    let append: Request = AppendRow::new(7, row.clone()).into();
    let appends: Request = AppendRows::new(8, vec![row]).into();
    let rows: Request = RowsRequest::new(9).into();
    assert_eq!(append.table(), 7);
    assert_eq!(appends.table(), 8);
    assert_eq!(rows.table(), 9);
    assert!(append.is_write());
    assert!(appends.is_write());
    assert!(!rows.is_write());
    assert!(matches!(append, Request::AppendRow(ref r) if r.table == 7));
    assert!(matches!(rows, Request::Rows(ref r) if r.table == 9));
}

#[test]
fn requests_fit_while_event_ids_remain() {
    let row = RowWithoutEventId::new(None, "T".to_owned(), vec![]);
    let full = Table::new_from_disk(
        1,
        vec![brunhilde::add_event_id(row.clone(), u32::MAX - 2)],
    );
    assert_eq!(full.get_next_event_id(), u32::MAX - 1);
    let one: Request = AppendRow::new(1, row.clone()).into();
    let two: Request = AppendRows::new(1, vec![row.clone(), row.clone()]).into();
    let three: Request = AppendRows::new(1, vec![row.clone(), row.clone(), row.clone()]).into();
    assert!(one.fits_in(&full));
    assert!(!two.fits_in(&full));
    assert!(!three.fits_in(&full));
    let reading: Request = RowsRequest::new(1).into();
    assert!(reading.fits_in(&full));
    let single: Request = AppendRows::new(1, vec![row]).into();
    assert!(single.fits_in(&full));
}

#[test]
fn responses_give_back_what_they_hold() {
    let a: Response<Vec<u8>> = Response::AppendRow(5);
    assert_eq!(a.as_append_row(), 5);
    let b: Response<Vec<u8>> = Response::AppendRows(vec![3, 4]);
    assert_eq!(b.as_append_rows(), &[3, 4]);
    let c: Response<Vec<u8>> = Response::Rows(vec![1, 2]);
    assert_eq!(c.as_rows(), &vec![1, 2]);
}

#[test]
fn apply_write_numbers_rows_from_the_next_event_id() {
    let mut table = Table::brand_new(TABLE_ID);
    let r = |t: &str| RowWithoutEventId::new(None, t.to_owned(), t.as_bytes().to_vec());
    let first: Response<()> = apply_write(AppendRow::new(TABLE_ID, r("a")).into(), &mut table);
    assert_eq!(first.as_append_row(), 1);
    let rest: Response<()> =
        apply_write(AppendRows::new(TABLE_ID, vec![r("b"), r("c")]).into(), &mut table);
    assert_eq!(rest.as_append_rows(), &[2, 3]);
    let types: Vec<&str> = table.read_all().iter().map(|row| row.type_.as_str()).collect();
    assert_eq!(types, vec!["a", "b", "c"]);
    assert_eq!(table.get_next_event_id(), 4);
}
