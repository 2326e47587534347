use brunhilde::table_id::{table_file_name, table_id_from_file_name};

#[test]
fn file_name_is_hyphenated_lowercase() {
    assert_eq!(
        table_file_name(0x936d_a01f_9abd_4d9d_80c7_02af_85c8_22a8),
        "936da01f-9abd-4d9d-80c7-02af85c822a8"
    );
    assert_eq!(table_file_name(0), "00000000-0000-0000-0000-000000000000");
    assert_eq!(table_file_name(u128::MAX), "ffffffff-ffff-ffff-ffff-ffffffffffff");
}

#[test]
fn file_name_gives_back_its_table() {
    for id in [0u128, 1, 0x936d_a01f_9abd_4d9d_80c7_02af_85c8_22a8, u128::MAX] {
        assert_eq!(table_id_from_file_name(&table_file_name(id)), Some(id));
    }
}

#[test]
fn other_names_are_no_table() {
    assert_eq!(table_id_from_file_name("tables"), None);
    assert_eq!(table_id_from_file_name(""), None);
    assert_eq!(table_id_from_file_name("936da01f-9abd-4d9d-80c7-02af85c822ag"), None);
}

#[test]
fn other_uuid_forms_parse() {
    let id = 0x936d_a01f_9abd_4d9d_80c7_02af_85c8_22a8;
    assert_eq!(table_id_from_file_name("936DA01F-9ABD-4D9D-80C7-02AF85C822A8"), Some(id));
    assert_eq!(table_id_from_file_name("936da01f9abd4d9d80c702af85c822a8"), Some(id));
}
