use local_workflow_agent::sqlite_storage::{
    row_optional_text, row_text, row_u32, search_pattern, session_summary_from_row, stored_message_from_row, Cell,
    RowError,
};

fn t(s: &str) -> Cell {
    Cell::Text(s.to_string())
}

#[test]
fn stored_message_needs_four_texts() {
    let row = vec![t("m1"), t("user"), t("hello"), t("2024-01-01T00:00:00Z")];
    let m = stored_message_from_row(&row).unwrap();
    assert_eq!(m.id, "m1");
    assert_eq!(m.role, "user");
    assert_eq!(m.content, "hello");
    let bad = vec![t("m1"), Cell::Null, t("hello"), t("x")];
    match stored_message_from_row(&bad) {
        Err(RowError::UnexpectedType { field, value }) => {
            assert_eq!(field, "role");
            assert_eq!(value, "Null");
        }
        other => panic!("expected a type error, got {other:?}"),
    }
    assert!(matches!(stored_message_from_row(&vec![t("m1")]), Err(RowError::MissingColumn { index: 1, columns: 1 })));
}

#[test]
fn session_summary_defaults_and_ranges() {
    let row = vec![t("s1"), Cell::Null, Cell::Null, t("c"), t("u"), Cell::Null];
    let s = session_summary_from_row(&row).unwrap();
    assert_eq!(s.title, None);
    assert_eq!(s.model, "");
    assert_eq!(s.message_count, 0);
    let row = vec![t("s1"), t("Title"), t("gpt"), t("c"), t("u"), Cell::Integer(7)];
    let s = session_summary_from_row(&row).unwrap();
    assert_eq!(s.title.as_deref(), Some("Title"));
    assert_eq!(s.message_count, 7);
    let row = vec![t("s1"), t("Title"), t("gpt"), t("c"), t("u"), Cell::Integer(-1)];
    match session_summary_from_row(&row) {
        Err(e) => assert_eq!(e.message(), "message_count value -1 is outside the u32 range"),
        Ok(_) => panic!("expected an error"),
    }
}

#[test]
fn single_columns() {
    let row = vec![Cell::Integer(4294967295), Cell::Integer(4294967296), Cell::Blob(vec![1, 20]), Cell::Real("1.5".into())];
    assert_eq!(row_u32(&row, 0, "n").unwrap(), u32::MAX);
    assert!(matches!(row_u32(&row, 1, "n"), Err(RowError::OutOfRange { value: 4294967296, .. })));
    match row_text(&row, 2, "b") {
        Err(e) => assert_eq!(e.message(), "unexpected value type for b: Blob([1, 20])"),
        Ok(_) => panic!("expected an error"),
    }
    match row_optional_text(&row, 3, "o") {
        Err(e) => assert_eq!(e.message(), "unexpected value type for o: Real(1.5)"),
        Ok(_) => panic!("expected an error"),
    }
    match row_u32(&vec![Cell::Text("x\"y".into())], 0, "n") {
        Err(e) => assert_eq!(e.message(), "unexpected value type for n: Text(\"x\\\"y\")"),
        Ok(_) => panic!("expected an error"),
    }
    assert_eq!(
        RowError::MissingColumn { index: 12, columns: 6 }.message(),
        "column index 12 out of bounds (row has 6 columns)"
    );
    assert_eq!(search_pattern("rust"), "%rust%");
}
