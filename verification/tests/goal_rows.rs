use local_workflow_agent::goal::{goal_from_row, i64_to_u32, i64_to_u64, u64_to_i64, uuid_text, GoalError, GoalStatus};
use local_workflow_agent::sqlite_storage::Cell;

fn t(s: &str) -> Cell {
    Cell::Text(s.to_string())
}

fn row(status: &str, budget: Cell, turns: i64) -> Vec<Cell> {
    vec![
        t("g1"),
        t("s1"),
        t("ship"),
        t(status),
        budget,
        Cell::Integer(10),
        Cell::Integer(20),
        Cell::Integer(turns),
        Cell::Integer(1000),
        Cell::Integer(2000),
    ]
}

#[test]
fn goal_rows_read_back() {
    let g = goal_from_row(&row("active", Cell::Null, 3)).unwrap();
    assert_eq!(g.id, "g1");
    assert_eq!(g.status, GoalStatus::Active);
    assert_eq!(g.token_budget, None);
    assert_eq!(g.tokens_used, 10);
    assert_eq!(g.time_used_secs, 20);
    assert_eq!(g.turns_used, 3);
    assert_eq!(g.updated_at_ms, 2000);
    let g = goal_from_row(&row("weird", Cell::Integer(500), 0)).unwrap();
    assert_eq!(g.status, GoalStatus::Paused);
    assert_eq!(g.token_budget, Some(500));
    match goal_from_row(&row("active", Cell::Integer(-5), 0)) {
        Err(GoalError::Db(m)) => assert_eq!(m, "token_budget value -5 is negative"),
        other => panic!("expected a Db error, got {other:?}"),
    }
    match goal_from_row(&row("active", Cell::Null, 5_000_000_000)) {
        Err(GoalError::Db(m)) => assert_eq!(m, "turns_used value 5000000000 is outside the u32 range"),
        other => panic!("expected a Db error, got {other:?}"),
    }
    match goal_from_row(&vec![t("g1")]) {
        Err(GoalError::Db(m)) => assert_eq!(m, "column index 3 out of bounds (row has 1 columns)"),
        other => panic!("expected a Db error, got {other:?}"),
    }
}

#[test]
fn goal_row_errors_follow_column_order() {
    let mut r = row("active", Cell::Null, 3);
    r[5] = Cell::Text("ten".into());
    r[0] = Cell::Integer(1);
    match goal_from_row(&r) {
        Err(GoalError::Db(m)) => assert_eq!(m, "Unexpected value type for id: Integer(1)"),
        other => panic!("expected a Db error, got {other:?}"),
    }
    let mut r = row("active", Cell::Null, 3);
    r[5] = Cell::Text("ten".into());
    match goal_from_row(&r) {
        Err(GoalError::Db(m)) => assert_eq!(m, "Unexpected value type for tokens_used: Text(\"ten\")"),
        other => panic!("expected a Db error, got {other:?}"),
    }
    let mut r = row("active", Cell::Null, 3);
    r[3] = Cell::Null;
    match goal_from_row(&r) {
        Err(GoalError::Db(m)) => assert_eq!(m, "Unexpected value type for status: Null"),
        other => panic!("expected a Db error, got {other:?}"),
    }
}

#[test]
fn goal_integer_conversions() {
    assert_eq!(u64_to_i64("x", 5).unwrap(), 5);
    assert!(matches!(u64_to_i64("ts", u64::MAX), Err(GoalError::Db(m)) if m == "ts value 18446744073709551615 does not fit into i64"));
    assert_eq!(i64_to_u64("x", 0).unwrap(), 0);
    assert!(matches!(i64_to_u64("x", i64::MIN), Err(GoalError::Db(m)) if m == "x value -9223372036854775808 is negative"));
    assert_eq!(i64_to_u32("x", 4294967295).unwrap(), u32::MAX);
}

#[test]
fn uuid_text_layout() {
    let u = uuid_text(0x0123_4567_89ab_cdef, 0xfedc_ba98_7654_3210);
    assert_eq!(u, "01234567-89ab-4def-bedc-ba9876543210");
    assert_eq!(uuid_text(0, 0), "00000000-0000-4000-8000-000000000000");
    let u = uuid_text(u64::MAX, u64::MAX);
    assert_eq!(u, "ffffffff-ffff-4fff-bfff-ffffffffffff");
}
