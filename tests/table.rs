use sndb_utils::{lookup_response, DisplayUpdate, LookupOutcome, Notice, RenderAction, TableModel};

fn header() -> Vec<String> {
    vec![String::from("A"), String::from("B")]
}

#[test]
fn clear_resets_rows_and_keeps_header() {
    let mut t: TableModel<u32> = TableModel::new(header());
    t.apply(DisplayUpdate::DbResult(1));
    t.apply(DisplayUpdate::DbResult(2));
    assert_eq!(t.row_count(), 2);
    let a = t.apply(DisplayUpdate::ClearTable);
    assert_eq!(a, RenderAction::Redraw);
    assert_eq!(t.row_count(), 0);
    assert!(t.is_empty());
    assert_eq!(t.header(), &header());
    assert!(matches!(t.notice(), Some(Notice::Info(m)) if m == "table cleared"));
}

#[test]
fn results_keep_submission_order_among_messages() {
    let mut t: TableModel<u32> = TableModel::new(header());
    let updates = vec![
        DisplayUpdate::DbResult(10),
        DisplayUpdate::Message(String::from("Program `x` not found")),
        DisplayUpdate::DbResult(20),
        DisplayUpdate::Redraw,
        DisplayUpdate::CopyToClipboard,
        DisplayUpdate::DbResult(30),
    ];
    for u in updates {
        t.apply(u);
    }
    assert_eq!(t.rows(), &vec![10, 20, 30]);
}

#[test]
fn row_clears_message_and_message_is_an_error() {
    let mut t: TableModel<u32> = TableModel::new(header());
    t.apply(DisplayUpdate::Message(String::from("oops")));
    assert!(matches!(t.notice(), Some(Notice::Error(m)) if m == "oops"));
    t.apply(DisplayUpdate::DbResult(1));
    assert!(t.notice().is_none());
}

#[test]
fn copy_asks_for_clipboard_and_records_outcome() {
    let mut t: TableModel<u32> = TableModel::new(header());
    assert_eq!(t.apply(DisplayUpdate::CopyToClipboard), RenderAction::CopyTable);
    t.clipboard_done(true);
    assert!(matches!(t.notice(), Some(Notice::Info(m)) if m == "table written to clipboard"));
    t.clipboard_done(false);
    assert!(matches!(t.notice(), Some(Notice::Error(m)) if m == "failed to write table to clipboard"));
}

#[test]
fn lookup_responses() {
    assert!(matches!(lookup_response("a", LookupOutcome::Found(7u32)), DisplayUpdate::DbResult(7)));
    match lookup_response::<u32>("12345", LookupOutcome::NotFound) {
        DisplayUpdate::Message(m) => assert_eq!(m, "Program `12345` not found"),
        _ => panic!("expected a message"),
    }
    match lookup_response::<u32>("12345", LookupOutcome::QueryFailed) {
        DisplayUpdate::Message(m) => assert_eq!(m, "Failed to get database result"),
        _ => panic!("expected a message"),
    }
    match lookup_response::<u32>("12345", LookupOutcome::RowFailed) {
        DisplayUpdate::Message(m) => assert_eq!(m, "Failed to get database results row"),
        _ => panic!("expected a message"),
    }
}
