use csv_migrate::locate::{entry_action, is_table_extension, EntryAction};
use csv_migrate::migration::{
    run, Commands, InsertConfig, InsertMigration, ReorderConfig, ReorderMigration,
};
use csv_migrate::table::TableError;

fn insert(content: &str, column: &str, default_value: &str, order: i32) -> Result<String, TableError> {
    run(
        Commands::Insert(InsertConfig {
            path: "tables".to_string(),
            column: column.to_string(),
            default_value: default_value.to_string(),
            order,
        }),
        content,
    )
}

fn reorder(content: &str, column: &str, order: i32) -> Result<String, TableError> {
    run(
        Commands::Reorder(ReorderConfig {
            path: "tables".to_string(),
            column: column.to_string(),
            order,
        }),
        content,
    )
}

#[test]
fn test_insert_column() {
    let content = "H1,H2,H3,H4,H5,H6,H7,H8,H9\nA1,A2,A3,A4,A5,A6,A7,A8,A9\nB1,B2,B3,B4,B5,B6,B7,B8,B9";
    let modified = insert(content, "H_new", "V_new", 3).unwrap();
    assert_eq!(
        modified,
        String::from(
            "H1,H2,H_new,H3,H4,H5,H6,H7,H8,H9\nA1,A2,V_new,A3,A4,A5,A6,A7,A8,A9\nB1,B2,V_new,B3,B4,B5,B6,B7,B8,B9\n"
        )
    )
}

#[test]
fn test_reorder_column() {
    let reorder_test_cases = vec![
        ("H1,H2,H3,H4,H5,H6,H7,H8,H9\nA1,A2,A3,A4,A5,A6,A7,A8,A9\nB1,B2,B3,B4,B5,B6,B7,B8,B9".to_string(), "H3,H1,H2,H4,H5,H6,H7,H8,H9\nA3,A1,A2,A4,A5,A6,A7,A8,A9\nB3,B1,B2,B4,B5,B6,B7,B8,B9\n".to_string(), "H3", 1),
        ("H1,H2,H3,H4,H5,H6,H7,H8,H9\nA1,A2,A3,A4,A5,A6,A7,A8,A9\nB,B,B,B4,B5,B6,B7,B8,B9".to_string(), "H3,H1,H2,H4,H5,H6,H7,H8,H9\nA3,A1,A2,A4,A5,A6,A7,A8,A9\nB,B,B,B4,B5,B6,B7,B8,B9\n".to_string(), "H3", 1),
        ("H1,H2,H3,H4,H5,H6,H7,H8,H9\nA1,A2,A3,A4,A5,A6,A7,A8,A9\nB1,B2,B3,B4,B5,B6,B7,B8,B9".to_string(), "H1,H2,H3,H4,H5,H6,H7,H8,H9\nA1,A2,A3,A4,A5,A6,A7,A8,A9\nB1,B2,B3,B4,B5,B6,B7,B8,B9\n".to_string(), "H1", 1),
        ("H1,H2,H3,H4,H5,H6,H7,H8,H9\nA1,A2,A3,A4,A5,A6,A7,A8,A9\nB1,B2,B3,B4,B5,B6,B7,B8,B9".to_string(), "H2,H1,H3,H4,H5,H6,H7,H8,H9\nA2,A1,A3,A4,A5,A6,A7,A8,A9\nB2,B1,B3,B4,B5,B6,B7,B8,B9\n".to_string(), "H1", 2),
    ];
    for tc in reorder_test_cases.iter() {
        let (init, expected, column, order) = tc;
        let modified = reorder(init, column, *order).unwrap();
        assert_eq!(modified, *expected)
    }
}

#[test]
fn insert_places_column_and_default() {
    assert_eq!(insert("H1,H2,H3\nV1,V2,V3\n", "X", "D", 2).unwrap(), "H1,X,H2,H3\nV1,D,V2,V3\n");
}

#[test]
fn insert_at_first_position() {
    assert_eq!(insert("H1,H2\nV1,V2\n", "X", "D", 1).unwrap(), "X,H1,H2\nD,V1,V2\n");
}

#[test]
fn insert_past_end_places_nothing() {
    assert_eq!(insert("H1,H2,H3\nV1,V2,V3\n", "X", "D", 4).unwrap(), "H1,H2,H3\nV1,V2,V3\n");
}

#[test]
fn insert_non_positive_order_places_nothing() {
    assert_eq!(insert("H1,H2\nV1,V2\n", "X", "D", 0).unwrap(), "H1,H2\nV1,V2\n");
    assert_eq!(insert("H1,H2\nV1,V2\n", "X", "D", i32::MIN).unwrap(), "H1,H2\nV1,V2\n");
}

#[test]
fn insert_skips_short_rows() {
    assert_eq!(insert("H1,H2,H3\nV1\n", "X", "D", 2).unwrap(), "H1,X,H2,H3\nV1\n");
}

#[test]
fn insert_through_migration_method() {
    let migration = InsertMigration::new(InsertConfig {
        path: "tables".to_string(),
        column: "X".to_string(),
        default_value: "D".to_string(),
        order: 1,
    });
    assert_eq!(migration.insert_column("a\n1\n", "X", "D", 1).unwrap(), "X,a\nD,1\n");
}

#[test]
fn reorder_in_place_keeps_table() {
    let content = "H1,H2,H3\nV1,V2,V3\n";
    assert_eq!(reorder(content, "H2", 2).unwrap(), content);
}

#[test]
fn reorder_last_to_first() {
    assert_eq!(reorder("H1,H2,H3\nV1,V2,V3\n", "H3", 1).unwrap(), "H3,H1,H2\nV3,V1,V2\n");
}

#[test]
fn reorder_past_end_appends() {
    assert_eq!(reorder("H1,H2,H3\nV1,V2,V3\n", "H1", 3).unwrap(), "H2,H3,H1\nV2,V3,V1\n");
    assert_eq!(reorder("H1,H2,H3\nV1,V2,V3\n", "H1", 10).unwrap(), "H2,H3,H1\nV2,V3,V1\n");
}

#[test]
fn reorder_below_first_position_prepends() {
    assert_eq!(reorder("H1,H2,H3\nV1,V2,V3\n", "H3", 0).unwrap(), "H3,H1,H2\nV3,V1,V2\n");
    assert_eq!(reorder("H1,H2,H3\nV1,V2,V3\n", "H2", -5).unwrap(), "H2,H1,H3\nV2,V1,V3\n");
}

#[test]
fn reorder_uses_first_matching_header() {
    assert_eq!(reorder("A,B,A\n1,2,3\n", "A", 3).unwrap(), "B,A,A\n2,3,1\n");
}

#[test]
fn reorder_missing_column_fails() {
    assert_eq!(reorder("H1,H2,H3\nV1,V2,V3\n", "H4", 1), Err(TableError::ColumnNotFound));
    assert_eq!(reorder("H1,H2\nV1,V2\n", "h1", 2), Err(TableError::ColumnNotFound));
}

#[test]
fn reorder_short_row_fails() {
    assert_eq!(reorder("H1,H2,H3\nV1,V2,V3\nW1\n", "H3", 1), Err(TableError::FieldMissing));
}

#[test]
fn in_place_detection() {
    let migration = ReorderMigration::new(ReorderConfig {
        path: "tables".to_string(),
        column: "b".to_string(),
        order: 2,
    });
    assert!(migration.is_in_place("a,b\n1,2\n", &"b".to_string(), 2));
    assert!(!migration.is_in_place("a,b\n1,2\n", &"b".to_string(), 1));
    assert!(!migration.is_in_place("a,b\n1,2\n", &"c".to_string(), 1));
}

#[test]
fn reorder_through_migration_method() {
    let migration = ReorderMigration::new(ReorderConfig {
        path: "tables".to_string(),
        column: "b".to_string(),
        order: 1,
    });
    assert_eq!(migration.shift_column("a,b\n1,2\n", &"b".to_string(), 1).unwrap(), "b,a\n2,1\n");
}

#[test]
fn empty_table_insert_writes_empty_header() {
    assert_eq!(insert("", "X", "D", 1).unwrap(), "\"\"\n");
}

#[test]
fn table_extension_ignores_case() {
    assert!(is_table_extension("csv"));
    assert!(is_table_extension("CSV"));
    assert!(is_table_extension("cSv"));
    assert!(!is_table_extension("txt"));
    assert!(!is_table_extension("csvx"));
    assert!(!is_table_extension(""));
}

#[test]
fn entry_actions() {
    assert_eq!(entry_action(true, Some("csv")), EntryAction::Descend);
    assert_eq!(entry_action(true, None), EntryAction::Descend);
    assert_eq!(entry_action(false, Some("CSV")), EntryAction::Take);
    assert_eq!(entry_action(false, Some("md")), EntryAction::Skip);
    assert_eq!(entry_action(false, None), EntryAction::Skip);
}
