use vapor_cli::display::CellValue;
use vapor_cli::export::{
    check_export_inputs, import_insert_sql, validate_export_inputs, verify_export_file,
    ExportError, ExportFileError, ExportTally, RiskyWord, RowFailure,
};
use vapor_cli::populate::{
    batch_end, column_definition, create_table_sql, estimate_row_size, insert_sql,
    is_progress_point, is_transient_error, population_complete, retry_after_failure,
    should_retry_insert, DataType, InsertFailure,
};

fn strings(items: &[&str]) -> Vec<String> {
    items.iter().map(|s| s.to_string()).collect()
}

#[test]
fn test_data_types_and_distributions() {
    let _int_type = DataType::Integer;
    let _text_type = DataType::Text;
    let _real_type = DataType::Real;
    let _bool_type = DataType::Boolean;
    let _date_type = DataType::Date;
    let _timestamp_type = DataType::Timestamp;
    let _uuid_type = DataType::UUID;
}

#[test]
fn types_map_to_sqlite_and_sizes() {
    let all = [
        (DataType::Integer, "INTEGER", 8),
        (DataType::Text, "TEXT", 50),
        (DataType::Real, "REAL", 8),
        (DataType::Boolean, "INTEGER", 1),
        (DataType::Date, "TEXT", 8),
        (DataType::Timestamp, "TEXT", 8),
        (DataType::UUID, "TEXT", 36),
    ];
    for (data_type, sql, size) in all {
        assert_eq!(data_type.sql_type(), sql);
        assert_eq!(data_type.estimated_size(), size);
    }
    assert_eq!(estimate_row_size(&Vec::new()), 0);
    assert_eq!(estimate_row_size(&vec![DataType::Integer, DataType::Text, DataType::Real]), 66);
    assert_eq!(
        estimate_row_size(&all.iter().map(|(t, _, _)| *t).collect()),
        8 + 50 + 8 + 1 + 8 + 8 + 36
    );
}

#[test]
fn statements_of_a_population() {
    assert_eq!(column_definition("id", DataType::Integer, false), "id INTEGER NOT NULL");
    assert_eq!(column_definition("text_col", DataType::Text, true), "text_col TEXT");
    assert_eq!(column_definition("flag", DataType::Boolean, false), "flag INTEGER NOT NULL");
    assert_eq!(
        create_table_sql(
            "large_table",
            &strings(&["id INTEGER NOT NULL", "text_col TEXT", "value REAL NOT NULL"])
        ),
        "CREATE TABLE IF NOT EXISTS large_table (id INTEGER NOT NULL, text_col TEXT, value REAL NOT NULL)"
    );
    assert_eq!(create_table_sql("t", &Vec::new()), "CREATE TABLE IF NOT EXISTS t ()");
    assert_eq!(
        insert_sql("large_table", &strings(&["id", "text_col", "value"])),
        "INSERT INTO large_table (id, text_col, value) VALUES (?, ?, ?)"
    );
    assert_eq!(insert_sql("t", &strings(&["a"])), "INSERT INTO t (a) VALUES (?)");
    assert_eq!(insert_sql("t", &Vec::new()), "INSERT INTO t () VALUES ()");
}

#[test]
fn batches_and_retries() {
    assert_eq!(batch_end(0, 10_000, 1_000_000), 10_000);
    assert_eq!(batch_end(990_000, 10_000, 1_000_000), 1_000_000);
    assert_eq!(batch_end(995_000, 10_000, 1_000_000), 1_000_000);
    assert_eq!(batch_end(5, 0, 10), 5);
    assert_eq!(batch_end(20, 5, 10), 10);
    assert_eq!(batch_end(1, usize::MAX, usize::MAX), usize::MAX);
    assert!(is_progress_point(0, 100));
    assert!(is_progress_point(200, 100));
    assert!(!is_progress_point(250, 100));
    assert!(should_retry_insert(0));
    assert!(should_retry_insert(99_999));
    assert!(!should_retry_insert(100_000));
    assert!(is_transient_error(InsertFailure::Busy));
    assert!(is_transient_error(InsertFailure::Locked));
    assert!(!is_transient_error(InsertFailure::Other));
    assert!(retry_after_failure(InsertFailure::Busy, 10));
    assert!(!retry_after_failure(InsertFailure::Busy, 100_000));
    assert!(!retry_after_failure(InsertFailure::Other, 10));
    assert!(population_complete(1000, 1000));
    assert!(population_complete(1001, 1000));
    assert!(!population_complete(999, 1000));
    assert!(population_complete(0, 0));
}

#[test]
fn statement_of_an_import() {
    assert_eq!(
        import_insert_sql("people", &strings(&["id", "full name"])),
        "INSERT INTO people (\"id\",\"full name\") VALUES (?,?)"
    );
    assert_eq!(import_insert_sql("t", &strings(&["a"])), "INSERT INTO t (\"a\") VALUES (?)");
    assert_eq!(import_insert_sql("t", &Vec::new()), "INSERT INTO t () VALUES ()");
}

fn verdict(query: &str, filename: &str, file_name: Option<&str>) -> Result<(), ExportError> {
    validate_export_inputs(query, filename, file_name).verdict
}

fn warnings(query: &str, filename: &str) -> Vec<RiskyWord> {
    validate_export_inputs(query, filename, Some(filename)).warnings
}

#[test]
fn export_inputs() {
    assert_eq!(verdict("SELECT * FROM t", "out.csv", Some("out.csv")), Ok(()));
    assert_eq!(verdict("  ", "out.csv", Some("out.csv")), Err(ExportError::EmptyQuery));
    assert_eq!(verdict("PRAGMA x", "out.csv", Some("out.csv")), Err(ExportError::NotAQuery));
    assert_eq!(verdict("select 1", " ", None), Err(ExportError::EmptyFilename));
    let long = "f".repeat(256);
    assert_eq!(verdict("select 1", &long, Some(&long)), Err(ExportError::FilenameTooLong));
    assert_eq!(
        verdict("select 1", "dir/a:b.csv", Some("a:b.csv")),
        Err(ExportError::InvalidFilename)
    );
    // A slash is allowed in the path, and the directories are not looked at.
    assert_eq!(verdict("select 1", "a:b/out.csv", Some("out.csv")), Ok(()));
    assert_eq!(verdict("select 1", "..", None), Ok(()));
    assert_eq!(warnings("SELECT * FROM t", "out.csv"), vec![]);
    assert_eq!(
        warnings("SELECT updated_at, created FROM t -- Drop", "out.csv"),
        vec![RiskyWord::Drop, RiskyWord::Update, RiskyWord::Create]
    );
    assert_eq!(
        warnings("select * from deleted_inserts_alter", "out.csv"),
        vec![RiskyWord::Delete, RiskyWord::Insert, RiskyWord::Alter]
    );
    // The warnings stand even when the path is refused, and there are none
    // for a query that is refused itself.
    let refused = validate_export_inputs("select 1; drop table t", "", None);
    assert_eq!(refused.verdict, Err(ExportError::EmptyFilename));
    assert_eq!(refused.warnings, vec![RiskyWord::Drop]);
    assert_eq!(warnings("drop table t", "out.csv"), vec![]);
    assert_eq!(
        check_export_inputs("SELECT 1", "SELECT 1", "out.csv", Some("out.csv")).verdict,
        Err(ExportError::NotAQuery)
    );
    assert_eq!(RiskyWord::Alter.text(), "alter");
    assert_eq!(ExportError::EmptyQuery.message(), "Export query cannot be empty");
    assert_eq!(
        ExportError::NotAQuery.message(),
        "Export query must contain a SELECT statement"
    );
    assert_eq!(ExportError::EmptyFilename.message(), "Filename cannot be empty");
    assert_eq!(
        ExportError::FilenameTooLong.message(),
        "Filename is too long (maximum 255 characters)"
    );
    assert_eq!(
        ExportError::InvalidFilename.message(),
        "Filename contains invalid characters. Avoid: \\ : * ? \" < > |"
    );
}

#[test]
fn exported_cells_and_tally_of_two_rows() {
    // Two rows as a database hands them out.
    let columns = strings(&["id", "name", "value"]);
    let rows = vec![
        vec![CellValue::Integer(1), CellValue::Text("item1".to_string()), CellValue::Real("100.5".to_string())],
        vec![CellValue::Integer(2), CellValue::Text("item2".to_string()), CellValue::Real("200.7".to_string())],
    ];
    let mut tally = ExportTally::new();
    let mut csv_content = columns.join(",");
    for row in &rows {
        let record: Vec<String> = row.iter().map(|cell| cell.exported()).collect();
        csv_content.push('\n');
        csv_content.push_str(&record.join(","));
        assert!(!tally.row_written());
    }

    assert!(csv_content.contains("id,name,value"));
    assert!(csv_content.contains("item1"));
    assert!(csv_content.contains("item2"));
    assert_eq!(csv_content, "id,name,value\n1,item1,100.5\n2,item2,200.7");
    assert_eq!(tally.row_count, 2);
    assert_eq!(
        verify_export_file(true, csv_content.len() as u64, tally.row_count),
        Ok(Some(41))
    );
}

#[test]
fn export_bears_ten_failures() {
    let mut tally = ExportTally::new();
    assert_eq!(tally.next_row(), 1);
    for _ in 0..10 {
        assert_eq!(tally.row_failed(RowFailure::Writing), Ok(()));
    }
    assert_eq!(tally.row_failed(RowFailure::Processing), Err(RowFailure::Processing));
    assert_eq!(tally.error_count, 11);
    assert_eq!(tally.row_count, 0);
    let mut tally = ExportTally { row_count: 9_999, error_count: 0 };
    assert!(tally.row_written());
    assert_eq!(tally.next_row(), 10_001);
    assert!(!tally.row_written());
}

#[test]
fn file_of_an_export() {
    assert_eq!(verify_export_file(false, 0, 0), Err(ExportFileError::NotCreated));
    assert_eq!(verify_export_file(false, 10, 3), Err(ExportFileError::NotCreated));
    assert_eq!(verify_export_file(true, 0, 3), Err(ExportFileError::Empty { expected_rows: 3 }));
    assert_eq!(verify_export_file(true, 0, 0), Ok(None));
    assert_eq!(verify_export_file(true, 17, 0), Ok(Some(17)));
}
