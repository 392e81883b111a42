use std::time::Duration;
use vapor_cli::display::{
    csv_escape, display_as_csv, is_select, is_select_upper, limit_reached, rows_affected,
    rows_returned, Batch, CellValue, DisplayError, OutputFormat, ProgressiveLoader, QueryCache,
};

fn row(cells: &[&str]) -> Vec<String> {
    cells.iter().map(|c| c.to_string()).collect()
}

#[test]
fn test_output_formats() {
    let columns = row(&["id", "name", "value"]);
    let rows = vec![row(&["1", "test1", "10.5"]), row(&["2", "test2", "20.7"])];
    assert_eq!(OutputFormat::Table.name(), "Table");
    assert_eq!(OutputFormat::Json.name(), "Json");
    assert_eq!(OutputFormat::Csv.name(), "Csv");
    assert_eq!(
        display_as_csv(&columns, &rows),
        vec!["id,name,value", "1,test1,10.5", "2,test2,20.7"]
    );
}

#[test]
fn csv_quotes_what_needs_quoting() {
    assert_eq!(csv_escape("plain"), "plain");
    assert_eq!(csv_escape(""), "");
    assert_eq!(csv_escape("a,b"), "\"a,b\"");
    assert_eq!(csv_escape("say \"hi\""), "\"say \"\"hi\"\"\"");
    assert_eq!(csv_escape("two\nlines"), "\"two\nlines\"");
    assert_eq!(csv_escape("\""), "\"\"\"\"");
    assert_eq!(csv_escape("semi;colon"), "semi;colon");
    // The header is joined as it is.
    assert_eq!(
        display_as_csv(&row(&["a,b", "c"]), &vec![row(&["x,y", "z\"z"]), row(&[])]),
        vec!["a,b,c", "\"x,y\",\"z\"\"z\"", ""]
    );
    assert_eq!(display_as_csv(&row(&[]), &Vec::new()), vec![""]);
}

#[test]
fn cell_values_are_shown_and_exported() {
    assert_eq!(CellValue::Null.shown(), "NULL");
    assert_eq!(CellValue::Null.exported(), "");
    assert_eq!(CellValue::Integer(-7).shown(), "-7");
    assert_eq!(CellValue::Integer(i64::MIN).exported(), "-9223372036854775808");
    assert_eq!(CellValue::Real("1.5".to_string()).shown(), "1.5");
    assert_eq!(CellValue::Real("1.5".to_string()).exported(), "1.5");
    assert_eq!(CellValue::Text("a,b".to_string()).shown(), "a,b");
    assert_eq!(CellValue::Text("a,b".to_string()).exported(), "\"a,b\"");
    assert_eq!(CellValue::Blob(12).shown(), "<binary data: 12 bytes>");
    assert_eq!(CellValue::Blob(12).exported(), "[BLOB 12 bytes]");
}

#[test]
fn queries_are_told_from_statements() {
    assert!(is_select("SELECT 1"));
    assert!(is_select("  select * from t"));
    assert!(is_select("\tSeLeCt"));
    assert!(!is_select("INSERT INTO t SELECT 1"));
    assert!(!is_select(""));
    assert!(is_select_upper("SELECTED"));
    assert!(!is_select_upper("select"));
}

#[test]
fn row_limit_and_summaries() {
    assert!(limit_reached(5, Some(5)));
    assert!(limit_reached(6, Some(5)));
    assert!(!limit_reached(4, Some(5)));
    assert!(!limit_reached(usize::MAX, None));
    assert!(limit_reached(0, Some(0)));
    assert_eq!(rows_returned(3, Some(1000)), vec!["3 row(s) returned"]);
    assert_eq!(rows_returned(3, None), vec!["3 row(s) returned"]);
    assert_eq!(
        rows_returned(2, Some(2)),
        vec!["2 row(s) returned", "(Limited to 2 rows. Use '.limit 0' to show all rows)"]
    );
    assert_eq!(rows_affected(0), "0 row(s) affected");
    assert_eq!(rows_affected(12), "12 row(s) affected");
}

#[test]
fn display_errors_name_their_kind() {
    assert_eq!(DisplayError::QueryError("bad".to_string()).message(), "Query error: bad");
    assert_eq!(DisplayError::DatabaseError("down".to_string()).message(), "Database error: down");
}

#[test]
fn loader_hands_rows_out_in_batches() {
    let mut loader = ProgressiveLoader::new(2, row(&["a", "b"]));
    assert_eq!(loader.column_names(), &row(&["a", "b"]));
    assert!(loader.is_complete());
    loader.set_total_rows(3);
    assert!(!loader.is_complete());
    assert_eq!(loader.add_row(row(&["1", "2"])), None);
    let batch = loader.add_row(row(&["3", "4"])).unwrap();
    assert_eq!(
        batch,
        Batch { rows: vec![row(&["1", "2"]), row(&["3", "4"])], loaded_rows: 2, total_rows: 3 }
    );
    assert_eq!(batch.progress(), "Loaded 2/3 rows...");
    assert!(!loader.is_complete());
    assert_eq!(loader.flush_batch(), None);
    assert_eq!(loader.add_row(row(&["5", "6"])), None);
    assert!(loader.is_complete());
    let rest = loader.flush_batch().unwrap();
    assert_eq!(rest.rows, vec![row(&["5", "6"])]);
    assert_eq!(rest.loaded_rows, 3);
    assert_eq!(loader.flush_batch(), None);
    // A batch size of zero hands every row out at once.
    let mut eager = ProgressiveLoader::new(0, Vec::new());
    assert!(eager.add_row(row(&["x"])).is_some());
}

#[test]
fn cache_keeps_results_while_they_are_fresh() {
    let mut cache = QueryCache::with_ttl_nanos(10, 100);
    assert_eq!(cache.len(), 0);
    cache.insert_at("q1".to_string(), vec![row(&["1"])], 1000);
    assert_eq!(cache.get_at("q1", 1000), Some(&vec![row(&["1"])]));
    assert_eq!(cache.get_at("q1", 1099), Some(&vec![row(&["1"])]));
    assert_eq!(cache.get_at("q1", 1100), None);
    // A clock that ran backwards counts as no time passed.
    assert_eq!(cache.get_at("q1", 5), Some(&vec![row(&["1"])]));
    assert_eq!(cache.get_at("q2", 1000), None);
    // Storing again replaces the result and its time.
    cache.insert_at("q1".to_string(), vec![row(&["2"])], 2000);
    assert_eq!(cache.len(), 1);
    assert_eq!(cache.get_at("q1", 2050), Some(&vec![row(&["2"])]));
    cache.clear();
    assert_eq!(cache.len(), 0);
    assert_eq!(cache.get_at("q1", 2050), None);
    // Nothing stays fresh with no time to live.
    let mut stale = QueryCache::with_ttl_nanos(10, 0);
    stale.insert_at("q".to_string(), Vec::new(), 7);
    assert_eq!(stale.get_at("q", 7), None);
}

#[test]
fn full_cache_loses_its_oldest_result() {
    let mut cache = QueryCache::with_ttl_nanos(2, 1_000_000);
    cache.insert_at("b".to_string(), vec![row(&["b"])], 20);
    cache.insert_at("a".to_string(), vec![row(&["a"])], 10);
    assert_eq!(cache.len(), 2);
    cache.insert_at("c".to_string(), vec![row(&["c"])], 30);
    assert_eq!(cache.len(), 2);
    assert_eq!(cache.get_at("a", 30), None);
    assert!(cache.get_at("b", 30).is_some());
    assert!(cache.get_at("c", 30).is_some());
    // A full cache loses its oldest result even when the query is known.
    cache.insert_at("c".to_string(), vec![row(&["c2"])], 40);
    assert_eq!(cache.len(), 1);
    assert_eq!(cache.get_at("b", 40), None);
    assert_eq!(cache.get_at("c", 40), Some(&vec![row(&["c2"])]));
    // A cache of size zero still holds the last result.
    let mut tiny = QueryCache::with_ttl_nanos(0, 1_000_000);
    tiny.insert_at("x".to_string(), Vec::new(), 1);
    assert_eq!(tiny.len(), 1);
    tiny.insert_at("y".to_string(), Vec::new(), 2);
    assert_eq!(tiny.len(), 1);
    assert!(tiny.get_at("y", 2).is_some());
}

#[test]
fn cache_by_its_own_clock() {
    let mut cache = QueryCache::new(4, Duration::from_secs(3600));
    cache.insert("SELECT 1".to_string(), vec![row(&["1"])]);
    assert_eq!(cache.get("SELECT 1"), Some(&vec![row(&["1"])]));
    assert_eq!(cache.get("SELECT 2"), None);
    let mut expired = QueryCache::new(4, Duration::from_secs(0));
    expired.insert("SELECT 1".to_string(), vec![row(&["1"])]);
    assert_eq!(expired.get("SELECT 1"), None);
    expired.clear();
    assert_eq!(expired.len(), 0);
}
