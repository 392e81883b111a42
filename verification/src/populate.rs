//! Filling a table with test data: the statements that are issued, the size
//! of a batch, and when a failed insert is tried again.

use crate::text::{join_strings, join_text, joined_with, line_texts, push_line};
use vstd::prelude::*;
use vstd::string::StringExecFns;

verus! {

/// The type of a generated column.
#[derive(Debug, Clone, Copy, PartialEq, Eq, Structural)]
pub enum DataType {
    Integer,
    Text,
    Real,
    Boolean,
    Date,
    Timestamp,
    UUID,
}

impl DataType {
    /// The SQLite type that stores the column.
    pub open spec fn spec_sql_type(self) -> Seq<char> {
        match self {
            DataType::Integer => "INTEGER"@,
            DataType::Text => "TEXT"@,
            DataType::Real => "REAL"@,
            DataType::Boolean => "INTEGER"@,
            DataType::Date => "TEXT"@,
            DataType::Timestamp => "TEXT"@,
            DataType::UUID => "TEXT"@,
        }
    }

    /// The SQLite type that stores the column.
    pub fn sql_type(&self) -> (r: &'static str)
        ensures
            r@ == self.spec_sql_type(),
    {
        match self {
            DataType::Integer => "INTEGER",
            DataType::Text => "TEXT",
            DataType::Real => "REAL",
            DataType::Boolean => "INTEGER",
            DataType::Date => "TEXT",
            DataType::Timestamp => "TEXT",
            DataType::UUID => "TEXT",
        }
    }

    /// The bytes that a value of the type is reckoned to take.
    pub open spec fn spec_estimated_size(self) -> nat {
        match self {
            DataType::Integer => 8,
            DataType::Text => 50,
            DataType::Real => 8,
            DataType::Boolean => 1,
            DataType::Date => 8,
            DataType::Timestamp => 8,
            DataType::UUID => 36,
        }
    }

    /// The bytes that a value of the type is reckoned to take.
    pub fn estimated_size(&self) -> (r: usize)
        ensures
            r == self.spec_estimated_size(),
            r <= 50,
    {
        match self {
            DataType::Integer => 8,
            DataType::Text => 50,
            DataType::Real => 8,
            DataType::Boolean => 1,
            DataType::Date => 8,
            DataType::Timestamp => 8,
            DataType::UUID => 36,
        }
    }
}

/// The bytes that a row with columns of the types `types` is reckoned to
/// take: the sum over its columns.
pub open spec fn row_size(types: Seq<DataType>) -> nat
    decreases types.len(),
{
    if types.len() == 0 {
        0
    } else {
        row_size(types.drop_last()) + types.last().spec_estimated_size()
    }
}

/// Reckons the bytes of a row with columns of the types `types`.
pub fn estimate_row_size(types: &Vec<DataType>) -> (r: usize)
    requires
        50 * types.len() <= usize::MAX,
    ensures
        r == row_size(types@),
{
    let mut total: usize = 0;
    let mut i: usize = 0;
    assert(types@.subrange(0, 0) =~= Seq::<DataType>::empty());
    while i < types.len()
        invariant
            i <= types.len(),
            50 * types.len() <= usize::MAX,
            total == row_size(types@.subrange(0, i as int)),
            total <= 50 * i,
        decreases types.len() - i,
    {
        proof {
            let next = types@.subrange(0, i + 1);
            assert(next.drop_last() =~= types@.subrange(0, i as int));
            assert(next.last() == types@[i as int]);
        }
        total += types[i].estimated_size();
        i += 1;
    }
    assert(types@.subrange(0, i as int) =~= types@);
    total
}

/// The definition of a column in `CREATE TABLE`: its name, its SQLite type,
/// and `NOT NULL` unless it is nullable.
pub open spec fn column_definition_text(name: Seq<char>, data_type: DataType, nullable: bool) -> Seq<
    char,
> {
    name + " "@ + data_type.spec_sql_type() + if nullable {
        ""@
    } else {
        " NOT NULL"@
    }
}

/// Writes the definition of a column.
pub fn column_definition(name: &str, data_type: DataType, nullable: bool) -> (r: String)
    ensures
        r@ == column_definition_text(name@, data_type, nullable),
{
    let head = join_text(name, " ").concat(data_type.sql_type());
    if nullable {
        head.concat("")
    } else {
        head.concat(" NOT NULL")
    }
}

/// The statement that creates the table `table_name` with the columns
/// `definitions`, unless the table exists.
pub open spec fn create_table_text(table_name: Seq<char>, definitions: Seq<Seq<char>>) -> Seq<
    char,
> {
    "CREATE TABLE IF NOT EXISTS "@ + table_name + " ("@ + joined_with(definitions, ", "@) + ")"@
}

/// Writes the statement that creates the table.
pub fn create_table_sql(table_name: &str, definitions: &Vec<String>) -> (r: String)
    ensures
        r@ == create_table_text(table_name@, line_texts(definitions@)),
{
    let columns = join_strings(definitions, ", ");
    join_text("CREATE TABLE IF NOT EXISTS ", table_name).concat(" (").concat(
        columns.as_str(),
    ).concat(")")
}

/// `count` question marks.
pub open spec fn question_marks(count: nat) -> Seq<Seq<char>> {
    Seq::new(count, |i: int| "?"@)
}

/// The statement that inserts one row into `table_name`, with a parameter
/// for each of the columns `names`.
pub open spec fn insert_text(table_name: Seq<char>, names: Seq<Seq<char>>) -> Seq<char> {
    "INSERT INTO "@ + table_name + " ("@ + joined_with(names, ", "@) + ") VALUES ("@
        + joined_with(question_marks(names.len()), ", "@) + ")"@
}

/// Writes the statement that inserts one row.
pub fn insert_sql(table_name: &str, names: &Vec<String>) -> (r: String)
    ensures
        r@ == insert_text(table_name@, line_texts(names@)),
{
    let mut marks: Vec<String> = Vec::new();
    let mut i: usize = 0;
    assert(line_texts(marks@) =~= question_marks(0));
    while i < names.len()
        invariant
            i <= names.len(),
            line_texts(marks@) == question_marks(i as nat),
        decreases names.len() - i,
    {
        push_line(&mut marks, String::from_str("?"));
        i += 1;
        assert(question_marks((i - 1) as nat).push("?"@) =~= question_marks(i as nat));
    }
    let columns = join_strings(names, ", ");
    let parameters = join_strings(&marks, ", ");
    join_text("INSERT INTO ", table_name).concat(" (").concat(columns.as_str()).concat(
        ") VALUES (",
    ).concat(parameters.as_str()).concat(")")
}

/// The end of the batch that starts at row `batch_start`: a batch holds
/// `batch_size` rows, and the last one ends with the table.
pub open spec fn batch_end_of(batch_start: nat, batch_size: nat, row_count: nat) -> nat {
    if batch_start + batch_size < row_count {
        batch_start + batch_size
    } else {
        row_count
    }
}

/// Reckons the end of the batch that starts at row `batch_start`.
pub fn batch_end(batch_start: usize, batch_size: usize, row_count: usize) -> (r: usize)
    ensures
        r == batch_end_of(batch_start as nat, batch_size as nat, row_count as nat),
{
    if batch_start >= row_count {
        row_count
    } else if batch_size >= row_count - batch_start {
        row_count
    } else {
        batch_start + batch_size
    }
}

/// Whether progress is reported after `rows_inserted` rows: once a batch.
pub fn is_progress_point(rows_inserted: usize, batch_size: usize) -> (r: bool)
    requires
        batch_size > 0,
    ensures
        r == (rows_inserted as nat % batch_size as nat == 0),
{
    rows_inserted % batch_size == 0
}

/// The number of rows up to which a failed insert is tried again.
pub const RETRY_LIMIT: usize = 100_000;

/// Whether an insert that failed after `rows_so_far` rows is worth another
/// try.
pub fn should_retry_insert(rows_so_far: usize) -> (r: bool)
    ensures
        r == (rows_so_far < RETRY_LIMIT),
{
    rows_so_far < 100_000
}

/// Why the database refused an insert, as far as it matters here.
#[derive(Debug, Clone, Copy, PartialEq, Eq, Structural)]
pub enum InsertFailure {
    /// The database is busy.
    Busy,
    /// The database is locked.
    Locked,
    /// Anything else.
    Other,
}

/// Whether the failure may pass by itself: a busy or locked database.
pub fn is_transient_error(failure: InsertFailure) -> (r: bool)
    ensures
        r == (failure == InsertFailure::Busy || failure == InsertFailure::Locked),
{
    match failure {
        InsertFailure::Busy => true,
        InsertFailure::Locked => true,
        InsertFailure::Other => false,
    }
}

/// Whether the row is tried again after `failure`: only after a failure
/// that may pass, and only while fewer than 100000 rows are in.
pub fn retry_after_failure(failure: InsertFailure, rows_so_far: usize) -> (r: bool)
    ensures
        r == ((failure == InsertFailure::Busy || failure == InsertFailure::Locked) && rows_so_far
            < RETRY_LIMIT),
{
    is_transient_error(failure) && should_retry_insert(rows_so_far)
}

/// Whether the table holds as many rows as were to be inserted, the number
/// of rows taken as a signed number, as a cast does.
pub fn population_complete(final_count: i64, row_count: usize) -> (r: bool)
    ensures
        r == (final_count >= row_count as i64),
{
    final_count >= signed_count(row_count)
}

fn signed_count(n: usize) -> (r: i64)
    ensures
        r == n as i64,
{
    #[verifier::truncate]
    (n as i64)
}

} // verus!
