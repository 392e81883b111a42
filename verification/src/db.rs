//! Access to the SQLite database behind a session.
//!
//! The database is reached through `rusqlite`. What comes back from it depends
//! on the database's contents, so the two calls below promise nothing about
//! their results; the functions built on them say what holds for every
//! outcome.

use crate::text::{
    chars_are, chars_contain, chars_contain_char, chars_count, contains_text, count_char, join_text,
    to_chars, to_text, to_uppercase, trim, trim_chars, uppercase,
};
use vstd::prelude::*;
use vstd::string::StringExecFns;

verus! {

#[verifier::external_type_specification]
#[verifier::external_body]
pub struct ExConnection(rusqlite::Connection);

#[verifier::external_type_specification]
#[verifier::external_body]
pub struct ExSqlError(rusqlite::Error);

/// Runs one statement without parameters through
/// `rusqlite::Connection::execute` and hands back what it returned: the number
/// of rows changed, or the error. Nothing is claimed about the outcome.
#[verifier::external_body]
pub(crate) fn execute_statement(conn: &rusqlite::Connection, sql: &str) -> (r: Result<
    usize,
    rusqlite::Error,
>) {
    conn.execute(sql, [])
}

/// Runs a one-parameter query through `rusqlite::Connection::query_row` and
/// hands back the integer in the first column of its first row, or the error.
/// Nothing is claimed about the outcome.
#[verifier::external_body]
pub(crate) fn query_count(conn: &rusqlite::Connection, sql: &str, param: &str) -> (r: Result<
    i64,
    rusqlite::Error,
>) {
    conn.query_row(sql, [param], |row| row.get(0))
}

/// The query that counts the tables of a given name in the catalog.
pub open spec fn table_count_text() -> Seq<char> {
    "SELECT COUNT(*) FROM sqlite_master WHERE type='table' AND name=?1"@
}

/// The query that counts the tables of a given name in the catalog.
pub fn table_count_query() -> (r: &'static str)
    ensures
        r@ == table_count_text(),
{
    "SELECT COUNT(*) FROM sqlite_master WHERE type='table' AND name=?1"
}

/// The catalog could not be asked about a table.
#[derive(Debug)]
pub struct LookupFailure {
    /// The table that was asked about.
    pub table: String,
    pub source: rusqlite::Error,
}

/// Takes in the catalog's count of the tables named `table_name`: the table
/// exists if the count is positive.
pub fn table_exists_by(table_name: &str, count: Result<i64, rusqlite::Error>) -> (r: Result<
    bool,
    LookupFailure,
>)
    ensures
        match count {
            Ok(n) => r matches Ok(found) && found == (n > 0),
            Err(e) => r matches Err(f) && f.table@ == table_name@ && f.source == e,
        },
{
    match count {
        Ok(n) => Ok(n > 0),
        Err(e) => Err(LookupFailure { table: String::from_str(table_name), source: e }),
    }
}

/// Whether the table `table_name` exists, by the database's catalog. What
/// comes back depends on the database; a failure names the table.
pub fn check_table_exists(conn: &rusqlite::Connection, table_name: &str) -> (r: Result<
    bool,
    LookupFailure,
>)
    ensures
        r matches Err(f) ==> f.table@ == table_name@,
{
    table_exists_by(table_name, query_count(conn, table_count_query(), table_name))
}

/// The file of the database `name`: the name itself if it ends with `.db`,
/// else the name with `.db` after it.
pub open spec fn database_file_text(name: Seq<char>) -> Seq<char> {
    if name.len() >= 3 && name.subrange(name.len() - 3, name.len() as int) == ".db"@ {
        name
    } else {
        name + ".db"@
    }
}

/// The file of the database `name`.
pub fn database_file_name(name: &str) -> (r: String)
    ensures
        r@ == database_file_text(name@),
{
    let chars = to_chars(name);
    if chars.len() >= 3 {
        let tail = crate::text::copy_range(&chars, chars.len() - 3, chars.len());
        if chars_are(&tail, ".db") {
            return String::from_str(name);
        }
    }
    join_text(name, ".db")
}

/// What is wrong with the columns of a table.
#[derive(Debug, Clone, Copy, PartialEq, Eq, Structural)]
pub enum ColumnSyntaxError {
    /// The definition holds this keyword, which has no place in it.
    Dangerous(Keyword),
    /// The parentheses do not pair up.
    UnbalancedParentheses,
    /// The definition holds neither a space nor a comma.
    Incomplete,
}

/// A keyword that a column definition must not hold.
#[derive(Debug, Clone, Copy, PartialEq, Eq, Structural)]
pub enum Keyword {
    Drop,
    Delete,
    Insert,
    Update,
    Exec,
}

impl Keyword {
    /// The keyword in capitals.
    pub open spec fn spec_text(self) -> Seq<char> {
        match self {
            Keyword::Drop => "DROP"@,
            Keyword::Delete => "DELETE"@,
            Keyword::Insert => "INSERT"@,
            Keyword::Update => "UPDATE"@,
            Keyword::Exec => "EXEC"@,
        }
    }

    /// The keyword in capitals.
    pub fn text(&self) -> (r: &'static str)
        ensures
            r@ == self.spec_text(),
    {
        match self {
            Keyword::Drop => "DROP",
            Keyword::Delete => "DELETE",
            Keyword::Insert => "INSERT",
            Keyword::Update => "UPDATE",
            Keyword::Exec => "EXEC",
        }
    }
}

impl ColumnSyntaxError {
    /// The text of the error.
    pub open spec fn spec_message(self) -> Seq<char> {
        match self {
            ColumnSyntaxError::Dangerous(k) =>
                "Column definition contains potentially dangerous SQL keyword: "@ + k.spec_text(),
            ColumnSyntaxError::UnbalancedParentheses =>
                "Column definition has unbalanced parentheses"@,
            ColumnSyntaxError::Incomplete =>
                "Column definition appears incomplete. Example: 'id INTEGER PRIMARY KEY, name TEXT'"@,
        }
    }

    /// The text of the error.
    pub fn message(&self) -> (r: String)
        ensures
            r@ == self.spec_message(),
    {
        match self {
            ColumnSyntaxError::Dangerous(k) => join_text(
                "Column definition contains potentially dangerous SQL keyword: ",
                k.text(),
            ),
            ColumnSyntaxError::UnbalancedParentheses => String::from_str(
                "Column definition has unbalanced parentheses",
            ),
            ColumnSyntaxError::Incomplete => String::from_str(
                "Column definition appears incomplete. Example: 'id INTEGER PRIMARY KEY, name TEXT'",
            ),
        }
    }
}

/// The first of the five keywords that the uppercase text `upper` holds.
pub open spec fn dangerous_keyword(upper: Seq<char>) -> Option<Keyword> {
    if contains_text(upper, "DROP"@) {
        Some(Keyword::Drop)
    } else if contains_text(upper, "DELETE"@) {
        Some(Keyword::Delete)
    } else if contains_text(upper, "INSERT"@) {
        Some(Keyword::Insert)
    } else if contains_text(upper, "UPDATE"@) {
        Some(Keyword::Update)
    } else if contains_text(upper, "EXEC"@) {
        Some(Keyword::Exec)
    } else {
        None
    }
}

/// What is wrong with the trimmed column definition `columns`, whose
/// uppercase form is `upper`: a dangerous keyword, parentheses that do not
/// pair up, or neither a space nor a comma, in that order.
pub open spec fn column_syntax_problem(columns: Seq<char>, upper: Seq<char>) -> Option<
    ColumnSyntaxError,
> {
    match dangerous_keyword(upper) {
        Some(k) => Some(ColumnSyntaxError::Dangerous(k)),
        None => if count_char(columns, '(') != count_char(columns, ')') {
            Some(ColumnSyntaxError::UnbalancedParentheses)
        } else if !columns.contains(' ') && !columns.contains(',') {
            Some(ColumnSyntaxError::Incomplete)
        } else {
            None
        },
    }
}

/// The result that reports `problem`.
pub open spec fn syntax_verdict(problem: Option<ColumnSyntaxError>) -> Result<
    (),
    ColumnSyntaxError,
> {
    match problem {
        Some(e) => Err(e),
        None => Ok(()),
    }
}

/// Checks the trimmed column definition `columns`, whose uppercase form is
/// `upper`.
pub fn check_column_syntax(columns: &str, upper: &str) -> (r: Result<(), ColumnSyntaxError>)
    ensures
        r == syntax_verdict(column_syntax_problem(columns@, upper@)),
{
    let u = to_chars(upper);
    if chars_contain(&u, "DROP") {
        return Err(ColumnSyntaxError::Dangerous(Keyword::Drop));
    }
    if chars_contain(&u, "DELETE") {
        return Err(ColumnSyntaxError::Dangerous(Keyword::Delete));
    }
    if chars_contain(&u, "INSERT") {
        return Err(ColumnSyntaxError::Dangerous(Keyword::Insert));
    }
    if chars_contain(&u, "UPDATE") {
        return Err(ColumnSyntaxError::Dangerous(Keyword::Update));
    }
    if chars_contain(&u, "EXEC") {
        return Err(ColumnSyntaxError::Dangerous(Keyword::Exec));
    }
    let c = to_chars(columns);
    if chars_count(&c, '(') != chars_count(&c, ')') {
        return Err(ColumnSyntaxError::UnbalancedParentheses);
    }
    if !chars_contain_char(&c, ' ') && !chars_contain_char(&c, ',') {
        return Err(ColumnSyntaxError::Incomplete);
    }
    Ok(())
}

/// Checks the columns of a table to create, trimmed first.
pub fn validate_column_syntax(columns: &str) -> (r: Result<(), ColumnSyntaxError>)
    ensures
        r == syntax_verdict(column_syntax_problem(trim(columns@), uppercase(trim(columns@)))),
{
    let trimmed = to_text(&trim_chars(&to_chars(columns)));
    let upper = to_uppercase(trimmed.as_str());
    check_column_syntax(trimmed.as_str(), upper.as_str())
}

/// The statement that creates the table `table_name` with the columns
/// `columns`.
pub open spec fn create_text(table_name: Seq<char>, columns: Seq<char>) -> Seq<char> {
    "CREATE TABLE "@ + table_name + " ("@ + columns + ")"@
}

/// Writes the statement that creates the table.
pub fn create_statement(table_name: &str, columns: &str) -> (r: String)
    ensures
        r@ == create_text(table_name@, columns@),
{
    join_text("CREATE TABLE ", table_name).concat(" (").concat(columns).concat(")")
}

/// What came of creating a table.
#[derive(Debug, Clone, Copy, PartialEq, Eq, Structural)]
pub enum CreateOutcome {
    /// The table was there already; nothing was issued.
    AlreadyExists,
    Created,
}

/// Why a table was not created.
#[derive(Debug)]
pub enum CreateError {
    /// The catalog could not be asked whether the table exists.
    Lookup(LookupFailure),
    /// The columns are refused; nothing was issued.
    Syntax(ColumnSyntaxError),
    /// The database refused the statement.
    Statement(rusqlite::Error),
    /// The statement went through, and the catalog does not know the table.
    NotFoundAfterwards,
    /// The statement went through, and the catalog could not be asked.
    LookupAfterwards(LookupFailure),
}

/// What is done once the catalog said whether the table exists.
#[derive(Debug)]
pub enum CreatePlan {
    /// The table is there: nothing is issued.
    Keep,
    /// The table is missing and its columns pass: this statement is issued.
    Issue(String),
}

/// Takes in what the catalog said before anything was issued. A failed
/// lookup ends the work; a table that is there is kept; for a table that is
/// missing the columns are checked, and the statement is written only if they
/// pass.
pub fn plan_create(table_name: &str, columns: &str, existed: Result<bool, LookupFailure>) -> (r:
    Result<CreatePlan, CreateError>)
    ensures
        match existed {
            Err(f) => r matches Err(CreateError::Lookup(raised)) && raised == f,
            Ok(true) => r matches Ok(CreatePlan::Keep),
            Ok(false) => match column_syntax_problem(trim(columns@), uppercase(trim(columns@))) {
                Some(e) => r matches Err(CreateError::Syntax(refused)) && refused == e,
                None => r matches Ok(CreatePlan::Issue(statement)) && statement@ == create_text(
                    table_name@,
                    columns@,
                ),
            },
        },
{
    match existed {
        Err(f) => Err(CreateError::Lookup(f)),
        Ok(true) => Ok(CreatePlan::Keep),
        Ok(false) => {
            match validate_column_syntax(columns) {
                Err(e) => Err(CreateError::Syntax(e)),
                Ok(()) => Ok(CreatePlan::Issue(create_statement(table_name, columns))),
            }
        },
    }
}

/// What holds of the outcome `r` of creating the table `table_name` with the
/// columns `columns`, whatever the database said. The columns were checked
/// before anything was issued, so that a table is created only with columns
/// that pass, and columns are refused only for what is wrong with them. A
/// lookup that failed, before or after the statement, names the table that
/// was asked about.
pub open spec fn create_outcome_holds(
    table_name: Seq<char>,
    columns: Seq<char>,
    r: Result<CreateOutcome, CreateError>,
) -> bool {
    let problem = column_syntax_problem(trim(columns), uppercase(trim(columns)));
    match r {
        Ok(CreateOutcome::Created) => problem is None,
        Ok(CreateOutcome::AlreadyExists) => true,
        Err(CreateError::Syntax(e)) => problem == Some(e),
        Err(CreateError::Lookup(f)) => f.table@ == table_name,
        Err(CreateError::LookupAfterwards(f)) => problem is None && f.table@ == table_name,
        Err(_) => problem is None,
    }
}

/// Creates the table `table_name` with the columns `columns` unless it
/// exists. The catalog is asked first; the columns are checked next; then the
/// statement is issued, and the catalog is asked again.
pub fn create_table(conn: &rusqlite::Connection, table_name: &str, columns: &str) -> (r: Result<
    CreateOutcome,
    CreateError,
>)
    ensures
        create_outcome_holds(table_name@, columns@, r),
{
    match plan_create(table_name, columns, check_table_exists(conn, table_name)) {
        Err(e) => Err(e),
        Ok(CreatePlan::Keep) => Ok(CreateOutcome::AlreadyExists),
        Ok(CreatePlan::Issue(statement)) => {
            match execute_statement(conn, statement.as_str()) {
                Err(e) => Err(CreateError::Statement(e)),
                Ok(_) => after_create(check_table_exists(conn, table_name)),
            }
        },
    }
}

/// Takes in what the catalog says after the statement went through.
pub fn after_create(found: Result<bool, LookupFailure>) -> (r: Result<CreateOutcome, CreateError>)
    ensures
        match found {
            Ok(true) => r matches Ok(CreateOutcome::Created),
            Ok(false) => r matches Err(CreateError::NotFoundAfterwards),
            Err(e) => r matches Err(CreateError::LookupAfterwards(raised)) && raised == e,
        },
{
    match found {
        Ok(true) => Ok(CreateOutcome::Created),
        Ok(false) => Err(CreateError::NotFoundAfterwards),
        Err(e) => Err(CreateError::LookupAfterwards(e)),
    }
}

/// What to do after an attempt to connect.
#[derive(Debug, Clone, Copy, PartialEq, Eq, Structural)]
pub enum ConnectStep {
    /// The connection stands. `announce` says whether it took more than one
    /// attempt, which is worth telling.
    Connected { announce: bool },
    /// Wait this many milliseconds and try again.
    RetryAfter { millis: u64 },
    /// The last attempt failed too.
    GiveUp,
}

/// What to do after attempt number `attempt` of `max_retries`, counted from
/// one: a failed attempt is followed by a pause of a tenth of a second for
/// each attempt made, until the attempts are used up.
pub open spec fn connect_step(attempt: u32, max_retries: u32, connected: bool) -> ConnectStep {
    if connected {
        ConnectStep::Connected { announce: attempt > 1 }
    } else if attempt < max_retries {
        ConnectStep::RetryAfter { millis: (100 * attempt) as u64 }
    } else {
        ConnectStep::GiveUp
    }
}

/// Decides what to do after an attempt to connect.
pub fn after_connect_attempt(attempt: u32, max_retries: u32, connected: bool) -> (r: ConnectStep)
    ensures
        r == connect_step(attempt, max_retries, connected),
{
    if connected {
        ConnectStep::Connected { announce: attempt > 1 }
    } else if attempt < max_retries {
        ConnectStep::RetryAfter { millis: 100 * (attempt as u64) }
    } else {
        ConnectStep::GiveUp
    }
}

/// Why a database did not pass the check of its integrity.
#[derive(Debug, Clone, PartialEq, Eq)]
pub enum IntegrityError {
    /// The integrity check answered this instead of `ok`.
    CheckFailed(String),
    /// `SELECT 1` answered this instead of 1.
    UnexpectedAnswer(i32),
}

/// Takes in the answers to `PRAGMA integrity_check` and to `SELECT 1`: the
/// first must be `ok`, the second 1, and the first is looked at first.
pub fn integrity_verdict(integrity_result: &str, test_result: i32) -> (r: Result<
    (),
    IntegrityError,
>)
    ensures
        integrity_result@ != "ok"@ ==> (r matches Err(IntegrityError::CheckFailed(answer))
            && answer@ == integrity_result@),
        integrity_result@ == "ok"@ && test_result != 1 ==> (r matches Err(
            IntegrityError::UnexpectedAnswer(n),
        ) && n == test_result),
        integrity_result@ == "ok"@ && test_result == 1 ==> r is Ok,
{
    if !chars_are(&to_chars(integrity_result), "ok") {
        Err(IntegrityError::CheckFailed(String::from_str(integrity_result)))
    } else if test_result != 1 {
        Err(IntegrityError::UnexpectedAnswer(test_result))
    } else {
        Ok(())
    }
}

} // verus!
