//! Moving rows between the database and CSV files: the statement of an
//! import, the checks before an export, and the count that is kept during one.

use crate::text::{
    byte_len, byte_length, char_is_control, chars_blank, chars_contain, contains_text, is_blank,
    is_control, join_strings, join_text, joined_with, line_texts, lowercase, to_chars, to_lowercase,
};
use vstd::prelude::*;
use vstd::string::StringExecFns;

verus! {

/// Each name of `headers` between double quotes.
pub open spec fn quoted_names(headers: Seq<Seq<char>>) -> Seq<Seq<char>> {
    headers.map_values(|h: Seq<char>| "\""@ + h + "\""@)
}

/// The statement that inserts one row of a CSV file with the header
/// `headers` into `table_name`: the columns are the names of the header
/// between double quotes, and each gets a parameter.
pub open spec fn import_text(table_name: Seq<char>, headers: Seq<Seq<char>>) -> Seq<char> {
    "INSERT INTO "@ + table_name + " ("@ + joined_with(quoted_names(headers), ","@)
        + ") VALUES ("@ + joined_with(Seq::new(headers.len(), |i: int| "?"@), ","@) + ")"@
}

/// Writes the statement that inserts one row of a CSV file.
pub fn import_insert_sql(table_name: &str, headers: &Vec<String>) -> (r: String)
    ensures
        r@ == import_text(table_name@, line_texts(headers@)),
{
    let mut names: Vec<String> = Vec::new();
    let mut marks: Vec<String> = Vec::new();
    let mut i: usize = 0;
    while i < headers.len()
        invariant
            i <= headers.len(),
            names.len() == i,
            marks.len() == i,
            forall|k: int| 0 <= k < i ==> (#[trigger] names[k])@ == "\""@ + headers[k]@ + "\""@,
            forall|k: int| 0 <= k < i ==> (#[trigger] marks[k])@ == "?"@,
        decreases headers.len() - i,
    {
        names.push(join_text("\"", headers[i].as_str()).concat("\""));
        marks.push(String::from_str("?"));
        i += 1;
    }
    assert(line_texts(names@) =~= quoted_names(line_texts(headers@)));
    assert(line_texts(marks@) =~= Seq::new(line_texts(headers@).len(), |i: int| "?"@));
    let columns = join_strings(&names, ",");
    let parameters = join_strings(&marks, ",");
    join_text("INSERT INTO ", table_name).concat(" (").concat(columns.as_str()).concat(
        ") VALUES (",
    ).concat(parameters.as_str()).concat(")")
}

/// Why an export was refused before it began.
#[derive(Debug, Clone, Copy, PartialEq, Eq, Structural)]
pub enum ExportError {
    EmptyQuery,
    /// The query holds no `select`.
    NotAQuery,
    EmptyFilename,
    /// The name of the file has more than 255 bytes.
    FilenameTooLong,
    /// The last part of the path holds a control character or one of
    /// `\ : * ? " < > |`.
    InvalidFilename,
}

impl ExportError {
    /// The text of the error.
    pub fn message(&self) -> (r: &'static str)
        ensures
            r@ == (match *self {
                ExportError::EmptyQuery => "Export query cannot be empty"@,
                ExportError::NotAQuery => "Export query must contain a SELECT statement"@,
                ExportError::EmptyFilename => "Filename cannot be empty"@,
                ExportError::FilenameTooLong => "Filename is too long (maximum 255 characters)"@,
                ExportError::InvalidFilename =>
                    "Filename contains invalid characters. Avoid: \\ : * ? \" < > |"@,
            }),
    {
        match self {
            ExportError::EmptyQuery => "Export query cannot be empty",
            ExportError::NotAQuery => "Export query must contain a SELECT statement",
            ExportError::EmptyFilename => "Filename cannot be empty",
            ExportError::FilenameTooLong => "Filename is too long (maximum 255 characters)",
            ExportError::InvalidFilename =>
                "Filename contains invalid characters. Avoid: \\ : * ? \" < > |",
        }
    }
}

/// A word in a query that may change data.
#[derive(Debug, Clone, Copy, PartialEq, Eq, Structural)]
pub enum RiskyWord {
    Drop,
    Delete,
    Update,
    Insert,
    Create,
    Alter,
}

impl RiskyWord {
    /// The word in small letters.
    pub open spec fn spec_text(self) -> Seq<char> {
        match self {
            RiskyWord::Drop => "drop"@,
            RiskyWord::Delete => "delete"@,
            RiskyWord::Update => "update"@,
            RiskyWord::Insert => "insert"@,
            RiskyWord::Create => "create"@,
            RiskyWord::Alter => "alter"@,
        }
    }

    /// The word in small letters.
    pub fn text(&self) -> (r: &'static str)
        ensures
            r@ == self.spec_text(),
    {
        match self {
            RiskyWord::Drop => "drop",
            RiskyWord::Delete => "delete",
            RiskyWord::Update => "update",
            RiskyWord::Insert => "insert",
            RiskyWord::Create => "create",
            RiskyWord::Alter => "alter",
        }
    }
}

/// `word` if the lowercase query `lowered` holds it, else nothing.
pub open spec fn flagged(lowered: Seq<char>, word: RiskyWord) -> Seq<RiskyWord> {
    if contains_text(lowered, word.spec_text()) {
        seq![word]
    } else {
        Seq::empty()
    }
}

/// The risky words that the lowercase query `lowered` holds, in their fixed
/// order.
pub open spec fn risky_words(lowered: Seq<char>) -> Seq<RiskyWord> {
    flagged(lowered, RiskyWord::Drop) + flagged(lowered, RiskyWord::Delete) + flagged(
        lowered,
        RiskyWord::Update,
    ) + flagged(lowered, RiskyWord::Insert) + flagged(lowered, RiskyWord::Create) + flagged(
        lowered,
        RiskyWord::Alter,
    )
}

/// Whether `c` may not stand in the name of a file.
pub open spec fn is_forbidden_in_filename(c: char) -> bool {
    is_control(c) || c == '\\' || c == ':' || c == '*' || c == '?' || c == '"' || c == '<' || c
        == '>' || c == '|'
}

/// Whether `name` holds a character that may not stand in the name of a file.
pub open spec fn has_forbidden_in_filename(name: Seq<char>) -> bool {
    exists|i: int| 0 <= i < name.len() && is_forbidden_in_filename(#[trigger] name[i])
}

/// What is wrong with exporting `query`, whose lowercase form is `lowered`,
/// to the path `filename`, whose last part is `file_name` if it has one. The
/// checks come in this order: a blank query, a query without `select`, a blank
/// path, a path of more than 255 bytes, a forbidden character in the last part
/// of the path.
pub open spec fn export_problem(
    query: Seq<char>,
    lowered: Seq<char>,
    filename: Seq<char>,
    file_name: Option<Seq<char>>,
) -> Option<ExportError> {
    if is_blank(query) {
        Some(ExportError::EmptyQuery)
    } else if !contains_text(lowered, "select"@) {
        Some(ExportError::NotAQuery)
    } else if is_blank(filename) {
        Some(ExportError::EmptyFilename)
    } else if byte_length(filename) > 255 {
        Some(ExportError::FilenameTooLong)
    } else if file_name is Some && has_forbidden_in_filename(file_name->0) {
        Some(ExportError::InvalidFilename)
    } else {
        None
    }
}

fn flag(found: &mut Vec<RiskyWord>, lowered: &Vec<char>, word: RiskyWord)
    ensures
        final(found)@ == old(found)@ + flagged(lowered@, word),
{
    if chars_contain(lowered, word.text()) {
        found.push(word);
        assert(found@ =~= old(found)@ + seq![word]);
    } else {
        assert(found@ =~= old(found)@ + Seq::<RiskyWord>::empty());
    }
}

/// The view of an optional string slice.
pub open spec fn optional_name(o: Option<&str>) -> Option<Seq<char>> {
    match o {
        Some(s) => Some(s@),
        None => None,
    }
}

/// What the checks before an export found.
#[derive(Debug, PartialEq, Eq)]
pub struct ExportCheck {
    /// The risky words of the query, to warn about whether or not the export
    /// goes ahead.
    pub warnings: Vec<RiskyWord>,
    /// Whether the export may go ahead.
    pub verdict: Result<(), ExportError>,
}

/// The risky words to warn about: those of a query that passed its own two
/// checks, whatever the checks of the path find.
pub open spec fn export_warnings(query: Seq<char>, lowered: Seq<char>) -> Seq<RiskyWord> {
    if is_blank(query) || !contains_text(lowered, "select"@) {
        Seq::empty()
    } else {
        risky_words(lowered)
    }
}

/// The verdict that reports `problem`.
pub open spec fn export_verdict(problem: Option<ExportError>) -> Result<(), ExportError> {
    match problem {
        Some(e) => Err(e),
        None => Ok(()),
    }
}

fn has_forbidden_in_name(name: &str) -> (r: bool)
    ensures
        r == has_forbidden_in_filename(name@),
{
    let n = to_chars(name);
    let mut i: usize = 0;
    while i < n.len()
        invariant
            i <= n.len(),
            n@ == name@,
            forall|k: int| 0 <= k < i ==> !is_forbidden_in_filename(#[trigger] n@[k]),
        decreases n.len() - i,
    {
        let c = n[i];
        if char_is_control(c) || c == '\\' || c == ':' || c == '*' || c == '?' || c == '"' || c
            == '<' || c == '>' || c == '|' {
            assert(is_forbidden_in_filename(name@[i as int]));
            return true;
        }
        i += 1;
    }
    false
}

/// Checks an export of `query`, whose lowercase form is `lowered`, to the
/// path `filename`, whose last part is `file_name` if it has one.
pub fn check_export_inputs(
    query: &str,
    lowered: &str,
    filename: &str,
    file_name: Option<&str>,
) -> (r: ExportCheck)
    ensures
        r.warnings@ == export_warnings(query@, lowered@),
        r.verdict == export_verdict(
            export_problem(query@, lowered@, filename@, optional_name(file_name)),
        ),
{
    let mut warnings: Vec<RiskyWord> = Vec::new();
    if chars_blank(&to_chars(query)) {
        return ExportCheck { warnings, verdict: Err(ExportError::EmptyQuery) };
    }
    let l = to_chars(lowered);
    if !chars_contain(&l, "select") {
        return ExportCheck { warnings, verdict: Err(ExportError::NotAQuery) };
    }
    flag(&mut warnings, &l, RiskyWord::Drop);
    flag(&mut warnings, &l, RiskyWord::Delete);
    flag(&mut warnings, &l, RiskyWord::Update);
    flag(&mut warnings, &l, RiskyWord::Insert);
    flag(&mut warnings, &l, RiskyWord::Create);
    flag(&mut warnings, &l, RiskyWord::Alter);
    assert(warnings@ =~= risky_words(lowered@));
    let verdict = if chars_blank(&to_chars(filename)) {
        Err(ExportError::EmptyFilename)
    } else if byte_len(filename) > 255 {
        Err(ExportError::FilenameTooLong)
    } else {
        match file_name {
            Some(name) => {
                if has_forbidden_in_name(name) {
                    Err(ExportError::InvalidFilename)
                } else {
                    Ok(())
                }
            },
            None => Ok(()),
        }
    };
    ExportCheck { warnings, verdict }
}

/// Checks an export of `query` to the path `filename`, whose last part is
/// `file_name` if it has one.
pub fn validate_export_inputs(query: &str, filename: &str, file_name: Option<&str>) -> (r:
    ExportCheck)
    ensures
        r.warnings@ == export_warnings(query@, lowercase(query@)),
        r.verdict == export_verdict(
            export_problem(query@, lowercase(query@), filename@, optional_name(file_name)),
        ),
{
    let lowered = to_lowercase(query);
    check_export_inputs(query, lowered.as_str(), filename, file_name)
}

/// The number of failures that an export bears.
pub const FAILURE_LIMIT: usize = 10;

/// The number of rows after which an export reports its progress.
pub const PROGRESS_INTERVAL: usize = 10000;

/// What went wrong with a row.
#[derive(Debug, Clone, Copy, PartialEq, Eq, Structural)]
pub enum RowFailure {
    /// The row could not be read from the database.
    Processing,
    /// The row could not be written to the file.
    Writing,
}

/// The count of an export: the rows written and the rows that failed.
#[derive(Debug, Clone, Copy, PartialEq, Eq, Structural)]
pub struct ExportTally {
    pub row_count: usize,
    pub error_count: usize,
}

impl ExportTally {
    /// The count before the first row.
    pub fn new() -> (r: Self)
        ensures
            r == (ExportTally { row_count: 0, error_count: 0 }),
    {
        ExportTally { row_count: 0, error_count: 0 }
    }

    /// The number of the row that comes next, counted from one.
    pub fn next_row(&self) -> (r: usize)
        requires
            self.row_count < usize::MAX,
        ensures
            r == self.row_count + 1,
    {
        self.row_count + 1
    }

    /// Counts a row that was written and says whether the progress is to be
    /// reported: after every 10000 rows.
    pub fn row_written(&mut self) -> (report: bool)
        requires
            old(self).row_count < usize::MAX,
        ensures
            final(self).row_count == old(self).row_count + 1,
            final(self).error_count == old(self).error_count,
            report == (final(self).row_count as nat % PROGRESS_INTERVAL as nat == 0),
    {
        self.row_count += 1;
        self.row_count % PROGRESS_INTERVAL == 0
    }

    /// Counts a row that failed. The export goes on up to ten failures; with
    /// the eleventh it stops, and the failure that stopped it is handed back.
    pub fn row_failed(&mut self, failure: RowFailure) -> (r: Result<(), RowFailure>)
        requires
            old(self).error_count < usize::MAX,
        ensures
            final(self).error_count == old(self).error_count + 1,
            final(self).row_count == old(self).row_count,
            final(self).error_count > FAILURE_LIMIT ==> r == Err::<(), RowFailure>(failure),
            final(self).error_count <= FAILURE_LIMIT ==> r is Ok,
    {
        self.error_count += 1;
        if self.error_count > FAILURE_LIMIT {
            Err(failure)
        } else {
            Ok(())
        }
    }
}

/// Why the file of an export is not what it should be.
#[derive(Debug, Clone, Copy, PartialEq, Eq, Structural)]
pub enum ExportFileError {
    /// The file is not there.
    NotCreated,
    /// The file is empty although this many rows were written.
    Empty { expected_rows: usize },
}

/// What the file of an export shows: it must be there, and not be empty if
/// rows were written. A file that holds something passes with its size, which
/// is worth telling.
pub open spec fn export_file_verdict(exists: bool, size: u64, expected_rows: usize) -> Result<
    Option<u64>,
    ExportFileError,
> {
    if !exists {
        Err(ExportFileError::NotCreated)
    } else if size == 0 && expected_rows > 0 {
        Err(ExportFileError::Empty { expected_rows })
    } else if size > 0 {
        Ok(Some(size))
    } else {
        Ok(None)
    }
}

/// Checks the file of an export after the last row.
pub fn verify_export_file(exists: bool, size: u64, expected_rows: usize) -> (r: Result<
    Option<u64>,
    ExportFileError,
>)
    ensures
        r == export_file_verdict(exists, size, expected_rows),
{
    if !exists {
        Err(ExportFileError::NotCreated)
    } else if size == 0 && expected_rows > 0 {
        Err(ExportFileError::Empty { expected_rows })
    } else if size > 0 {
        Ok(Some(size))
    } else {
        Ok(None)
    }
}

} // verus!
