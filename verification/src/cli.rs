//! Checks on what the user hands to the command line, and the advice that
//! goes with a failure.

use crate::bookmarks::{has_forbidden, has_forbidden_character};
use crate::text::{
    byte_len, byte_length, char_is_alphabetic, char_is_alphanumeric, chars_blank, chars_contain,
    chars_contain_char, contains_text, is_alphabetic, is_alphanumeric, is_blank, join_text,
    lowercase, to_chars, to_lowercase, to_uppercase, uppercase,
};
use vstd::prelude::*;
use vstd::string::StringExecFns;

verus! {

/// Why an argument of the command line was refused.
#[derive(Debug, Clone, Copy, PartialEq, Eq, Structural)]
pub enum InputError {
    EmptyDatabaseName,
    InvalidDatabaseName,
    DatabaseNameTooLong,
    EmptyDatabasePath,
    DatabasePathTooLong,
    EmptyTableName,
    TableNameStart,
    TableNameCharacters,
    TableNameTooLong,
    ReservedTableName,
    EmptyColumnDefinition,
    ColumnTypesMissing,
}

impl InputError {
    /// The text of the error about the argument `subject`.
    pub open spec fn spec_describe(self, subject: Seq<char>) -> Seq<char> {
        match self {
            InputError::EmptyDatabaseName => "Database name cannot be empty"@,
            InputError::InvalidDatabaseName =>
                "Database name contains invalid characters. Avoid: \\ / : * ? \" < > |"@,
            InputError::DatabaseNameTooLong =>
                "Database name is too long (maximum 255 characters)"@,
            InputError::EmptyDatabasePath => "Database path cannot be empty"@,
            InputError::DatabasePathTooLong =>
                "Database path is too long (maximum 1024 characters)"@,
            InputError::EmptyTableName => "Table name cannot be empty"@,
            InputError::TableNameStart => "Table name must start with a letter or underscore"@,
            InputError::TableNameCharacters =>
                "Table name can only contain letters, numbers, and underscores"@,
            InputError::TableNameTooLong => "Table name is too long (maximum 64 characters)"@,
            InputError::ReservedTableName => "Table name '"@ + subject
                + "' is a reserved SQL keyword"@,
            InputError::EmptyColumnDefinition => "Column definition cannot be empty"@,
            InputError::ColumnTypesMissing =>
                "Column definition must include column types (e.g., 'id INTEGER, name TEXT')"@,
        }
    }

    /// The text of the error about the argument `subject`.
    pub fn describe(&self, subject: &str) -> (r: String)
        ensures
            r@ == self.spec_describe(subject@),
    {
        match self {
            InputError::EmptyDatabaseName => String::from_str("Database name cannot be empty"),
            InputError::InvalidDatabaseName => String::from_str(
                "Database name contains invalid characters. Avoid: \\ / : * ? \" < > |",
            ),
            InputError::DatabaseNameTooLong => String::from_str(
                "Database name is too long (maximum 255 characters)",
            ),
            InputError::EmptyDatabasePath => String::from_str("Database path cannot be empty"),
            InputError::DatabasePathTooLong => String::from_str(
                "Database path is too long (maximum 1024 characters)",
            ),
            InputError::EmptyTableName => String::from_str("Table name cannot be empty"),
            InputError::TableNameStart => String::from_str(
                "Table name must start with a letter or underscore",
            ),
            InputError::TableNameCharacters => String::from_str(
                "Table name can only contain letters, numbers, and underscores",
            ),
            InputError::TableNameTooLong => String::from_str(
                "Table name is too long (maximum 64 characters)",
            ),
            InputError::ReservedTableName => join_text("Table name '", subject).concat(
                "' is a reserved SQL keyword",
            ),
            InputError::EmptyColumnDefinition => String::from_str(
                "Column definition cannot be empty",
            ),
            InputError::ColumnTypesMissing => String::from_str(
                "Column definition must include column types (e.g., 'id INTEGER, name TEXT')",
            ),
        }
    }
}

/// What is wrong with `name` as the name of a database: blank, a forbidden
/// character, or more than 255 bytes, in that order.
pub open spec fn database_name_problem(name: Seq<char>) -> Option<InputError> {
    if is_blank(name) {
        Some(InputError::EmptyDatabaseName)
    } else if has_forbidden_character(name) {
        Some(InputError::InvalidDatabaseName)
    } else if byte_length(name) > 255 {
        Some(InputError::DatabaseNameTooLong)
    } else {
        None
    }
}

/// The result that reports `problem`.
pub open spec fn verdict(problem: Option<InputError>) -> Result<(), InputError> {
    match problem {
        Some(e) => Err(e),
        None => Ok(()),
    }
}

/// Checks the name of a database to create.
pub fn validate_database_name(name: &str) -> (r: Result<(), InputError>)
    ensures
        r == verdict(database_name_problem(name@)),
{
    let chars = to_chars(name);
    if chars_blank(&chars) {
        Err(InputError::EmptyDatabaseName)
    } else if has_forbidden(&chars) {
        Err(InputError::InvalidDatabaseName)
    } else if byte_len(name) > 255 {
        Err(InputError::DatabaseNameTooLong)
    } else {
        Ok(())
    }
}

/// What is wrong with `path` as the path of a database: blank, or more than
/// 1024 bytes.
pub open spec fn database_path_problem(path: Seq<char>) -> Option<InputError> {
    if is_blank(path) {
        Some(InputError::EmptyDatabasePath)
    } else if byte_length(path) > 1024 {
        Some(InputError::DatabasePathTooLong)
    } else {
        None
    }
}

/// Checks the path of a database.
pub fn validate_database_path(path: &str) -> (r: Result<(), InputError>)
    ensures
        r == verdict(database_path_problem(path@)),
{
    if chars_blank(&to_chars(path)) {
        Err(InputError::EmptyDatabasePath)
    } else if byte_len(path) > 1024 {
        Err(InputError::DatabasePathTooLong)
    } else {
        Ok(())
    }
}

/// Whether `c` may stand in the name of a table: a letter, a number or an
/// underscore.
pub open spec fn is_table_name_char(c: char) -> bool {
    is_alphanumeric(c) || c == '_'
}

/// Whether `upper` is one of the eight reserved words.
pub open spec fn is_reserved_word(upper: Seq<char>) -> bool {
    ||| upper == "TABLE"@
    ||| upper == "SELECT"@
    ||| upper == "INSERT"@
    ||| upper == "UPDATE"@
    ||| upper == "DELETE"@
    ||| upper == "CREATE"@
    ||| upper == "DROP"@
    ||| upper == "ALTER"@
}

/// What is wrong with `name` as the name of a table, in this order: blank;
/// a first character that is neither a letter nor an underscore; a character
/// that is neither a letter, a number nor an underscore; more than 64 bytes;
/// a reserved word, whatever its case.
pub open spec fn table_name_problem(name: Seq<char>) -> Option<InputError> {
    if is_blank(name) {
        Some(InputError::EmptyTableName)
    } else if !is_alphabetic(name[0]) && name[0] != '_' {
        Some(InputError::TableNameStart)
    } else if exists|i: int| 0 <= i < name.len() && !is_table_name_char(#[trigger] name[i]) {
        Some(InputError::TableNameCharacters)
    } else if byte_length(name) > 64 {
        Some(InputError::TableNameTooLong)
    } else if is_reserved_word(uppercase(name)) {
        Some(InputError::ReservedTableName)
    } else {
        None
    }
}

/// Whether `upper` is one of the eight reserved words.
pub fn is_reserved(upper: &str) -> (r: bool)
    ensures
        r == is_reserved_word(upper@),
{
    let u = to_chars(upper);
    crate::text::chars_are(&u, "TABLE") || crate::text::chars_are(&u, "SELECT")
        || crate::text::chars_are(&u, "INSERT") || crate::text::chars_are(&u, "UPDATE")
        || crate::text::chars_are(&u, "DELETE") || crate::text::chars_are(&u, "CREATE")
        || crate::text::chars_are(&u, "DROP") || crate::text::chars_are(&u, "ALTER")
}

/// Checks the name of a table to create.
pub fn validate_table_name(name: &str) -> (r: Result<(), InputError>)
    ensures
        r == verdict(table_name_problem(name@)),
{
    let chars = to_chars(name);
    if chars_blank(&chars) {
        return Err(InputError::EmptyTableName);
    }
    assert(chars@.len() > 0) by {
        if chars@.len() == 0 {
            assert(is_blank(chars@));
        }
    }
    if !char_is_alphabetic(chars[0]) && chars[0] != '_' {
        return Err(InputError::TableNameStart);
    }
    let mut i: usize = 0;
    while i < chars.len()
        invariant
            i <= chars.len(),
            chars@ == name@,
            !is_blank(name@),
            is_alphabetic(name@[0]) || name@[0] == '_',
            forall|k: int| 0 <= k < i ==> is_table_name_char(#[trigger] chars@[k]),
        decreases chars.len() - i,
    {
        if !(char_is_alphanumeric(chars[i]) || chars[i] == '_') {
            assert(!is_table_name_char(chars@[i as int]));
            return Err(InputError::TableNameCharacters);
        }
        i += 1;
    }
    if byte_len(name) > 64 {
        return Err(InputError::TableNameTooLong);
    }
    let upper = to_uppercase(name);
    if is_reserved(upper.as_str()) {
        return Err(InputError::ReservedTableName);
    }
    Ok(())
}

/// What is wrong with `columns` as the columns of a table: blank, or without
/// a single space, which a type after a name would need.
pub open spec fn column_definition_problem(columns: Seq<char>) -> Option<InputError> {
    if is_blank(columns) {
        Some(InputError::EmptyColumnDefinition)
    } else if !columns.contains(' ') {
        Some(InputError::ColumnTypesMissing)
    } else {
        None
    }
}

/// Checks the columns of a table to create.
pub fn validate_column_definition(columns: &str) -> (r: Result<(), InputError>)
    ensures
        r == verdict(column_definition_problem(columns@)),
{
    let chars = to_chars(columns);
    if chars_blank(&chars) {
        Err(InputError::EmptyColumnDefinition)
    } else if !chars_contain_char(&chars, ' ') {
        Err(InputError::ColumnTypesMissing)
    } else {
        Ok(())
    }
}

/// The kind of advice that goes with an error.
#[derive(Debug, Clone, Copy, PartialEq, Eq, Structural)]
pub enum Advice {
    MissingFile,
    Permissions,
    Locked,
    Syntax,
    DiskSpace,
    General,
}

/// The advice for an error whose lowercase text is `lowered`: the first of
/// five topics that the text mentions, or general advice.
pub open spec fn advice_for(lowered: Seq<char>) -> Advice {
    if contains_text(lowered, "no such file"@) || contains_text(lowered, "not found"@) {
        Advice::MissingFile
    } else if contains_text(lowered, "permission"@) || contains_text(lowered, "access"@) {
        Advice::Permissions
    } else if contains_text(lowered, "locked"@) || contains_text(lowered, "busy"@) {
        Advice::Locked
    } else if contains_text(lowered, "syntax"@) || contains_text(lowered, "sql"@) {
        Advice::Syntax
    } else if contains_text(lowered, "disk"@) || contains_text(lowered, "space"@) {
        Advice::DiskSpace
    } else {
        Advice::General
    }
}

/// Picks the advice for an error whose lowercase text is `lowered`.
pub fn advice_for_lowered(lowered: &str) -> (r: Advice)
    ensures
        r == advice_for(lowered@),
{
    let m = to_chars(lowered);
    if chars_contain(&m, "no such file") || chars_contain(&m, "not found") {
        Advice::MissingFile
    } else if chars_contain(&m, "permission") || chars_contain(&m, "access") {
        Advice::Permissions
    } else if chars_contain(&m, "locked") || chars_contain(&m, "busy") {
        Advice::Locked
    } else if chars_contain(&m, "syntax") || chars_contain(&m, "sql") {
        Advice::Syntax
    } else if chars_contain(&m, "disk") || chars_contain(&m, "space") {
        Advice::DiskSpace
    } else {
        Advice::General
    }
}

/// Picks the advice for an error with the text `message`, whatever its case.
pub fn error_advice(message: &str) -> (r: Advice)
    ensures
        r == advice_for(lowercase(message@)),
{
    let lowered = to_lowercase(message);
    advice_for_lowered(lowered.as_str())
}

impl Advice {
    /// The three suggestions of this kind.
    pub open spec fn spec_suggestions(self) -> Seq<Seq<char>> {
        match self {
            Advice::MissingFile => seq![
                "Check if the file path is correct"@,
                "Make sure the database file exists"@,
                "Use 'init' command to create a new database"@,
            ],
            Advice::Permissions => seq![
                "Check file permissions"@,
                "Make sure you have read/write access to the directory"@,
                "Try running with appropriate permissions"@,
            ],
            Advice::Locked => seq![
                "Close other applications using the database"@,
                "Wait a moment and try again"@,
                "Check if another Vapor CLI instance is running"@,
            ],
            Advice::Syntax => seq![
                "Check your SQL syntax"@,
                "Use quotes around table/column names with spaces"@,
                "Verify column definitions follow SQLite syntax"@,
            ],
            Advice::DiskSpace => seq![
                "Check available disk space"@,
                "Clean up unnecessary files"@,
                "Consider using a different location"@,
            ],
            Advice::General => seq![
                "Check the command syntax with --help"@,
                "Verify your input parameters"@,
                "Try the operation again"@,
            ],
        }
    }

    /// The three suggestions of this kind.
    pub fn suggestions(&self) -> (r: [&'static str; 3])
        ensures
            r@.len() == 3,
            forall|i: int| 0 <= i < 3 ==> (#[trigger] r@[i])@ == self.spec_suggestions()[i],
    {
        match self {
            Advice::MissingFile => [
                "Check if the file path is correct",
                "Make sure the database file exists",
                "Use 'init' command to create a new database",
            ],
            Advice::Permissions => [
                "Check file permissions",
                "Make sure you have read/write access to the directory",
                "Try running with appropriate permissions",
            ],
            Advice::Locked => [
                "Close other applications using the database",
                "Wait a moment and try again",
                "Check if another Vapor CLI instance is running",
            ],
            Advice::Syntax => [
                "Check your SQL syntax",
                "Use quotes around table/column names with spaces",
                "Verify column definitions follow SQLite syntax",
            ],
            Advice::DiskSpace => [
                "Check available disk space",
                "Clean up unnecessary files",
                "Consider using a different location",
            ],
            Advice::General => [
                "Check the command syntax with --help",
                "Verify your input parameters",
                "Try the operation again",
            ],
        }
    }
}

} // verus!
