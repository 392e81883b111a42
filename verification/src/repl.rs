//! The decisions of the interactive session: when a statement is complete,
//! what a meta-command asks for, and which prompt to show.

use crate::bookmarks::{
    after_save, Bookmark, BookmarkError, BookmarkManager, BookmarkView, check_entry, collection,
    detail_lines, given_by_clock, lookup, names_ascend,
};
use crate::display::{OutputFormat, QueryOptions};
use crate::text::{
    chars_are, chars_blank, chars_contain, chars_end_with, chars_start_with, contains_text, decimal,
    decimal_text, join_text, joined_with, lemma_trim_empty_iff_blank, line_texts, literal_line,
    lowercase, one_line, parse_usize, parse_usize_chars, split_words, texts, to_chars, to_lowercase,
    to_text, trim, trim_chars, words,
};
use crate::transactions::{
    classify, guard_outcome, Intercept, SqlFailure, TransactionManager, TransactionState,
};
use vstd::prelude::*;
use vstd::string::StringExecFns;

verus! {

/// Something to tell the user after a meta-command.
#[derive(Debug, Clone, PartialEq, Eq)]
pub enum MetaNotice {
    InvalidFormat,
    CurrentFormat(OutputFormat),
    RowLimitRemoved,
    RowLimitSet(usize),
    InvalidLimit,
    NoRowLimit,
    CurrentRowLimit(usize),
    TimingEnabled,
    TimingDisabled,
    NothingToExport,
    ExportUsage,
    ImportUsage,
    UnknownCommand(String),
}

/// The mathematical value of a [`MetaNotice`].
pub enum MetaNoticeView {
    InvalidFormat,
    CurrentFormat(OutputFormat),
    RowLimitRemoved,
    RowLimitSet(usize),
    InvalidLimit,
    NoRowLimit,
    CurrentRowLimit(usize),
    TimingEnabled,
    TimingDisabled,
    NothingToExport,
    ExportUsage,
    ImportUsage,
    UnknownCommand(Seq<char>),
}

impl View for MetaNotice {
    type V = MetaNoticeView;

    open spec fn view(&self) -> MetaNoticeView {
        match self {
            MetaNotice::InvalidFormat => MetaNoticeView::InvalidFormat,
            MetaNotice::CurrentFormat(f) => MetaNoticeView::CurrentFormat(*f),
            MetaNotice::RowLimitRemoved => MetaNoticeView::RowLimitRemoved,
            MetaNotice::RowLimitSet(n) => MetaNoticeView::RowLimitSet(*n),
            MetaNotice::InvalidLimit => MetaNoticeView::InvalidLimit,
            MetaNotice::NoRowLimit => MetaNoticeView::NoRowLimit,
            MetaNotice::CurrentRowLimit(n) => MetaNoticeView::CurrentRowLimit(*n),
            MetaNotice::TimingEnabled => MetaNoticeView::TimingEnabled,
            MetaNotice::TimingDisabled => MetaNoticeView::TimingDisabled,
            MetaNotice::NothingToExport => MetaNoticeView::NothingToExport,
            MetaNotice::ExportUsage => MetaNoticeView::ExportUsage,
            MetaNotice::ImportUsage => MetaNoticeView::ImportUsage,
            MetaNotice::UnknownCommand(c) => MetaNoticeView::UnknownCommand(c@),
        }
    }
}

impl MetaNoticeView {
    /// The lines shown to the user.
    pub open spec fn lines(self) -> Seq<Seq<char>> {
        match self {
            MetaNoticeView::InvalidFormat => seq!["Invalid format. Available: table, json, csv"@],
            MetaNoticeView::CurrentFormat(f) => seq![
                "Current format: "@ + f.spec_name(),
                "Usage: .format [table|json|csv]"@,
            ],
            MetaNoticeView::RowLimitRemoved => seq!["Row limit removed"@],
            MetaNoticeView::RowLimitSet(n) => seq!["Row limit set to "@ + decimal(n as nat)],
            MetaNoticeView::InvalidLimit => seq![
                "Invalid limit value. Use a positive number or 0 for no limit."@,
            ],
            MetaNoticeView::NoRowLimit => seq!["No row limit set"@],
            MetaNoticeView::CurrentRowLimit(n) => seq!["Current row limit: "@ + decimal(n as nat)],
            MetaNoticeView::TimingEnabled => seq!["Query timing enabled"@],
            MetaNoticeView::TimingDisabled => seq!["Query timing disabled"@],
            MetaNoticeView::NothingToExport => seq!["No SELECT query has been executed yet."@],
            MetaNoticeView::ExportUsage => seq!["Usage: .export FILENAME"@],
            MetaNoticeView::ImportUsage => seq!["Usage: .import CSV_FILENAME TABLE_NAME"@],
            MetaNoticeView::UnknownCommand(c) => seq![
                "Unknown command: '"@ + c + "'. Type '.help' for a list of commands."@,
            ],
        }
    }
}

fn numbered_line(lead: &str, n: usize) -> (r: Vec<String>)
    ensures
        line_texts(r@) == seq![lead@ + decimal(n as nat)],
{
    let digits = decimal_text(n);
    one_line(String::from_str(lead).concat(digits.as_str()))
}

impl MetaNotice {
    /// The lines shown to the user.
    pub fn lines(&self) -> (r: Vec<String>)
        ensures
            line_texts(r@) == self@.lines(),
    {
        match self {
            MetaNotice::InvalidFormat => literal_line("Invalid format. Available: table, json, csv"),
            MetaNotice::CurrentFormat(f) => {
                let mut r = one_line(String::from_str("Current format: ").concat(f.name()));
                let ghost first = line_texts(r@);
                r.push(String::from_str("Usage: .format [table|json|csv]"));
                assert(line_texts(r@) =~= first + seq!["Usage: .format [table|json|csv]"@]);
                r
            },
            MetaNotice::RowLimitRemoved => literal_line("Row limit removed"),
            MetaNotice::RowLimitSet(n) => numbered_line("Row limit set to ", *n),
            MetaNotice::InvalidLimit => literal_line(
                "Invalid limit value. Use a positive number or 0 for no limit.",
            ),
            MetaNotice::NoRowLimit => literal_line("No row limit set"),
            MetaNotice::CurrentRowLimit(n) => numbered_line("Current row limit: ", *n),
            MetaNotice::TimingEnabled => literal_line("Query timing enabled"),
            MetaNotice::TimingDisabled => literal_line("Query timing disabled"),
            MetaNotice::NothingToExport => literal_line("No SELECT query has been executed yet."),
            MetaNotice::ExportUsage => literal_line("Usage: .export FILENAME"),
            MetaNotice::ImportUsage => literal_line("Usage: .import CSV_FILENAME TABLE_NAME"),
            MetaNotice::UnknownCommand(c) => one_line(
                String::from_str("Unknown command: '").concat(c.as_str()).concat(
                    "'. Type '.help' for a list of commands.",
                ),
            ),
        }
    }
}

/// What the session does for one meta-command.
#[derive(Debug, Clone, PartialEq, Eq)]
pub enum MetaAction {
    ShowHelp,
    SwitchToShell,
    Exit,
    ListTables,
    ClearScreen,
    ShowInfo,
    /// The command was carried out and there is nothing to show.
    Done,
    Notify(MetaNotice),
    /// Write the rows of `query` to the file `filename`.
    Export { query: String, filename: String },
    /// Load the file `file` into the table `table`.
    Import { file: String, table: String },
    /// Hand the command to the bookmark sub-commands.
    Bookmark,
    /// Show the schema of one table, or of all of them.
    ShowSchema(Option<String>),
    ShowStatus,
}

/// The mathematical value of a [`MetaAction`].
pub enum MetaActionView {
    ShowHelp,
    SwitchToShell,
    Exit,
    ListTables,
    ClearScreen,
    ShowInfo,
    Done,
    Notify(MetaNoticeView),
    Export { query: Seq<char>, filename: Seq<char> },
    Import { file: Seq<char>, table: Seq<char> },
    Bookmark,
    ShowSchema(Option<Seq<char>>),
    ShowStatus,
}

impl View for MetaAction {
    type V = MetaActionView;

    open spec fn view(&self) -> MetaActionView {
        match self {
            MetaAction::ShowHelp => MetaActionView::ShowHelp,
            MetaAction::SwitchToShell => MetaActionView::SwitchToShell,
            MetaAction::Exit => MetaActionView::Exit,
            MetaAction::ListTables => MetaActionView::ListTables,
            MetaAction::ClearScreen => MetaActionView::ClearScreen,
            MetaAction::ShowInfo => MetaActionView::ShowInfo,
            MetaAction::Done => MetaActionView::Done,
            MetaAction::Notify(n) => MetaActionView::Notify(n@),
            MetaAction::Export { query, filename } => MetaActionView::Export {
                query: query@,
                filename: filename@,
            },
            MetaAction::Import { file, table } => MetaActionView::Import {
                file: file@,
                table: table@,
            },
            MetaAction::Bookmark => MetaActionView::Bookmark,
            MetaAction::ShowSchema(t) => MetaActionView::ShowSchema(
                match t {
                    Some(name) => Some(name@),
                    None => None,
                },
            ),
            MetaAction::ShowStatus => MetaActionView::ShowStatus,
        }
    }
}

impl MetaAction {
    /// Whether the session goes on after this action: it ends on `Exit` only.
    pub fn continues(&self) -> (r: bool)
        ensures
            r == !(self@ is Exit),
    {
        match self {
            MetaAction::Exit => false,
            _ => true,
        }
    }
}

/// What `.format` with the words `parts` asks for.
pub open spec fn format_action(parts: Seq<Seq<char>>, options: QueryOptions) -> MetaActionView {
    if parts.len() > 1 {
        if parts[1] == "table"@ || parts[1] == "json"@ || parts[1] == "csv"@ {
            MetaActionView::Done
        } else {
            MetaActionView::Notify(MetaNoticeView::InvalidFormat)
        }
    } else {
        MetaActionView::Notify(MetaNoticeView::CurrentFormat(options.format))
    }
}

/// What `.limit` with the words `parts` asks for.
pub open spec fn limit_action(parts: Seq<Seq<char>>, options: QueryOptions) -> MetaActionView {
    if parts.len() > 1 {
        match parse_usize(parts[1]) {
            Some(n) => if n == 0 {
                MetaActionView::Notify(MetaNoticeView::RowLimitRemoved)
            } else {
                MetaActionView::Notify(MetaNoticeView::RowLimitSet(n))
            },
            None => MetaActionView::Notify(MetaNoticeView::InvalidLimit),
        }
    } else {
        match options.max_rows {
            None => MetaActionView::Notify(MetaNoticeView::NoRowLimit),
            Some(n) => MetaActionView::Notify(MetaNoticeView::CurrentRowLimit(n)),
        }
    }
}

/// What the meta-command `command` asks for, given the last `SELECT` that
/// ran and the options in force. The first word picks the command; a first
/// word that names none is reported as unknown.
pub open spec fn meta_action(
    command: Seq<char>,
    last_select_query: Seq<char>,
    options: QueryOptions,
) -> MetaActionView {
    let parts = words(trim(command));
    let base = if parts.len() > 0 {
        parts[0]
    } else {
        Seq::empty()
    };
    if base == ".help"@ {
        MetaActionView::ShowHelp
    } else if base == ".shell"@ {
        MetaActionView::SwitchToShell
    } else if base == ".exit"@ || base == ".quit"@ {
        MetaActionView::Exit
    } else if base == ".tables"@ {
        MetaActionView::ListTables
    } else if base == ".clear"@ {
        MetaActionView::ClearScreen
    } else if base == ".info"@ {
        MetaActionView::ShowInfo
    } else if base == ".format"@ {
        format_action(parts, options)
    } else if base == ".limit"@ {
        limit_action(parts, options)
    } else if base == ".timing"@ {
        MetaActionView::Notify(MetaNoticeView::TimingEnabled)
    } else if base == ".notiming"@ {
        MetaActionView::Notify(MetaNoticeView::TimingDisabled)
    } else if base == ".export"@ {
        if parts.len() > 1 {
            if last_select_query.len() == 0 {
                MetaActionView::Notify(MetaNoticeView::NothingToExport)
            } else {
                MetaActionView::Export { query: last_select_query, filename: parts[1] }
            }
        } else {
            MetaActionView::Notify(MetaNoticeView::ExportUsage)
        }
    } else if base == ".import"@ {
        if parts.len() >= 3 {
            MetaActionView::Import { file: parts[1], table: parts[2] }
        } else {
            MetaActionView::Notify(MetaNoticeView::ImportUsage)
        }
    } else if base == ".bookmark"@ {
        MetaActionView::Bookmark
    } else if base == ".schema"@ {
        if parts.len() > 1 {
            MetaActionView::ShowSchema(Some(parts[1]))
        } else {
            MetaActionView::ShowSchema(None)
        }
    } else if base == ".status"@ {
        MetaActionView::ShowStatus
    } else {
        MetaActionView::Notify(MetaNoticeView::UnknownCommand(trim(command)))
    }
}

/// The options in force after the meta-command `command`: `.format` with a
/// known name sets the format, `.limit` with a number sets or lifts the row
/// limit, `.timing` and `.notiming` switch the timing, and every other
/// command leaves the options as they were.
pub open spec fn options_after(command: Seq<char>, options: QueryOptions) -> QueryOptions {
    let parts = words(trim(command));
    let base = if parts.len() > 0 {
        parts[0]
    } else {
        Seq::empty()
    };
    if base == ".format"@ && parts.len() > 1 {
        if parts[1] == "table"@ {
            QueryOptions { format: OutputFormat::Table, ..options }
        } else if parts[1] == "json"@ {
            QueryOptions { format: OutputFormat::Json, ..options }
        } else if parts[1] == "csv"@ {
            QueryOptions { format: OutputFormat::Csv, ..options }
        } else {
            options
        }
    } else if base == ".limit"@ && parts.len() > 1 {
        match parse_usize(parts[1]) {
            Some(n) => if n == 0 {
                QueryOptions { max_rows: None, ..options }
            } else {
                QueryOptions { max_rows: Some(n), ..options }
            },
            None => options,
        }
    } else if base == ".timing"@ {
        QueryOptions { show_timing: true, ..options }
    } else if base == ".notiming"@ {
        QueryOptions { show_timing: false, ..options }
    } else {
        options
    }
}

fn word_is(parts: &Vec<Vec<char>>, k: usize, lit: &str) -> (r: bool)
    requires
        k < parts.len(),
    ensures
        r == (texts(parts@)[k as int] == lit@),
{
    chars_are(&parts[k], lit)
}

fn word_text(parts: &Vec<Vec<char>>, k: usize) -> (r: String)
    requires
        k < parts.len(),
    ensures
        r@ == texts(parts@)[k as int],
{
    to_text(&parts[k])
}

/// The names of the meta-commands are pairwise different and none is empty.
proof fn lemma_meta_names_differ()
    ensures
        ".help"@.len() == 5,
        ".shell"@.len() == 6,
        ".exit"@.len() == 5,
        ".quit"@.len() == 5,
        ".tables"@.len() == 7,
        ".clear"@.len() == 6,
        ".info"@.len() == 5,
        ".format"@.len() == 7,
        ".limit"@.len() == 6,
        ".timing"@.len() == 7,
        ".notiming"@.len() == 9,
        ".export"@.len() == 7,
        ".import"@.len() == 7,
        ".bookmark"@.len() == 9,
        ".schema"@.len() == 7,
        ".status"@.len() == 7,
        ".format"@[1] == 'f',
        ".limit"@[1] == 'l',
        ".timing"@[1] == 't',
        ".timing"@[2] == 'i',
        ".tables"@[1] == 't',
        ".tables"@[2] == 'a',
        ".export"@[1] == 'e',
        ".import"@[1] == 'i',
        ".schema"@[1] == 's',
        ".schema"@[2] == 'c',
        ".status"@[1] == 's',
        ".status"@[2] == 't',
        ".shell"@[1] == 's',
        ".clear"@[1] == 'c',
        ".notiming"@[1] == 'n',
        ".bookmark"@[1] == 'b',
{
    reveal_strlit(".help");
    reveal_strlit(".shell");
    reveal_strlit(".exit");
    reveal_strlit(".quit");
    reveal_strlit(".tables");
    reveal_strlit(".clear");
    reveal_strlit(".info");
    reveal_strlit(".format");
    reveal_strlit(".limit");
    reveal_strlit(".timing");
    reveal_strlit(".notiming");
    reveal_strlit(".export");
    reveal_strlit(".import");
    reveal_strlit(".bookmark");
    reveal_strlit(".schema");
    reveal_strlit(".status");
}

/// Carries out the part of a meta-command that concerns the session's own
/// settings and says what is left to do.
pub fn handle_special_commands(
    command: &str,
    last_select_query: &str,
    query_options: &mut QueryOptions,
) -> (action: MetaAction)
    ensures
        action@ == meta_action(command@, last_select_query@, *old(query_options)),
        *final(query_options) == options_after(command@, *old(query_options)),
{
    let trimmed = trim_chars(&to_chars(command));
    let parts = split_words(&trimmed);
    proof {
        lemma_meta_names_differ();
    }
    if parts.len() == 0 {
        assert(texts(parts@).len() == 0);
        return MetaAction::Notify(MetaNotice::UnknownCommand(to_text(&trimmed)));
    }
    if word_is(&parts, 0, ".help") {
        MetaAction::ShowHelp
    } else if word_is(&parts, 0, ".shell") {
        MetaAction::SwitchToShell
    } else if word_is(&parts, 0, ".exit") || word_is(&parts, 0, ".quit") {
        MetaAction::Exit
    } else if word_is(&parts, 0, ".tables") {
        MetaAction::ListTables
    } else if word_is(&parts, 0, ".clear") {
        MetaAction::ClearScreen
    } else if word_is(&parts, 0, ".info") {
        MetaAction::ShowInfo
    } else if word_is(&parts, 0, ".format") {
        if parts.len() > 1 {
            if word_is(&parts, 1, "table") {
                query_options.format = OutputFormat::Table;
                MetaAction::Done
            } else if word_is(&parts, 1, "json") {
                query_options.format = OutputFormat::Json;
                MetaAction::Done
            } else if word_is(&parts, 1, "csv") {
                query_options.format = OutputFormat::Csv;
                MetaAction::Done
            } else {
                MetaAction::Notify(MetaNotice::InvalidFormat)
            }
        } else {
            MetaAction::Notify(MetaNotice::CurrentFormat(query_options.format))
        }
    } else if word_is(&parts, 0, ".limit") {
        if parts.len() > 1 {
            match parse_usize_chars(&parts[1]) {
                Some(n) => {
                    if n == 0 {
                        query_options.max_rows = None;
                        MetaAction::Notify(MetaNotice::RowLimitRemoved)
                    } else {
                        query_options.max_rows = Some(n);
                        MetaAction::Notify(MetaNotice::RowLimitSet(n))
                    }
                },
                None => MetaAction::Notify(MetaNotice::InvalidLimit),
            }
        } else {
            match query_options.max_rows {
                None => MetaAction::Notify(MetaNotice::NoRowLimit),
                Some(n) => MetaAction::Notify(MetaNotice::CurrentRowLimit(n)),
            }
        }
    } else if word_is(&parts, 0, ".timing") {
        query_options.show_timing = true;
        MetaAction::Notify(MetaNotice::TimingEnabled)
    } else if word_is(&parts, 0, ".notiming") {
        query_options.show_timing = false;
        MetaAction::Notify(MetaNotice::TimingDisabled)
    } else if word_is(&parts, 0, ".export") {
        if parts.len() > 1 {
            if last_select_query.unicode_len() == 0 {
                MetaAction::Notify(MetaNotice::NothingToExport)
            } else {
                MetaAction::Export {
                    query: String::from_str(last_select_query),
                    filename: word_text(&parts, 1),
                }
            }
        } else {
            MetaAction::Notify(MetaNotice::ExportUsage)
        }
    } else if word_is(&parts, 0, ".import") {
        if parts.len() >= 3 {
            MetaAction::Import { file: word_text(&parts, 1), table: word_text(&parts, 2) }
        } else {
            MetaAction::Notify(MetaNotice::ImportUsage)
        }
    } else if word_is(&parts, 0, ".bookmark") {
        MetaAction::Bookmark
    } else if word_is(&parts, 0, ".schema") {
        if parts.len() > 1 {
            MetaAction::ShowSchema(Some(word_text(&parts, 1)))
        } else {
            MetaAction::ShowSchema(None)
        }
    } else if word_is(&parts, 0, ".status") {
        MetaAction::ShowStatus
    } else {
        MetaAction::Notify(MetaNotice::UnknownCommand(to_text(&trimmed)))
    }
}

/// Whether the lowercased line `lower` is a command that is complete without
/// a closing semicolon: one of six keywords, or anything that begins with
/// `schema`, a dot, `begin`, `commit`, `rollback` or `drop`.
pub open spec fn is_bare_complete(lower: Seq<char>) -> bool {
    ||| lower == "exit"@
    ||| lower == "quit"@
    ||| lower == "help"@
    ||| lower == "tables"@
    ||| lower == "clear"@
    ||| lower == "info"@
    ||| "schema"@.is_prefix_of(lower)
    ||| "."@.is_prefix_of(lower)
    ||| "begin"@.is_prefix_of(lower)
    ||| "commit"@.is_prefix_of(lower)
    ||| "rollback"@.is_prefix_of(lower)
    ||| "drop"@.is_prefix_of(lower)
}

/// Whether a line whose lowercase form is `lowered` is complete without a
/// closing semicolon.
pub fn is_complete_lowered(lowered: &str) -> (r: bool)
    ensures
        r == is_bare_complete(lowered@),
{
    let lower = to_chars(lowered);
    chars_are(&lower, "exit") || chars_are(&lower, "quit") || chars_are(&lower, "help")
        || chars_are(&lower, "tables") || chars_are(&lower, "clear") || chars_are(&lower, "info")
        || chars_start_with(&lower, "schema") || chars_start_with(&lower, ".")
        || chars_start_with(&lower, "begin") || chars_start_with(&lower, "commit")
        || chars_start_with(&lower, "rollback") || chars_start_with(&lower, "drop")
}

/// Whether `line` is complete without a closing semicolon, whatever its case.
pub fn is_complete_command(line: &str) -> (r: bool)
    ensures
        r == is_bare_complete(lowercase(line@)),
{
    let lowered = to_lowercase(line);
    is_complete_lowered(lowered.as_str())
}

/// Whether `line` ends with the statement terminator.
pub open spec fn is_terminated(line: Seq<char>) -> bool {
    line.len() > 0 && line.last() == ';'
}

/// The pending text after `line` came in, when the lowercase form of `line`
/// is `lowered`.
pub open spec fn buffer_after(buffer: Seq<char>, line: Seq<char>, lowered: Seq<char>) -> Seq<
    char,
> {
    if buffer.len() > 0 {
        if is_terminated(line) {
            Seq::empty()
        } else {
            buffer + " "@ + line
        }
    } else if line.len() == 0 || is_terminated(line) || is_bare_complete(lowered) {
        Seq::empty()
    } else {
        line
    }
}

/// The command that `line` completes, if it completes one, when the lowercase
/// form of `line` is `lowered`. A pending statement goes on, joined by one
/// space, until a line ends with a semicolon, and comes out trimmed. With
/// nothing pending, a line that ends with a semicolon or is complete by
/// itself comes out as it is, an empty line is passed over, and any other
/// line becomes the pending text.
pub open spec fn command_after(buffer: Seq<char>, line: Seq<char>, lowered: Seq<char>) -> Option<
    Seq<char>,
> {
    if buffer.len() > 0 {
        if is_terminated(line) {
            Some(trim(buffer + " "@ + line))
        } else {
            None
        }
    } else if line.len() == 0 {
        None
    } else if is_terminated(line) || is_bare_complete(lowered) {
        Some(line)
    } else {
        None
    }
}

/// The view of an optional string.
pub open spec fn option_text(o: Option<String>) -> Option<Seq<char>> {
    match o {
        Some(s) => Some(s@),
        None => None,
    }
}

/// Takes in one line whose lowercase form is `lowered` and hands out the
/// command that it completes, if any.
pub fn assemble_line(multi_line_input: &mut String, line: &str, lowered: &str) -> (r: Option<
    String,
>)
    ensures
        option_text(r) == command_after(old(multi_line_input)@, line@, lowered@),
        final(multi_line_input)@ == buffer_after(old(multi_line_input)@, line@, lowered@),
{
    let line_chars = to_chars(line);
    let terminated = chars_end_with(&line_chars, ';');
    if !multi_line_input.as_str().is_empty() {
        multi_line_input.append(" ");
        multi_line_input.append(line);
        if terminated {
            let joined = to_chars(multi_line_input.as_str());
            let command = to_text(&trim_chars(&joined));
            *multi_line_input = String::new();
            Some(command)
        } else {
            None
        }
    } else if line_chars.len() == 0 {
        assert(multi_line_input@ =~= Seq::<char>::empty());
        None
    } else if terminated || is_complete_lowered(lowered) {
        assert(multi_line_input@ =~= Seq::<char>::empty());
        Some(String::from_str(line))
    } else {
        multi_line_input.append(line);
        assert(multi_line_input@ =~= line@);
        None
    }
}

/// Takes in one line and hands out the command that it completes, if any.
pub fn handle_multi_line_input(multi_line_input: &mut String, line: &str) -> (r: Option<String>)
    ensures
        option_text(r) == command_after(old(multi_line_input)@, line@, lowercase(line@)),
        final(multi_line_input)@ == buffer_after(old(multi_line_input)@, line@, lowercase(line@)),
{
    let lowered = to_lowercase(line);
    assemble_line(multi_line_input, line, lowered.as_str())
}

/// The pending text is cleared when a command comes out, and only grows
/// when none does.
pub proof fn lemma_buffer_cleared_on_command(
    buffer: Seq<char>,
    line: Seq<char>,
    lowered: Seq<char>,
)
    ensures
        command_after(buffer, line, lowered) is Some ==> buffer_after(buffer, line, lowered).len()
            == 0,
        command_after(buffer, line, lowered) is None ==> buffer.is_prefix_of(
            buffer_after(buffer, line, lowered),
        ),
        buffer.len() == 0 && line.len() == 0 ==> command_after(buffer, line, lowered) is None
            && buffer_after(buffer, line, lowered).len() == 0,
{
    if command_after(buffer, line, lowered) is None {
        if buffer.len() > 0 {
            let next = buffer + " "@ + line;
            assert(next.subrange(0, buffer.len() as int) =~= buffer);
        } else {
            assert(buffer =~= Seq::<char>::empty());
            let next = buffer_after(buffer, line, lowered);
            assert(next.subrange(0, 0) =~= buffer);
        }
    }
}

/// How statements come together. With nothing pending, a line that ends
/// with a semicolon, or is complete by itself, comes out at once as it is and
/// leaves nothing pending. A line that is neither becomes the pending text,
/// and a second line that ends with a semicolon then completes the statement:
/// the two lines joined by one space, trimmed.
pub proof fn lemma_statement_assembly(
    first: Seq<char>,
    first_lowered: Seq<char>,
    second: Seq<char>,
    second_lowered: Seq<char>,
)
    ensures
        first.len() > 0 && (is_terminated(first) || is_bare_complete(first_lowered))
            ==> command_after(Seq::empty(), first, first_lowered) == Some(first)
            && buffer_after(Seq::empty(), first, first_lowered).len() == 0,
        first.len() > 0 && !is_terminated(first) && !is_bare_complete(first_lowered)
            && is_terminated(second) ==> ({
            let pending = buffer_after(Seq::empty(), first, first_lowered);
            &&& command_after(Seq::empty(), first, first_lowered) is None
            &&& pending == first
            &&& command_after(pending, second, second_lowered) == Some(
                trim(first + " "@ + second),
            )
            &&& buffer_after(pending, second, second_lowered).len() == 0
        }),
{
}

/// The prompt: `... ` while a statement is pending, else `*> ` inside a
/// transaction and `> ` outside.
pub open spec fn prompt_text(pending: Seq<char>, transaction_active: bool) -> Seq<char> {
    if pending.len() > 0 {
        "... "@
    } else if transaction_active {
        "*> "@
    } else {
        "> "@
    }
}

/// The prompt to show before the next line is read.
pub fn get_prompt(multi_line_input: &str, transaction_manager: &TransactionManager) -> (r:
    &'static str)
    ensures
        r@ == prompt_text(multi_line_input@, transaction_manager.active()),
{
    if multi_line_input.is_empty() {
        if transaction_manager.is_active() {
            "*> "
        } else {
            "> "
        }
    } else {
        "... "
    }
}

/// Where a complete command goes.
#[derive(Debug, Clone, PartialEq, Eq)]
pub enum SessionStep {
    /// Nothing to run yet: read the next line.
    ReadOn,
    /// A meta-command, trimmed, for [`handle_special_commands`].
    RunSpecial(String),
    /// A statement, trimmed, for the transaction guard and then the database.
    RunStatement(String),
}

/// The mathematical value of a [`SessionStep`].
pub enum SessionStepView {
    ReadOn,
    RunSpecial(Seq<char>),
    RunStatement(Seq<char>),
}

impl View for SessionStep {
    type V = SessionStepView;

    open spec fn view(&self) -> SessionStepView {
        match self {
            SessionStep::ReadOn => SessionStepView::ReadOn,
            SessionStep::RunSpecial(c) => SessionStepView::RunSpecial(c@),
            SessionStep::RunStatement(c) => SessionStepView::RunStatement(c@),
        }
    }
}

/// Where the complete command `command` goes: to the meta-commands if,
/// trimmed, it begins with a dot, else to the statements.
pub open spec fn route(command: Seq<char>) -> SessionStepView {
    let trimmed = trim(command);
    if "."@.is_prefix_of(trimmed) {
        SessionStepView::RunSpecial(trimmed)
    } else {
        SessionStepView::RunStatement(trimmed)
    }
}

/// What the session does with the raw line `raw`, when the lowercase form of
/// the trimmed line is `lowered`: the line is trimmed, passed over if it is
/// empty and nothing is pending, else taken in, and a command that it
/// completes is routed.
pub open spec fn step_after(buffer: Seq<char>, raw: Seq<char>, lowered: Seq<char>) -> SessionStepView {
    match command_after(buffer, trim(raw), lowered) {
        Some(command) => route(command),
        None => SessionStepView::ReadOn,
    }
}

/// Routes a complete command.
pub fn route_command(command: &str) -> (r: SessionStep)
    ensures
        r@ == route(command@),
{
    let trimmed = trim_chars(&to_chars(command));
    if chars_start_with(&trimmed, ".") {
        SessionStep::RunSpecial(to_text(&trimmed))
    } else {
        SessionStep::RunStatement(to_text(&trimmed))
    }
}

/// Whether the raw line `raw` goes into the history: every line of which
/// trimming leaves something does, as it was typed.
pub fn remember_line(raw: &str) -> (r: bool)
    ensures
        r == (trim(raw@).len() > 0),
{
    proof {
        lemma_trim_empty_iff_blank(raw@);
    }
    !chars_blank(&to_chars(raw))
}

/// One turn of the session for the raw line `raw`.
pub fn session_step(multi_line_input: &mut String, raw: &str) -> (r: SessionStep)
    ensures
        r@ == step_after(old(multi_line_input)@, raw@, lowercase(trim(raw@))),
        final(multi_line_input)@ == buffer_after(
            old(multi_line_input)@,
            trim(raw@),
            lowercase(trim(raw@)),
        ),
{
    let line = to_text(&trim_chars(&to_chars(raw)));
    match handle_multi_line_input(multi_line_input, line.as_str()) {
        Some(command) => route_command(command.as_str()),
        None => SessionStep::ReadOn,
    }
}

/// The bookmark sub-command whose usage is shown.
#[derive(Debug, Clone, Copy, PartialEq, Eq, Structural)]
pub enum BookmarkUsage {
    General,
    Save,
    Run,
    Show,
    Delete,
}

impl BookmarkUsage {
    /// The usage line.
    pub open spec fn spec_text(self) -> Seq<char> {
        match self {
            BookmarkUsage::General => "Usage: .bookmark [save|list|run|show|delete] [args...]"@,
            BookmarkUsage::Save => "Usage: .bookmark save NAME [DESCRIPTION]"@,
            BookmarkUsage::Run => "Usage: .bookmark run NAME"@,
            BookmarkUsage::Show => "Usage: .bookmark show NAME"@,
            BookmarkUsage::Delete => "Usage: .bookmark delete NAME"@,
        }
    }

    /// The usage line.
    pub fn text(&self) -> (r: &'static str)
        ensures
            r@ == self.spec_text(),
    {
        match self {
            BookmarkUsage::General => "Usage: .bookmark [save|list|run|show|delete] [args...]",
            BookmarkUsage::Save => "Usage: .bookmark save NAME [DESCRIPTION]",
            BookmarkUsage::Run => "Usage: .bookmark run NAME",
            BookmarkUsage::Show => "Usage: .bookmark show NAME",
            BookmarkUsage::Delete => "Usage: .bookmark delete NAME",
        }
    }
}

/// What a `.bookmark` command asks for.
#[derive(Debug, Clone, PartialEq, Eq)]
pub enum BookmarkRequest {
    /// An argument is missing: show the usage.
    Usage(BookmarkUsage),
    /// Save the last query under `name`.
    Save { name: String, description: Option<String> },
    List,
    Run(String),
    Show(String),
    Delete(String),
    /// The sub-command is none of the five.
    Unknown,
}

/// The mathematical value of a [`BookmarkRequest`].
pub enum BookmarkRequestView {
    Usage(BookmarkUsage),
    Save { name: Seq<char>, description: Option<Seq<char>> },
    List,
    Run(Seq<char>),
    Show(Seq<char>),
    Delete(Seq<char>),
    Unknown,
}

impl View for BookmarkRequest {
    type V = BookmarkRequestView;

    open spec fn view(&self) -> BookmarkRequestView {
        match self {
            BookmarkRequest::Usage(u) => BookmarkRequestView::Usage(*u),
            BookmarkRequest::Save { name, description } => BookmarkRequestView::Save {
                name: name@,
                description: option_text(*description),
            },
            BookmarkRequest::List => BookmarkRequestView::List,
            BookmarkRequest::Run(n) => BookmarkRequestView::Run(n@),
            BookmarkRequest::Show(n) => BookmarkRequestView::Show(n@),
            BookmarkRequest::Delete(n) => BookmarkRequestView::Delete(n@),
            BookmarkRequest::Unknown => BookmarkRequestView::Unknown,
        }
    }
}

/// What the `.bookmark` command `line` asks for. The second word names the
/// sub-command, the third the bookmark; what follows the name of a bookmark
/// to save is its description.
pub open spec fn bookmark_request(line: Seq<char>) -> BookmarkRequestView {
    let parts = words(line);
    if parts.len() < 2 {
        BookmarkRequestView::Usage(BookmarkUsage::General)
    } else if parts[1] == "save"@ {
        if parts.len() < 3 {
            BookmarkRequestView::Usage(BookmarkUsage::Save)
        } else {
            BookmarkRequestView::Save {
                name: parts[2],
                description: if parts.len() > 3 {
                    Some(joined_with(parts.subrange(3, parts.len() as int), " "@))
                } else {
                    None
                },
            }
        }
    } else if parts[1] == "list"@ {
        BookmarkRequestView::List
    } else if parts[1] == "run"@ {
        if parts.len() < 3 {
            BookmarkRequestView::Usage(BookmarkUsage::Run)
        } else {
            BookmarkRequestView::Run(parts[2])
        }
    } else if parts[1] == "show"@ {
        if parts.len() < 3 {
            BookmarkRequestView::Usage(BookmarkUsage::Show)
        } else {
            BookmarkRequestView::Show(parts[2])
        }
    } else if parts[1] == "delete"@ {
        if parts.len() < 3 {
            BookmarkRequestView::Usage(BookmarkUsage::Delete)
        } else {
            BookmarkRequestView::Delete(parts[2])
        }
    } else {
        BookmarkRequestView::Unknown
    }
}

fn join_from(parts: &Vec<Vec<char>>, from: usize) -> (r: String)
    requires
        from < parts.len(),
    ensures
        r@ == joined_with(texts(parts@).subrange(from as int, parts.len() as int), " "@),
{
    let mut r = to_text(&parts[from]);
    let mut i: usize = from + 1;
    assert(texts(parts@).subrange(from as int, from + 1) =~= seq![parts@[from as int]@]);
    while i < parts.len()
        invariant
            from < i <= parts.len(),
            r@ == joined_with(texts(parts@).subrange(from as int, i as int), " "@),
        decreases parts.len() - i,
    {
        proof {
            let done = texts(parts@).subrange(from as int, i as int);
            let next = texts(parts@).subrange(from as int, i + 1);
            assert(next.drop_last() =~= done);
            assert(next.last() == parts@[i as int]@);
        }
        r.append(" ");
        let word = to_text(&parts[i]);
        r.append(word.as_str());
        i += 1;
    }
    r
}

/// Reads a `.bookmark` command.
pub fn parse_bookmark_command(line: &str) -> (r: BookmarkRequest)
    ensures
        r@ == bookmark_request(line@),
{
    let parts = split_words(&to_chars(line));
    if parts.len() < 2 {
        BookmarkRequest::Usage(BookmarkUsage::General)
    } else if word_is(&parts, 1, "save") {
        if parts.len() < 3 {
            BookmarkRequest::Usage(BookmarkUsage::Save)
        } else {
            let description = if parts.len() > 3 {
                Some(join_from(&parts, 3))
            } else {
                None
            };
            BookmarkRequest::Save { name: word_text(&parts, 2), description }
        }
    } else if word_is(&parts, 1, "list") {
        BookmarkRequest::List
    } else if word_is(&parts, 1, "run") {
        if parts.len() < 3 {
            BookmarkRequest::Usage(BookmarkUsage::Run)
        } else {
            BookmarkRequest::Run(word_text(&parts, 2))
        }
    } else if word_is(&parts, 1, "show") {
        if parts.len() < 3 {
            BookmarkRequest::Usage(BookmarkUsage::Show)
        } else {
            BookmarkRequest::Show(word_text(&parts, 2))
        }
    } else if word_is(&parts, 1, "delete") {
        if parts.len() < 3 {
            BookmarkRequest::Usage(BookmarkUsage::Delete)
        } else {
            BookmarkRequest::Delete(word_text(&parts, 2))
        }
    } else {
        BookmarkRequest::Unknown
    }
}

/// What came of a `.bookmark` command.
#[derive(Debug, Clone, PartialEq, Eq)]
pub enum BookmarkOutcome {
    Usage(BookmarkUsage),
    /// No query has run yet, so there is nothing to save.
    NoQueryToSave,
    /// The bookmark of this name was saved; the collection is to be written.
    Saved(String),
    /// The bookmarks in the order of their names.
    Listing(Vec<Bookmark>),
    /// The bookmark was found: its query is to be run as if it had been
    /// typed.
    Run { name: String, query: String },
    /// The lines that show the bookmark.
    Details(Vec<String>),
    NotFound(String),
    /// The bookmark of this name was deleted; the collection is to be written.
    Deleted(String),
    UnknownCommand,
}

impl BookmarkOutcome {
    /// Whether the collection changed, so that it is to be written out.
    pub open spec fn spec_changes_collection(&self) -> bool {
        self is Saved || self is Deleted
    }

    /// Whether the collection changed, so that it is to be written out.
    pub fn changes_collection(&self) -> (r: bool)
        ensures
            r == self.spec_changes_collection(),
    {
        match self {
            BookmarkOutcome::Saved(_) => true,
            BookmarkOutcome::Deleted(_) => true,
            _ => false,
        }
    }

    /// The lines that tell the user what came of the command. A listing that
    /// holds bookmarks has no lines of its own: it is shown as a table.
    pub open spec fn spec_lines(&self) -> Seq<Seq<char>> {
        match self {
            BookmarkOutcome::Usage(u) => seq![u.spec_text()],
            BookmarkOutcome::NoQueryToSave => seq!["No query to save. Execute a query first."@],
            BookmarkOutcome::Saved(n) => seq!["Bookmark '"@ + n@ + "' saved."@],
            BookmarkOutcome::Listing(l) => if l@.len() == 0 {
                seq!["No bookmarks saved."@]
            } else {
                Seq::empty()
            },
            BookmarkOutcome::Run { name, query } => seq![
                "Executing bookmark '"@ + name@ + "': "@ + query@,
            ],
            BookmarkOutcome::Details(d) => line_texts(d@),
            BookmarkOutcome::NotFound(n) => seq!["Bookmark '"@ + n@ + "' not found."@],
            BookmarkOutcome::Deleted(n) => seq!["Bookmark '"@ + n@ + "' deleted."@],
            BookmarkOutcome::UnknownCommand => seq![
                "Unknown bookmark command. Use: save, list, run, show, or delete"@,
            ],
        }
    }

    /// The lines that tell the user what came of the command.
    pub fn lines(&self) -> (r: Vec<String>)
        ensures
            line_texts(r@) == self.spec_lines(),
    {
        match self {
            BookmarkOutcome::Usage(u) => literal_line(u.text()),
            BookmarkOutcome::NoQueryToSave => literal_line(
                "No query to save. Execute a query first.",
            ),
            BookmarkOutcome::Saved(n) => one_line(
                join_text("Bookmark '", n.as_str()).concat("' saved."),
            ),
            BookmarkOutcome::Listing(l) => {
                if l.len() == 0 {
                    literal_line("No bookmarks saved.")
                } else {
                    let r: Vec<String> = Vec::new();
                    assert(line_texts(r@) =~= Seq::<Seq<char>>::empty());
                    r
                }
            },
            BookmarkOutcome::Run { name, query } => one_line(
                join_text("Executing bookmark '", name.as_str()).concat("': ").concat(
                    query.as_str(),
                ),
            ),
            BookmarkOutcome::Details(d) => {
                let mut r: Vec<String> = Vec::new();
                let mut i: usize = 0;
                while i < d.len()
                    invariant
                        i <= d.len(),
                        r.len() == i,
                        forall|k: int| 0 <= k < i ==> #[trigger] r[k]@ == d[k]@,
                    decreases d.len() - i,
                {
                    r.push(d[i].clone());
                    i += 1;
                }
                assert(line_texts(r@) =~= line_texts(d@));
                r
            },
            BookmarkOutcome::NotFound(n) => one_line(
                join_text("Bookmark '", n.as_str()).concat("' not found."),
            ),
            BookmarkOutcome::Deleted(n) => one_line(
                join_text("Bookmark '", n.as_str()).concat("' deleted."),
            ),
            BookmarkOutcome::UnknownCommand => literal_line(
                "Unknown bookmark command. Use: save, list, run, show, or delete",
            ),
        }
    }
}

/// What holds of the answer `r` to the request `request`, made when the
/// collection was `before` and the last query `last_select_query`, and of the
/// collection `after` that it leaves. Only saving and deleting change the
/// collection. Saving needs a query and a name and query that pass the rules;
/// its timestamp comes from the clock, which may also fail.
pub open spec fn bookmark_outcome_holds(
    request: BookmarkRequestView,
    before: Map<Seq<char>, BookmarkView>,
    last_select_query: Seq<char>,
    r: Result<BookmarkOutcome, BookmarkError>,
    after: Map<Seq<char>, BookmarkView>,
) -> bool {
    match request {
        BookmarkRequestView::Usage(u) => {
            &&& after == before
            &&& r matches Ok(BookmarkOutcome::Usage(shown))
            &&& shown == u
        },
        BookmarkRequestView::Save { name, description } => if last_select_query.len() == 0 {
            after == before && (r matches Ok(BookmarkOutcome::NoQueryToSave))
        } else {
            match check_entry(name, last_select_query) {
                Some(e) => {
                    &&& after == before
                    &&& r matches Err(raised)
                    &&& raised == e
                },
                None => match r {
                    Ok(outcome) => {
                        &&& outcome matches BookmarkOutcome::Saved(saved)
                        &&& saved@ == name
                        &&& after.dom().contains(name)
                        &&& given_by_clock(
                            Ok::<Seq<char>, BookmarkError>(after[name].last_modified),
                        )
                        &&& after == after_save(
                            before,
                            name,
                            last_select_query,
                            description,
                            after[name].last_modified,
                        )
                    },
                    Err(e) => {
                        &&& after == before
                        &&& given_by_clock(Err::<Seq<char>, BookmarkError>(e))
                        &&& e == BookmarkError::ClockBeforeEpoch || e
                            == BookmarkError::TimestampOutOfRange
                    },
                },
            }
        },
        BookmarkRequestView::List => {
            &&& after == before
            &&& r matches Ok(BookmarkOutcome::Listing(listed))
            &&& names_ascend(listed@)
            &&& collection(listed@) == before
        },
        BookmarkRequestView::Run(name) => after == before && match lookup(before, name) {
            Some(b) => r matches Ok(BookmarkOutcome::Run { name: ran, query }) && ran@ == name
                && query@ == b.query,
            None => r matches Ok(BookmarkOutcome::NotFound(missing)) && missing@ == name,
        },
        BookmarkRequestView::Show(name) => after == before && match lookup(before, name) {
            Some(b) => r matches Ok(BookmarkOutcome::Details(shown)) && line_texts(shown@)
                == detail_lines(b),
            None => r matches Ok(BookmarkOutcome::NotFound(missing)) && missing@ == name,
        },
        BookmarkRequestView::Delete(name) => after == before.remove(name) && if before.dom().contains(
            name,
        ) {
            r matches Ok(BookmarkOutcome::Deleted(gone)) && gone@ == name
        } else {
            r matches Ok(BookmarkOutcome::NotFound(missing)) && missing@ == name
        },
        BookmarkRequestView::Unknown => after == before && (r matches Ok(
            BookmarkOutcome::UnknownCommand,
        )),
    }
}

/// Carries out a request on the bookmarks.
pub fn apply_bookmark_request(
    request: BookmarkRequest,
    bookmarks: &mut BookmarkManager,
    last_select_query: &str,
) -> (r: Result<BookmarkOutcome, BookmarkError>)
    ensures
        bookmark_outcome_holds(
            request@,
            old(bookmarks)@,
            last_select_query@,
            r,
            final(bookmarks)@,
        ),
{
    match request {
        BookmarkRequest::Usage(u) => Ok(BookmarkOutcome::Usage(u)),
        BookmarkRequest::Save { name, description } => {
            if last_select_query.is_empty() {
                Ok(BookmarkOutcome::NoQueryToSave)
            } else {
                let saved = name.clone();
                match bookmarks.save_bookmark(
                    name,
                    String::from_str(last_select_query),
                    description,
                ) {
                    Ok(()) => Ok(BookmarkOutcome::Saved(saved)),
                    Err(e) => Err(e),
                }
            }
        },
        BookmarkRequest::List => Ok(BookmarkOutcome::Listing(bookmarks.list_bookmarks())),
        BookmarkRequest::Run(name) => {
            match bookmarks.get_bookmark(name.as_str()) {
                Some(b) => {
                    let query = b.query.clone();
                    Ok(BookmarkOutcome::Run { name, query })
                },
                None => Ok(BookmarkOutcome::NotFound(name)),
            }
        },
        BookmarkRequest::Show(name) => {
            match bookmarks.show_bookmark(name.as_str()) {
                Some(lines) => Ok(BookmarkOutcome::Details(lines)),
                None => Ok(BookmarkOutcome::NotFound(name)),
            }
        },
        BookmarkRequest::Delete(name) => {
            if bookmarks.delete_bookmark(name.as_str()) {
                Ok(BookmarkOutcome::Deleted(name))
            } else {
                Ok(BookmarkOutcome::NotFound(name))
            }
        },
        BookmarkRequest::Unknown => Ok(BookmarkOutcome::UnknownCommand),
    }
}

/// Carries out a `.bookmark` command on the bookmarks alone. For `run` it
/// finds the stored query; [`carry_out_bookmark_command`] also hands that
/// query to the transaction guard.
pub fn handle_bookmark_command(
    line: &str,
    bookmarks: &mut BookmarkManager,
    last_select_query: &str,
) -> (r: Result<BookmarkOutcome, BookmarkError>)
    ensures
        bookmark_outcome_holds(
            bookmark_request(line@),
            old(bookmarks)@,
            last_select_query@,
            r,
            final(bookmarks)@,
        ),
{
    apply_bookmark_request(parse_bookmark_command(line), bookmarks, last_select_query)
}

/// Whether an error whose lowercase text is `lowered` puts the connection
/// in doubt: it speaks of a locked database, of the connection, of an I/O
/// error or of the disk.
pub open spec fn is_critical(lowered: Seq<char>) -> bool {
    ||| contains_text(lowered, "database is locked"@)
    ||| contains_text(lowered, "connection"@)
    ||| contains_text(lowered, "i/o error"@)
    ||| contains_text(lowered, "disk"@)
}

/// Whether an error whose lowercase text is `lowered` puts the connection in
/// doubt.
pub fn is_critical_lowered(lowered: &str) -> (r: bool)
    ensures
        r == is_critical(lowered@),
{
    let m = to_chars(lowered);
    chars_contain(&m, "database is locked") || chars_contain(&m, "connection") || chars_contain(
        &m,
        "i/o error",
    ) || chars_contain(&m, "disk")
}

/// Whether an error with the text `message` puts the connection in doubt, so
/// that the user is offered to connect again.
pub fn is_critical_error(message: &str) -> (r: bool)
    ensures
        r == is_critical(lowercase(message@)),
{
    let lowered = to_lowercase(message);
    is_critical_lowered(lowered.as_str())
}

/// Whether an answer whose trimmed, lowercase form is `lowered` accepts an
/// offer: it begins with `y`.
pub fn accepts_lowered(lowered: &str) -> (r: bool)
    ensures
        r == "y"@.is_prefix_of(lowered@),
{
    chars_start_with(&to_chars(lowered), "y")
}

/// Whether `answer` accepts the offer to connect again.
pub fn accepts_reconnection(answer: &str) -> (r: bool)
    ensures
        r == "y"@.is_prefix_of(lowercase(trim(answer@))),
{
    let trimmed = to_text(&trim_chars(&to_chars(answer)));
    let lowered = to_lowercase(trimmed.as_str());
    accepts_lowered(lowered.as_str())
}

/// What the plain prompt, without history and meta-commands, does with a
/// line.
#[derive(Debug, Clone, PartialEq, Eq)]
pub enum BasicStep {
    /// The line is `exit` or `.exit`.
    Leave,
    /// The line is blank.
    Skip,
    /// Run the trimmed line as SQL.
    Execute(String),
}

/// The mathematical value of a [`BasicStep`].
pub enum BasicStepView {
    Leave,
    Skip,
    Execute(Seq<char>),
}

impl View for BasicStep {
    type V = BasicStepView;

    open spec fn view(&self) -> BasicStepView {
        match self {
            BasicStep::Leave => BasicStepView::Leave,
            BasicStep::Skip => BasicStepView::Skip,
            BasicStep::Execute(c) => BasicStepView::Execute(c@),
        }
    }
}

/// What the plain prompt does with the line `line`, which is trimmed first.
pub open spec fn basic_step_for(line: Seq<char>) -> BasicStepView {
    let t = trim(line);
    if t == ".exit"@ || t == "exit"@ {
        BasicStepView::Leave
    } else if t.len() == 0 {
        BasicStepView::Skip
    } else {
        BasicStepView::Execute(t)
    }
}

/// Decides what the plain prompt does with one line.
pub fn basic_step(line: &str) -> (r: BasicStep)
    ensures
        r@ == basic_step_for(line@),
{
    let t = trim_chars(&to_chars(line));
    if chars_are(&t, ".exit") || chars_are(&t, "exit") {
        BasicStep::Leave
    } else if t.len() == 0 {
        BasicStep::Skip
    } else {
        BasicStep::Execute(to_text(&t))
    }
}

/// What holds of the answer `r` to a `.bookmark` command that was carried
/// out to its end. The first part is the outcome for the bookmarks, as
/// [`bookmark_outcome_holds`] has it. Where the outcome is to run a stored
/// query, the query went to the transaction guard as if it had been typed, and
/// the second part is the guard's answer; every other outcome comes with no
/// answer and leaves the guard's state as it was.
pub open spec fn bookmark_command_holds(
    request: BookmarkRequestView,
    before: Map<Seq<char>, BookmarkView>,
    last_select_query: Seq<char>,
    state_before: TransactionState,
    r: Result<(BookmarkOutcome, Option<Result<Intercept, SqlFailure>>), BookmarkError>,
    after: Map<Seq<char>, BookmarkView>,
    state_after: TransactionState,
) -> bool {
    match r {
        Err(e) => {
            &&& bookmark_outcome_holds(
                request,
                before,
                last_select_query,
                Err::<BookmarkOutcome, BookmarkError>(e),
                after,
            )
            &&& state_after == state_before
        },
        Ok((outcome, guard)) => {
            &&& bookmark_outcome_holds(
                request,
                before,
                last_select_query,
                Ok::<BookmarkOutcome, BookmarkError>(outcome),
                after,
            )
            &&& match outcome {
                BookmarkOutcome::Run { name, query } => {
                    &&& guard matches Some(answer)
                    &&& guard_outcome(classify(lowercase(query@)), state_before, answer, state_after)
                },
                _ => guard is None && state_after == state_before,
            }
        },
    }
}

/// Carries out a `.bookmark` command to its end: on the bookmarks, and, for
/// `run`, on the transaction guard, which gets the stored query as if it had
/// been typed. Only a query that the guard answers with `NotMine` is left to
/// be run on the database as it is.
pub fn carry_out_bookmark_command(
    line: &str,
    bookmarks: &mut BookmarkManager,
    last_select_query: &str,
    transaction_manager: &mut TransactionManager,
    conn: &rusqlite::Connection,
) -> (r: Result<(BookmarkOutcome, Option<Result<Intercept, SqlFailure>>), BookmarkError>)
    ensures
        bookmark_command_holds(
            bookmark_request(line@),
            old(bookmarks)@,
            last_select_query@,
            old(transaction_manager).state(),
            r,
            final(bookmarks)@,
            final(transaction_manager).state(),
        ),
{
    match handle_bookmark_command(line, bookmarks, last_select_query) {
        Err(e) => Err(e),
        Ok(outcome) => {
            let guard = match &outcome {
                BookmarkOutcome::Run { name: _, query } => Some(
                    transaction_manager.handle_sql_command(conn, query.as_str()),
                ),
                _ => None,
            };
            Ok((outcome, guard))
        },
    }
}

} // verus!
