//! Named, saved queries.
//!
//! A [`BookmarkManager`] is a map from a name to a [`Bookmark`]. It keeps its
//! bookmarks in the order of their names, so that no name occurs twice and a
//! listing needs no sorting. Reading and writing the bookmark file is left to
//! the caller; the manager decides what is kept, what a corrupt file leads
//! to, and in which order a write touches the files.

use crate::text::{
    char_is_control, chars_blank, chars_equal, chars_less, is_blank, is_control, is_whitespace,
    join_text, lemma_text_less_irreflexive, lemma_text_less_total, lemma_text_less_transitive,
    line_texts, one_line, push_line, text_less, to_chars, to_text_range,
};
use std::fmt::Write;
use vstd::prelude::*;
use vstd::string::StringExecFns;

verus! {

/// A saved query.
#[derive(Debug, Clone, PartialEq, Eq)]
pub struct Bookmark {
    pub name: String,
    pub query: String,
    pub description: Option<String>,
    /// When the name was first saved. A later save keeps it.
    pub created_at: String,
    /// When the name was last saved.
    pub last_modified: String,
}

/// The mathematical value of a [`Bookmark`].
pub struct BookmarkView {
    pub name: Seq<char>,
    pub query: Seq<char>,
    pub description: Option<Seq<char>>,
    pub created_at: Seq<char>,
    pub last_modified: Seq<char>,
}

/// The view of an optional string.
pub open spec fn optional_text(o: Option<String>) -> Option<Seq<char>> {
    match o {
        Some(s) => Some(s@),
        None => None,
    }
}

impl View for Bookmark {
    type V = BookmarkView;

    open spec fn view(&self) -> BookmarkView {
        BookmarkView {
            name: self.name@,
            query: self.query@,
            description: optional_text(self.description),
            created_at: self.created_at@,
            last_modified: self.last_modified@,
        }
    }
}

fn copy_optional(o: &Option<String>) -> (r: Option<String>)
    ensures
        optional_text(r) == optional_text(*o),
{
    match o {
        Some(s) => Some(s.clone()),
        None => None,
    }
}

impl Bookmark {
    /// A copy of the bookmark.
    pub fn duplicate(&self) -> (r: Bookmark)
        ensures
            r@ == self@,
    {
        Bookmark {
            name: self.name.clone(),
            query: self.query.clone(),
            description: copy_optional(&self.description),
            created_at: self.created_at.clone(),
            last_modified: self.last_modified.clone(),
        }
    }
}

/// Why a bookmark was not saved.
#[derive(Debug, Clone, Copy, PartialEq, Eq, Structural)]
pub enum BookmarkError {
    /// The name is empty or all whitespace.
    EmptyName,
    /// The query is empty or all whitespace.
    EmptyQuery,
    /// The name holds a control character or one of `\ / : * ? " < > |`.
    InvalidCharacters,
    /// The name has more than 64 characters.
    NameTooLong,
    /// The system clock is set before 1970.
    ClockBeforeEpoch,
    /// The time of the clock cannot be written as a date.
    TimestampOutOfRange,
}

impl BookmarkError {
    /// Whether the error says that the name is not acceptable.
    pub open spec fn spec_is_invalid_name(self) -> bool {
        self == BookmarkError::EmptyName || self == BookmarkError::InvalidCharacters || self
            == BookmarkError::NameTooLong
    }

    /// Whether the error says that the name is not acceptable.
    pub fn is_invalid_name(&self) -> (r: bool)
        ensures
            r == self.spec_is_invalid_name(),
    {
        match self {
            BookmarkError::EmptyName => true,
            BookmarkError::InvalidCharacters => true,
            BookmarkError::NameTooLong => true,
            _ => false,
        }
    }

    /// Whether the error says that the query is not acceptable.
    pub fn is_invalid_query(&self) -> (r: bool)
        ensures
            r == (*self == BookmarkError::EmptyQuery),
    {
        match self {
            BookmarkError::EmptyQuery => true,
            _ => false,
        }
    }

    /// The text of the error.
    pub open spec fn spec_message(self) -> Seq<char> {
        match self {
            BookmarkError::EmptyName => "Bookmark name cannot be empty"@,
            BookmarkError::EmptyQuery => "Bookmark query cannot be empty"@,
            BookmarkError::InvalidCharacters => "Bookmark name contains invalid characters"@,
            BookmarkError::NameTooLong => "Bookmark name is too long (maximum 64 characters)"@,
            BookmarkError::ClockBeforeEpoch => "System time error"@,
            BookmarkError::TimestampOutOfRange => "Invalid timestamp"@,
        }
    }

    /// The text of the error.
    pub fn message(&self) -> (r: &'static str)
        ensures
            r@ == self.spec_message(),
    {
        match self {
            BookmarkError::EmptyName => "Bookmark name cannot be empty",
            BookmarkError::EmptyQuery => "Bookmark query cannot be empty",
            BookmarkError::InvalidCharacters => "Bookmark name contains invalid characters",
            BookmarkError::NameTooLong => "Bookmark name is too long (maximum 64 characters)",
            BookmarkError::ClockBeforeEpoch => "System time error",
            BookmarkError::TimestampOutOfRange => "Invalid timestamp",
        }
    }
}

/// The longest name, in characters.
pub const MAX_NAME_LENGTH: usize = 64;

/// Whether `c` may not occur in a name: a control character, or a character
/// that file systems give a meaning to.
pub open spec fn is_forbidden_in_name(c: char) -> bool {
    is_control(c) || c == '\\' || c == '/' || c == ':' || c == '*' || c == '?' || c == '"' || c
        == '<' || c == '>' || c == '|'
}

/// Whether `name` holds a character that may not occur in a name.
pub open spec fn has_forbidden_character(name: Seq<char>) -> bool {
    exists|i: int| 0 <= i < name.len() && is_forbidden_in_name(#[trigger] name[i])
}

/// What is wrong with saving `query` under `name`, if anything. The checks
/// come in this order: a blank name, a blank query, a forbidden character in
/// the name, a name that is too long.
pub open spec fn check_entry(name: Seq<char>, query: Seq<char>) -> Option<BookmarkError> {
    if is_blank(name) {
        Some(BookmarkError::EmptyName)
    } else if is_blank(query) {
        Some(BookmarkError::EmptyQuery)
    } else if has_forbidden_character(name) {
        Some(BookmarkError::InvalidCharacters)
    } else if name.len() > MAX_NAME_LENGTH {
        Some(BookmarkError::NameTooLong)
    } else {
        None
    }
}

/// Whether `a` holds a character that may not occur in a name.
pub fn has_forbidden(a: &Vec<char>) -> (r: bool)
    ensures
        r == has_forbidden_character(a@),
{
    let mut i: usize = 0;
    while i < a.len()
        invariant
            i <= a.len(),
            forall|k: int| 0 <= k < i ==> !is_forbidden_in_name(#[trigger] a@[k]),
        decreases a.len() - i,
    {
        let c = a[i];
        if char_is_control(c) || c == '\\' || c == '/' || c == ':' || c == '*' || c == '?' || c
            == '"' || c == '<' || c == '>' || c == '|' {
            assert(is_forbidden_in_name(a@[i as int]));
            return true;
        }
        i += 1;
    }
    false
}

/// Checks a name and a query before they are saved.
pub fn validate_entry(name: &str, query: &str) -> (r: Result<(), BookmarkError>)
    ensures
        match check_entry(name@, query@) {
            Some(e) => r == Err::<(), BookmarkError>(e),
            None => r is Ok,
        },
{
    let n = to_chars(name);
    if chars_blank(&n) {
        Err(BookmarkError::EmptyName)
    } else if chars_blank(&to_chars(query)) {
        Err(BookmarkError::EmptyQuery)
    } else if has_forbidden(&n) {
        Err(BookmarkError::InvalidCharacters)
    } else if n.len() > MAX_NAME_LENGTH {
        Err(BookmarkError::NameTooLong)
    } else {
        Ok(())
    }
}

/// Whether `c` is one of the letters `a` to `z` and `A` to `Z` or a digit.
pub open spec fn is_ascii_alphanumeric(c: char) -> bool {
    ('a' <= c && c <= 'z') || ('A' <= c && c <= 'Z') || ('0' <= c && c <= '9')
}

/// The rules for names. An empty name, a name of whitespace only, a name
/// that holds a slash and a name of more than 64 characters are refused as
/// invalid names, whatever the query. A name of one to 64 characters, none of
/// them whitespace or forbidden, is accepted with any query that is not
/// blank; such is every name of one to 64 letters and digits.
pub proof fn lemma_name_rules(name: Seq<char>, query: Seq<char>)
    ensures
        name.len() == 0 ==> check_entry(name, query) == Some(BookmarkError::EmptyName),
        is_blank(name) ==> check_entry(name, query) == Some(BookmarkError::EmptyName),
        name.contains('/') ==> check_entry(name, query) is Some,
        name.contains('/') && !is_blank(query) ==> check_entry(name, query)->0.spec_is_invalid_name(),
        name.len() > MAX_NAME_LENGTH ==> check_entry(name, query) is Some,
        name.len() > MAX_NAME_LENGTH && !is_blank(query) ==> check_entry(
            name,
            query,
        )->0.spec_is_invalid_name(),
        0 < name.len() <= MAX_NAME_LENGTH && !is_blank(query) && (forall|i: int|
            0 <= i < name.len() ==> !is_whitespace(#[trigger] name[i]) && !is_forbidden_in_name(
                name[i],
            )) ==> check_entry(name, query) is None,
        0 < name.len() <= MAX_NAME_LENGTH && !is_blank(query) && (forall|i: int|
            0 <= i < name.len() ==> is_ascii_alphanumeric(#[trigger] name[i])) ==> check_entry(
            name,
            query,
        ) is None,
{
    if name.contains('/') {
        let i = choose|i: int| 0 <= i < name.len() && name[i] == '/';
        assert(is_forbidden_in_name(name[i]));
    }
    if 0 < name.len() && (forall|i: int|
        0 <= i < name.len() ==> !is_whitespace(#[trigger] name[i]) && !is_forbidden_in_name(
            name[i],
        )) {
        assert(!is_whitespace(name[0]));
    }
    if 0 < name.len() && (forall|i: int|
        0 <= i < name.len() ==> is_ascii_alphanumeric(#[trigger] name[i])) {
        assert(is_ascii_alphanumeric(name[0]));
        assert(!is_whitespace(name[0]));
        assert forall|i: int| 0 <= i < name.len() implies !is_forbidden_in_name(
            #[trigger] name[i],
        ) by {
            assert(is_ascii_alphanumeric(name[i]));
        }
    }
}

/// What `chrono` writes for the moment `secs` seconds after the start of 1970,
/// in UTC, with the format `pattern`; `None` where it has no date for the
/// moment or cannot use the format.
pub uninterp spec fn utc_text(secs: int, pattern: Seq<char>) -> Option<Seq<char>>;

/// Writes a moment as text with `chrono`: `DateTime::from_timestamp` turns
/// the seconds into a moment in UTC, and `DateTime::format` writes it. The
/// text depends on the seconds and the format alone; it is named
/// [`utc_text`]. Seconds outside the range of `chrono`'s dates and a format
/// that it rejects both give `None`.
#[verifier::external_body]
fn format_utc(secs: i64, pattern: &str) -> (r: Option<String>)
    ensures
        optional_text(r) == utc_text(secs as int, pattern@),
{
    let moment = chrono::DateTime::from_timestamp(secs, 0)?;
    let mut text = String::new();
    match write!(text, "{}", moment.format(pattern)) {
        Ok(()) => Some(text),
        Err(_) => None,
    }
}

#[verifier::external_type_specification]
#[verifier::external_body]
pub struct ExSystemTime(std::time::SystemTime);

/// Reads the system clock with `SystemTime::now`. Nothing is claimed about
/// the time that comes back.
#[verifier::external_body]
fn system_now() -> (r: std::time::SystemTime) {
    std::time::SystemTime::now()
}

/// The time from the start of 1970 to `moment`, by
/// `SystemTime::duration_since`; `None` for a moment before 1970. Nothing
/// more is claimed about it.
#[verifier::external_body]
fn since_epoch(moment: &std::time::SystemTime) -> (r: Option<std::time::Duration>) {
    moment.duration_since(std::time::UNIX_EPOCH).ok()
}

/// The whole seconds of `span`, by `Duration::as_secs`. Nothing is claimed
/// about the number, since a `Duration` has no value that a contract could
/// speak of.
#[verifier::external_body]
fn whole_seconds(span: &std::time::Duration) -> (r: u64) {
    span.as_secs()
}

/// Reads the system clock: the whole seconds since the start of 1970, or
/// `None` if the clock is set before that.
fn read_clock() -> (r: Option<u64>) {
    let now = system_now();
    match since_epoch(&now) {
        Some(span) => Some(whole_seconds(&span)),
        None => None,
    }
}

/// The format of the two timestamps of a bookmark.
pub open spec fn timestamp_pattern() -> Seq<char> {
    "%Y-%m-%d %H:%M:%S UTC"@
}

/// The timestamp for a reading of the clock, in seconds since 1970: the
/// seconds are taken as a signed number, as a cast does, and written in UTC.
pub open spec fn timestamp_of(clock: Option<u64>) -> Result<Seq<char>, BookmarkError> {
    match clock {
        None => Err(BookmarkError::ClockBeforeEpoch),
        Some(secs) => match utc_text(secs as i64 as int, timestamp_pattern()) {
            Some(text) => Ok(text),
            None => Err(BookmarkError::TimestampOutOfRange),
        },
    }
}

/// Whether `stamp` is what some reading of the clock gives: the timestamp
/// of that reading, or the error that goes with it.
pub open spec fn given_by_clock(stamp: Result<Seq<char>, BookmarkError>) -> bool {
    exists|clock: Option<u64>| #[trigger] timestamp_of(clock) == stamp
}

/// The view of a timestamp or of the error in its place.
pub open spec fn timestamp_view(r: Result<String, BookmarkError>) -> Result<
    Seq<char>,
    BookmarkError,
> {
    match r {
        Ok(s) => Ok(s@),
        Err(e) => Err(e),
    }
}

/// Writes the timestamp for a reading of the clock.
pub fn timestamp_for(clock: Option<u64>) -> (r: Result<String, BookmarkError>)
    ensures
        timestamp_view(r) == timestamp_of(clock),
{
    match clock {
        None => Err(BookmarkError::ClockBeforeEpoch),
        Some(secs) => {
            match format_utc(signed_seconds(secs), "%Y-%m-%d %H:%M:%S UTC") {
                Some(text) => Ok(text),
                None => Err(BookmarkError::TimestampOutOfRange),
            }
        },
    }
}

fn signed_seconds(secs: u64) -> (r: i64)
    ensures
        r == secs as i64,
{
    #[verifier::truncate]
    (secs as i64)
}

/// Whether the names of `s` ascend strictly, so that no name occurs twice.
pub open spec fn names_ascend(s: Seq<Bookmark>) -> bool {
    forall|i: int, j: int| 0 <= i < j < s.len() ==> text_less(#[trigger] s[i].name@, #[trigger] s[j].name@)
}

/// Whether `s` holds a bookmark named `name`.
pub open spec fn holds_name(s: Seq<Bookmark>, name: Seq<char>) -> bool {
    exists|i: int| 0 <= i < s.len() && #[trigger] s[i].name@ == name
}

/// A position of `s` that holds a bookmark named `name`.
pub open spec fn position_of(s: Seq<Bookmark>, name: Seq<char>) -> int {
    choose|i: int| 0 <= i < s.len() && #[trigger] s[i].name@ == name
}

/// The map from each name in `s` to a bookmark of that name.
pub open spec fn collection(s: Seq<Bookmark>) -> Map<Seq<char>, BookmarkView> {
    Map::new(|name: Seq<char>| holds_name(s, name), |name: Seq<char>| s[position_of(s, name)]@)
}

/// In a sequence without a repeated name, the collection maps each name to
/// the one bookmark that has it.
pub proof fn lemma_collection(s: Seq<Bookmark>)
    requires
        names_ascend(s),
    ensures
        forall|i: int|
            0 <= i < s.len() ==> collection(s).dom().contains(#[trigger] s[i].name@)
                && collection(s)[s[i].name@] == s[i]@,
        forall|name: Seq<char>| #[trigger]
            collection(s).dom().contains(name) ==> 0 <= position_of(s, name) < s.len()
                && s[position_of(s, name)].name@ == name,
{
    assert forall|i: int| 0 <= i < s.len() implies collection(s).dom().contains(
        #[trigger] s[i].name@,
    ) && collection(s)[s[i].name@] == s[i]@ by {
        let name = s[i].name@;
        assert(holds_name(s, name));
        let j = position_of(s, name);
        lemma_text_less_irreflexive(name);
        assert(j == i);
    }
}

/// The bookmark saved under `name` at the time `timestamp`: the time of
/// creation is that of the bookmark it replaces, if it replaces one.
pub open spec fn saved_bookmark(
    before: Map<Seq<char>, BookmarkView>,
    name: Seq<char>,
    query: Seq<char>,
    description: Option<Seq<char>>,
    timestamp: Seq<char>,
) -> BookmarkView {
    BookmarkView {
        name,
        query,
        description,
        created_at: if before.dom().contains(name) {
            before[name].created_at
        } else {
            timestamp
        },
        last_modified: timestamp,
    }
}

/// The collection after `query` was saved under `name` at the time
/// `timestamp`.
pub open spec fn after_save(
    before: Map<Seq<char>, BookmarkView>,
    name: Seq<char>,
    query: Seq<char>,
    description: Option<Seq<char>>,
    timestamp: Seq<char>,
) -> Map<Seq<char>, BookmarkView> {
    before.insert(name, saved_bookmark(before, name, query, description, timestamp))
}

/// The bookmark that `m` holds under `name`, if any.
pub open spec fn lookup(m: Map<Seq<char>, BookmarkView>, name: Seq<char>) -> Option<BookmarkView> {
    if m.dom().contains(name) {
        Some(m[name])
    } else {
        None
    }
}

/// The view of an optional bookmark.
pub open spec fn optional_bookmark(o: Option<&Bookmark>) -> Option<BookmarkView> {
    match o {
        Some(b) => Some(b@),
        None => None,
    }
}

/// The bookmarks of a session, by name.
pub struct BookmarkManager {
    entries: Vec<Bookmark>,
}

impl View for BookmarkManager {
    type V = Map<Seq<char>, BookmarkView>;

    closed spec fn view(&self) -> Map<Seq<char>, BookmarkView> {
        collection(self.entries@)
    }
}

impl BookmarkManager {
    #[verifier::type_invariant]
    spec fn ordered(&self) -> bool {
        names_ascend(self.entries@)
    }

    /// A manager without bookmarks.
    pub fn new() -> (r: Self)
        ensures
            r@ == Map::<Seq<char>, BookmarkView>::empty(),
    {
        let r = BookmarkManager { entries: Vec::new() };
        assert(r@ =~= Map::<Seq<char>, BookmarkView>::empty());
        r
    }

    /// The first position whose name is not before `name`, and whether that
    /// position holds `name` itself.
    fn locate(&self, name: &Vec<char>) -> (r: (usize, bool))
        ensures
            r.0 <= self.entries.len(),
            forall|k: int| 0 <= k < r.0 ==> text_less(#[trigger] self.entries[k].name@, name@),
            r.1 ==> r.0 < self.entries.len() && self.entries[r.0 as int].name@ == name@,
            !r.1 ==> forall|k: int|
                r.0 <= k < self.entries.len() ==> text_less(name@, #[trigger] self.entries[k].name@),
            r.1 == holds_name(self.entries@, name@),
    {
        proof {
            use_type_invariant(self);
        }
        let mut i: usize = 0;
        while i < self.entries.len()
            invariant
                i <= self.entries.len(),
                names_ascend(self.entries@),
                forall|k: int| 0 <= k < i ==> text_less(#[trigger] self.entries[k].name@, name@),
            decreases self.entries.len() - i,
        {
            let current = to_chars(self.entries[i].name.as_str());
            if !chars_less(&current, name) {
                let found = chars_equal(&current, name);
                proof {
                    lemma_text_less_total(current@, name@);
                    lemma_not_held_elsewhere(self.entries@, name@, i as int);
                    if !found {
                        assert forall|k: int| i <= k < self.entries.len() implies text_less(
                            name@,
                            #[trigger] self.entries[k].name@,
                        ) by {
                            if k > i {
                                lemma_text_less_transitive(
                                    name@,
                                    current@,
                                    self.entries[k].name@,
                                );
                            }
                        }
                    }
                }
                return (i, found);
            }
            i += 1;
        }
        proof {
            assert forall|k: int| 0 <= k < self.entries.len() implies self.entries[k].name@
                != name@ by {
                lemma_text_less_irreflexive(name@);
            }
        }
        (i, false)
    }

    /// The bookmark saved under `name`, if there is one.
    pub fn get_bookmark(&self, name: &str) -> (r: Option<&Bookmark>)
        ensures
            optional_bookmark(r) == lookup(self@, name@),
    {
        proof {
            use_type_invariant(self);
            lemma_collection(self.entries@);
        }
        let (i, found) = self.locate(&to_chars(name));
        if found {
            Some(&self.entries[i])
        } else {
            None
        }
    }

    /// Puts `bookmark` under its name, in place of a bookmark of that name if
    /// there is one.
    pub fn store_bookmark(&mut self, bookmark: Bookmark)
        ensures
            final(self)@ == old(self)@.insert(bookmark.name@, bookmark@),
    {
        proof {
            use_type_invariant(&*self);
        }
        let name = to_chars(bookmark.name.as_str());
        let (i, found) = self.locate(&name);
        let ghost before = self.entries@;
        let mut entries: Vec<Bookmark> = Vec::new();
        std::mem::swap(&mut self.entries, &mut entries);
        if found {
            proof {
                let after = before.update(i as int, bookmark);
                assert forall|a: int, b: int| 0 <= a < b < after.len() implies text_less(
                    #[trigger] after[a].name@,
                    #[trigger] after[b].name@,
                ) by {
                    assert(after[a].name@ == before[a].name@);
                    assert(after[b].name@ == before[b].name@);
                }
                lemma_collection(before);
                lemma_collection(after);
                assert forall|n: Seq<char>| holds_name(after, n) == holds_name(before, n) by {
                    if holds_name(after, n) {
                        let k = position_of(after, n);
                        assert(before[k].name@ == n);
                    }
                    if holds_name(before, n) {
                        let k = position_of(before, n);
                        assert(after[k].name@ == n);
                    }
                }
                assert forall|n: Seq<char>| holds_name(after, n) implies #[trigger] collection(
                    after,
                )[n] == collection(before).insert(bookmark.name@, bookmark@)[n] by {
                    let k = position_of(after, n);
                    assert(after[k].name@ == n);
                    assert(before[k].name@ == n);
                    if k != i {
                        assert(after[k] == before[k]);
                        lemma_text_less_irreflexive(n);
                    }
                }
                assert(collection(after) =~= collection(before).insert(
                    bookmark.name@,
                    bookmark@,
                ));
            }
            entries.set(i, bookmark);
        } else {
            proof {
                let after = before.insert(i as int, bookmark);
                assert forall|a: int, b: int| 0 <= a < b < after.len() implies text_less(
                    #[trigger] after[a].name@,
                    #[trigger] after[b].name@,
                ) by {
                    if a < i && b > i {
                        assert(after[a] == before[a]);
                        assert(after[b] == before[b - 1]);
                    } else if a < i && b < i {
                        assert(after[a] == before[a]);
                        assert(after[b] == before[b]);
                    } else if a > i {
                        assert(after[a] == before[a - 1]);
                        assert(after[b] == before[b - 1]);
                    } else if a == i {
                        assert(after[b] == before[b - 1]);
                    } else {
                        assert(after[a] == before[a]);
                    }
                }
                lemma_collection(before);
                lemma_collection(after);
                assert forall|n: Seq<char>| holds_name(after, n) == (holds_name(before, n) || n
                    == bookmark.name@) by {
                    if holds_name(after, n) {
                        let k = position_of(after, n);
                        if k < i {
                            assert(before[k].name@ == n);
                        } else if k > i {
                            assert(before[k - 1].name@ == n);
                        }
                    }
                    if holds_name(before, n) {
                        let k = position_of(before, n);
                        if k < i {
                            assert(after[k].name@ == n);
                        } else {
                            assert(after[k + 1].name@ == n);
                        }
                    }
                    if n == bookmark.name@ {
                        assert(after[i as int].name@ == n);
                    }
                }
                assert forall|n: Seq<char>| holds_name(after, n) implies #[trigger] collection(
                    after,
                )[n] == collection(before).insert(bookmark.name@, bookmark@)[n] by {
                    let k = position_of(after, n);
                    assert(after[k].name@ == n);
                    if k < i {
                        assert(after[k] == before[k]);
                    } else if k > i {
                        assert(after[k] == before[k - 1]);
                    }
                }
                assert(collection(after) =~= collection(before).insert(
                    bookmark.name@,
                    bookmark@,
                ));
            }
            entries.insert(i, bookmark);
        }
        self.entries = entries;
    }

    /// Saves `query` under `name` with the timestamp `timestamp`. A name or a
    /// query that breaks the rules is refused and nothing changes. Otherwise
    /// the bookmark replaces the one of that name, whose time of creation it
    /// keeps, or it is new and created at `timestamp`.
    pub fn save_with_timestamp(
        &mut self,
        name: String,
        query: String,
        description: Option<String>,
        timestamp: String,
    ) -> (r: Result<(), BookmarkError>)
        ensures
            match check_entry(name@, query@) {
                Some(e) => r == Err::<(), BookmarkError>(e) && final(self)@ == old(self)@,
                None => r is Ok && final(self)@ == after_save(
                    old(self)@,
                    name@,
                    query@,
                    optional_text(description),
                    timestamp@,
                ),
            },
    {
        match validate_entry(name.as_str(), query.as_str()) {
            Err(e) => Err(e),
            Ok(()) => {
                let created_at = match self.get_bookmark(name.as_str()) {
                    Some(existing) => existing.created_at.clone(),
                    None => timestamp.clone(),
                };
                self.store_bookmark(
                    Bookmark { name, query, description, created_at, last_modified: timestamp },
                );
                Ok(())
            },
        }
    }

    /// Saves `query` under `name`, stamped with the time of the system clock.
    /// A name or a query that breaks the rules is refused before the clock is
    /// read. A clock that gives no timestamp is an error too; in both cases
    /// nothing changes.
    pub fn save_bookmark(&mut self, name: String, query: String, description: Option<String>) -> (r:
        Result<(), BookmarkError>)
        ensures
            match check_entry(name@, query@) {
                Some(e) => r == Err::<(), BookmarkError>(e) && final(self)@ == old(self)@,
                None => match r {
                    Ok(()) => {
                        &&& final(self)@.dom().contains(name@)
                        &&& given_by_clock(
                            Ok::<Seq<char>, BookmarkError>(final(self)@[name@].last_modified),
                        )
                        &&& final(self)@ == after_save(
                            old(self)@,
                            name@,
                            query@,
                            optional_text(description),
                            final(self)@[name@].last_modified,
                        )
                    },
                    Err(e) => {
                        &&& given_by_clock(Err::<Seq<char>, BookmarkError>(e))
                        &&& e == BookmarkError::ClockBeforeEpoch || e
                            == BookmarkError::TimestampOutOfRange
                        &&& final(self)@ == old(self)@
                    },
                },
            },
    {
        match validate_entry(name.as_str(), query.as_str()) {
            Err(e) => Err(e),
            Ok(()) => {
                let clock = read_clock();
                let stamp = timestamp_for(clock);
                assert(given_by_clock(timestamp_view(stamp))) by {
                    assert(timestamp_of(clock) == timestamp_view(stamp));
                }
                match stamp {
                    Err(e) => Err(e),
                    Ok(timestamp) => self.save_with_timestamp(name, query, description, timestamp),
                }
            },
        }
    }

    /// Removes the bookmark saved under `name` and says whether there was one.
    pub fn delete_bookmark(&mut self, name: &str) -> (r: bool)
        ensures
            r == old(self)@.dom().contains(name@),
            final(self)@ == old(self)@.remove(name@),
    {
        proof {
            use_type_invariant(&*self);
        }
        let (i, found) = self.locate(&to_chars(name));
        let ghost before = self.entries@;
        proof {
            lemma_collection(before);
        }
        if found {
            let mut entries: Vec<Bookmark> = Vec::new();
            std::mem::swap(&mut self.entries, &mut entries);
            proof {
                let after = before.remove(i as int);
                assert forall|a: int, b: int| 0 <= a < b < after.len() implies text_less(
                    #[trigger] after[a].name@,
                    #[trigger] after[b].name@,
                ) by {
                    let a0 = if a < i { a } else { a + 1 };
                    let b0 = if b < i { b } else { b + 1 };
                    assert(after[a] == before[a0]);
                    assert(after[b] == before[b0]);
                }
                lemma_collection(after);
                lemma_text_less_irreflexive(name@);
                assert forall|n: Seq<char>| holds_name(after, n) == (holds_name(before, n) && n
                    != name@) by {
                    if holds_name(after, n) {
                        let k = position_of(after, n);
                        let k0 = if k < i { k } else { k + 1 };
                        assert(before[k0].name@ == n);
                        if n == name@ {
                            assert(k0 != i);
                            assert(before[k0].name@ == before[i as int].name@);
                            if k0 < i {
                                assert(text_less(before[k0].name@, before[i as int].name@));
                            } else {
                                assert(text_less(before[i as int].name@, before[k0].name@));
                            }
                        }
                    }
                    if holds_name(before, n) && n != name@ {
                        let k = position_of(before, n);
                        if k < i {
                            assert(after[k].name@ == n);
                        } else {
                            assert(after[k - 1].name@ == n);
                        }
                    }
                }
                assert forall|n: Seq<char>| holds_name(after, n) implies #[trigger] collection(
                    after,
                )[n] == collection(before)[n] by {
                    let k = position_of(after, n);
                    let k0 = if k < i { k } else { k + 1 };
                    assert(after[k].name@ == n);
                    assert(after[k] == before[k0]);
                }
                assert(collection(after) =~= collection(before).remove(name@));
            }
            entries.remove(i);
            self.entries = entries;
            true
        } else {
            assert(self@ =~= self@.remove(name@));
            false
        }
    }

    /// The bookmarks in the order of their names.
    pub fn list_bookmarks(&self) -> (r: Vec<Bookmark>)
        ensures
            names_ascend(r@),
            collection(r@) == self@,
    {
        proof {
            use_type_invariant(self);
        }
        let mut r: Vec<Bookmark> = Vec::new();
        let mut i: usize = 0;
        while i < self.entries.len()
            invariant
                i <= self.entries.len(),
                r.len() == i,
                forall|k: int| 0 <= k < i ==> #[trigger] r[k]@ == self.entries[k]@,
            decreases self.entries.len() - i,
        {
            r.push(self.entries[i].duplicate());
            i += 1;
        }
        proof {
            lemma_same_views(r@, self.entries@);
        }
        r
    }

    /// How many bookmarks there are.
    pub fn len(&self) -> (r: usize)
        ensures
            r == self@.dom().len(),
            self@.dom().finite(),
    {
        proof {
            use_type_invariant(self);
            lemma_collection_size(self.entries@);
        }
        self.entries.len()
    }

    /// Whether there is no bookmark.
    pub fn is_empty(&self) -> (r: bool)
        ensures
            r == (self@.dom().len() == 0),
            self@.dom().finite(),
    {
        self.len() == 0
    }

    /// A manager that holds `bookmarks`, each under its name. Of two
    /// bookmarks with one name the later one stays.
    pub fn from_bookmarks(bookmarks: Vec<Bookmark>) -> (r: Self)
        ensures
            r@ == gathered(bookmarks@),
    {
        let mut r = BookmarkManager::new();
        let mut i: usize = 0;
        while i < bookmarks.len()
            invariant
                i <= bookmarks.len(),
                r@ == gathered(bookmarks@.subrange(0, i as int)),
            decreases bookmarks.len() - i,
        {
            proof {
                let next = bookmarks@.subrange(0, i + 1);
                assert(next.drop_last() =~= bookmarks@.subrange(0, i as int));
                assert(next.last() == bookmarks@[i as int]);
            }
            r.store_bookmark(bookmarks[i].duplicate());
            i += 1;
        }
        assert(bookmarks@.subrange(0, i as int) =~= bookmarks@);
        r
    }
}

/// What a bookmark file holds, as far as it could be read.
#[derive(Debug)]
pub enum StoredFile {
    /// There is no such file.
    Absent,
    /// The file is there and cannot be read.
    Unreadable,
    /// The file was read and is no bookmark file.
    Corrupt,
    /// The bookmarks that the file holds.
    Parsed(Vec<Bookmark>),
}

/// How far loading got with the primary file.
#[derive(Debug, Clone, Copy, PartialEq, Eq, Structural)]
pub enum LoadStep {
    /// The bookmarks are loaded.
    Loaded,
    /// The primary file is corrupt: read the backup and hand it to
    /// [`BookmarkManager::load_backup`].
    TryBackup,
}

/// Why the bookmarks could not be loaded.
#[derive(Debug, Clone, Copy, PartialEq, Eq, Structural)]
pub enum LoadError {
    /// The primary file is there and cannot be read.
    PrimaryUnreadable,
    /// The primary file is corrupt, and so is the backup.
    BackupCorrupt,
    /// The primary file is corrupt, and there is no backup to read.
    NoValidBackup,
}

impl LoadError {
    /// The text of the error.
    pub fn message(&self) -> (r: &'static str)
        ensures
            r@ == (match *self {
                LoadError::PrimaryUnreadable => "Failed to read bookmarks file"@,
                LoadError::BackupCorrupt => "Failed to parse backup bookmarks file"@,
                LoadError::NoValidBackup =>
                    "Failed to parse bookmarks file and no valid backup found"@,
            }),
    {
        match self {
            LoadError::PrimaryUnreadable => "Failed to read bookmarks file",
            LoadError::BackupCorrupt => "Failed to parse backup bookmarks file",
            LoadError::NoValidBackup => "Failed to parse bookmarks file and no valid backup found",
        }
    }
}

/// What loading leads to with the two files as they are: the bookmarks of
/// the primary file; none if there is no primary file; those of the backup if
/// the primary file is corrupt; an error if the primary file cannot be read,
/// or is corrupt and the backup gives no bookmarks.
pub open spec fn recovered(primary: StoredFile, backup: StoredFile) -> Result<
    Map<Seq<char>, BookmarkView>,
    LoadError,
> {
    match primary {
        StoredFile::Absent => Ok(Map::empty()),
        StoredFile::Unreadable => Err(LoadError::PrimaryUnreadable),
        StoredFile::Parsed(b) => Ok(gathered(b@)),
        StoredFile::Corrupt => match backup {
            StoredFile::Parsed(b) => Ok(gathered(b@)),
            StoredFile::Corrupt => Err(LoadError::BackupCorrupt),
            _ => Err(LoadError::NoValidBackup),
        },
    }
}

/// The error of a result, if it is one.
pub open spec fn failure_of<T>(r: Result<T, LoadError>) -> Option<LoadError> {
    match r {
        Ok(_) => None,
        Err(e) => Some(e),
    }
}

/// Whether loading did what `expected` asks for: on success the manager
/// holds the expected bookmarks, on failure the expected error comes back and
/// the manager holds what it held `before`.
pub open spec fn loaded_as(
    expected: Result<Map<Seq<char>, BookmarkView>, LoadError>,
    failure: Option<LoadError>,
    before: Map<Seq<char>, BookmarkView>,
    after: Map<Seq<char>, BookmarkView>,
) -> bool {
    match expected {
        Ok(m) => failure is None && after == m,
        Err(e) => failure == Some(e) && after == before,
    }
}

impl BookmarkManager {
    /// Takes in the primary file. A file that is not there leaves the manager
    /// as it is; a corrupt file asks for the backup. For a manager that was
    /// empty and a primary file that is not corrupt, this is the whole of
    /// [`recovered`], whatever the backup holds.
    pub fn load_bookmarks(&mut self, primary: StoredFile) -> (r: Result<LoadStep, LoadError>)
        ensures
            !(primary is Corrupt) && old(self)@ == Map::<Seq<char>, BookmarkView>::empty()
                ==> forall|backup: StoredFile|
                loaded_as(
                    #[trigger] recovered(primary, backup),
                    failure_of(r),
                    old(self)@,
                    final(self)@,
                ),
            r is Ok && !(primary is Corrupt) ==> r == Ok::<LoadStep, LoadError>(LoadStep::Loaded),
            match primary {
                StoredFile::Absent => r == Ok::<LoadStep, LoadError>(LoadStep::Loaded) && final(self)@ == old(self)@,
                StoredFile::Unreadable => r == Err::<LoadStep, LoadError>(
                    LoadError::PrimaryUnreadable,
                ) && final(self)@ == old(self)@,
                StoredFile::Corrupt => r == Ok::<LoadStep, LoadError>(LoadStep::TryBackup)
                    && final(self)@ == old(self)@,
                StoredFile::Parsed(b) => r == Ok::<LoadStep, LoadError>(LoadStep::Loaded)
                    && final(self)@ == gathered(b@),
            },
    {
        match primary {
            StoredFile::Absent => Ok(LoadStep::Loaded),
            StoredFile::Unreadable => Err(LoadError::PrimaryUnreadable),
            StoredFile::Corrupt => Ok(LoadStep::TryBackup),
            StoredFile::Parsed(b) => {
                *self = BookmarkManager::from_bookmarks(b);
                Ok(LoadStep::Loaded)
            },
        }
    }

    /// Takes in the backup after the primary file proved corrupt. The
    /// bookmarks of the backup become the manager's; a backup that gives none
    /// is an error and leaves the manager as it is. With the corrupt primary
    /// file this is [`recovered`].
    pub fn load_backup(&mut self, backup: StoredFile) -> (r: Result<(), LoadError>)
        ensures
            loaded_as(
                recovered(StoredFile::Corrupt, backup),
                failure_of(r),
                old(self)@,
                final(self)@,
            ),
            match backup {
                StoredFile::Parsed(b) => r is Ok && final(self)@ == gathered(b@),
                StoredFile::Corrupt => r == Err::<(), LoadError>(LoadError::BackupCorrupt)
                    && final(self)@ == old(self)@,
                _ => r == Err::<(), LoadError>(LoadError::NoValidBackup) && final(self)@ == old(self)@,
            },
    {
        match backup {
            StoredFile::Parsed(b) => {
                *self = BookmarkManager::from_bookmarks(b);
                Ok(())
            },
            StoredFile::Corrupt => Err(LoadError::BackupCorrupt),
            _ => Err(LoadError::NoValidBackup),
        }
    }

    /// The lines that show the bookmark saved under `name`, if there is one.
    pub fn show_bookmark(&self, name: &str) -> (r: Option<Vec<String>>)
        ensures
            match lookup(self@, name@) {
                Some(b) => r is Some && line_texts(r->0@) == detail_lines(b),
                None => r is None,
            },
    {
        match self.get_bookmark(name) {
            Some(b) => {
                let mut lines = one_line(join_text("Bookmark: ", b.name.as_str()));
                match &b.description {
                    Some(d) => {
                        push_line(&mut lines, join_text("Description: ", d.as_str()));
                    },
                    None => {},
                }
                push_line(&mut lines, join_text("Created: ", b.created_at.as_str()));
                push_line(&mut lines, join_text("Last Modified: ", b.last_modified.as_str()));
                push_line(&mut lines, String::from_str("Query:"));
                push_line(&mut lines, b.query.clone());
                Some(lines)
            },
            None => None,
        }
    }
}

/// The lines that show a bookmark in full.
pub open spec fn detail_lines(b: BookmarkView) -> Seq<Seq<char>> {
    let head = seq!["Bookmark: "@ + b.name];
    let described = match b.description {
        Some(d) => head.push("Description: "@ + d),
        None => head,
    };
    described.push("Created: "@ + b.created_at).push("Last Modified: "@ + b.last_modified).push(
        "Query:"@,
    ).push(b.query)
}

/// The longest query that a listing shows in full, in characters.
pub const PREVIEW_LIMIT: usize = 50;

/// The number of characters that a listing keeps of a longer query.
pub const PREVIEW_KEPT: usize = 47;

/// A query as a listing shows it: in full up to 50 characters, else its
/// first 47 characters and three dots.
pub open spec fn preview_of(query: Seq<char>) -> Seq<char> {
    if query.len() > PREVIEW_LIMIT {
        query.subrange(0, PREVIEW_KEPT as int) + "..."@
    } else {
        query
    }
}

/// The query as a listing shows it.
pub fn query_preview(query: &str) -> (r: String)
    ensures
        r@ == preview_of(query@),
{
    let chars = to_chars(query);
    if chars.len() > PREVIEW_LIMIT {
        to_text_range(&chars, 0, PREVIEW_KEPT).concat("...")
    } else {
        String::from_str(query)
    }
}

/// The cells of a bookmark in a listing: name, description, time of
/// creation, time of the last change, and the query as [`preview_of`] cuts it.
pub open spec fn listing_cells(b: BookmarkView) -> Seq<Seq<char>> {
    seq![
        b.name,
        match b.description {
            Some(d) => d,
            None => "(no description)"@,
        },
        b.created_at,
        b.last_modified,
        preview_of(b.query),
    ]
}

/// The cells of `bookmark` in a listing.
pub fn listing_row(bookmark: &Bookmark) -> (r: Vec<String>)
    ensures
        line_texts(r@) == listing_cells(bookmark@),
{
    let mut cells = one_line(bookmark.name.clone());
    match &bookmark.description {
        Some(d) => {
            push_line(&mut cells, d.clone());
        },
        None => {
            push_line(&mut cells, String::from_str("(no description)"));
        },
    }
    push_line(&mut cells, bookmark.created_at.clone());
    push_line(&mut cells, bookmark.last_modified.clone());
    push_line(&mut cells, query_preview(bookmark.query.as_str()));
    cells
}

/// One step of writing the bookmark file.
#[derive(Debug, Clone, Copy, PartialEq, Eq, Structural)]
pub enum PersistStep {
    /// Copy the primary file to its `.bak` sibling.
    BackupPrimary,
    /// Write the serialized bookmarks to a temporary file in the directory
    /// of the primary file.
    WriteTemporary,
    /// Rename the temporary file to the primary file.
    ReplacePrimary,
}

/// The steps of one write, in order: the backup comes first and only where
/// there is a primary file to copy, and the primary file is touched last, by
/// one rename.
pub open spec fn write_protocol(primary_exists: bool) -> Seq<PersistStep> {
    if primary_exists {
        seq![PersistStep::BackupPrimary, PersistStep::WriteTemporary, PersistStep::ReplacePrimary]
    } else {
        seq![PersistStep::WriteTemporary, PersistStep::ReplacePrimary]
    }
}

/// The steps of one write of the bookmark file, in order.
pub fn persist_steps(primary_exists: bool) -> (r: Vec<PersistStep>)
    ensures
        r@ == write_protocol(primary_exists),
{
    let mut r: Vec<PersistStep> = Vec::new();
    if primary_exists {
        r.push(PersistStep::BackupPrimary);
    }
    r.push(PersistStep::WriteTemporary);
    r.push(PersistStep::ReplacePrimary);
    assert(r@ =~= write_protocol(primary_exists));
    r
}

/// Saving under a valid name and then looking the name up gives a bookmark
/// with the query that was saved.
pub proof fn lemma_save_then_get(
    before: Map<Seq<char>, BookmarkView>,
    name: Seq<char>,
    query: Seq<char>,
    description: Option<Seq<char>>,
    timestamp: Seq<char>,
)
    ensures
        lookup(after_save(before, name, query, description, timestamp), name) is Some,
        lookup(after_save(before, name, query, description, timestamp), name)->0.query == query,
        lookup(after_save(before, name, query, description, timestamp), name)->0.name == name,
        lookup(after_save(before, name, query, description, timestamp), name)->0.description
            == description,
{
}

/// Saving twice under one name keeps the time of creation of the first save
/// and takes the time of the last change from the second; other names are
/// not touched by either.
pub proof fn lemma_resave_keeps_creation(
    before: Map<Seq<char>, BookmarkView>,
    name: Seq<char>,
    first_query: Seq<char>,
    first_description: Option<Seq<char>>,
    first_timestamp: Seq<char>,
    second_query: Seq<char>,
    second_description: Option<Seq<char>>,
    second_timestamp: Seq<char>,
)
    ensures
        ({
            let once = after_save(before, name, first_query, first_description, first_timestamp);
            let twice = after_save(once, name, second_query, second_description, second_timestamp);
            &&& twice[name].created_at == once[name].created_at
            &&& twice[name].last_modified == second_timestamp
            &&& twice[name].query == second_query
            &&& !before.dom().contains(name) ==> twice[name].created_at == first_timestamp
            &&& before.dom().contains(name) ==> twice[name].created_at == before[name].created_at
            &&& twice.dom() == once.dom()
            &&& forall|other: Seq<char>|
                other != name && before.dom().contains(other) ==> #[trigger] twice[other]
                    == before[other]
        }),
{
    let once = after_save(before, name, first_query, first_description, first_timestamp);
    let twice = after_save(once, name, second_query, second_description, second_timestamp);
    assert(twice.dom() =~= once.dom());
}

/// Deleting a name that is absent changes nothing; after deleting a name
/// that is present, looking it up gives nothing and every other name is as
/// before.
pub proof fn lemma_delete_then_get(before: Map<Seq<char>, BookmarkView>, name: Seq<char>)
    ensures
        lookup(before.remove(name), name) is None,
        !before.dom().contains(name) ==> before.remove(name) == before,
        forall|other: Seq<char>|
            other != name ==> lookup(before.remove(name), other) == lookup(before, other),
{
    if !before.dom().contains(name) {
        assert(before.remove(name) =~= before);
    }
}

/// With a corrupt primary file and a backup that holds bookmarks, loading
/// gives exactly the bookmarks of the backup: a name that the backup does not
/// hold is absent, whatever the primary file held before it was damaged.
pub proof fn lemma_recovery_yields_backup(kept: Vec<Bookmark>, name: Seq<char>)
    ensures
        recovered(StoredFile::Corrupt, StoredFile::Parsed(kept)) == Ok::<
            Map<Seq<char>, BookmarkView>,
            LoadError,
        >(gathered(kept@)),
        !holds_name(kept@, name) ==> lookup(gathered(kept@), name) is None,
        holds_name(kept@, name) ==> lookup(gathered(kept@), name) is Some,
{
    lemma_gathered_names(kept@, name);
}

/// The names of a gathered map are those of the bookmarks that went in.
pub proof fn lemma_gathered_names(s: Seq<Bookmark>, name: Seq<char>)
    ensures
        gathered(s).dom().contains(name) == holds_name(s, name),
    decreases s.len(),
{
    if s.len() > 0 {
        lemma_gathered_names(s.drop_last(), name);
        if holds_name(s, name) {
            let k = position_of(s, name);
            if k < s.len() - 1 {
                assert(s.drop_last()[k].name@ == name);
            }
        }
        if holds_name(s.drop_last(), name) {
            let k = position_of(s.drop_last(), name);
            assert(s[k].name@ == name);
        }
        if s.last().name@ == name {
            assert(s[s.len() - 1].name@ == name);
        }
    }
}

/// The map that comes of putting the bookmarks of `s` under their names, one
/// after the other.
pub open spec fn gathered(s: Seq<Bookmark>) -> Map<Seq<char>, BookmarkView>
    decreases s.len(),
{
    if s.len() == 0 {
        Map::empty()
    } else {
        gathered(s.drop_last()).insert(s.last().name@, s.last()@)
    }
}

/// Sequences with the same views, one of them in ascending order, are both in
/// ascending order and make the same collection.
proof fn lemma_same_views(a: Seq<Bookmark>, b: Seq<Bookmark>)
    requires
        a.len() == b.len(),
        forall|k: int| 0 <= k < a.len() ==> #[trigger] a[k]@ == b[k]@,
        names_ascend(b),
    ensures
        names_ascend(a),
        collection(a) == collection(b),
{
    assert forall|i: int, j: int| 0 <= i < j < a.len() implies text_less(
        #[trigger] a[i].name@,
        #[trigger] a[j].name@,
    ) by {
        assert(a[i]@ == b[i]@);
        assert(a[j]@ == b[j]@);
    }
    lemma_collection(a);
    lemma_collection(b);
    assert forall|n: Seq<char>| holds_name(a, n) == holds_name(b, n) by {
        if holds_name(a, n) {
            let k = position_of(a, n);
            assert(a[k]@ == b[k]@);
            assert(b[k].name@ == n);
        }
        if holds_name(b, n) {
            let k = position_of(b, n);
            assert(a[k]@ == b[k]@);
            assert(a[k].name@ == n);
        }
    }
    assert forall|n: Seq<char>| holds_name(a, n) implies #[trigger] collection(a)[n]
        == collection(b)[n] by {
        let k = position_of(a, n);
        assert(a[k].name@ == n);
        assert(a[k]@ == b[k]@);
        assert(b[k].name@ == n);
    }
    assert(collection(a) =~= collection(b));
}

/// A collection without a repeated name has as many names as bookmarks.
proof fn lemma_collection_size(s: Seq<Bookmark>)
    requires
        names_ascend(s),
    ensures
        collection(s).dom().finite(),
        collection(s).dom().len() == s.len(),
    decreases s.len(),
{
    if s.len() == 0 {
        assert(collection(s).dom() =~= Set::<Seq<char>>::empty());
    } else {
        let shorter = s.drop_last();
        assert forall|i: int, j: int| 0 <= i < j < shorter.len() implies text_less(
            #[trigger] shorter[i].name@,
            #[trigger] shorter[j].name@,
        ) by {
            assert(shorter[i] == s[i]);
            assert(shorter[j] == s[j]);
        }
        lemma_collection_size(shorter);
        let last = s.last().name@;
        lemma_text_less_irreflexive(last);
        assert forall|n: Seq<char>| holds_name(s, n) == (holds_name(shorter, n) || n
            == last) by {
            if holds_name(s, n) {
                let k = position_of(s, n);
                if k < shorter.len() {
                    assert(shorter[k].name@ == n);
                }
            }
            if holds_name(shorter, n) {
                let k = position_of(shorter, n);
                assert(s[k].name@ == n);
            }
            if n == last {
                assert(s[s.len() - 1].name@ == n);
            }
        }
        assert(!holds_name(shorter, last)) by {
            if holds_name(shorter, last) {
                let k = position_of(shorter, last);
                assert(shorter[k] == s[k]);
                assert(text_less(s[k].name@, s[s.len() - 1].name@));
            }
        }
        assert(collection(s).dom() =~= collection(shorter).dom().insert(last));
    }
}

/// Where no name at or after `from` is before `name`... the name at `from`
/// decides whether `s` holds `name`.
proof fn lemma_not_held_elsewhere(s: Seq<Bookmark>, name: Seq<char>, from: int)
    requires
        names_ascend(s),
        0 <= from < s.len(),
        forall|k: int| 0 <= k < from ==> text_less(#[trigger] s[k].name@, name),
        !text_less(s[from].name@, name),
    ensures
        holds_name(s, name) == (s[from].name@ == name),
{
    if holds_name(s, name) {
        let k = position_of(s, name);
        lemma_text_less_irreflexive(name);
        if k > from {
            assert(text_less(s[from].name@, s[k].name@));
        }
    }
}

} // verus!
