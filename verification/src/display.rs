//! Settings and bookkeeping for showing query results.

use crate::text::{
    chars_contain_char, chars_equal, chars_start_with, decimal, decimal_text, join_strings,
    join_text, joined_with, line_texts, one_line, push_line, signed_decimal, signed_decimal_text,
    to_chars, to_text, to_uppercase, trim, trim_chars, uppercase,
};
use vstd::prelude::*;
use vstd::string::StringExecFns;

verus! {

/// How query results are laid out.
#[derive(Debug, Clone, Copy, PartialEq, Eq, Structural)]
pub enum OutputFormat {
    Table,
    Json,
    Csv,
}

impl OutputFormat {
    /// The name of the format as it is shown to the user.
    pub open spec fn spec_name(self) -> Seq<char> {
        match self {
            OutputFormat::Table => "Table"@,
            OutputFormat::Json => "Json"@,
            OutputFormat::Csv => "Csv"@,
        }
    }

    /// The name of the format as it is shown to the user.
    pub fn name(&self) -> (r: &'static str)
        ensures
            r@ == self.spec_name(),
    {
        match self {
            OutputFormat::Table => "Table",
            OutputFormat::Json => "Json",
            OutputFormat::Csv => "Csv",
        }
    }
}

/// How a query is run and shown.
pub struct QueryOptions {
    pub format: OutputFormat,
    /// The largest number of rows shown; `None` shows them all.
    pub max_rows: Option<usize>,
    pub show_timing: bool,
}

impl QueryOptions {
    /// The options a session starts with: a table of at most 1000 rows, with
    /// timing.
    pub open spec fn initial() -> QueryOptions {
        QueryOptions { format: OutputFormat::Table, max_rows: Some(1000usize), show_timing: true }
    }
}

impl Default for QueryOptions {
    fn default() -> (r: Self)
        ensures
            r == QueryOptions::initial(),
    {
        QueryOptions { format: OutputFormat::Table, max_rows: Some(1000), show_timing: true }
    }
}

/// An error of the display layer.
#[derive(Debug, Clone, PartialEq, Eq)]
pub enum DisplayError {
    DatabaseError(String),
    QueryError(String),
}

impl DisplayError {
    /// The text of the error: its kind, then its message.
    pub open spec fn spec_message(&self) -> Seq<char> {
        match self {
            DisplayError::QueryError(m) => "Query error: "@ + m@,
            DisplayError::DatabaseError(m) => "Database error: "@ + m@,
        }
    }

    /// The text of the error.
    pub fn message(&self) -> (r: String)
        ensures
            r@ == self.spec_message(),
    {
        match self {
            DisplayError::QueryError(m) => join_text("Query error: ", m.as_str()),
            DisplayError::DatabaseError(m) => join_text("Database error: ", m.as_str()),
        }
    }
}

/// Whether the text `upper` begins with `SELECT`.
pub open spec fn begins_with_select(upper: Seq<char>) -> bool {
    "SELECT"@.is_prefix_of(upper)
}

/// Whether a statement whose trimmed, uppercase form is `upper` is a query.
pub fn is_select_upper(upper: &str) -> (r: bool)
    ensures
        r == begins_with_select(upper@),
{
    chars_start_with(&to_chars(upper), "SELECT")
}

/// Whether `sql` is a query: trimmed and in capitals, it begins with
/// `SELECT`.
pub fn is_select(sql: &str) -> (r: bool)
    ensures
        r == begins_with_select(uppercase(trim(sql@))),
{
    let trimmed = to_text(&trim_chars(&to_chars(sql)));
    let upper = to_uppercase(trimmed.as_str());
    is_select_upper(upper.as_str())
}

/// Whether `row_count` rows reach the limit `max_rows`; no limit is never
/// reached.
pub open spec fn reaches_limit(row_count: usize, max_rows: Option<usize>) -> bool {
    match max_rows {
        Some(limit) => row_count >= limit,
        None => false,
    }
}

/// Whether `row_count` rows reach the limit `max_rows`.
pub fn limit_reached(row_count: usize, max_rows: Option<usize>) -> (r: bool)
    ensures
        r == reaches_limit(row_count, max_rows),
{
    match max_rows {
        Some(limit) => row_count >= limit,
        None => false,
    }
}

/// The lines under the rows of a query: how many rows there are, and, where
/// the limit was reached, that there may be more.
pub open spec fn returned_lines(row_count: usize, max_rows: Option<usize>) -> Seq<Seq<char>> {
    let counted = seq![decimal(row_count as nat) + " row(s) returned"@];
    match max_rows {
        Some(limit) => if row_count >= limit {
            counted.push(
                "(Limited to "@ + decimal(limit as nat)
                    + " rows. Use '.limit 0' to show all rows)"@,
            )
        } else {
            counted
        },
        None => counted,
    }
}

/// Writes the lines under the rows of a query.
pub fn rows_returned(row_count: usize, max_rows: Option<usize>) -> (r: Vec<String>)
    ensures
        line_texts(r@) == returned_lines(row_count, max_rows),
{
    let mut lines = one_line(decimal_text(row_count).concat(" row(s) returned"));
    match max_rows {
        Some(limit) => {
            if row_count >= limit {
                push_line(
                    &mut lines,
                    join_text("(Limited to ", decimal_text(limit).as_str()).concat(
                        " rows. Use '.limit 0' to show all rows)",
                    ),
                );
            }
        },
        None => {},
    }
    lines
}

/// Writes the line that says how many rows a statement changed.
pub fn rows_affected(affected: usize) -> (r: String)
    ensures
        r@ == decimal(affected as nat) + " row(s) affected"@,
{
    decimal_text(affected).concat(" row(s) affected")
}

/// `s` with each double quote written twice.
pub open spec fn double_quotes(s: Seq<char>) -> Seq<char>
    decreases s.len(),
{
    if s.len() == 0 {
        Seq::empty()
    } else if s.last() == '"' {
        double_quotes(s.drop_last()).push('"').push('"')
    } else {
        double_quotes(s.drop_last()).push(s.last())
    }
}

/// Whether a value must be quoted in CSV: it holds a comma, a double quote
/// or a line feed.
pub open spec fn needs_quoting(s: Seq<char>) -> bool {
    s.contains(',') || s.contains('"') || s.contains('\n')
}

/// A value as CSV writes it: as it is, or, where it must be quoted, between
/// double quotes and with its own double quotes written twice.
pub open spec fn csv_field(s: Seq<char>) -> Seq<char> {
    if needs_quoting(s) {
        seq!['"'] + double_quotes(s) + seq!['"']
    } else {
        s
    }
}

/// Writes a value as CSV does.
pub fn csv_escape(value: &str) -> (r: String)
    ensures
        r@ == csv_field(value@),
{
    let v = to_chars(value);
    if chars_contain_char(&v, ',') || chars_contain_char(&v, '"') || chars_contain_char(&v, '\n') {
        let mut out: Vec<char> = Vec::new();
        out.push('"');
        let mut i: usize = 0;
        assert(v@.subrange(0, 0) =~= Seq::<char>::empty());
        assert(out@ =~= seq!['"'] + double_quotes(v@.subrange(0, 0)));
        while i < v.len()
            invariant
                i <= v.len(),
                out@ == seq!['"'] + double_quotes(v@.subrange(0, i as int)),
            decreases v.len() - i,
        {
            proof {
                let next = v@.subrange(0, i + 1);
                assert(next.drop_last() =~= v@.subrange(0, i as int));
                assert(next.last() == v@[i as int]);
            }
            let ghost before = out@;
            if v[i] == '"' {
                out.push('"');
                out.push('"');
                assert(out@ =~= seq!['"'] + double_quotes(v@.subrange(0, i as int)).push(
                    '"',
                ).push('"'));
            } else {
                out.push(v[i]);
                assert(out@ =~= seq!['"'] + double_quotes(v@.subrange(0, i as int)).push(
                    v@[i as int],
                ));
            }
            i += 1;
        }
        assert(v@.subrange(0, i as int) =~= v@);
        out.push('"');
        assert(out@ =~= seq!['"'] + double_quotes(v@) + seq!['"']);
        to_text(&out)
    } else {
        String::from_str(value)
    }
}

/// The values of a row as CSV writes them, joined by commas.
pub open spec fn csv_row(cells: Seq<Seq<char>>) -> Seq<char> {
    joined_with(cells.map_values(|c: Seq<char>| csv_field(c)), ","@)
}

/// The text of each cell of each row.
pub open spec fn table_texts(rows: Seq<Vec<String>>) -> Seq<Seq<Seq<char>>> {
    rows.map_values(|r: Vec<String>| line_texts(r@))
}

/// The lines of a result in CSV: the names of the columns, joined by commas
/// as they are, then each row.
pub open spec fn csv_lines(columns: Seq<Seq<char>>, rows: Seq<Seq<Seq<char>>>) -> Seq<Seq<char>> {
    seq![joined_with(columns, ","@)] + rows.map_values(|r: Seq<Seq<char>>| csv_row(r))
}

fn csv_row_text(cells: &Vec<String>) -> (r: String)
    ensures
        r@ == csv_row(line_texts(cells@)),
{
    let mut escaped: Vec<String> = Vec::new();
    let mut i: usize = 0;
    while i < cells.len()
        invariant
            i <= cells.len(),
            escaped.len() == i,
            forall|k: int| 0 <= k < i ==> (#[trigger] escaped[k])@ == csv_field(cells[k]@),
        decreases cells.len() - i,
    {
        escaped.push(csv_escape(cells[i].as_str()));
        i += 1;
    }
    assert(line_texts(escaped@) =~= line_texts(cells@).map_values(|c: Seq<char>| csv_field(c)));
    join_strings(&escaped, ",")
}

/// Writes a result as CSV, line by line.
pub fn display_as_csv(column_names: &Vec<String>, rows: &Vec<Vec<String>>) -> (r: Vec<String>)
    ensures
        line_texts(r@) == csv_lines(line_texts(column_names@), table_texts(rows@)),
{
    let mut lines = one_line(join_strings(column_names, ","));
    let mut i: usize = 0;
    while i < rows.len()
        invariant
            i <= rows.len(),
            lines.len() == i + 1,
            lines[0]@ == joined_with(line_texts(column_names@), ","@),
            forall|k: int| 0 <= k < i ==> (#[trigger] lines[k + 1])@ == csv_row(line_texts(rows[k]@)),
        decreases rows.len() - i,
    {
        lines.push(csv_row_text(&rows[i]));
        i += 1;
    }
    proof {
        let expected = csv_lines(line_texts(column_names@), table_texts(rows@));
        assert(expected.len() == rows@.len() + 1);
        assert forall|k: int| 0 <= k < expected.len() implies line_texts(lines@)[k]
            == expected[k] by {
            if k > 0 {
                assert(lines[(k - 1) + 1]@ == csv_row(line_texts(rows[k - 1]@)));
                assert(table_texts(rows@)[k - 1] == line_texts(rows[k - 1]@));
            }
        }
        assert(line_texts(lines@) =~= expected);
    }
    lines
}

/// A value of a row, as far as showing it goes. A real number comes as the
/// text that stands for it.
#[derive(Debug, Clone, PartialEq, Eq)]
pub enum CellValue {
    Null,
    Integer(i64),
    Real(String),
    Text(String),
    /// Binary data of this many bytes.
    Blob(usize),
}

impl CellValue {
    /// The value as a result shows it.
    pub open spec fn spec_shown(&self) -> Seq<char> {
        match self {
            CellValue::Null => "NULL"@,
            CellValue::Integer(n) => signed_decimal(*n as int),
            CellValue::Real(t) => t@,
            CellValue::Text(t) => t@,
            CellValue::Blob(n) => "<binary data: "@ + decimal(*n as nat) + " bytes>"@,
        }
    }

    /// The value as a result shows it.
    pub fn shown(&self) -> (r: String)
        ensures
            r@ == self.spec_shown(),
    {
        match self {
            CellValue::Null => String::from_str("NULL"),
            CellValue::Integer(n) => signed_decimal_text(*n),
            CellValue::Real(t) => t.clone(),
            CellValue::Text(t) => t.clone(),
            CellValue::Blob(n) => join_text("<binary data: ", decimal_text(*n).as_str()).concat(
                " bytes>",
            ),
        }
    }

    /// The value as an export writes it: nothing for a missing value, and a
    /// text quoted where CSV needs it.
    pub open spec fn spec_exported(&self) -> Seq<char> {
        match self {
            CellValue::Null => ""@,
            CellValue::Integer(n) => signed_decimal(*n as int),
            CellValue::Real(t) => t@,
            CellValue::Text(t) => csv_field(t@),
            CellValue::Blob(n) => "[BLOB "@ + decimal(*n as nat) + " bytes]"@,
        }
    }

    /// The value as an export writes it.
    pub fn exported(&self) -> (r: String)
        ensures
            r@ == self.spec_exported(),
    {
        match self {
            CellValue::Null => String::from_str(""),
            CellValue::Integer(n) => signed_decimal_text(*n),
            CellValue::Real(t) => t.clone(),
            CellValue::Text(t) => csv_escape(t.as_str()),
            CellValue::Blob(n) => join_text("[BLOB ", decimal_text(*n).as_str()).concat(" bytes]"),
        }
    }
}

/// A batch of rows that is ready to be shown.
#[derive(Debug, Clone, PartialEq, Eq)]
pub struct Batch {
    pub rows: Vec<Vec<String>>,
    /// How many rows are loaded, this batch included.
    pub loaded_rows: usize,
    /// How many rows there are to load.
    pub total_rows: usize,
}

impl Batch {
    /// The line that reports the progress.
    pub fn progress(&self) -> (r: String)
        ensures
            r@ == "Loaded "@ + decimal(self.loaded_rows as nat) + "/"@ + decimal(
                self.total_rows as nat,
            ) + " rows..."@,
    {
        join_text("Loaded ", decimal_text(self.loaded_rows).as_str()).concat("/").concat(
            decimal_text(self.total_rows).as_str(),
        ).concat(" rows...")
    }
}

/// Takes rows in one by one and hands them out in batches.
pub struct ProgressiveLoader {
    batch_size: usize,
    total_rows: usize,
    loaded_rows: usize,
    column_names: Vec<String>,
    current_batch: Vec<Vec<String>>,
}

impl ProgressiveLoader {
    /// The number of rows at which a batch is handed out.
    pub closed spec fn batch_size(&self) -> usize {
        self.batch_size
    }

    /// How many rows there are to load.
    pub closed spec fn total_rows(&self) -> usize {
        self.total_rows
    }

    /// How many rows came in so far.
    pub closed spec fn loaded_rows(&self) -> usize {
        self.loaded_rows
    }

    /// The names of the columns.
    pub closed spec fn columns(&self) -> Seq<Seq<char>> {
        line_texts(self.column_names@)
    }

    /// The rows that came in and were not handed out yet.
    pub closed spec fn pending(&self) -> Seq<Seq<Seq<char>>> {
        table_texts(self.current_batch@)
    }

    /// A loader without rows.
    pub fn new(batch_size: usize, column_names: Vec<String>) -> (r: Self)
        ensures
            r.batch_size() == batch_size,
            r.total_rows() == 0,
            r.loaded_rows() == 0,
            r.columns() == line_texts(column_names@),
            r.pending() == Seq::<Seq<Seq<char>>>::empty(),
    {
        let r = ProgressiveLoader {
            batch_size,
            total_rows: 0,
            loaded_rows: 0,
            column_names,
            current_batch: Vec::new(),
        };
        assert(r.pending() =~= Seq::<Seq<Seq<char>>>::empty());
        r
    }

    /// The names of the columns.
    pub fn column_names(&self) -> (r: &Vec<String>)
        ensures
            line_texts(r@) == self.columns(),
    {
        &self.column_names
    }

    /// Takes one row in. With it the pending rows may fill a batch, which is
    /// then handed out.
    pub fn add_row(&mut self, row: Vec<String>) -> (r: Option<Batch>)
        requires
            old(self).loaded_rows() < usize::MAX,
        ensures
            final(self).loaded_rows() == old(self).loaded_rows() + 1,
            final(self).batch_size() == old(self).batch_size(),
            final(self).total_rows() == old(self).total_rows(),
            final(self).columns() == old(self).columns(),
            r is Some <==> old(self).pending().len() + 1 >= old(self).batch_size(),
            r is None ==> final(self).pending() == old(self).pending().push(line_texts(row@)),
            r matches Some(batch) ==> ({
                &&& table_texts(batch.rows@) == old(self).pending().push(line_texts(row@))
                &&& batch.loaded_rows == final(self).loaded_rows()
                &&& batch.total_rows == old(self).total_rows()
                &&& final(self).pending() == Seq::<Seq<Seq<char>>>::empty()
            }),
    {
        self.current_batch.push(row);
        assert(table_texts(self.current_batch@) =~= old(self).pending().push(line_texts(row@)));
        self.loaded_rows += 1;
        if self.current_batch.len() >= self.batch_size {
            self.flush_batch()
        } else {
            None
        }
    }

    /// Hands out the pending rows, if there are any.
    pub fn flush_batch(&mut self) -> (r: Option<Batch>)
        ensures
            final(self).loaded_rows() == old(self).loaded_rows(),
            final(self).batch_size() == old(self).batch_size(),
            final(self).total_rows() == old(self).total_rows(),
            final(self).columns() == old(self).columns(),
            final(self).pending() == Seq::<Seq<Seq<char>>>::empty(),
            r is Some <==> old(self).pending().len() > 0,
            r matches Some(batch) ==> ({
                &&& table_texts(batch.rows@) == old(self).pending()
                &&& batch.loaded_rows == old(self).loaded_rows()
                &&& batch.total_rows == old(self).total_rows()
            }),
    {
        if self.current_batch.len() > 0 {
            let mut rows: Vec<Vec<String>> = Vec::new();
            std::mem::swap(&mut self.current_batch, &mut rows);
            assert(self.pending() =~= Seq::<Seq<Seq<char>>>::empty());
            Some(Batch { rows, loaded_rows: self.loaded_rows, total_rows: self.total_rows })
        } else {
            assert(self.pending() =~= Seq::<Seq<Seq<char>>>::empty());
            None
        }
    }

    /// Sets the number of rows that there are to load.
    pub fn set_total_rows(&mut self, total: usize)
        ensures
            final(self).total_rows() == total,
            final(self).loaded_rows() == old(self).loaded_rows(),
            final(self).batch_size() == old(self).batch_size(),
            final(self).columns() == old(self).columns(),
            final(self).pending() == old(self).pending(),
    {
        self.total_rows = total;
    }

    /// Whether as many rows came in as there are to load.
    pub fn is_complete(&self) -> (r: bool)
        ensures
            r == (self.loaded_rows() >= self.total_rows()),
    {
        self.loaded_rows >= self.total_rows
    }
}

/// The mathematical value of a cached result.
pub struct CachedView {
    pub rows: Seq<Seq<Seq<char>>>,
    /// When the result was stored, in nanoseconds on the cache's clock.
    pub stored_at: u128,
}

struct CacheEntry {
    query: String,
    results: Vec<Vec<String>>,
    stored_at: u128,
}

impl View for CacheEntry {
    type V = CachedView;

    closed spec fn view(&self) -> CachedView {
        CachedView { rows: table_texts(self.results@), stored_at: self.stored_at }
    }
}

spec fn queries_differ(s: Seq<CacheEntry>) -> bool {
    forall|i: int, j: int| 0 <= i < j < s.len() ==> #[trigger] s[i].query@ != #[trigger] s[j].query@
}

spec fn cache_holds(s: Seq<CacheEntry>, query: Seq<char>) -> bool {
    exists|i: int| 0 <= i < s.len() && #[trigger] s[i].query@ == query
}

spec fn cache_position(s: Seq<CacheEntry>, query: Seq<char>) -> int {
    choose|i: int| 0 <= i < s.len() && #[trigger] s[i].query@ == query
}

spec fn cache_map(s: Seq<CacheEntry>) -> Map<Seq<char>, CachedView> {
    Map::new(
        |query: Seq<char>| cache_holds(s, query),
        |query: Seq<char>| s[cache_position(s, query)]@,
    )
}

proof fn lemma_cache_map(s: Seq<CacheEntry>)
    requires
        queries_differ(s),
    ensures
        forall|i: int|
            0 <= i < s.len() ==> cache_map(s).dom().contains(#[trigger] s[i].query@) && cache_map(
                s,
            )[s[i].query@] == s[i]@,
        forall|query: Seq<char>| #[trigger]
            cache_map(s).dom().contains(query) ==> 0 <= cache_position(s, query) < s.len()
                && s[cache_position(s, query)].query@ == query,
{
    assert forall|i: int| 0 <= i < s.len() implies cache_map(s).dom().contains(
        #[trigger] s[i].query@,
    ) && cache_map(s)[s[i].query@] == s[i]@ by {
        let query = s[i].query@;
        assert(cache_holds(s, query));
        let j = cache_position(s, query);
        if j < i {
            assert(s[j].query@ != s[i].query@);
        } else if i < j {
            assert(s[i].query@ != s[j].query@);
        }
    }
}

proof fn lemma_cache_size(s: Seq<CacheEntry>)
    requires
        queries_differ(s),
    ensures
        cache_map(s).dom().finite(),
        cache_map(s).dom().len() == s.len(),
    decreases s.len(),
{
    if s.len() == 0 {
        assert(cache_map(s).dom() =~= Set::<Seq<char>>::empty());
    } else {
        let shorter = s.drop_last();
        assert forall|i: int, j: int| 0 <= i < j < shorter.len() implies #[trigger] shorter[i].query@
            != #[trigger] shorter[j].query@ by {
            assert(shorter[i] == s[i]);
            assert(shorter[j] == s[j]);
        }
        lemma_cache_size(shorter);
        lemma_cache_removed(s, s.len() - 1);
        assert(shorter =~= s.remove(s.len() - 1));
        lemma_cache_map(s);
        assert(cache_map(s).dom() =~= cache_map(shorter).dom().insert(s.last().query@));
    }
}

proof fn lemma_cache_removed(s: Seq<CacheEntry>, at: int)
    requires
        queries_differ(s),
        0 <= at < s.len(),
    ensures
        queries_differ(s.remove(at)),
        cache_map(s.remove(at)) == cache_map(s).remove(s[at].query@),
{
    let after = s.remove(at);
    assert forall|i: int, j: int| 0 <= i < j < after.len() implies #[trigger] after[i].query@
        != #[trigger] after[j].query@ by {
        let i0 = if i < at { i } else { i + 1 };
        let j0 = if j < at { j } else { j + 1 };
        assert(after[i] == s[i0]);
        assert(after[j] == s[j0]);
    }
    lemma_cache_map(s);
    lemma_cache_map(after);
    assert forall|q: Seq<char>| cache_holds(after, q) == (cache_holds(s, q) && q
        != s[at].query@) by {
        if cache_holds(after, q) {
            let k = cache_position(after, q);
            let k0 = if k < at { k } else { k + 1 };
            assert(after[k] == s[k0]);
            assert(s[k0].query@ == q);
            if k0 < at {
                assert(s[k0].query@ != s[at].query@);
            } else {
                assert(s[at].query@ != s[k0].query@);
            }
        }
        if cache_holds(s, q) && q != s[at].query@ {
            let k = cache_position(s, q);
            if k < at {
                assert(after[k].query@ == q);
            } else {
                assert(after[k - 1].query@ == q);
            }
        }
    }
    assert forall|q: Seq<char>| cache_holds(after, q) implies #[trigger] cache_map(after)[q]
        == cache_map(s)[q] by {
        let k = cache_position(after, q);
        let k0 = if k < at { k } else { k + 1 };
        assert(after[k].query@ == q);
        assert(after[k] == s[k0]);
    }
    assert(cache_map(after) =~= cache_map(s).remove(s[at].query@));
}

proof fn lemma_cache_updated(s: Seq<CacheEntry>, at: int, entry: CacheEntry)
    requires
        queries_differ(s),
        0 <= at < s.len(),
        entry.query@ == s[at].query@,
    ensures
        queries_differ(s.update(at, entry)),
        cache_map(s.update(at, entry)) == cache_map(s).insert(entry.query@, entry@),
{
    let after = s.update(at, entry);
    assert forall|i: int, j: int| 0 <= i < j < after.len() implies #[trigger] after[i].query@
        != #[trigger] after[j].query@ by {
        assert(after[i].query@ == s[i].query@);
        assert(after[j].query@ == s[j].query@);
    }
    lemma_cache_map(s);
    lemma_cache_map(after);
    assert forall|q: Seq<char>| cache_holds(after, q) == cache_holds(s, q) by {
        if cache_holds(after, q) {
            let k = cache_position(after, q);
            assert(s[k].query@ == q);
        }
        if cache_holds(s, q) {
            let k = cache_position(s, q);
            assert(after[k].query@ == q);
        }
    }
    assert forall|q: Seq<char>| cache_holds(after, q) implies #[trigger] cache_map(after)[q]
        == cache_map(s).insert(entry.query@, entry@)[q] by {
        let k = cache_position(after, q);
        assert(after[k].query@ == q);
        assert(s[k].query@ == q);
        if k != at {
            assert(after[k] == s[k]);
            if k < at {
                assert(s[k].query@ != s[at].query@);
            } else {
                assert(s[at].query@ != s[k].query@);
            }
        }
    }
    assert(cache_map(after) =~= cache_map(s).insert(entry.query@, entry@));
}

proof fn lemma_cache_pushed(s: Seq<CacheEntry>, entry: CacheEntry)
    requires
        queries_differ(s),
        !cache_holds(s, entry.query@),
    ensures
        queries_differ(s.push(entry)),
        cache_map(s.push(entry)) == cache_map(s).insert(entry.query@, entry@),
{
    let after = s.push(entry);
    assert forall|i: int, j: int| 0 <= i < j < after.len() implies #[trigger] after[i].query@
        != #[trigger] after[j].query@ by {
        assert(after[i] == s[i]);
        if j < s.len() {
            assert(after[j] == s[j]);
        } else {
            assert(s[i].query@ != entry.query@);
        }
    }
    lemma_cache_map(s);
    lemma_cache_map(after);
    assert forall|q: Seq<char>| cache_holds(after, q) == (cache_holds(s, q) || q
        == entry.query@) by {
        if cache_holds(after, q) {
            let k = cache_position(after, q);
            if k < s.len() {
                assert(s[k].query@ == q);
            }
        }
        if cache_holds(s, q) {
            let k = cache_position(s, q);
            assert(after[k].query@ == q);
        }
        if q == entry.query@ {
            assert(after[s.len() as int].query@ == q);
        }
    }
    assert forall|q: Seq<char>| cache_holds(after, q) implies #[trigger] cache_map(after)[q]
        == cache_map(s).insert(entry.query@, entry@)[q] by {
        let k = cache_position(after, q);
        assert(after[k].query@ == q);
        if k < s.len() {
            assert(after[k] == s[k]);
        }
    }
    assert(cache_map(after) =~= cache_map(s).insert(entry.query@, entry@));
}

/// The time that passed from `stored_at` to `now`, none if `now` is the
/// earlier of the two.
pub open spec fn elapsed(now: u128, stored_at: u128) -> nat {
    if now >= stored_at {
        (now - stored_at) as nat
    } else {
        0
    }
}

/// The rows that a cache with the contents `cache` and the time to live
/// `ttl` hands out for `query` at the time `now`: those stored for the query,
/// if less than `ttl` has passed since they were stored.
pub open spec fn fresh_rows(
    cache: Map<Seq<char>, CachedView>,
    ttl: u128,
    query: Seq<char>,
    now: u128,
) -> Option<Seq<Seq<Seq<char>>>> {
    if cache.dom().contains(query) && elapsed(now, cache[query].stored_at) < ttl {
        Some(cache[query].rows)
    } else {
        None
    }
}

/// The text of the rows that a lookup handed out, if it handed out any.
pub open spec fn optional_rows(found: Option<&Vec<Vec<String>>>) -> Option<Seq<Seq<Seq<char>>>> {
    match found {
        Some(rows) => Some(table_texts(rows@)),
        None => None,
    }
}

/// Whether `key` is a result of `cache` than which none was stored earlier.
pub open spec fn is_oldest(cache: Map<Seq<char>, CachedView>, key: Seq<char>) -> bool {
    cache.dom().contains(key) && forall|other: Seq<char>|
        cache.dom().contains(other) ==> cache[key].stored_at <= (#[trigger] cache[other]).stored_at
}

/// What a cache of at most `max_size` results may hold after `rows` were
/// stored for `query` at the time `now`. A cache that is full loses one of its
/// oldest results first; then the new result takes the place of any older
/// result for the same query.
pub open spec fn stored(
    before: Map<Seq<char>, CachedView>,
    max_size: usize,
    query: Seq<char>,
    rows: Seq<Seq<Seq<char>>>,
    now: u128,
    after: Map<Seq<char>, CachedView>,
) -> bool {
    let entry = CachedView { rows, stored_at: now };
    if before.dom().len() >= max_size && before.dom().len() > 0 {
        exists|evicted: Seq<char>| #[trigger]
            is_oldest(before, evicted) && after == before.remove(evicted).insert(query, entry)
    } else {
        after == before.insert(query, entry)
    }
}

#[verifier::external_type_specification]
#[verifier::external_body]
pub struct ExInstant(std::time::Instant);

/// Reads the monotonic clock with `Instant::now`. Nothing is claimed about
/// the moment that comes back.
#[verifier::external_body]
fn instant_now() -> (r: std::time::Instant) {
    std::time::Instant::now()
}

/// The time that passed since `start`, by `Instant::elapsed`. Nothing is
/// claimed about it.
#[verifier::external_body]
fn elapsed_since(start: &std::time::Instant) -> (r: std::time::Duration) {
    start.elapsed()
}

/// The length of `span` in nanoseconds, by `Duration::as_nanos`. Nothing is
/// claimed about the number here, since a `Duration` has no value that a
/// contract could speak of.
#[verifier::external_body]
fn nanos_of(span: &std::time::Duration) -> (r: u128) {
    span.as_nanos()
}

/// Results of queries, kept for a while so that a query need not run twice.
pub struct QueryCache {
    entries: Vec<CacheEntry>,
    max_size: usize,
    ttl: u128,
    started: std::time::Instant,
}

impl View for QueryCache {
    type V = Map<Seq<char>, CachedView>;

    closed spec fn view(&self) -> Map<Seq<char>, CachedView> {
        cache_map(self.entries@)
    }
}

impl QueryCache {
    #[verifier::type_invariant]
    spec fn distinct(&self) -> bool {
        queries_differ(self.entries@)
    }

    /// The number of results at which the cache is full.
    pub closed spec fn max_size(&self) -> usize {
        self.max_size
    }

    /// How long a result stays fresh, in nanoseconds.
    pub closed spec fn ttl(&self) -> u128 {
        self.ttl
    }

    /// An empty cache of at most `max_size` results that stay fresh for
    /// `ttl_nanos` nanoseconds.
    pub fn with_ttl_nanos(max_size: usize, ttl_nanos: u128) -> (r: Self)
        ensures
            r@ == Map::<Seq<char>, CachedView>::empty(),
            r.max_size() == max_size,
            r.ttl() == ttl_nanos,
    {
        let r = QueryCache {
            entries: Vec::new(),
            max_size,
            ttl: ttl_nanos,
            started: instant_now(),
        };
        assert(r@ =~= Map::<Seq<char>, CachedView>::empty());
        r
    }

    /// An empty cache of at most `max_size` results that stay fresh for
    /// `ttl`.
    pub fn new(max_size: usize, ttl: std::time::Duration) -> (r: Self)
        ensures
            r@ == Map::<Seq<char>, CachedView>::empty(),
            r.max_size() == max_size,
    {
        QueryCache::with_ttl_nanos(max_size, nanos_of(&ttl))
    }

    /// How many results the cache holds.
    pub fn len(&self) -> (r: usize)
        ensures
            self@.dom().finite(),
            r == self@.dom().len(),
    {
        proof {
            use_type_invariant(self);
            lemma_cache_size(self.entries@);
        }
        self.entries.len()
    }

    /// The result stored for `query`, if there is one and it is still fresh
    /// at the time `now`: less than the time to live has passed since it was
    /// stored.
    pub fn get_at(&self, query: &str, now: u128) -> (r: Option<&Vec<Vec<String>>>)
        ensures
            r is Some <==> self@.dom().contains(query@) && elapsed(now, self@[query@].stored_at)
                < self.ttl(),
            r matches Some(rows) ==> table_texts(rows@) == self@[query@].rows,
            optional_rows(r) == fresh_rows(self@, self.ttl(), query@, now),
    {
        proof {
            use_type_invariant(self);
            lemma_cache_map(self.entries@);
        }
        match find_in(&self.entries, &to_chars(query)) {
            Some(i) => {
                let entry = &self.entries[i];
                let passed: u128 = if now >= entry.stored_at {
                    now - entry.stored_at
                } else {
                    0
                };
                if passed < self.ttl {
                    Some(&entry.results)
                } else {
                    None
                }
            },
            None => None,
        }
    }

    /// The result stored for `query`, if there is one and it is still fresh
    /// by the cache's clock: what [`QueryCache::get_at`] hands out at the time
    /// that the clock shows, whatever that time is.
    pub fn get(&self, query: &str) -> (r: Option<&Vec<Vec<String>>>)
        ensures
            exists|now: u128|
                optional_rows(r) == #[trigger] fresh_rows(self@, self.ttl(), query@, now),
            r matches Some(rows) ==> self@.dom().contains(query@) && table_texts(rows@)
                == self@[query@].rows,
    {
        let now = nanos_of(&elapsed_since(&self.started));
        let r = self.get_at(query, now);
        assert(optional_rows(r) == fresh_rows(self@, self.ttl(), query@, now));
        r
    }

    /// Stores `results` for `query` at the time `now`.
    pub fn insert_at(&mut self, query: String, results: Vec<Vec<String>>, now: u128)
        ensures
            stored(
                old(self)@,
                old(self).max_size(),
                query@,
                table_texts(results@),
                now,
                final(self)@,
            ),
            final(self).max_size() == old(self).max_size(),
            final(self).ttl() == old(self).ttl(),
    {
        proof {
            use_type_invariant(&*self);
            lemma_cache_size(self.entries@);
            lemma_cache_map(self.entries@);
        }
        let ghost before = self.entries@;
        let mut entries: Vec<CacheEntry> = Vec::new();
        std::mem::swap(&mut self.entries, &mut entries);
        let ghost mut evicted: Seq<char> = Seq::empty();
        let evicts = entries.len() >= self.max_size && entries.len() > 0;
        if evicts {
            let mut oldest: usize = 0;
            let mut i: usize = 1;
            while i < entries.len()
                invariant
                    1 <= i <= entries.len(),
                    oldest < i,
                    forall|k: int|
                        0 <= k < i ==> entries[oldest as int].stored_at <= (
                        #[trigger] entries[k]).stored_at,
                decreases entries.len() - i,
            {
                if entries[i].stored_at < entries[oldest].stored_at {
                    oldest = i;
                }
                i += 1;
            }
            proof {
                evicted = before[oldest as int].query@;
                assert forall|other: Seq<char>|
                    cache_map(before).dom().contains(other) implies cache_map(
                    before,
                )[evicted].stored_at <= (#[trigger] cache_map(before)[other]).stored_at by {
                    let k = cache_position(before, other);
                    assert(before[oldest as int].stored_at <= before[k].stored_at);
                }
                assert(is_oldest(cache_map(before), evicted));
                lemma_cache_removed(before, oldest as int);
            }
            entries.remove(oldest);
        }
        let ghost middle = entries@;
        let found = find_in(&entries, &to_chars(query.as_str()));
        let entry = CacheEntry { query, results, stored_at: now };
        match found {
            Some(i) => {
                proof {
                    lemma_cache_updated(middle, i as int, entry);
                }
                entries.set(i, entry);
            },
            None => {
                proof {
                    lemma_cache_pushed(middle, entry);
                }
                entries.push(entry);
            },
        }
        self.entries = entries;
    }

    /// Stores `results` for `query` at the time of the cache's clock.
    pub fn insert(&mut self, query: String, results: Vec<Vec<String>>)
        ensures
            final(self)@.dom().contains(query@),
            final(self)@[query@].rows == table_texts(results@),
            stored(
                old(self)@,
                old(self).max_size(),
                query@,
                table_texts(results@),
                final(self)@[query@].stored_at,
                final(self)@,
            ),
            final(self).max_size() == old(self).max_size(),
            final(self).ttl() == old(self).ttl(),
    {
        let now = nanos_of(&elapsed_since(&self.started));
        self.insert_at(query, results, now);
    }

    /// Empties the cache.
    pub fn clear(&mut self)
        ensures
            final(self)@ == Map::<Seq<char>, CachedView>::empty(),
            final(self).max_size() == old(self).max_size(),
            final(self).ttl() == old(self).ttl(),
    {
        self.entries = Vec::new();
        assert(self@ =~= Map::<Seq<char>, CachedView>::empty());
    }
}

fn find_in(entries: &Vec<CacheEntry>, query: &Vec<char>) -> (r: Option<usize>)
    ensures
        r matches Some(i) ==> i < entries.len() && entries[i as int].query@ == query@,
        r is None ==> !cache_holds(entries@, query@),
{
    let mut i: usize = 0;
    while i < entries.len()
        invariant
            i <= entries.len(),
            forall|k: int| 0 <= k < i ==> (#[trigger] entries[k]).query@ != query@,
        decreases entries.len() - i,
    {
        if chars_equal(&to_chars(entries[i].query.as_str()), query) {
            return Some(i);
        }
        i += 1;
    }
    None
}

} // verus!
