//! Text primitives shared by the session engine.
//!
//! Every string is reasoned about through its view, a `Seq<char>`. The
//! executable functions work on `Vec<char>` so that a position is a character
//! index; [`to_chars`] and [`to_text`] convert at the boundary.

use vstd::prelude::*;
use vstd::string::StringExecFns;

verus! {

/// The characters with the Unicode `White_Space` property.
pub open spec fn is_whitespace(c: char) -> bool {
    ||| ('\u{9}' <= c && c <= '\u{d}')
    ||| c == ' '
    ||| c == '\u{85}'
    ||| c == '\u{a0}'
    ||| c == '\u{1680}'
    ||| ('\u{2000}' <= c && c <= '\u{200a}')
    ||| c == '\u{2028}'
    ||| c == '\u{2029}'
    ||| c == '\u{202f}'
    ||| c == '\u{205f}'
    ||| c == '\u{3000}'
}

/// The characters of the Unicode general category `Cc`.
pub open spec fn is_control(c: char) -> bool {
    c <= '\u{1f}' || ('\u{7f}' <= c && c <= '\u{9f}')
}

/// Whether `c` is whitespace.
pub fn char_is_whitespace(c: char) -> (b: bool)
    ensures
        b == is_whitespace(c),
{
    ('\u{9}' <= c && c <= '\u{d}') || c == ' ' || c == '\u{85}' || c == '\u{a0}' || c
        == '\u{1680}' || ('\u{2000}' <= c && c <= '\u{200a}') || c == '\u{2028}' || c
        == '\u{2029}' || c == '\u{202f}' || c == '\u{205f}' || c == '\u{3000}'
}

/// Whether `c` is a control character.
pub fn char_is_control(c: char) -> (b: bool)
    ensures
        b == is_control(c),
{
    c <= '\u{1f}' || ('\u{7f}' <= c && c <= '\u{9f}')
}

/// Appends one character with `String::push`, which adds the character at the
/// end of the string and leaves the rest as it was.
#[verifier::external_body]
fn push_char(s: &mut String, c: char)
    ensures
        final(s)@ == old(s)@.push(c),
{
    s.push(c)
}

/// The characters of `s`, in order.
pub fn to_chars(s: &str) -> (v: Vec<char>)
    ensures
        v@ == s@,
{
    let mut v: Vec<char> = Vec::new();
    for c in it: s.chars()
        invariant
            v@ == it.seq().take(it.index()),
            it.seq() == s@,
    {
        v.push(c);
    }
    v
}

/// The string made of the characters `v[from..to]`.
pub fn to_text_range(v: &Vec<char>, from: usize, to: usize) -> (s: String)
    requires
        from <= to <= v.len(),
    ensures
        s@ == v@.subrange(from as int, to as int),
{
    let mut s = String::new();
    let mut i: usize = from;
    while i < to
        invariant
            from <= i <= to <= v.len(),
            s@ == v@.subrange(from as int, i as int),
        decreases to - i,
    {
        push_char(&mut s, v[i]);
        i += 1;
    }
    s
}

/// The string made of the characters of `v`.
pub fn to_text(v: &Vec<char>) -> (s: String)
    ensures
        s@ == v@,
{
    let s = to_text_range(v, 0, v.len());
    assert(v@.subrange(0, v.len() as int) == v@);
    s
}

/// Whether two character vectors hold the same text.
pub fn chars_equal(a: &Vec<char>, b: &Vec<char>) -> (r: bool)
    ensures
        r == (a@ == b@),
{
    if a.len() != b.len() {
        return false;
    }
    let mut i: usize = 0;
    while i < a.len()
        invariant
            i <= a.len(),
            a.len() == b.len(),
            forall|k: int| 0 <= k < i ==> a@[k] == b@[k],
        decreases a.len() - i,
    {
        if a[i] != b[i] {
            return false;
        }
        i += 1;
    }
    assert(a@ =~= b@);
    true
}

/// Whether `a` holds exactly the text `b`.
pub fn chars_are(a: &Vec<char>, b: &str) -> (r: bool)
    ensures
        r == (a@ == b@),
{
    let bv = to_chars(b);
    chars_equal(a, &bv)
}

/// Whether `prefix` opens `a`.
pub fn chars_start_with(a: &Vec<char>, prefix: &str) -> (r: bool)
    ensures
        r == prefix@.is_prefix_of(a@),
{
    let p = to_chars(prefix);
    if p.len() > a.len() {
        return false;
    }
    let mut i: usize = 0;
    while i < p.len()
        invariant
            i <= p.len() <= a.len(),
            p@ == prefix@,
            forall|k: int| 0 <= k < i ==> a@[k] == p@[k],
        decreases p.len() - i,
    {
        if a[i] != p[i] {
            assert(a@.subrange(0, p@.len() as int)[i as int] == a@[i as int]);
            return false;
        }
        i += 1;
    }
    assert(a@.subrange(0, p@.len() as int) =~= p@);
    true
}

/// Whether `pattern` occurs in `s` starting at position `at`.
pub open spec fn occurs_at(s: Seq<char>, pattern: Seq<char>, at: int) -> bool {
    0 <= at && at + pattern.len() <= s.len() && s.subrange(at, at + pattern.len()) == pattern
}

/// Whether `pattern` occurs somewhere in `s`.
pub open spec fn contains_text(s: Seq<char>, pattern: Seq<char>) -> bool {
    exists|at: int| occurs_at(s, pattern, at)
}

fn chars_occur_at(a: &Vec<char>, p: &Vec<char>, at: usize) -> (r: bool)
    requires
        at + p.len() <= a.len(),
    ensures
        r == occurs_at(a@, p@, at as int),
{
    let mut i: usize = 0;
    while i < p.len()
        invariant
            i <= p.len(),
            at + p.len() <= a.len(),
            forall|k: int| 0 <= k < i ==> a@[at + k] == p@[k],
        decreases p.len() - i,
    {
        if a[at + i] != p[i] {
            assert(a@.subrange(at as int, at + p@.len())[i as int] == a@[at + i]);
            return false;
        }
        i += 1;
    }
    assert(a@.subrange(at as int, at + p@.len()) =~= p@);
    true
}

/// Whether `pattern` occurs somewhere in `a`.
pub fn chars_contain(a: &Vec<char>, pattern: &str) -> (r: bool)
    ensures
        r == contains_text(a@, pattern@),
{
    let p = to_chars(pattern);
    if p.len() > a.len() {
        assert(forall|at: int| !occurs_at(a@, p@, at));
        return false;
    }
    let last: usize = a.len() - p.len();
    let mut at: usize = 0;
    while at < last
        invariant
            at <= last,
            last == a.len() - p.len(),
            p@ == pattern@,
            forall|k: int| 0 <= k < at ==> !occurs_at(a@, p@, k),
        decreases last - at,
    {
        if chars_occur_at(a, &p, at) {
            return true;
        }
        at += 1;
    }
    let found = chars_occur_at(a, &p, last);
    assert(!found ==> forall|k: int| !occurs_at(a@, p@, k));
    found
}

/// Whether `c` occurs in `s`.
pub fn chars_contain_char(a: &Vec<char>, c: char) -> (r: bool)
    ensures
        r == a@.contains(c),
{
    let mut i: usize = 0;
    while i < a.len()
        invariant
            i <= a.len(),
            forall|k: int| 0 <= k < i ==> a@[k] != c,
        decreases a.len() - i,
    {
        if a[i] == c {
            return true;
        }
        i += 1;
    }
    false
}

/// Whether every character of `s` is whitespace: the text that trimming
/// leaves empty.
pub open spec fn is_blank(s: Seq<char>) -> bool {
    forall|i: int| 0 <= i < s.len() ==> is_whitespace(#[trigger] s[i])
}

/// Whether `a` is empty or all whitespace.
pub fn chars_blank(a: &Vec<char>) -> (r: bool)
    ensures
        r == is_blank(a@),
{
    let mut i: usize = 0;
    while i < a.len()
        invariant
            i <= a.len(),
            forall|k: int| 0 <= k < i ==> is_whitespace(#[trigger] a@[k]),
        decreases a.len() - i,
    {
        if !char_is_whitespace(a[i]) {
            return false;
        }
        i += 1;
    }
    true
}

/// The first position at or after `from` that holds no whitespace, or the
/// length of `s` if there is none.
pub open spec fn skip_whitespace(s: Seq<char>, from: int) -> int
    decreases s.len() - from,
{
    if 0 <= from < s.len() && is_whitespace(s[from]) {
        skip_whitespace(s, from + 1)
    } else {
        from
    }
}

/// The first position at or after `from` that holds whitespace, or the length
/// of `s` if there is none.
pub open spec fn skip_word(s: Seq<char>, from: int) -> int
    decreases s.len() - from,
{
    if 0 <= from < s.len() && !is_whitespace(s[from]) {
        skip_word(s, from + 1)
    } else {
        from
    }
}

/// The end of `s[..to]` once its trailing whitespace is dropped, never going
/// below `lower`.
pub open spec fn skip_whitespace_back(s: Seq<char>, lower: int, to: int) -> int
    decreases to,
{
    if lower < to <= s.len() && 0 < to && is_whitespace(s[to - 1]) {
        skip_whitespace_back(s, lower, to - 1)
    } else {
        to
    }
}

/// `s` without its leading and trailing whitespace.
pub open spec fn trim(s: Seq<char>) -> Seq<char> {
    let from = skip_whitespace(s, 0);
    s.subrange(from, skip_whitespace_back(s, from, s.len() as int))
}

/// The whitespace-separated words of `s` that start at or after `from`.
pub open spec fn words_from(s: Seq<char>, from: int) -> Seq<Seq<char>>
    decreases s.len() - from,
{
    let start = skip_whitespace(s, from);
    if 0 <= from <= start < s.len() {
        let end = skip_word(s, start);
        if start < end <= s.len() {
            seq![s.subrange(start, end)] + words_from(s, end)
        } else {
            Seq::empty()
        }
    } else {
        Seq::empty()
    }
}

/// The whitespace-separated words of `s`.
pub open spec fn words(s: Seq<char>) -> Seq<Seq<char>> {
    words_from(s, 0)
}

/// The text of each element of `v`.
pub open spec fn texts(v: Seq<Vec<char>>) -> Seq<Seq<char>> {
    v.map_values(|w: Vec<char>| w@)
}

/// `skip_whitespace` stops inside the string, passes only whitespace, and
/// stops on a character that is none.
pub proof fn lemma_skip_whitespace(s: Seq<char>, from: int)
    requires
        0 <= from <= s.len(),
    ensures
        from <= skip_whitespace(s, from) <= s.len(),
        forall|i: int| from <= i < skip_whitespace(s, from) ==> is_whitespace(#[trigger] s[i]),
        skip_whitespace(s, from) < s.len() ==> !is_whitespace(s[skip_whitespace(s, from)]),
    decreases s.len() - from,
{
    if from < s.len() && is_whitespace(s[from]) {
        lemma_skip_whitespace(s, from + 1);
    }
}

/// `skip_word` stops inside the string, passes no whitespace, and stops on a
/// whitespace character.
pub proof fn lemma_skip_word(s: Seq<char>, from: int)
    requires
        0 <= from <= s.len(),
    ensures
        from <= skip_word(s, from) <= s.len(),
        forall|i: int| from <= i < skip_word(s, from) ==> !is_whitespace(#[trigger] s[i]),
        skip_word(s, from) < s.len() ==> is_whitespace(s[skip_word(s, from)]),
        from < s.len() && !is_whitespace(s[from]) ==> from < skip_word(s, from),
    decreases s.len() - from,
{
    if from < s.len() && !is_whitespace(s[from]) {
        lemma_skip_word(s, from + 1);
    }
}

/// `skip_whitespace_back` stays between its bounds, passes only whitespace,
/// and stops behind a character that is none.
pub proof fn lemma_skip_whitespace_back(s: Seq<char>, lower: int, to: int)
    requires
        0 <= lower <= to <= s.len(),
    ensures
        lower <= skip_whitespace_back(s, lower, to) <= to,
        forall|i: int|
            skip_whitespace_back(s, lower, to) <= i < to ==> is_whitespace(#[trigger] s[i]),
        lower < skip_whitespace_back(s, lower, to) ==> !is_whitespace(
            s[skip_whitespace_back(s, lower, to) - 1],
        ),
    decreases to,
{
    if lower < to && is_whitespace(s[to - 1]) {
        lemma_skip_whitespace_back(s, lower, to - 1);
    }
}

/// Trimming leaves nothing exactly when the text is blank.
pub proof fn lemma_trim_empty_iff_blank(s: Seq<char>)
    ensures
        (trim(s).len() == 0) <==> is_blank(s),
{
    let from = skip_whitespace(s, 0);
    lemma_skip_whitespace(s, 0);
    lemma_skip_whitespace_back(s, from, s.len() as int);
    let to = skip_whitespace_back(s, from, s.len() as int);
    if from < s.len() {
        assert(!is_whitespace(s[from]));
        assert(!is_blank(s));
        if to == from {
            assert(is_whitespace(s[from]));
        }
    }
}

/// The bounds of `a` without its leading and trailing whitespace.
pub fn trim_bounds(a: &Vec<char>) -> (r: (usize, usize))
    ensures
        r.0 == skip_whitespace(a@, 0),
        r.1 == skip_whitespace_back(a@, r.0 as int, a@.len() as int),
        r.0 <= r.1 <= a.len(),
{
    let mut from: usize = 0;
    while from < a.len() && char_is_whitespace(a[from])
        invariant
            from <= a.len(),
            skip_whitespace(a@, 0) == skip_whitespace(a@, from as int),
        decreases a.len() - from,
    {
        from += 1;
    }
    let mut to: usize = a.len();
    while from < to && char_is_whitespace(a[to - 1])
        invariant
            from <= to <= a.len(),
            skip_whitespace_back(a@, from as int, a@.len() as int) == skip_whitespace_back(
                a@,
                from as int,
                to as int,
            ),
        decreases to,
    {
        to -= 1;
    }
    (from, to)
}

/// `a` without its leading and trailing whitespace.
pub fn trim_chars(a: &Vec<char>) -> (r: Vec<char>)
    ensures
        r@ == trim(a@),
{
    let (from, to) = trim_bounds(a);
    copy_range(a, from, to)
}

/// A copy of `a[from..to]`.
pub fn copy_range(a: &Vec<char>, from: usize, to: usize) -> (r: Vec<char>)
    requires
        from <= to <= a.len(),
    ensures
        r@ == a@.subrange(from as int, to as int),
{
    let mut r: Vec<char> = Vec::new();
    let mut i: usize = from;
    while i < to
        invariant
            from <= i <= to <= a.len(),
            r@ == a@.subrange(from as int, i as int),
        decreases to - i,
    {
        r.push(a[i]);
        i += 1;
    }
    r
}

/// The whitespace-separated words of `a`, in order.
pub fn split_words(a: &Vec<char>) -> (r: Vec<Vec<char>>)
    ensures
        texts(r@) == words(a@),
{
    let mut r: Vec<Vec<char>> = Vec::new();
    let mut i: usize = 0;
    assert(texts(r@) =~= Seq::<Seq<char>>::empty());
    loop
        invariant
            i <= a.len(),
            texts(r@) + words_from(a@, i as int) == words(a@),
        decreases a.len() - i,
    {
        let mut start: usize = i;
        while start < a.len() && char_is_whitespace(a[start])
            invariant
                i <= start <= a.len(),
                skip_whitespace(a@, i as int) == skip_whitespace(a@, start as int),
            decreases a.len() - start,
        {
            start += 1;
        }
        if start >= a.len() {
            assert(words_from(a@, i as int) =~= Seq::<Seq<char>>::empty());
            assert(texts(r@) + Seq::<Seq<char>>::empty() =~= texts(r@));
            return r;
        }
        let mut end: usize = start;
        while end < a.len() && !char_is_whitespace(a[end])
            invariant
                start <= end <= a.len(),
                skip_word(a@, start as int) == skip_word(a@, end as int),
            decreases a.len() - end,
        {
            end += 1;
        }
        proof {
            lemma_skip_word(a@, start as int);
        }
        let word = copy_range(a, start, end);
        let ghost before = texts(r@);
        r.push(word);
        proof {
            assert(texts(r@) =~= before + seq![a@.subrange(start as int, end as int)]);
            assert(words_from(a@, i as int) == seq![a@.subrange(start as int, end as int)]
                + words_from(a@, end as int));
            assert(texts(r@) + words_from(a@, end as int) =~= before + words_from(a@, i as int));
        }
        i = end;
    }
}

/// What `str::to_lowercase` returns for the text `s`.
pub uninterp spec fn lowercase(s: Seq<char>) -> Seq<char>;

/// What `str::to_uppercase` returns for the text `s`.
pub uninterp spec fn uppercase(s: Seq<char>) -> Seq<char>;

/// Lowercases with `str::to_lowercase`: the result is a function of the text
/// alone, fixed by the Unicode case tables, and is named [`lowercase`].
#[verifier::external_body]
pub(crate) fn to_lowercase(s: &str) -> (r: String)
    ensures
        r@ == lowercase(s@),
{
    s.to_lowercase()
}

/// Uppercases with `str::to_uppercase`: the result is a function of the text
/// alone, fixed by the Unicode case tables, and is named [`uppercase`].
#[verifier::external_body]
pub(crate) fn to_uppercase(s: &str) -> (r: String)
    ensures
        r@ == uppercase(s@),
{
    s.to_uppercase()
}

/// `s` without the run of `c` at its end.
pub open spec fn strip_trailing(s: Seq<char>, c: char) -> Seq<char>
    decreases s.len(),
{
    if s.len() > 0 && s.last() == c {
        strip_trailing(s.drop_last(), c)
    } else {
        s
    }
}

/// `a` without the run of `c` at its end.
pub fn strip_trailing_chars(a: &Vec<char>, c: char) -> (r: Vec<char>)
    ensures
        r@ == strip_trailing(a@, c),
{
    let mut to: usize = a.len();
    assert(a@.subrange(0, to as int) =~= a@);
    while to > 0 && a[to - 1] == c
        invariant
            to <= a.len(),
            strip_trailing(a@, c) == strip_trailing(a@.subrange(0, to as int), c),
        decreases to,
    {
        proof {
            let cur = a@.subrange(0, to as int);
            assert(cur.last() == a@[to - 1]);
            assert(cur.drop_last() =~= a@.subrange(0, to - 1));
        }
        to -= 1;
    }
    proof {
        assert(a@.subrange(0, a@.len() as int) =~= a@);
        let cur = a@.subrange(0, to as int);
        if to > 0 {
            assert(cur.last() == a@[to - 1]);
        }
    }
    copy_range(a, 0, to)
}

/// Whether `a` ends with the character `c`.
pub fn chars_end_with(a: &Vec<char>, c: char) -> (r: bool)
    ensures
        r == (a@.len() > 0 && a@.last() == c),
{
    a.len() > 0 && a[a.len() - 1] == c
}

/// Whether `c` is one of the ten ASCII digits.
pub open spec fn is_digit(c: char) -> bool {
    '0' <= c && c <= '9'
}

/// The number that the decimal digits `s` write.
pub open spec fn digits_value(s: Seq<char>) -> nat
    decreases s.len(),
{
    if s.len() == 0 {
        0
    } else {
        (digits_value(s.drop_last()) * 10 + (s.last() as int - '0' as int)) as nat
    }
}

/// Whether `s` consists of decimal digits only.
pub open spec fn all_digits(s: Seq<char>) -> bool {
    forall|i: int| 0 <= i < s.len() ==> is_digit(#[trigger] s[i])
}

/// The digits of a decimal number written with an optional leading `+`.
pub open spec fn unsigned_digits(s: Seq<char>) -> Seq<char> {
    if s.len() > 1 && s[0] == '+' {
        s.drop_first()
    } else {
        s
    }
}

/// The number that `s` writes in decimal, as `str::parse::<usize>` reads it:
/// an optional `+`, then at least one digit and nothing else, the value within
/// `usize`.
pub open spec fn parse_usize(s: Seq<char>) -> Option<usize> {
    let digits = unsigned_digits(s);
    if digits.len() > 0 && all_digits(digits) && digits_value(digits) <= usize::MAX {
        Some(digits_value(digits) as usize)
    } else {
        None
    }
}

/// Dropping digits from the end never makes the number larger.
pub proof fn lemma_digits_value_prefix(s: Seq<char>, k: int)
    requires
        0 <= k <= s.len(),
        all_digits(s),
    ensures
        digits_value(s.subrange(0, k)) <= digits_value(s),
    decreases s.len() - k,
{
    if k < s.len() {
        let longer = s.subrange(0, k + 1);
        assert(longer.drop_last() =~= s.subrange(0, k));
        assert(is_digit(s[k]));
        assert(longer.last() == s[k]);
        lemma_digits_value_prefix(s, k + 1);
    } else {
        assert(s.subrange(0, k) =~= s);
    }
}

/// Reads a decimal `usize`.
pub fn parse_usize_chars(a: &Vec<char>) -> (r: Option<usize>)
    ensures
        r == parse_usize(a@),
{
    let start: usize = if a.len() > 1 && a[0] == '+' {
        1
    } else {
        0
    };
    if a.len() == start {
        return None;
    }
    let ghost digits = unsigned_digits(a@);
    assert(digits =~= a@.subrange(start as int, a@.len() as int));
    let mut value: usize = 0;
    let mut i: usize = start;
    assert(digits.subrange(0, 0) =~= Seq::<char>::empty());
    while i < a.len()
        invariant
            start <= i <= a.len(),
            start < a.len(),
            digits == unsigned_digits(a@),
            digits == a@.subrange(start as int, a@.len() as int),
            all_digits(digits.subrange(0, i - start)),
            value == digits_value(digits.subrange(0, i - start)),
        decreases a.len() - i,
    {
        let c = a[i];
        if !('0' <= c && c <= '9') {
            assert(!is_digit(digits[i - start]));
            return None;
        }
        let d: usize = (c as u32 - '0' as u32) as usize;
        proof {
            let longer = digits.subrange(0, i - start + 1);
            assert(longer.drop_last() =~= digits.subrange(0, i - start));
            assert(longer.last() == c);
            assert forall|k: int| 0 <= k < longer.len() implies is_digit(#[trigger] longer[k]) by {
                if k < i - start {
                    assert(longer[k] == digits.subrange(0, i - start)[k]);
                }
            }
            assert(digits_value(longer) == value * 10 + d);
            if value * 10 + d > usize::MAX {
                if all_digits(digits) {
                    lemma_digits_value_prefix(digits, i - start + 1);
                }
            }
        }
        let next = match value.checked_mul(10) {
            Some(scaled) => scaled.checked_add(d),
            None => None,
        };
        match next {
            Some(v) => {
                value = v;
            },
            None => {
                return None;
            },
        }
        i += 1;
    }
    assert(digits.subrange(0, i - start) =~= digits);
    Some(value)
}

/// The decimal digit for `d`.
pub open spec fn digit_char(d: nat) -> char
    recommends
        d < 10,
{
    ('0' as nat + d) as char
}

/// The decimal notation of `n`, without leading zeros.
pub open spec fn decimal(n: nat) -> Seq<char>
    decreases n,
{
    if n < 10 {
        seq![digit_char(n)]
    } else {
        decimal(n / 10).push(digit_char(n % 10))
    }
}

/// The decimal notation of `n`.
pub fn decimal_chars(n: u64) -> (r: Vec<char>)
    ensures
        r@ == decimal(n as nat),
    decreases n,
{
    let d: u8 = (n % 10) as u8;
    let c: char = (48u8 + d) as char;
    if n < 10 {
        let mut r: Vec<char> = Vec::new();
        r.push(c);
        assert(r@ =~= seq![digit_char(n as nat)]);
        r
    } else {
        let mut r = decimal_chars(n / 10);
        r.push(c);
        r
    }
}

/// The decimal notation of `n`.
pub fn decimal_text(n: usize) -> (r: String)
    ensures
        r@ == decimal(n as nat),
{
    to_text(&decimal_chars(n as u64))
}

/// The decimal notation of the integer `n`, with a minus sign if it is
/// negative.
pub open spec fn signed_decimal(n: int) -> Seq<char> {
    if n < 0 {
        seq!['-'] + decimal((-n) as nat)
    } else {
        decimal(n as nat)
    }
}

/// The decimal notation of `n`.
pub fn signed_decimal_text(n: i64) -> (r: String)
    ensures
        r@ == signed_decimal(n as int),
{
    if n < 0 {
        let magnitude: u64 = (-(n + 1)) as u64 + 1;
        let mut chars: Vec<char> = Vec::new();
        chars.push('-');
        let mut digits = decimal_chars(magnitude);
        let ghost sign = chars@;
        chars.append(&mut digits);
        assert(chars@ =~= seq!['-'] + decimal((-n) as nat));
        to_text(&chars)
    } else {
        to_text(&decimal_chars(n as u64))
    }
}

/// Whether `a` comes before `b` in the order of strings: at the first
/// position where they differ the character of `a` is the smaller one, or `a`
/// ends there and `b` goes on.
pub open spec fn text_less(a: Seq<char>, b: Seq<char>) -> bool
    decreases a.len(),
{
    if b.len() == 0 {
        false
    } else if a.len() == 0 {
        true
    } else if a[0] != b[0] {
        a[0] < b[0]
    } else {
        text_less(a.drop_first(), b.drop_first())
    }
}

/// No text comes before itself.
pub proof fn lemma_text_less_irreflexive(a: Seq<char>)
    ensures
        !text_less(a, a),
    decreases a.len(),
{
    if a.len() > 0 {
        lemma_text_less_irreflexive(a.drop_first());
    }
}

/// Of two different texts one comes before the other.
pub proof fn lemma_text_less_total(a: Seq<char>, b: Seq<char>)
    ensures
        a == b || text_less(a, b) || text_less(b, a),
    decreases a.len(),
{
    if a.len() > 0 && b.len() > 0 && a[0] == b[0] {
        lemma_text_less_total(a.drop_first(), b.drop_first());
        if a.drop_first() == b.drop_first() {
            assert(a =~= seq![a[0]] + a.drop_first());
            assert(b =~= seq![b[0]] + b.drop_first());
        }
    } else if a.len() == 0 && b.len() == 0 {
        assert(a =~= b);
    }
}

/// The order of strings is transitive.
pub proof fn lemma_text_less_transitive(a: Seq<char>, b: Seq<char>, c: Seq<char>)
    requires
        text_less(a, b),
        text_less(b, c),
    ensures
        text_less(a, c),
    decreases a.len(),
{
    if a.len() > 0 && b.len() > 0 && c.len() > 0 && a[0] == b[0] && b[0] == c[0] {
        lemma_text_less_transitive(a.drop_first(), b.drop_first(), c.drop_first());
    }
}

/// Whether `a` comes before `b` in the order of strings.
pub fn chars_less(a: &Vec<char>, b: &Vec<char>) -> (r: bool)
    ensures
        r == text_less(a@, b@),
{
    let mut i: usize = 0;
    assert(a@.subrange(0, a@.len() as int) =~= a@);
    assert(b@.subrange(0, b@.len() as int) =~= b@);
    while i < a.len() && i < b.len()
        invariant
            i <= a.len(),
            i <= b.len(),
            text_less(a@, b@) == text_less(
                a@.subrange(i as int, a@.len() as int),
                b@.subrange(i as int, b@.len() as int),
            ),
        decreases a.len() - i,
    {
        proof {
            let ra = a@.subrange(i as int, a@.len() as int);
            let rb = b@.subrange(i as int, b@.len() as int);
            assert(ra[0] == a@[i as int]);
            assert(rb[0] == b@[i as int]);
            assert(ra.drop_first() =~= a@.subrange(i + 1, a@.len() as int));
            assert(rb.drop_first() =~= b@.subrange(i + 1, b@.len() as int));
        }
        if a[i] != b[i] {
            return a[i] < b[i];
        }
        i += 1;
    }
    i < b.len()
}

/// The view of each line of `v`.
pub open spec fn line_texts(v: Seq<String>) -> Seq<Seq<char>> {
    v.map_values(|s: String| s@)
}

/// The one line `line`.
pub fn one_line(line: String) -> (r: Vec<String>)
    ensures
        line_texts(r@) == seq![line@],
        r@.len() == 1,
        r@[0]@ == line@,
{
    let mut r: Vec<String> = Vec::new();
    r.push(line);
    assert(line_texts(r@) =~= seq![line@]);
    r
}

/// The one line `line`.
pub fn literal_line(line: &str) -> (r: Vec<String>)
    ensures
        line_texts(r@) == seq![line@],
{
    one_line(String::from_str(line))
}

/// Adds `line` at the end of `lines`.
pub fn push_line(lines: &mut Vec<String>, line: String)
    ensures
        line_texts(final(lines)@) == line_texts(old(lines)@).push(line@),
        final(lines)@ == old(lines)@.push(line),
{
    lines.push(line);
    assert(line_texts(lines@) =~= line_texts(old(lines)@).push(line@));
}

/// The text `lead` followed by `rest`.
pub fn join_text(lead: &str, rest: &str) -> (r: String)
    ensures
        r@ == lead@ + rest@,
{
    String::from_str(lead).concat(rest)
}

/// The texts `parts` joined by `separator`.
pub open spec fn joined_with(parts: Seq<Seq<char>>, separator: Seq<char>) -> Seq<char>
    decreases parts.len(),
{
    if parts.len() == 0 {
        Seq::empty()
    } else if parts.len() == 1 {
        parts[0]
    } else {
        joined_with(parts.drop_last(), separator) + separator + parts.last()
    }
}

/// The strings `parts` joined by `separator`.
pub fn join_strings(parts: &Vec<String>, separator: &str) -> (r: String)
    ensures
        r@ == joined_with(line_texts(parts@), separator@),
{
    let mut r = String::new();
    let mut i: usize = 0;
    assert(line_texts(parts@).subrange(0, 0) =~= Seq::<Seq<char>>::empty());
    while i < parts.len()
        invariant
            i <= parts.len(),
            r@ == joined_with(line_texts(parts@).subrange(0, i as int), separator@),
        decreases parts.len() - i,
    {
        proof {
            let done = line_texts(parts@).subrange(0, i as int);
            let next = line_texts(parts@).subrange(0, i + 1);
            assert(next.drop_last() =~= done);
            assert(next.last() == parts@[i as int]@);
            if i == 0 {
                assert(r@ + parts@[0]@ =~= parts@[0]@);
            }
        }
        if i > 0 {
            r.append(separator);
        }
        r.append(parts[i].as_str());
        i += 1;
    }
    assert(line_texts(parts@).subrange(0, i as int) =~= line_texts(parts@));
    r
}

/// Whether `char::is_alphabetic` holds of `c`: the Unicode property
/// `Alphabetic`.
pub uninterp spec fn is_alphabetic(c: char) -> bool;

/// Whether `char::is_alphanumeric` holds of `c`: a letter or a number by the
/// Unicode tables.
pub uninterp spec fn is_alphanumeric(c: char) -> bool;

/// Asks `char::is_alphabetic`. The answer depends on the character alone and
/// is named [`is_alphabetic`].
#[verifier::external_body]
pub(crate) fn char_is_alphabetic(c: char) -> (r: bool)
    ensures
        r == is_alphabetic(c),
{
    c.is_alphabetic()
}

/// Asks `char::is_alphanumeric`. The answer depends on the character alone
/// and is named [`is_alphanumeric`].
#[verifier::external_body]
pub(crate) fn char_is_alphanumeric(c: char) -> (r: bool)
    ensures
        r == is_alphanumeric(c),
{
    c.is_alphanumeric()
}

/// How many times `c` occurs in `s`.
pub open spec fn count_char(s: Seq<char>, c: char) -> nat
    decreases s.len(),
{
    if s.len() == 0 {
        0
    } else {
        count_char(s.drop_last(), c) + if s.last() == c {
            1nat
        } else {
            0nat
        }
    }
}

/// How many times `c` occurs in `a`.
pub fn chars_count(a: &Vec<char>, c: char) -> (r: usize)
    ensures
        r == count_char(a@, c),
{
    let mut r: usize = 0;
    let mut i: usize = 0;
    assert(a@.subrange(0, 0) =~= Seq::<char>::empty());
    while i < a.len()
        invariant
            i <= a.len(),
            r <= i,
            r == count_char(a@.subrange(0, i as int), c),
        decreases a.len() - i,
    {
        proof {
            let next = a@.subrange(0, i + 1);
            assert(next.drop_last() =~= a@.subrange(0, i as int));
            assert(next.last() == a@[i as int]);
        }
        if a[i] == c {
            r += 1;
        }
        i += 1;
    }
    assert(a@.subrange(0, i as int) =~= a@);
    r
}

/// The number of bytes that `s` takes in UTF-8, which is what `str::len`
/// counts.
pub open spec fn byte_length(s: Seq<char>) -> nat {
    vstd::utf8::encode_utf8(s).len()
}

/// The number of bytes that `s` takes in UTF-8.
pub fn byte_len(s: &str) -> (r: usize)
    ensures
        r == byte_length(s@),
{
    s.as_bytes().len()
}

} // verus!
