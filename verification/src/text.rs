//! Text as sequences of characters: classification, case, searching, splitting
//! and number formats.

use vstd::prelude::*;
use vstd::slice::slice_subrange;

verus! {

/// `String::push` appends one character to the end of the string.
pub assume_specification[ String::push ](s: &mut String, c: char)
    ensures
        final(s)@ == old(s)@.push(c),
;

/// The characters of each string.
pub open spec fn texts(strings: Seq<String>) -> Seq<Seq<char>> {
    strings.map_values(|s: String| s@)
}

/// The characters of each row.
pub open spec fn rows(strings: Seq<Vec<char>>) -> Seq<Seq<char>> {
    strings.map_values(|s: Vec<char>| s@)
}

/// The characters of a string, where there is one.
pub open spec fn optional_text(string: Option<String>) -> Option<Seq<char>> {
    match string {
        Some(string) => Some(string@),
        None => None,
    }
}

/// Collects the characters of `s`.
pub fn to_chars(s: &str) -> (chars: Vec<char>)
    ensures
        chars@ == s@,
{
    let mut chars: Vec<char> = Vec::new();
    for c in it: s.chars()
        invariant
            chars@ == s@.take(it.index()),
            it.seq() == s@,
    {
        assert(s@.take(it.index() + 1) == s@.take(it.index()).push(s@[it.index()]));
        chars.push(c);
    }
    assert(s@.take(s@.len() as int) == s@);
    chars
}

/// Appends `chars` to `out`.
pub fn push_chars(out: &mut String, chars: &[char])
    ensures
        final(out)@ == old(out)@ + chars@,
{
    for i in 0..chars.len()
        invariant
            out@ == old(out)@ + chars@.take(i as int),
    {
        out.push(chars[i]);
        assert(chars@.take(i + 1) =~= chars@.take(i as int).push(chars@[i as int]));
    }
    assert(chars@.take(chars@.len() as int) == chars@);
}

/// Builds a string from `chars`.
pub fn from_chars(chars: &[char]) -> (s: String)
    ensures
        s@ == chars@,
{
    let mut s: String = String::new();
    push_chars(&mut s, chars);
    assert(s@ =~= chars@);
    s
}

/// Appends the text `s` to a list of strings.
pub fn push_text(list: &mut Vec<String>, s: &str)
    ensures
        texts(final(list)@) == texts(old(list)@).push(s@),
{
    list.push(s.to_owned());
    assert(texts(list@) =~= texts(old(list)@).push(s@));
}

/// Appends an owned string to a list of strings.
pub fn push_string(list: &mut Vec<String>, s: String)
    ensures
        texts(final(list)@) == texts(old(list)@).push(s@),
{
    list.push(s);
    assert(texts(list@) =~= texts(old(list)@).push(s@));
}

/// Copies a list of strings.
pub fn copy_strings(list: &Vec<String>) -> (copy: Vec<String>)
    ensures
        texts(copy@) == texts(list@),
{
    let mut copy: Vec<String> = Vec::new();
    for i in 0..list.len()
        invariant
            texts(copy@) == texts(list@).take(i as int),
    {
        push_text(&mut copy, list[i].as_str());
        assert(texts(list@).take(i + 1) =~= texts(list@).take(i as int).push(list@[i as int]@));
    }
    assert(texts(list@).take(list@.len() as int) == texts(list@));
    copy
}

/// Copies an optional string.
pub fn copy_optional(string: &Option<String>) -> (copy: Option<String>)
    ensures
        optional_text(copy) == optional_text(*string),
        copy == *string,
{
    match string {
        Some(string) => Some(string.clone()),
        None => None,
    }
}

/// Whether two character slices are equal.
pub fn chars_eq(a: &[char], b: &[char]) -> (equal: bool)
    ensures
        equal == (a@ == b@),
{
    if a.len() != b.len() {
        return false;
    }
    for i in 0..a.len()
        invariant
            a.len() == b.len(),
            forall|j: int| 0 <= j < i ==> a@[j] == b@[j],
    {
        if a[i] != b[i] {
            return false;
        }
    }
    assert(a@ =~= b@);
    true
}

/// Whether two strings hold the same characters.
pub fn str_eq(a: &str, b: &str) -> (equal: bool)
    ensures
        equal == (a@ == b@),
{
    let a: Vec<char> = to_chars(a);
    let b: Vec<char> = to_chars(b);
    chars_eq(a.as_slice(), b.as_slice())
}

/// Whether `chars` spell `s`.
pub fn spells(chars: &[char], s: &str) -> (equal: bool)
    ensures
        equal == (chars@ == s@),
{
    let s: Vec<char> = to_chars(s);
    chars_eq(chars, s.as_slice())
}

/// Whether an optional string is present and spells `s`.
pub fn optional_is(string: &Option<String>, s: &str) -> (equal: bool)
    ensures
        equal == (optional_text(*string) == Some(s@)),
{
    match string {
        Some(string) => str_eq(string.as_str(), s),
        None => false,
    }
}

/// Whether `list` holds a string that spells `s`.
pub fn holds_text(list: &Vec<String>, s: &str) -> (found: bool)
    ensures
        found == texts(list@).contains(s@),
{
    for i in 0..list.len()
        invariant
            forall|j: int| 0 <= j < i ==> list@[j]@ != s@,
    {
        if str_eq(list[i].as_str(), s) {
            assert(texts(list@)[i as int] == s@);
            return true;
        }
    }
    assert forall|j: int| 0 <= j < texts(list@).len() implies texts(list@)[j] != s@ by {
        assert(texts(list@)[j] == list@[j]@);
    }
    false
}

// ---------------------------------------------------------------------------
// Characters
// ---------------------------------------------------------------------------
/// `0` to `9`.
pub open spec fn is_digit(c: char) -> bool {
    '0' <= c <= '9'
}

/// `a` to `z`.
pub open spec fn is_lower(c: char) -> bool {
    'a' <= c <= 'z'
}

/// `A` to `Z`.
pub open spec fn is_upper(c: char) -> bool {
    'A' <= c <= 'Z'
}

/// An ASCII letter or digit.
pub open spec fn is_alphanumeric(c: char) -> bool {
    is_digit(c) || is_lower(c) || is_upper(c)
}

/// A hexadecimal digit of either case.
pub open spec fn is_hex_digit(c: char) -> bool {
    is_digit(c) || 'a' <= c <= 'f' || 'A' <= c <= 'F'
}

/// Space, tab, line feed, form feed or carriage return.
pub open spec fn is_ascii_space(c: char) -> bool {
    c == ' ' || c == '\t' || c == '\n' || c == '\x0c' || c == '\r'
}

/// A printable ASCII character that is neither a letter, a digit nor a space.
pub open spec fn is_punctuation(c: char) -> bool {
    '!' <= c <= '/' || ':' <= c <= '@' || '[' <= c <= '`' || '{' <= c <= '~'
}

/// A control code: general category Cc.
pub open spec fn is_control(c: char) -> bool {
    c <= '\u{1f}' || '\u{7f}' <= c <= '\u{9f}'
}

/// A character with the Unicode property White_Space.
pub open spec fn is_whitespace(c: char) -> bool {
    '\u{9}' <= c <= '\u{d}' || c == ' ' || c == '\u{85}' || c == '\u{a0}' || c == '\u{1680}'
        || '\u{2000}' <= c <= '\u{200a}' || c == '\u{2028}' || c == '\u{2029}' || c == '\u{202f}'
        || c == '\u{205f}' || c == '\u{3000}'
}

/// A set of characters that text is tested or trimmed against.
#[derive(Clone, Copy)]
pub enum CharSet {
    /// ASCII digits.
    Digit,
    /// ASCII letters and digits.
    Alphanumeric,
    /// Everything but ASCII letters and digits.
    NotAlphanumeric,
    /// Hexadecimal digits and ASCII white space.
    HexOrSpace,
    /// Control codes.
    Control,
    /// Unicode white space.
    Whitespace,
    /// Everything but Unicode white space.
    NotWhitespace,
    /// One given character.
    Only(char),
    /// Everything but one given character.
    Not(char),
    /// Either of two given characters.
    Either(char, char),
    /// ASCII letters, digits and the underscore.
    DriverName,
    /// ASCII lower-case letters, digits, hyphen and underscore.
    ProfileId,
    /// ASCII letters, digits, dot, underscore and hyphen.
    FileName,
    /// ASCII letters, digits, dot, underscore, colon, hyphen and at sign.
    KernelName,
    /// ASCII letters, digits, plus, hyphen, underscore and slash.
    TimezoneLabel,
}

impl CharSet {
    /// Whether the set holds `c`.
    pub open spec fn has(self, c: char) -> bool {
        match self {
            CharSet::Digit => is_digit(c),
            CharSet::Alphanumeric => is_alphanumeric(c),
            CharSet::NotAlphanumeric => !is_alphanumeric(c),
            CharSet::HexOrSpace => is_hex_digit(c) || is_ascii_space(c),
            CharSet::Control => is_control(c),
            CharSet::Whitespace => is_whitespace(c),
            CharSet::NotWhitespace => !is_whitespace(c),
            CharSet::Only(only) => c == only,
            CharSet::Not(not) => c != not,
            CharSet::Either(a, b) => c == a || c == b,
            CharSet::DriverName => is_alphanumeric(c) || c == '_',
            CharSet::ProfileId => is_lower(c) || is_digit(c) || c == '-' || c == '_',
            CharSet::FileName => is_alphanumeric(c) || c == '.' || c == '_' || c == '-',
            CharSet::KernelName => {
                is_alphanumeric(c) || c == '.' || c == '_' || c == ':' || c == '-' || c == '@'
            },
            CharSet::TimezoneLabel => {
                is_alphanumeric(c) || c == '+' || c == '-' || c == '_' || c == '/'
            },
        }
    }

    /// Tests whether the set holds `c`.
    pub fn test(self, c: char) -> (held: bool)
        ensures
            held == self.has(c),
    {
        match self {
            CharSet::Digit => digit_char(c),
            CharSet::Alphanumeric => alphanumeric_char(c),
            CharSet::NotAlphanumeric => !alphanumeric_char(c),
            CharSet::HexOrSpace => {
                digit_char(c) || ('a' <= c && c <= 'f') || ('A' <= c && c <= 'F') || c == ' ' || c
                    == '\t' || c == '\n' || c == '\x0c' || c == '\r'
            },
            CharSet::Control => control_char(c),
            CharSet::Whitespace => whitespace_char(c),
            CharSet::NotWhitespace => !whitespace_char(c),
            CharSet::Only(only) => c == only,
            CharSet::Not(not) => c != not,
            CharSet::Either(a, b) => c == a || c == b,
            CharSet::DriverName => alphanumeric_char(c) || c == '_',
            CharSet::ProfileId => {
                ('a' <= c && c <= 'z') || digit_char(c) || c == '-' || c == '_'
            },
            CharSet::FileName => alphanumeric_char(c) || c == '.' || c == '_' || c == '-',
            CharSet::KernelName => {
                alphanumeric_char(c) || c == '.' || c == '_' || c == ':' || c == '-' || c == '@'
            },
            CharSet::TimezoneLabel => {
                alphanumeric_char(c) || c == '+' || c == '-' || c == '_' || c == '/'
            },
        }
    }

    /// Whether the set holds every character of `s`.
    pub open spec fn covers(self, s: Seq<char>) -> bool {
        forall|i: int| 0 <= i < s.len() ==> self.has(#[trigger] s[i])
    }

    /// Tests whether the set holds every character of `chars`.
    pub fn test_all(self, chars: &[char]) -> (held: bool)
        ensures
            held == self.covers(chars@),
    {
        for i in 0..chars.len()
            invariant
                forall|j: int| 0 <= j < i ==> self.has(#[trigger] chars@[j]),
        {
            if !self.test(chars[i]) {
                return false;
            }
        }
        true
    }

    /// Whether the set holds some character of `s`.
    pub open spec fn meets(self, s: Seq<char>) -> bool {
        exists|i: int| 0 <= i < s.len() && self.has(#[trigger] s[i])
    }

    /// Tests whether the set holds some character of `chars`.
    pub fn test_any(self, chars: &[char]) -> (held: bool)
        ensures
            held == self.meets(chars@),
    {
        for i in 0..chars.len()
            invariant
                forall|j: int| 0 <= j < i ==> !self.has(#[trigger] chars@[j]),
        {
            if self.test(chars[i]) {
                assert(self.has(chars@[i as int]));
                return true;
            }
        }
        false
    }
}

fn digit_char(c: char) -> (held: bool)
    ensures
        held == is_digit(c),
{
    '0' <= c && c <= '9'
}

fn alphanumeric_char(c: char) -> (held: bool)
    ensures
        held == is_alphanumeric(c),
{
    ('0' <= c && c <= '9') || ('a' <= c && c <= 'z') || ('A' <= c && c <= 'Z')
}

/// Tests for printable ASCII that is neither letter, digit nor space.
pub fn punctuation_char(c: char) -> (held: bool)
    ensures
        held == is_punctuation(c),
{
    ('!' <= c && c <= '/') || (':' <= c && c <= '@') || ('[' <= c && c <= '`') || ('{' <= c && c
        <= '~')
}

/// Tests for the control codes.
pub fn control_char(c: char) -> (held: bool)
    ensures
        held == is_control(c),
{
    c <= '\u{1f}' || ('\u{7f}' <= c && c <= '\u{9f}')
}

/// Tests for Unicode white space.
pub fn whitespace_char(c: char) -> (held: bool)
    ensures
        held == is_whitespace(c),
{
    ('\u{9}' <= c && c <= '\u{d}') || c == ' ' || c == '\u{85}' || c == '\u{a0}' || c == '\u{1680}'
        || ('\u{2000}' <= c && c <= '\u{200a}') || c == '\u{2028}' || c == '\u{2029}' || c
        == '\u{202f}' || c == '\u{205f}' || c == '\u{3000}'
}

/// An ASCII capital turned small; every other character as it is.
pub open spec fn lower(c: char) -> char {
    if is_upper(c) {
        ((c as u32) + 32) as char
    } else {
        c
    }
}

/// A small ASCII letter turned capital; every other character as it is.
pub open spec fn upper(c: char) -> char {
    if is_lower(c) {
        ((c as u32) - 32) as char
    } else {
        c
    }
}

/// Turns an ASCII capital small.
pub fn lower_char(c: char) -> (r: char)
    ensures
        r == lower(c),
{
    if 'A' <= c && c <= 'Z' {
        ((c as u8) + 32) as char
    } else {
        c
    }
}

/// Turns a small ASCII letter capital.
pub fn upper_char(c: char) -> (r: char)
    ensures
        r == upper(c),
{
    if 'a' <= c && c <= 'z' {
        ((c as u8) - 32) as char
    } else {
        c
    }
}

/// `s` with every ASCII capital turned small.
pub open spec fn lowered(s: Seq<char>) -> Seq<char> {
    s.map_values(|c: char| lower(c))
}

/// `s` with every small ASCII letter turned capital.
pub open spec fn uppered(s: Seq<char>) -> Seq<char> {
    s.map_values(|c: char| upper(c))
}

/// Copies `chars` with every ASCII capital turned small.
pub fn to_lower(chars: &[char]) -> (r: Vec<char>)
    ensures
        r@ == lowered(chars@),
{
    let mut r: Vec<char> = Vec::new();
    for i in 0..chars.len()
        invariant
            r@ == lowered(chars@).take(i as int),
    {
        r.push(lower_char(chars[i]));
        assert(lowered(chars@).take(i + 1) =~= lowered(chars@).take(i as int).push(
            lower(chars@[i as int]),
        ));
    }
    assert(lowered(chars@).take(chars@.len() as int) == lowered(chars@));
    r
}

/// Copies `chars` with every small ASCII letter turned capital.
pub fn to_upper(chars: &[char]) -> (r: Vec<char>)
    ensures
        r@ == uppered(chars@),
{
    let mut r: Vec<char> = Vec::new();
    for i in 0..chars.len()
        invariant
            r@ == uppered(chars@).take(i as int),
    {
        r.push(upper_char(chars[i]));
        assert(uppered(chars@).take(i + 1) =~= uppered(chars@).take(i as int).push(
            upper(chars@[i as int]),
        ));
    }
    assert(uppered(chars@).take(chars@.len() as int) == uppered(chars@));
    r
}

// ---------------------------------------------------------------------------
// Searching
// ---------------------------------------------------------------------------
/// Whether `needle` stands in `s` at position `i`.
pub open spec fn occurs_at(s: Seq<char>, needle: Seq<char>, i: int) -> bool {
    0 <= i && i + needle.len() <= s.len() && s.subrange(i, i + needle.len()) == needle
}

/// Whether `needle` stands somewhere in `s`.
pub open spec fn occurs(s: Seq<char>, needle: Seq<char>) -> bool {
    exists|i: int| occurs_at(s, needle, i)
}

/// Whether `s` begins with `prefix`.
pub open spec fn begins(s: Seq<char>, prefix: Seq<char>) -> bool {
    occurs_at(s, prefix, 0)
}

/// Whether `s` ends with `suffix`.
pub open spec fn ends(s: Seq<char>, suffix: Seq<char>) -> bool {
    occurs_at(s, suffix, s.len() - suffix.len())
}

/// Tests whether `needle` stands in `chars` at position `i`.
pub fn test_occurs_at(chars: &[char], needle: &[char], i: usize) -> (held: bool)
    ensures
        held == occurs_at(chars@, needle@, i as int),
{
    if i > chars.len() || needle.len() > chars.len() - i {
        return false;
    }
    for j in 0..needle.len()
        invariant
            i + needle.len() <= chars.len(),
            forall|k: int| 0 <= k < j ==> chars@[i + k] == needle@[k],
    {
        if chars[i + j] != needle[j] {
            assert(chars@.subrange(i as int, i + needle.len())[j as int] != needle@[j as int]);
            return false;
        }
    }
    assert(chars@.subrange(i as int, i + needle.len()) =~= needle@);
    true
}

/// The first position of `needle` in `chars`, if it stands there at all.
pub fn find(chars: &[char], needle: &[char]) -> (position: Option<usize>)
    ensures
        match position {
            Some(i) => occurs_at(chars@, needle@, i as int) && forall|j: int|
                0 <= j < i ==> !#[trigger] occurs_at(chars@, needle@, j),
            None => !occurs(chars@, needle@),
        },
{
    let mut i: usize = 0;
    while i < chars.len()
        invariant
            i <= chars.len(),
            forall|j: int| 0 <= j < i ==> !#[trigger] occurs_at(chars@, needle@, j),
        decreases chars.len() - i,
    {
        if test_occurs_at(chars, needle, i) {
            return Some(i);
        }
        i = i + 1;
    }
    if test_occurs_at(chars, needle, i) {
        return Some(i);
    }
    None
}

/// Tests whether `needle` stands somewhere in `chars`.
pub fn test_occurs(chars: &[char], needle: &str) -> (held: bool)
    ensures
        held == occurs(chars@, needle@),
{
    let needle: Vec<char> = to_chars(needle);
    match find(chars, needle.as_slice()) {
        Some(i) => {
            assert(occurs_at(chars@, needle@, i as int));
            true
        },
        None => false,
    }
}

/// Tests whether `chars` begins with `prefix`.
pub fn test_begins(chars: &[char], prefix: &str) -> (held: bool)
    ensures
        held == begins(chars@, prefix@),
{
    let prefix: Vec<char> = to_chars(prefix);
    test_occurs_at(chars, prefix.as_slice(), 0)
}

/// Tests whether `chars` ends with `suffix`.
pub fn test_ends(chars: &[char], suffix: &str) -> (held: bool)
    ensures
        held == ends(chars@, suffix@),
{
    let suffix: Vec<char> = to_chars(suffix);
    if suffix.len() > chars.len() {
        return false;
    }
    test_occurs_at(chars, suffix.as_slice(), chars.len() - suffix.len())
}

/// What follows `prefix` in `s`, where `s` begins with it.
pub open spec fn after_prefix(s: Seq<char>, prefix: Seq<char>) -> Option<Seq<char>> {
    if begins(s, prefix) {
        Some(s.skip(prefix.len() as int))
    } else {
        None
    }
}

/// What precedes `suffix` in `s`, where `s` ends with it.
pub open spec fn before_suffix(s: Seq<char>, suffix: Seq<char>) -> Option<Seq<char>> {
    if ends(s, suffix) {
        Some(s.take(s.len() - suffix.len()))
    } else {
        None
    }
}

/// The characters of a slice, where there is one.
pub open spec fn optional_slice(slice: Option<&[char]>) -> Option<Seq<char>> {
    match slice {
        Some(slice) => Some(slice@),
        None => None,
    }
}

/// Returns what follows `prefix` in `chars`, where `chars` begins with it.
pub fn strip_prefix<'a>(chars: &'a [char], prefix: &str) -> (rest: Option<&'a [char]>)
    ensures
        optional_slice(rest) == after_prefix(chars@, prefix@),
{
    let prefix: Vec<char> = to_chars(prefix);
    if test_occurs_at(chars, prefix.as_slice(), 0) {
        let rest: &[char] = slice_subrange(chars, prefix.len(), chars.len());
        assert(rest@ =~= chars@.skip(prefix@.len() as int));
        Some(rest)
    } else {
        None
    }
}

/// Returns what precedes `suffix` in `chars`, where `chars` ends with it.
pub fn strip_suffix<'a>(chars: &'a [char], suffix: &str) -> (rest: Option<&'a [char]>)
    ensures
        optional_slice(rest) == before_suffix(chars@, suffix@),
{
    let suffix: Vec<char> = to_chars(suffix);
    if suffix.len() <= chars.len() && test_occurs_at(
        chars,
        suffix.as_slice(),
        chars.len() - suffix.len(),
    ) {
        let rest: &[char] = slice_subrange(chars, 0, chars.len() - suffix.len());
        assert(rest@ =~= chars@.take(chars@.len() - suffix@.len()));
        Some(rest)
    } else {
        None
    }
}

// ---------------------------------------------------------------------------
// Trimming and splitting
// ---------------------------------------------------------------------------
/// How many characters of `set` stand at the beginning of `s`.
pub open spec fn leading(s: Seq<char>, set: CharSet) -> nat
    decreases s.len(),
{
    if s.len() > 0 && set.has(s[0]) {
        1 + leading(s.drop_first(), set)
    } else {
        0
    }
}

/// How many characters of `set` stand at the end of `s`.
pub open spec fn trailing(s: Seq<char>, set: CharSet) -> nat
    decreases s.len(),
{
    if s.len() > 0 && set.has(s.last()) {
        1 + trailing(s.drop_last(), set)
    } else {
        0
    }
}

/// `leading` counts a run of `set` that nothing of `set` continues.
pub proof fn leading_is_a_run(s: Seq<char>, set: CharSet)
    ensures
        leading(s, set) <= s.len(),
        forall|i: int| 0 <= i < leading(s, set) ==> set.has(#[trigger] s[i]),
        leading(s, set) < s.len() ==> !set.has(s[leading(s, set) as int]),
    decreases s.len(),
{
    if s.len() > 0 && set.has(s[0]) {
        let rest = s.drop_first();
        leading_is_a_run(rest, set);
        assert forall|i: int| 0 <= i < leading(s, set) implies set.has(#[trigger] s[i]) by {
            if i > 0 {
                assert(rest[i - 1] == s[i]);
            }
        }
    }
}

/// A run of `set` that nothing of `set` continues is what `leading` counts.
pub proof fn leading_is_unique(s: Seq<char>, set: CharSet, n: int)
    requires
        0 <= n <= s.len(),
        forall|i: int| 0 <= i < n ==> set.has(#[trigger] s[i]),
        n < s.len() ==> !set.has(s[n]),
    ensures
        leading(s, set) == n,
{
    leading_is_a_run(s, set);
    let m = leading(s, set) as int;
    if m < n {
        assert(set.has(s[m]));
    }
}

/// A closing run of `set` that nothing of `set` precedes is what `trailing`
/// counts.
pub proof fn trailing_is_unique(s: Seq<char>, set: CharSet, n: int)
    requires
        0 <= n <= s.len(),
        forall|i: int| s.len() - n <= i < s.len() ==> set.has(#[trigger] s[i]),
        n < s.len() ==> !set.has(s[s.len() - n - 1]),
    ensures
        trailing(s, set) == n,
    decreases s.len(),
{
    if n > 0 {
        assert(set.has(s[s.len() - 1]));
        trailing_is_unique(s.drop_last(), set, n - 1);
    }
}

/// Counts the characters of `set` at the beginning of `chars`.
pub fn count_leading(chars: &[char], set: CharSet) -> (n: usize)
    ensures
        n == leading(chars@, set),
        n <= chars@.len(),
{
    let mut n: usize = 0;
    while n < chars.len() && set.test(chars[n])
        invariant
            n <= chars.len(),
            forall|i: int| 0 <= i < n ==> set.has(#[trigger] chars@[i]),
        decreases chars.len() - n,
    {
        n = n + 1;
    }
    proof {
        leading_is_unique(chars@, set, n as int);
    }
    n
}

/// `s` without the characters of `set` at its beginning.
pub open spec fn trimmed_start(s: Seq<char>, set: CharSet) -> Seq<char> {
    s.skip(leading(s, set) as int)
}

/// `s` without the characters of `set` at its end.
pub open spec fn trimmed_end(s: Seq<char>, set: CharSet) -> Seq<char> {
    s.take(s.len() - trailing(s, set))
}

/// `s` without the characters of `set` at its beginning and at its end.
pub open spec fn trimmed(s: Seq<char>, set: CharSet) -> Seq<char> {
    trimmed_end(trimmed_start(s, set), set)
}

/// Drops the characters of `set` at the beginning of `chars`.
pub fn trim_start<'a>(chars: &'a [char], set: CharSet) -> (r: &'a [char])
    ensures
        r@ == trimmed_start(chars@, set),
{
    let n: usize = count_leading(chars, set);
    let r: &[char] = slice_subrange(chars, n, chars.len());
    assert(r@ =~= trimmed_start(chars@, set));
    r
}

/// Drops the characters of `set` at the end of `chars`.
pub fn trim_end<'a>(chars: &'a [char], set: CharSet) -> (r: &'a [char])
    ensures
        r@ == trimmed_end(chars@, set),
{
    let mut end: usize = chars.len();
    while end > 0 && set.test(chars[end - 1])
        invariant
            end <= chars.len(),
            forall|i: int| end <= i < chars.len() ==> set.has(#[trigger] chars@[i]),
        decreases end,
    {
        end = end - 1;
    }
    proof {
        trailing_is_unique(chars@, set, chars.len() - end);
    }
    let r: &[char] = slice_subrange(chars, 0, end);
    assert(r@ =~= trimmed_end(chars@, set));
    r
}

/// Drops the characters of `set` at the beginning and at the end of `chars`.
pub fn trim<'a>(chars: &'a [char], set: CharSet) -> (r: &'a [char])
    ensures
        r@ == trimmed(chars@, set),
{
    trim_end(trim_start(chars, set), set)
}

/// The maximal runs of characters that are not white space, in order.
pub open spec fn words(s: Seq<char>) -> Seq<Seq<char>>
    decreases s.len(),
{
    let start = leading(s, CharSet::Whitespace) as int;
    let rest = s.skip(start);
    let length = leading(rest, CharSet::NotWhitespace) as int;
    if start >= s.len() || length <= 0 || length > rest.len() {
        Seq::empty()
    } else {
        seq![rest.take(length)] + words(rest.skip(length))
    }
}

/// Splits `chars` into its maximal runs of characters that are not white space.
pub fn split_words<'a>(chars: &'a [char]) -> (list: Vec<&'a [char]>)
    ensures
        slices(list@) == words(chars@),
{
    let mut list: Vec<&'a [char]> = Vec::new();
    let mut at: usize = 0;
    assert(slices(list@) + words(chars@.skip(0)) =~= words(chars@)) by {
        assert(chars@.skip(0) =~= chars@);
    }
    loop
        invariant_except_break
            slices(list@) + words(chars@.skip(at as int)) == words(chars@),
        invariant
            at <= chars.len(),
        ensures
            slices(list@) == words(chars@),
        decreases chars.len() - at,
    {
        let ghost s = chars@.skip(at as int);
        let tail: &[char] = slice_subrange(chars, at, chars.len());
        assert(tail@ =~= s);
        let start: usize = count_leading(tail, CharSet::Whitespace);
        proof {
            leading_is_a_run(s, CharSet::Whitespace);
            leading_is_a_run(s.skip(start as int), CharSet::NotWhitespace);
        }
        if start == tail.len() {
            assert(slices(list@) + Seq::<Seq<char>>::empty() =~= slices(list@));
            break;
        }
        let rest: &[char] = slice_subrange(tail, start, tail.len());
        assert(rest@ =~= s.skip(start as int));
        let length: usize = count_leading(rest, CharSet::NotWhitespace);
        assert(!CharSet::Whitespace.has(s[start as int]));
        assert(rest@[0] == s[start as int]);
        assert(length > 0);
        let word: &[char] = slice_subrange(rest, 0, length);
        assert(word@ =~= rest@.take(length as int));
        let ghost before = slices(list@);
        list.push(word);
        assert(slices(list@) =~= before.push(word@));
        at = at + start + length;
        assert(chars@.skip(at as int) =~= rest@.skip(length as int));
        assert(slices(list@) + words(chars@.skip(at as int)) =~= before + (seq![word@] + words(
            rest@.skip(length as int),
        )));
    }
    list
}

/// The characters of each slice.
pub open spec fn slices(list: Seq<&[char]>) -> Seq<Seq<char>> {
    list.map_values(|s: &[char]| s@)
}

/// The pieces between the occurrences of `separator`; there is always one more
/// of them than there are separators.
pub open spec fn pieces(s: Seq<char>, separator: char) -> Seq<Seq<char>>
    decreases s.len(),
{
    let n = leading(s, CharSet::Not(separator)) as int;
    if n < 0 || n >= s.len() {
        seq![s]
    } else {
        seq![s.take(n)] + pieces(s.skip(n + 1), separator)
    }
}

/// Splits `chars` at every `separator`.
pub fn split_at_char<'a>(chars: &'a [char], separator: char) -> (list: Vec<&'a [char]>)
    ensures
        slices(list@) == pieces(chars@, separator),
{
    let mut list: Vec<&'a [char]> = Vec::new();
    let mut at: usize = 0;
    assert(slices(list@) + pieces(chars@.skip(0), separator) =~= pieces(chars@, separator)) by {
        assert(chars@.skip(0) =~= chars@);
    }
    loop
        invariant_except_break
            slices(list@) + pieces(chars@.skip(at as int), separator) == pieces(chars@, separator),
        invariant
            at <= chars.len(),
        ensures
            slices(list@) == pieces(chars@, separator),
        decreases chars.len() - at,
    {
        let ghost s = chars@.skip(at as int);
        let ghost before = slices(list@);
        let tail: &[char] = slice_subrange(chars, at, chars.len());
        assert(tail@ =~= s);
        let n: usize = count_leading(tail, CharSet::Not(separator));
        if n == tail.len() {
            list.push(tail);
            assert(slices(list@) =~= before + seq![s]);
            break;
        }
        let piece: &[char] = slice_subrange(tail, 0, n);
        assert(piece@ =~= s.take(n as int));
        list.push(piece);
        assert(slices(list@) =~= before.push(piece@));
        at = at + n + 1;
        assert(chars@.skip(at as int) =~= s.skip(n + 1));
        assert(slices(list@) + pieces(chars@.skip(at as int), separator) =~= before + (
        seq![piece@] + pieces(s.skip(n + 1), separator)));
    }
    list
}

/// The text before and after the first `separator`, if there is one.
pub open spec fn split_first(s: Seq<char>, separator: char) -> Option<(Seq<char>, Seq<char>)> {
    let n = leading(s, CharSet::Not(separator)) as int;
    if n >= s.len() {
        None
    } else {
        Some((s.take(n), s.skip(n + 1)))
    }
}

/// The characters of a pair of slices, where there is one.
pub open spec fn optional_pair(pair: Option<(&[char], &[char])>) -> Option<(Seq<char>, Seq<char>)> {
    match pair {
        Some(pair) => Some((pair.0@, pair.1@)),
        None => None,
    }
}

/// Splits `chars` at the first `separator`.
pub fn split_once<'a>(chars: &'a [char], separator: char) -> (pair: Option<
    (&'a [char], &'a [char]),
>)
    ensures
        optional_pair(pair) == split_first(chars@, separator),
{
    let n: usize = count_leading(chars, CharSet::Not(separator));
    if n == chars.len() {
        return None;
    }
    let before: &[char] = slice_subrange(chars, 0, n);
    let after: &[char] = slice_subrange(chars, n + 1, chars.len());
    assert(before@ =~= chars@.take(n as int));
    assert(after@ =~= chars@.skip(n + 1));
    Some((before, after))
}

/// A line without its carriage return, if it ends with one.
pub open spec fn without_return(s: Seq<char>) -> Seq<char> {
    if s.len() > 0 && s.last() == '\r' {
        s.drop_last()
    } else {
        s
    }
}

/// The lines of `s`: each line feed ends a line, a carriage return right
/// before it belongs to the line ending, and the last line needs no ending.
pub open spec fn lines(s: Seq<char>) -> Seq<Seq<char>>
    decreases s.len(),
{
    let n = leading(s, CharSet::Not('\n')) as int;
    if s.len() == 0 {
        Seq::empty()
    } else if n >= s.len() {
        seq![s]
    } else {
        seq![without_return(s.take(n))] + lines(s.skip(n + 1))
    }
}

/// Splits `chars` into its lines.
pub fn split_lines<'a>(chars: &'a [char]) -> (list: Vec<&'a [char]>)
    ensures
        slices(list@) == lines(chars@),
{
    let mut list: Vec<&'a [char]> = Vec::new();
    let mut at: usize = 0;
    assert(slices(list@) + lines(chars@.skip(0)) =~= lines(chars@)) by {
        assert(chars@.skip(0) =~= chars@);
    }
    while at < chars.len()
        invariant
            at <= chars.len(),
            slices(list@) + lines(chars@.skip(at as int)) == lines(chars@),
        decreases chars.len() - at,
    {
        let ghost s = chars@.skip(at as int);
        let ghost before = slices(list@);
        let tail: &[char] = slice_subrange(chars, at, chars.len());
        assert(tail@ =~= s);
        let n: usize = count_leading(tail, CharSet::Not('\n'));
        if n == tail.len() {
            list.push(tail);
            at = chars.len();
            assert(chars@.skip(at as int) =~= Seq::<char>::empty());
            assert(slices(list@) + lines(chars@.skip(at as int)) =~= before + seq![s]);
        } else {
            let end: usize = if n > 0 && tail[n - 1] == '\r' {
                n - 1
            } else {
                n
            };
            let line: &[char] = slice_subrange(tail, 0, end);
            assert(line@ =~= without_return(s.take(n as int)));
            list.push(line);
            assert(slices(list@) =~= before.push(line@));
            at = at + n + 1;
            assert(chars@.skip(at as int) =~= s.skip(n + 1));
            assert(slices(list@) + lines(chars@.skip(at as int)) =~= before + (seq![line@]
                + lines(s.skip(n + 1))));
        }
    }
    assert(chars@.skip(at as int) =~= Seq::<char>::empty());
    assert(slices(list@) + lines(chars@.skip(at as int)) =~= slices(list@));
    list
}

/// The rows, with one `separator` between each two of them.
pub open spec fn joined(list: Seq<Seq<char>>, separator: Seq<char>) -> Seq<char>
    decreases list.len(),
{
    if list.len() == 0 {
        Seq::empty()
    } else if list.len() == 1 {
        list[0]
    } else {
        joined(list.drop_last(), separator) + separator + list.last()
    }
}

/// Joins slices with a single space between each two of them.
pub fn join_slices(list: &Vec<&[char]>) -> (r: Vec<char>)
    ensures
        r@ == joined(slices(list@), seq![' ']),
{
    let mut r: Vec<char> = Vec::new();
    for i in 0..list.len()
        invariant
            r@ == joined(slices(list@).take(i as int), seq![' ']),
    {
        let ghost before = slices(list@).take(i as int);
        let ghost after = slices(list@).take(i + 1);
        assert(after.drop_last() =~= before);
        assert(after.last() == list@[i as int]@);
        let ghost start = r@;
        if i > 0 {
            r.push(' ');
        }
        let ghost spaced = r@;
        let item: &[char] = list[i];
        for j in 0..item.len()
            invariant
                r@ == spaced + item@.take(j as int),
        {
            r.push(item[j]);
            assert(item@.take(j + 1) =~= item@.take(j as int).push(item@[j as int]));
        }
        assert(item@.take(item@.len() as int) =~= item@);
        if i > 0 {
            assert(spaced =~= start + seq![' ']);
        } else {
            assert(r@ =~= item@);
        }
    }
    assert(slices(list@).take(list@.len() as int) =~= slices(list@));
    r
}

// ---------------------------------------------------------------------------
// Numbers
// ---------------------------------------------------------------------------
/// The character of a decimal digit.
pub open spec fn digit(d: nat) -> char {
    (48 + d) as char
}

/// The decimal digits of `n`, without leading zeros.
pub open spec fn decimal(n: nat) -> Seq<char>
    decreases n,
{
    if n < 10 {
        seq![digit(n)]
    } else {
        decimal(n / 10).push(digit(n % 10))
    }
}

/// The decimal digits of an integer, with a leading minus sign when negative.
pub open spec fn signed_decimal(n: int) -> Seq<char> {
    if n < 0 {
        seq!['-'] + decimal((-n) as nat)
    } else {
        decimal(n as nat)
    }
}

/// Appends the decimal digits of `n`.
pub fn push_decimal(out: &mut String, n: u64)
    ensures
        final(out)@ == old(out)@ + decimal(n as nat),
    decreases n,
{
    if n >= 10 {
        push_decimal(out, n / 10);
    }
    out.push((48 + (n % 10) as u8) as char);
    assert(out@ =~= old(out)@ + decimal(n as nat));
}

/// Appends the decimal digits of an integer.
pub fn push_signed_decimal(out: &mut String, n: i64)
    ensures
        final(out)@ == old(out)@ + signed_decimal(n as int),
{
    if n < 0 {
        out.push('-');
        let magnitude: u64 = (-(n as i128)) as u64;
        push_decimal(out, magnitude);
        assert(out@ =~= old(out)@ + signed_decimal(n as int));
    } else {
        push_decimal(out, n as u64);
    }
}

// ---------------------------------------------------------------------------
// What the functions on text amount to
// ---------------------------------------------------------------------------
/// The sets hold the characters that their names say.
pub proof fn law_sets_hold_what_they_say(c: char, a: char, b: char)
    ensures
        ({
            let digit = 0x30 <= c as u32 <= 0x39;
            let small = 0x61 <= c as u32 <= 0x7a;
            let capital = 0x41 <= c as u32 <= 0x5a;
            let alphanumeric = digit || small || capital;
            &&& CharSet::Digit.has(c) <==> digit
            &&& CharSet::Alphanumeric.has(c) <==> alphanumeric
            &&& CharSet::NotAlphanumeric.has(c) <==> !alphanumeric
            &&& CharSet::HexOrSpace.has(c) <==> digit || 0x61 <= c as u32 <= 0x66 || 0x41
                <= c as u32 <= 0x46 || c as u32 == 0x20 || c as u32 == 0x09 || c as u32 == 0x0a
                || c as u32 == 0x0c || c as u32 == 0x0d
            &&& CharSet::Control.has(c) <==> (c as u32) < 0x20 || 0x7f <= c as u32 <= 0x9f
            &&& CharSet::Whitespace.has(c) <==> 0x09 <= c as u32 <= 0x0d || c as u32 == 0x20
                || c as u32 == 0x85 || c as u32 == 0xa0 || c as u32 == 0x1680 || 0x2000
                <= c as u32 <= 0x200a || c as u32 == 0x2028 || c as u32 == 0x2029 || c as u32
                == 0x202f || c as u32 == 0x205f || c as u32 == 0x3000
            &&& CharSet::NotWhitespace.has(c) <==> !CharSet::Whitespace.has(c)
            &&& CharSet::Only(a).has(c) <==> c == a
            &&& CharSet::Not(a).has(c) <==> c != a
            &&& CharSet::Either(a, b).has(c) <==> c == a || c == b
            &&& CharSet::DriverName.has(c) <==> alphanumeric || c == '_'
            &&& CharSet::ProfileId.has(c) <==> small || digit || c == '-' || c == '_'
            &&& CharSet::FileName.has(c) <==> alphanumeric || c == '.' || c == '_' || c == '-'
            &&& CharSet::KernelName.has(c) <==> alphanumeric || c == '.' || c == '_' || c == ':'
                || c == '-' || c == '@'
            &&& CharSet::TimezoneLabel.has(c) <==> alphanumeric || c == '+' || c == '-' || c == '_'
                || c == '/'
            &&& is_punctuation(c) <==> 0x21 <= c as u32 <= 0x7e && !alphanumeric
        }),
{
}

/// A set covers a text when it has each of its characters, and meets it when it
/// has one of them.
pub proof fn law_covering_and_meeting_are_opposites(s: Seq<char>, c: char)
    ensures
        CharSet::Not(c).covers(s) <==> !s.contains(c),
        CharSet::Only(c).meets(s) <==> s.contains(c),
        CharSet::NotWhitespace.covers(s) <==> !CharSet::Whitespace.meets(s),
        CharSet::NotAlphanumeric.covers(s) <==> !CharSet::Alphanumeric.meets(s),
{
    if CharSet::Not(c).covers(s) {
        assert forall|i: int| 0 <= i < s.len() implies s[i] != c by {
            assert(CharSet::Not(c).has(s[i]));
        }
    }
    if !s.contains(c) {
        assert forall|i: int| 0 <= i < s.len() implies CharSet::Not(c).has(#[trigger] s[i]) by {
            assert(s[i] != c);
        }
    }
    if s.contains(c) {
        let i = choose|i: int| 0 <= i < s.len() && s[i] == c;
        assert(CharSet::Only(c).has(s[i]));
        assert(!CharSet::Not(c).has(s[i]));
    }
    assert(forall|x: char|
        CharSet::NotWhitespace.has(x) == !#[trigger] CharSet::Whitespace.has(x));
    assert(forall|x: char|
        CharSet::NotAlphanumeric.has(x) == !#[trigger] CharSet::Alphanumeric.has(x));
    if !CharSet::Whitespace.meets(s) {
        assert forall|i: int| 0 <= i < s.len() implies CharSet::NotWhitespace.has(
            #[trigger] s[i],
        ) by {
            assert(!CharSet::Whitespace.has(s[i]));
        }
    }
    if !CharSet::Alphanumeric.meets(s) {
        assert forall|i: int| 0 <= i < s.len() implies CharSet::NotAlphanumeric.has(
            #[trigger] s[i],
        ) by {
            assert(!CharSet::Alphanumeric.has(s[i]));
        }
    }
}

/// Case is that of the 26 letters, whose capitals stand 32 places before them;
/// no other character changes, and texts change character by character.
pub proof fn law_case_is_that_of_the_letters(c: char, s: Seq<char>, i: int)
    requires
        0 <= i < s.len(),
    ensures
        0x41 <= c as u32 <= 0x5a ==> lower(c) as u32 == c as u32 + 32,
        !(0x41 <= c as u32 <= 0x5a) ==> lower(c) == c,
        0x61 <= c as u32 <= 0x7a ==> upper(c) as u32 == c as u32 - 32,
        !(0x61 <= c as u32 <= 0x7a) ==> upper(c) == c,
        lower(upper(c)) == lower(c),
        upper(lower(c)) == upper(c),
        lowered(s).len() == s.len(),
        lowered(s)[i] == lower(s[i]),
        uppered(s).len() == s.len(),
        uppered(s)[i] == upper(s[i]),
{
}

/// A text begins with another when it is that text and a rest, ends with it when
/// it is a rest and that text, and holds it when it stands between two rests.
pub proof fn law_finding_is_cutting_out(before: Seq<char>, needle: Seq<char>, after: Seq<char>)
    ensures
        occurs(before + needle + after, needle),
        occurs_at(before + needle + after, needle, before.len() as int),
        begins(needle + after, needle),
        ends(before + needle, needle),
        after_prefix(needle + after, needle) == Some(after),
        before_suffix(before + needle, needle) == Some(before),
        begins(before, needle) ==> before == needle + before.skip(needle.len() as int),
        ends(before, needle) ==> before == before.take(before.len() - needle.len()) + needle,
        !begins(before, needle) ==> after_prefix(before, needle) is None,
        !ends(before, needle) ==> before_suffix(before, needle) is None,
{
    let all = before + needle + after;
    let n = needle.len() as int;
    assert(all.subrange(before.len() as int, before.len() + n) =~= needle);
    assert(occurs_at(all, needle, before.len() as int));
    assert((needle + after).subrange(0, n) =~= needle);
    assert((needle + after).skip(n) =~= after);
    assert((before + needle).subrange(before.len() as int, before.len() + n) =~= needle);
    assert((before + needle).take(before.len() as int) =~= before);
    if begins(before, needle) {
        assert(before =~= before.subrange(0, n) + before.skip(n));
    }
    if ends(before, needle) {
        assert(before =~= before.take(before.len() - n) + before.subrange(
            before.len() - n,
            before.len() as int,
        ));
    }
}

/// Trimming takes a run of the set off each end and stops at what is not in the
/// set: the text is the run before, what is kept and the run after.
pub proof fn law_trimming_stops_at_the_first_other(s: Seq<char>, set: CharSet)
    ensures
        ({
            let kept = trimmed(s, set);
            &&& exists|i: int|
                0 <= i && i + kept.len() <= s.len() && kept == #[trigger] s.subrange(
                    i,
                    i + kept.len(),
                ) && set.covers(s.take(i)) && set.covers(s.skip(i + kept.len()))
            &&& kept.len() > 0 ==> !set.has(kept[0]) && !set.has(kept.last())
        }),
{
    let n = leading(s, set) as int;
    leading_is_a_run(s, set);
    let rest = s.skip(n);
    let m = trailing(rest, set) as int;
    trailing_is_a_run(rest, set);
    let kept = trimmed(s, set);
    assert(kept =~= s.subrange(n, n + kept.len()));
    assert forall|i: int| 0 <= i < s.take(n).len() implies set.has(#[trigger] s.take(n)[i]) by {
        assert(set.has(s[i]));
    }
    let tail = s.skip(n + kept.len());
    assert forall|i: int| 0 <= i < tail.len() implies set.has(#[trigger] tail[i]) by {
        assert(tail[i] == rest[kept.len() + i]);
        assert(set.has(rest[kept.len() + i]));
    }
    assert(set.covers(s.take(n)) && set.covers(tail));
    if kept.len() > 0 {
        assert(kept[0] == rest[0] && rest[0] == s[n]);
        assert(kept.last() == rest[rest.len() - m - 1]);
    }
}

/// `trailing` counts a closing run of `set` that nothing of `set` precedes.
proof fn trailing_is_a_run(s: Seq<char>, set: CharSet)
    ensures
        trailing(s, set) <= s.len(),
        forall|i: int| s.len() - trailing(s, set) <= i < s.len() ==> set.has(#[trigger] s[i]),
        trailing(s, set) < s.len() ==> !set.has(s[s.len() - trailing(s, set) - 1]),
    decreases s.len(),
{
    if s.len() > 0 && set.has(s.last()) {
        let rest = s.drop_last();
        trailing_is_a_run(rest, set);
        assert forall|i: int| s.len() - trailing(s, set) <= i < s.len() implies set.has(
            #[trigger] s[i],
        ) by {
            if i < s.len() - 1 {
                assert(rest[i] == s[i]);
            }
        }
    }
}

/// A text without white space is one word, an empty one has none, and white
/// space in a text parts the words before it from those behind it.
pub proof fn law_white_space_parts_words(a: Seq<char>, space: char, b: Seq<char>)
    ensures
        a.len() == 0 ==> words(a) == Seq::<Seq<char>>::empty(),
        a.len() > 0 && CharSet::NotWhitespace.covers(a) ==> words(a) == seq![a],
        CharSet::Whitespace.has(space) ==> words(a + seq![space] + b) == words(a) + words(b),
    decreases a.len(),
{
    let set = CharSet::Whitespace;
    let other = CharSet::NotWhitespace;
    assert(forall|x: char| other.has(x) == !#[trigger] set.has(x));
    if a.len() == 0 {
        leading_is_unique(a, set, 0);
    }
    if a.len() > 0 && other.covers(a) {
        assert(other.has(a[0]));
        leading_is_unique(a, set, 0);
        assert(a.skip(0) =~= a);
        leading_is_unique(a, other, a.len() as int);
        assert(a.take(a.len() as int) =~= a);
        let rest = a.skip(a.len() as int);
        assert(rest =~= Seq::<char>::empty());
        leading_is_unique(rest, set, 0);
        assert(words(rest) =~= Seq::<Seq<char>>::empty());
        assert(words(a) =~= seq![a]);
    }
    if set.has(space) {
        let s = a + seq![space] + b;
        let start = leading(a, set) as int;
        leading_is_a_run(a, set);
        if start == a.len() {
            assert(words(a) =~= Seq::<Seq<char>>::empty());
            assert forall|i: int| 0 <= i < a.len() + 1 implies set.has(#[trigger] s[i]) by {
                if i < a.len() {
                    assert(set.has(a[i]));
                }
            }
            words_ignore_leading_space(s, start + 1);
            assert(s.skip(start + 1) =~= b);
            assert(words(a) + words(b) =~= words(b));
        } else {
            let rest = a.skip(start);
            let length = leading(rest, other) as int;
            leading_is_a_run(rest, other);
            assert(rest[0] == a[start]);
            assert(length > 0);
            assert forall|i: int| 0 <= i < start implies set.has(#[trigger] s[i]) by {
                assert(set.has(a[i]));
            }
            assert(s[start] == a[start]);
            leading_is_unique(s, set, start);
            let s_rest = s.skip(start);
            assert forall|i: int| 0 <= i < length implies other.has(#[trigger] s_rest[i]) by {
                assert(other.has(rest[i]));
                assert(s_rest[i] == rest[i]);
            }
            if length < rest.len() {
                assert(s_rest[length] == rest[length]);
            } else {
                assert(s_rest[length] == space);
            }
            leading_is_unique(s_rest, other, length);
            assert(s_rest.take(length) =~= rest.take(length));
            let tail = rest.skip(length);
            assert(s_rest.skip(length) =~= tail + seq![space] + b);
            law_white_space_parts_words(tail, space, b);
            assert(words(a) == seq![rest.take(length)] + words(tail));
            assert(words(s) == seq![rest.take(length)] + words(tail + seq![space] + b));
            assert(words(s) =~= words(a) + words(b));
        }
    }
}

proof fn words_ignore_leading_space(s: Seq<char>, n: int)
    requires
        0 <= n <= s.len(),
        forall|i: int| 0 <= i < n ==> CharSet::Whitespace.has(#[trigger] s[i]),
    ensures
        words(s) == words(s.skip(n)),
{
    let set = CharSet::Whitespace;
    let rest = s.skip(n);
    let m = leading(rest, set) as int;
    leading_is_a_run(rest, set);
    assert forall|i: int| 0 <= i < n + m implies set.has(#[trigger] s[i]) by {
        if i >= n {
            assert(set.has(rest[i - n]));
        }
    }
    if m < rest.len() {
        assert(rest[m] == s[n + m]);
    }
    leading_is_unique(s, set, n + m);
    assert(s.skip(n + m) =~= rest.skip(m));
}

/// Words are never empty and hold no white space, and words that are joined by
/// spaces are found again.
pub proof fn law_joined_words_are_found_again(list: Seq<Seq<char>>)
    requires
        forall|i: int|
            0 <= i < list.len() ==> (#[trigger] list[i]).len() > 0
                && CharSet::NotWhitespace.covers(list[i]),
    ensures
        words(joined(list, seq![' '])) == list,
    decreases list.len(),
{
    if list.len() == 0 {
        law_white_space_parts_words(joined(list, seq![' ']), ' ', seq![]);
    } else if list.len() == 1 {
        law_white_space_parts_words(list[0], ' ', seq![]);
        assert(list =~= seq![list[0]]);
    } else {
        let front = list.drop_last();
        assert forall|i: int| 0 <= i < front.len() implies (#[trigger] front[i]).len() > 0
            && CharSet::NotWhitespace.covers(front[i]) by {
            assert(front[i] == list[i]);
        }
        law_joined_words_are_found_again(front);
        law_white_space_parts_words(joined(front, seq![' ']), ' ', list.last());
        law_white_space_parts_words(list.last(), ' ', seq![]);
        assert(words(joined(list, seq![' '])) =~= front + seq![list.last()]);
        assert(front + seq![list.last()] =~= list);
    }
}

/// No word is empty or holds white space.
pub proof fn law_words_hold_no_white_space(s: Seq<char>, i: int)
    requires
        0 <= i < words(s).len(),
    ensures
        words(s)[i].len() > 0,
        CharSet::NotWhitespace.covers(words(s)[i]),
        words(s)[i].len() <= s.len(),
    decreases s.len(),
{
    let start = leading(s, CharSet::Whitespace) as int;
    leading_is_a_run(s, CharSet::Whitespace);
    let rest = s.skip(start);
    let length = leading(rest, CharSet::NotWhitespace) as int;
    leading_is_a_run(rest, CharSet::NotWhitespace);
    if i == 0 {
        assert(words(s)[0] == rest.take(length));
        assert forall|j: int| 0 <= j < length implies CharSet::NotWhitespace.has(
            #[trigger] rest.take(length)[j],
        ) by {
            assert(CharSet::NotWhitespace.has(rest[j]));
        }
    } else {
        law_words_hold_no_white_space(rest.skip(length), i - 1);
        assert(words(s)[i] == words(rest.skip(length))[i - 1]);
    }
}

/// Pieces hold no separator, and joined by it they are the text again.
pub proof fn law_joined_pieces_are_the_text(s: Seq<char>, separator: char)
    ensures
        pieces(s, separator).len() > 0,
        joined(pieces(s, separator), seq![separator]) == s,
        forall|i: int|
            0 <= i < pieces(s, separator).len() ==> !(#[trigger] pieces(s, separator)[i]).contains(
                separator,
            ),
    decreases s.len(),
{
    let set = CharSet::Not(separator);
    let n = leading(s, set) as int;
    leading_is_a_run(s, set);
    let head = s.take(n);
    assert forall|j: int| 0 <= j < head.len() implies head[j] != separator by {
        assert(set.has(s[j]));
    }
    assert(!head.contains(separator));
    if n >= s.len() {
        assert(s.take(n) =~= s);
        assert(pieces(s, separator) =~= seq![s]);
    } else {
        let rest = s.skip(n + 1);
        law_joined_pieces_are_the_text(rest, separator);
        joined_from_the_front(head, pieces(rest, separator), seq![separator]);
        assert(s[n] == separator);
        assert(s =~= head + seq![separator] + rest);
        let all = pieces(s, separator);
        assert forall|i: int| 0 <= i < all.len() implies !(#[trigger] all[i]).contains(
            separator,
        ) by {
            if i > 0 {
                assert(all[i] == pieces(rest, separator)[i - 1]);
            } else {
                assert(all[0] == head);
            }
        }
    }
}

proof fn joined_from_the_front(head: Seq<char>, list: Seq<Seq<char>>, separator: Seq<char>)
    requires
        list.len() > 0,
    ensures
        joined(seq![head] + list, separator) == head + separator + joined(list, separator),
    decreases list.len(),
{
    let all = seq![head] + list;
    if list.len() == 1 {
        assert(all.drop_last() =~= seq![head]);
        assert(all.last() == list[0]);
        assert(joined(seq![head], separator) == head);
    } else {
        joined_from_the_front(head, list.drop_last(), separator);
        assert(all.drop_last() =~= seq![head] + list.drop_last());
        assert(all.last() == list.last());
        assert(joined(all, separator) =~= head + separator + joined(list, separator));
    }
}

/// Joining puts the separator between neighbours and nowhere else.
pub proof fn law_joining_puts_separators_between(
    first: Seq<char>,
    list: Seq<Seq<char>>,
    separator: Seq<char>,
)
    ensures
        joined(Seq::<Seq<char>>::empty(), separator) == Seq::<char>::empty(),
        joined(seq![first], separator) == first,
        list.len() > 0 ==> joined(seq![first] + list, separator) == first + separator + joined(
            list,
            separator,
        ),
{
    if list.len() > 0 {
        joined_from_the_front(first, list, separator);
    }
}

/// Splitting once parts a text at its first separator; a text without one is not
/// parted.
pub proof fn law_splitting_once_takes_the_first(s: Seq<char>, separator: char)
    ensures
        match split_first(s, separator) {
            Some((before, after)) => {
                &&& s == before + seq![separator] + after
                &&& !before.contains(separator)
            },
            None => !s.contains(separator),
        },
{
    let set = CharSet::Not(separator);
    let n = leading(s, set) as int;
    leading_is_a_run(s, set);
    if n < s.len() {
        assert(s =~= s.take(n) + seq![separator] + s.skip(n + 1));
        assert forall|j: int| 0 <= j < n implies s.take(n)[j] != separator by {
            assert(set.has(s[j]));
        }
    } else {
        assert forall|j: int| 0 <= j < s.len() implies s[j] != separator by {
            assert(set.has(s[j]));
        }
    }
}

/// A line feed ends a line, together with one carriage return before it; the
/// last line needs no ending, and an empty text has no line.
pub proof fn law_line_feeds_end_lines(line: Seq<char>, rest: Seq<char>)
    requires
        !line.contains('\n'),
    ensures
        lines(Seq::<char>::empty()) == Seq::<Seq<char>>::empty(),
        line.len() > 0 ==> lines(line) == seq![line],
        line.len() > 0 && line.last() == '\r' ==> lines(line + seq!['\n'] + rest)
            == seq![line.drop_last()] + lines(rest),
        line.len() == 0 || line.last() != '\r' ==> lines(line + seq!['\n'] + rest) == seq![line]
            + lines(rest),
{
    let set = CharSet::Not('\n');
    let n = line.len() as int;
    assert forall|i: int| 0 <= i < n implies set.has(#[trigger] line[i]) by {
        assert(line.contains(line[i]));
    }
    leading_is_unique(line, set, n);
    let all = line + seq!['\n'] + rest;
    assert forall|i: int| 0 <= i < n implies set.has(#[trigger] all[i]) by {
        assert(all[i] == line[i]);
    }
    assert(all[n] == '\n');
    leading_is_unique(all, set, n);
    assert(all.take(n) =~= line);
    assert(all.skip(n + 1) =~= rest);
}

/// A number is written in digits, as many as it needs: the last one counts the
/// ones, and those before it write the tens. A negative number has a minus sign
/// before its magnitude.
pub proof fn law_decimals_are_positional(tens: nat, ones: nat)
    requires
        ones < 10,
    ensures
        decimal(ones) == seq![(0x30 + ones) as char],
        tens > 0 ==> decimal(tens * 10 + ones) == decimal(tens).push((0x30 + ones) as char),
        signed_decimal(tens as int) == decimal(tens),
        tens > 0 ==> signed_decimal(-(tens as int)) == seq!['-'] + decimal(tens),
{
    if tens > 0 {
        let n = tens * 10 + ones;
        assert(n / 10 == tens && n % 10 == ones);
    }
}

proof fn runs_end_at_the_separator(head: Seq<char>, separator: char, rest: Seq<char>)
    requires
        !head.contains(separator),
    ensures
        leading(head + seq![separator] + rest, CharSet::Not(separator)) == head.len(),
        leading(head, CharSet::Not(separator)) == head.len(),
{
    let set = CharSet::Not(separator);
    let s = head + seq![separator] + rest;
    let n = leading(s, set) as int;
    leading_is_a_run(s, set);
    assert(s[head.len() as int] == separator);
    if n > head.len() {
        assert(set.has(s[head.len() as int]));
    } else if n < head.len() {
        assert(!set.has(s[n]));
        assert(head.contains(head[n]));
    }
    let m = leading(head, set) as int;
    leading_is_a_run(head, set);
    if m < head.len() {
        assert(!set.has(head[m]));
        assert(head.contains(head[m]));
    }
}

/// A text is split once at a separator that nothing before it holds.
pub proof fn law_the_first_separator_splits(before: Seq<char>, separator: char, after: Seq<char>)
    requires
        !before.contains(separator),
    ensures
        split_first(before + seq![separator] + after, separator) == Some((before, after)),
        split_first(before, separator) is None,
{
    let s = before + seq![separator] + after;
    runs_end_at_the_separator(before, separator, after);
    assert(s.take(before.len() as int) =~= before);
    let n = before.len() as int;
    assert(s.skip(n + 1) =~= after);
}

/// Pieces that are joined by a separator that none of them holds are found again.
pub proof fn law_joined_pieces_are_found_again(list: Seq<Seq<char>>, separator: char)
    requires
        list.len() > 0,
        forall|i: int| 0 <= i < list.len() ==> !(#[trigger] list[i]).contains(separator),
    ensures
        pieces(joined(list, seq![separator]), separator) == list,
    decreases list.len(),
{
    let head = list[0];
    if list.len() == 1 {
        runs_end_at_the_separator(head, separator, Seq::empty());
        assert(list =~= seq![head]);
    } else {
        let others = list.drop_first();
        assert(list =~= seq![head] + others);
        assert forall|i: int| 0 <= i < others.len() implies !(#[trigger] others[i]).contains(
            separator,
        ) by {
            assert(others[i] == list[i + 1]);
        }
        joined_from_the_front(head, others, seq![separator]);
        law_joined_pieces_are_found_again(others, separator);
        let rest = joined(others, seq![separator]);
        let s = head + seq![separator] + rest;
        runs_end_at_the_separator(head, separator, rest);
        assert(s.take(head.len() as int) =~= head);
        let n = head.len() as int;
        assert(s.skip(n + 1) =~= rest);
    }
}

/// Trimming takes off what belongs to the set on both sides of what does not
/// begin or end with it.
pub proof fn law_trimming_takes_off_both_ends(
    left: Seq<char>,
    kept: Seq<char>,
    right: Seq<char>,
    set: CharSet,
)
    requires
        set.covers(left),
        set.covers(right),
        kept.len() > 0 ==> !set.has(kept[0]) && !set.has(kept.last()),
    ensures
        trimmed(left + kept + right, set) == kept,
{
    let s = left + kept + right;
    let n = leading(s, set) as int;
    leading_is_a_run(s, set);
    let rest = s.skip(n);
    let m = trailing(rest, set) as int;
    trailing_is_a_run(rest, set);
    let edge = left.len() as int;
    let end = edge + kept.len();
    if n < edge {
        assert(s[n] == left[n]);
        assert(set.has(left[n]));
    }
    if kept.len() == 0 {
        if n < s.len() {
            assert(s[n] == right[n - edge]);
            assert(set.has(right[n - edge]));
        }
    } else {
        assert(s[edge] == kept[0]);
        assert(!set.has(s[edge]));
        if n > edge {
            assert(set.has(s[edge]));
        }
        assert(n == edge);
        assert(rest =~= kept + right);
        let stop = rest.len() - m;
        if stop < kept.len() {
            assert(set.has(rest[kept.len() - 1]));
            assert(rest[kept.len() - 1] == kept.last());
        }
        if stop > kept.len() {
            assert(!set.has(rest[stop - 1]));
            assert(rest[stop - 1] == right[stop - 1 - kept.len()]);
            assert(set.has(right[stop - 1 - kept.len()]));
        }
        assert(trimmed(s, set) =~= kept);
    }
}

/// What two lists hold together, one of them holds.
pub(crate) proof fn either_list_holds<E>(a: Seq<E>, b: Seq<E>)
    ensures
        forall|e: E| #[trigger] (a + b).contains(e) <==> a.contains(e) || b.contains(e),
{
    let both = a + b;
    assert forall|e: E| #[trigger] both.contains(e) <==> a.contains(e) || b.contains(e) by {
        if both.contains(e) {
            let i = choose|i: int| 0 <= i < both.len() && both[i] == e;
            if i < a.len() {
                assert(a[i] == e);
            } else {
                assert(b[i - a.len()] == e);
            }
        }
        if a.contains(e) {
            let i = choose|i: int| 0 <= i < a.len() && a[i] == e;
            assert(both[i] == e);
        }
        if b.contains(e) {
            let i = choose|i: int| 0 <= i < b.len() && b[i] == e;
            assert(both[a.len() + i] == e);
        }
    }
}

} // verus!
