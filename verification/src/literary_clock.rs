//! Bounded literary-excerpt corpus used by the optional home-screen clock.

use crate::number::read_unsigned;
use crate::text::{
    find, from_chars, push_chars, punctuation_char, str_eq, to_chars, to_lower, trim, CharSet,
};
use vstd::prelude::*;
use vstd::slice::slice_subrange;

verus! {

/// The minutes of a day.
pub const MINUTES_PER_DAY: usize = 1_440;

/// The largest corpus file.
pub const MAX_CORPUS_BYTES: u64 = 2_097_152;

/// The largest number of records.
pub const MAX_CORPUS_RECORDS: usize = 5_000;

/// The longest time phrase.
pub const MAX_TIME_PHRASE_CHARACTERS: usize = 80;

/// The longest quote.
pub const MAX_QUOTE_CHARACTERS: usize = 800;

/// The longest title or author.
pub const MAX_CREDIT_FIELD_CHARACTERS: usize = 160;

// ---------------------------------------------------------------------------
// Outside types and calls
// ---------------------------------------------------------------------------
/// Styled text of the UI toolkit.
#[verifier::external_type_specification]
#[verifier::external_body]
pub struct ExStyledText(slint::StyledText);

/// The error of parsing Markdown into styled text.
#[verifier::external_type_specification]
#[verifier::external_body]
pub struct ExStyledTextFromMarkdownError(slint::StyledTextFromMarkdownError);

/// The error of reading a record.
#[verifier::external_type_specification]
#[verifier::external_body]
pub struct ExCsvError(csv::Error);

/// What `slint::StyledText::from_markdown` makes of a Markdown text, if it
/// accepts it.
pub uninterp spec fn styled(markdown: Seq<char>) -> Option<slint::StyledText>;

/// Calls `slint::StyledText::from_markdown`, which parses the Markdown text and
/// refuses what the toolkit cannot style. The outcome is a function of the
/// text alone.
#[verifier::external_body]
fn style_markdown(markdown: &str) -> (result: Result<
    slint::StyledText,
    slint::StyledTextFromMarkdownError,
>)
    ensures
        match result {
            Ok(text) => styled(markdown@) == Some(text),
            Err(_) => styled(markdown@) is None,
        },
{
    slint::StyledText::from_markdown(markdown)
}

/// Calls the `Clone` implementation of `slint::StyledText`, which shares the
/// paragraphs: the copy is the same styled text.
#[verifier::external_body]
pub(crate) fn copy_styled_text(text: &slint::StyledText) -> (copy: slint::StyledText)
    ensures
        copy == *text,
{
    text.clone()
}

/// The fields of each record that the `csv` crate reads from bytes with the
/// given delimiter, without a header row and with equally many fields in each
/// record. A record that cannot be read has none.
pub uninterp spec fn csv_records(input: Seq<u8>, delimiter: u8) -> Seq<Option<Seq<Seq<char>>>>;

/// The fields of each record, where it could be read.
pub open spec fn record_texts(records: Seq<Result<Vec<String>, csv::Error>>) -> Seq<
    Option<Seq<Seq<char>>>,
> {
    records.map_values(
        |record: Result<Vec<String>, csv::Error>|
            match record {
                Ok(fields) => Some(crate::text::texts(fields@)),
                Err(_) => None,
            },
    )
}

/// Reads every record with `csv::Reader::records`, configured by
/// `csv::ReaderBuilder` for the given delimiter, without headers and not
/// flexible. Which records there are is a function of bytes and delimiter.
#[verifier::external_body]
fn read_records(input: &[u8], delimiter: u8) -> (records: Vec<Result<Vec<String>, csv::Error>>)
    ensures
        record_texts(records@) == csv_records(input@, delimiter),
{
    csv::ReaderBuilder::new()
        .delimiter(delimiter)
        .has_headers(false)
        .flexible(false)
        .from_reader(input)
        .records()
        .map(|record| record.map(|fields| fields.iter().map(str::to_owned).collect()))
        .collect()
}

/// Formats a record error with its `Display` implementation. Nothing is said of
/// the text.
#[verifier::external_body]
fn csv_error_text(error: &csv::Error) -> (text: String) {
    format!("{error}")
}

/// Formats a Markdown error with its `Display` implementation. Nothing is said
/// of the text.
#[verifier::external_body]
fn markdown_error_text(error: &slint::StyledTextFromMarkdownError) -> (text: String) {
    format!("{error}")
}

// ---------------------------------------------------------------------------
// Excerpts
// ---------------------------------------------------------------------------
/// What an excerpt holds.
pub struct Excerpt {
    /// The styled quote.
    pub text: slint::StyledText,
    /// Work and author.
    pub credit: Seq<char>,
    /// Logical font size.
    pub font_size: u8,
}

/// One presentation-ready, attributed excerpt.
#[derive(Debug, PartialEq)]
pub struct LiteraryExcerpt {
    styled_text: slint::StyledText,
    credit: String,
    font_size: u8,
}

impl View for LiteraryExcerpt {
    type V = Excerpt;

    closed spec fn view(&self) -> Excerpt {
        Excerpt { text: self.styled_text, credit: self.credit@, font_size: self.font_size }
    }
}

impl Clone for LiteraryExcerpt {
    fn clone(&self) -> (copy: Self)
        ensures
            copy@ == self@,
    {
        LiteraryExcerpt {
            styled_text: copy_styled_text(&self.styled_text),
            credit: self.credit.clone(),
            font_size: self.font_size,
        }
    }
}

impl LiteraryExcerpt {
    /// Returns the Markdown-parsed excerpt with only its time phrase emphasized.
    pub fn styled_text(&self) -> (text: &slint::StyledText)
        ensures
            *text == self@.text,
    {
        &self.styled_text
    }

    /// Returns the short work and author attribution.
    pub fn credit(&self) -> (credit: &str)
        ensures
            credit@ == self@.credit,
    {
        self.credit.as_str()
    }

    /// Returns the bounded logical font size selected for the excerpt length.
    pub fn font_size(&self) -> (size: u8)
        ensures
            size == self@.font_size,
    {
        self.font_size
    }
}

/// A corpus could not be read or normalized safely.
#[derive(Debug)]
pub enum LiteraryClockError {
    /// File access failed.
    Io(String),
    /// Pipe-separated record decoding failed.
    Csv(csv::Error),
    /// The corpus shape or content violated a fixed bound.
    InvalidCorpus(&'static str),
    /// The toolkit rejected the escaped inline emphasis representation.
    StyledText(slint::StyledTextFromMarkdownError),
}

impl LiteraryClockError {
    /// Describes the error for an operator.
    pub fn message(&self) -> (message: String)
        ensures
            match self {
                LiteraryClockError::Io(error) => message@ == "cannot read literary corpus: "@
                    + error@,
                LiteraryClockError::Csv(_) => exists|detail: Seq<char>|
                    message@ == #[trigger] ("cannot parse literary corpus: "@ + detail),
                LiteraryClockError::InvalidCorpus(text) => message@ == text@,
                LiteraryClockError::StyledText(_) => exists|detail: Seq<char>|
                    message@ == #[trigger] ("cannot style literary excerpt: "@ + detail),
            },
    {
        let mut message: String = String::new();
        match self {
            LiteraryClockError::Io(error) => {
                message.append("cannot read literary corpus: ");
                message.append(error.as_str());
                assert(message@ =~= "cannot read literary corpus: "@ + error@);
            },
            LiteraryClockError::Csv(error) => {
                message.append("cannot parse literary corpus: ");
                let detail: String = csv_error_text(error);
                message.append(detail.as_str());
                assert(message@ =~= "cannot parse literary corpus: "@ + detail@);
            },
            LiteraryClockError::InvalidCorpus(text) => {
                message.append(text);
                assert(message@ =~= text@);
            },
            LiteraryClockError::StyledText(error) => {
                message.append("cannot style literary excerpt: ");
                let detail: String = markdown_error_text(error);
                message.append(detail.as_str());
                assert(message@ =~= "cannot style literary excerpt: "@ + detail@);
            },
        }
        message
    }
}

/// The minute of the day that a 24-hour `HH:MM` text names.
pub open spec fn minute_of(time: Seq<char>) -> Option<int> {
    if time.len() != 5 || time[2] != ':' {
        None
    } else {
        match (
            crate::number::unsigned_value(time.take(2), 10),
            crate::number::unsigned_value(time.skip(3), 10),
        ) {
            (Some(hour), Some(minute)) => if hour > 23 || minute > 59 {
                None
            } else {
                Some((hour * 60 + minute) as int)
            },
            _ => None,
        }
    }
}

/// Returns the minute of the day that a 24-hour `HH:MM` text names.
pub fn minute_index(time: &str) -> (minute: Option<usize>)
    ensures
        match minute {
            Some(minute) => minute_of(time@) == Some(minute as int) && minute < MINUTES_PER_DAY,
            None => minute_of(time@) is None,
        },
{
    let chars: Vec<char> = to_chars(time);
    if chars.len() != 5 || chars[2] != ':' {
        return None;
    }
    let hour: &[char] = slice_subrange(chars.as_slice(), 0, 2);
    let minute: &[char] = slice_subrange(chars.as_slice(), 3, 5);
    assert(hour@ =~= time@.take(2));
    assert(minute@ =~= time@.skip(3));
    match (read_unsigned(hour, 10, 23), read_unsigned(minute, 10, 59)) {
        (Some(hour), Some(minute)) => Some(hour as usize * 60 + minute as usize),
        _ => None,
    }
}

/// Whether a text has no white space at its ends, is not too long and holds no
/// control characters.
pub open spec fn is_bounded(value: Seq<char>, maximum: int) -> bool {
    &&& crate::text::trimmed(value, CharSet::Whitespace) == value
    &&& value.len() <= maximum
    &&& !CharSet::Control.meets(value)
}

fn bounded_optional_text(value: &[char], maximum: usize) -> (held: bool)
    ensures
        held == is_bounded(value@, maximum as int),
{
    let trimmed: &[char] = trim(value, CharSet::Whitespace);
    crate::text::chars_eq(trimmed, value) && value.len() <= maximum && !CharSet::Control.test_any(
        value,
    )
}

fn bounded_clean_text(value: &[char], maximum: usize) -> (held: bool)
    ensures
        held == (value@.len() > 0 && is_bounded(value@, maximum as int)),
{
    value.len() > 0 && bounded_optional_text(value, maximum)
}

/// The font size for a number of characters.
pub open spec fn font_size_for(characters: int) -> u8 {
    if characters <= 240 {
        30
    } else if characters <= 420 {
        26
    } else if characters <= 600 {
        23
    } else {
        20
    }
}

/// Returns the font size for a number of characters: longer excerpts are
/// smaller, down to a readable bound.
pub fn excerpt_font_size(character_count: usize) -> (size: u8)
    ensures
        size == font_size_for(character_count as int),
{
    if character_count <= 240 {
        30
    } else if character_count <= 420 {
        26
    } else if character_count <= 600 {
        23
    } else {
        20
    }
}

/// The text with a backslash before every punctuation character.
pub open spec fn escaped(s: Seq<char>) -> Seq<char>
    decreases s.len(),
{
    if s.len() == 0 {
        s
    } else if crate::text::is_punctuation(s.last()) {
        escaped(s.drop_last()) + seq!['\\', s.last()]
    } else {
        escaped(s.drop_last()).push(s.last())
    }
}

/// The quote in Markdown, with the phrase from `start` to `end` emphasized and
/// everything else literal.
pub open spec fn emphasized(quote: Seq<char>, start: int, end: int) -> Seq<char> {
    escaped(quote.take(start)) + "**"@ + escaped(quote.subrange(start, end)) + "**"@ + escaped(
        quote.skip(end),
    )
}

fn escape_markdown(output: &mut String, value: &[char])
    ensures
        final(output)@ == old(output)@ + escaped(value@),
{
    assert(output@ + escaped(value@.take(0)) =~= output@);
    for i in 0..value.len()
        invariant
            output@ == old(output)@ + escaped(value@.take(i as int)),
    {
        assert(value@.take(i + 1).drop_last() =~= value@.take(i as int));
        if punctuation_char(value[i]) {
            output.push('\\');
        }
        output.push(value[i]);
        assert(output@ =~= old(output)@ + escaped(value@.take(i + 1)));
    }
    assert(value@.take(value@.len() as int) =~= value@);
}

fn emphasized_markdown(quote: &[char], start: usize, end: usize) -> (markdown: String)
    requires
        start <= end <= quote@.len(),
    ensures
        markdown@ == emphasized(quote@, start as int, end as int),
{
    let mut markdown: String = String::new();
    let before: &[char] = slice_subrange(quote, 0, start);
    let phrase: &[char] = slice_subrange(quote, start, end);
    let after: &[char] = slice_subrange(quote, end, quote.len());
    assert(before@ =~= quote@.take(start as int));
    assert(after@ =~= quote@.skip(end as int));
    escape_markdown(&mut markdown, before);
    markdown.append("**");
    escape_markdown(&mut markdown, phrase);
    markdown.append("**");
    escape_markdown(&mut markdown, after);
    assert(markdown@ =~= emphasized(quote@, start as int, end as int));
    markdown
}

/// The text without the backslashes that stand before punctuation.
pub open spec fn unescaped(s: Seq<char>) -> Seq<char>
    decreases s.len(),
{
    if s.len() == 0 {
        s
    } else if s.len() >= 2 && s[0] == '\\' {
        seq![s[1]] + unescaped(s.skip(2))
    } else {
        seq![s[0]] + unescaped(s.skip(1))
    }
}

proof fn unescaping_goes_on(a: Seq<char>, b: Seq<char>)
    ensures
        unescaped(escaped(a) + b) == a + unescaped(b),
    decreases a.len(),
{
    if a.len() == 0 {
        assert(escaped(a) + b =~= b);
        assert(a + unescaped(b) =~= unescaped(b));
    } else {
        let last = a.last();
        let tail = if crate::text::is_punctuation(last) {
            seq!['\\', last] + b
        } else {
            seq![last] + b
        };
        assert(escaped(a) + b =~= escaped(a.drop_last()) + tail);
        unescaping_goes_on(a.drop_last(), tail);
        if crate::text::is_punctuation(last) {
            assert(tail.skip(2) =~= b);
        } else {
            assert(tail.skip(1) =~= b);
        }
        assert(unescaped(tail) =~= seq![last] + unescaped(b));
        assert(a.drop_last() + (seq![last] + unescaped(b)) =~= a + unescaped(b));
    }
}

/// Escaping loses nothing: the literal text can be read back.
pub proof fn law_escaping_is_reversible(s: Seq<char>)
    ensures
        unescaped(escaped(s)) == s,
{
    unescaping_goes_on(s, Seq::empty());
    assert(escaped(s) + Seq::<char>::empty() =~= escaped(s));
    assert(s + unescaped(Seq::<char>::empty()) =~= s);
}

/// The attribution of a work.
pub open spec fn credit_for(title: Seq<char>, author: Seq<char>) -> Seq<char> {
    if title.len() > 0 && author.len() > 0 {
        "— "@ + title + ", "@ + author
    } else if title.len() > 0 {
        "— "@ + title
    } else if author.len() > 0 {
        "— "@ + author
    } else {
        "— Source unavailable"@
    }
}

fn credit_line(title: &[char], author: &[char]) -> (credit: String)
    ensures
        credit@ == credit_for(title@, author@),
{
    if title.len() == 0 && author.len() == 0 {
        return "— Source unavailable".to_owned();
    }
    let mut credit: String = "— ".to_owned();
    push_chars(&mut credit, title);
    if title.len() > 0 && author.len() > 0 {
        credit.append(", ");
    }
    push_chars(&mut credit, author);
    assert(credit@ =~= credit_for(title@, author@));
    credit
}

/// An excerpt before its Markdown is styled.
pub struct Prepared {
    /// The minute of the day.
    pub minute: int,
    /// The quote in Markdown.
    pub markdown: Seq<char>,
    /// Work and author.
    pub credit: Seq<char>,
    /// Logical font size.
    pub font_size: u8,
}

/// What a record says, or why it is refused. A record has a time, a time
/// phrase, a quote that holds the phrase in any case, a title, an author and a
/// content flag.
pub open spec fn prepared(fields: Seq<Seq<char>>) -> Result<Prepared, Seq<char>> {
    let time = crate::text::trimmed(fields[0], CharSet::Whitespace);
    let phrase = crate::text::trimmed(fields[1], CharSet::Whitespace);
    let quote = crate::text::trimmed(fields[2], CharSet::Whitespace);
    let title = crate::text::trimmed(fields[3], CharSet::Whitespace);
    let author = crate::text::trimmed(fields[4], CharSet::Whitespace);
    let at = crate::pattern::first_position(
        crate::text::lowered(quote),
        crate::text::lowered(phrase),
    );
    if fields.len() != 6 {
        Err("every literary record must contain exactly six fields"@)
    } else if fields[5] != "NO"@ && fields[5] != "YES"@ {
        Err("literary record content flag must be YES or NO"@)
    } else if minute_of(time) is None {
        Err("literary record time must use 24-hour HH:MM"@)
    } else if phrase.len() == 0 || !is_bounded(phrase, MAX_TIME_PHRASE_CHARACTERS as int)
        || !is_bounded(title, MAX_CREDIT_FIELD_CHARACTERS as int) || !is_bounded(
        author,
        MAX_CREDIT_FIELD_CHARACTERS as int,
    ) {
        Err("literary record metadata is oversized or contains controls"@)
    } else if quote.len() == 0 || !is_bounded(quote, MAX_QUOTE_CHARACTERS as int) {
        Err("literary excerpt is empty, exceeds 800 characters, or contains controls"@)
    } else if !crate::text::occurs(crate::text::lowered(quote), crate::text::lowered(phrase)) {
        Err("literary excerpt does not contain its declared time phrase"@)
    } else {
        Ok(
            Prepared {
                minute: minute_of(time)->0,
                markdown: emphasized(quote, at, at + phrase.len()),
                credit: credit_for(title, author),
                font_size: font_size_for(quote.len() as int),
            },
        )
    }
}

/// An excerpt whose Markdown is not styled yet.
#[derive(Debug, Clone, PartialEq, Eq)]
pub struct PreparedExcerpt {
    /// The minute of the day.
    pub minute: usize,
    /// The quote in Markdown.
    pub markdown: String,
    /// Work and author.
    pub credit: String,
    /// Logical font size.
    pub font_size: u8,
}

impl View for PreparedExcerpt {
    type V = Prepared;

    open spec fn view(&self) -> Prepared {
        Prepared {
            minute: self.minute as int,
            markdown: self.markdown@,
            credit: self.credit@,
            font_size: self.font_size,
        }
    }
}

/// Reads one record, up to the styling of its Markdown.
pub fn prepare_record(record: &Vec<String>) -> (result: Result<PreparedExcerpt, &'static str>)
    ensures
        match result {
            Ok(excerpt) => {
                &&& prepared(crate::text::texts(record@)) == Ok::<Prepared, Seq<char>>(excerpt@)
                &&& excerpt.minute < MINUTES_PER_DAY
            },
            Err(message) => prepared(crate::text::texts(record@)) == Err::<Prepared, Seq<char>>(
                message@,
            ),
        },
{
    let ghost fields = crate::text::texts(record@);
    if record.len() != 6 {
        return Err("every literary record must contain exactly six fields");
    }
    assert(fields[0] == record@[0]@ && fields[1] == record@[1]@ && fields[2] == record@[2]@);
    assert(fields[3] == record@[3]@ && fields[4] == record@[4]@ && fields[5] == record@[5]@);
    if !str_eq(record[5].as_str(), "NO") && !str_eq(record[5].as_str(), "YES") {
        return Err("literary record content flag must be YES or NO");
    }
    let time: Vec<char> = to_chars(record[0].as_str());
    let phrase: Vec<char> = to_chars(record[1].as_str());
    let quote: Vec<char> = to_chars(record[2].as_str());
    let title: Vec<char> = to_chars(record[3].as_str());
    let author: Vec<char> = to_chars(record[4].as_str());
    let time: &[char] = trim(time.as_slice(), CharSet::Whitespace);
    let phrase: &[char] = trim(phrase.as_slice(), CharSet::Whitespace);
    let quote: &[char] = trim(quote.as_slice(), CharSet::Whitespace);
    let title: &[char] = trim(title.as_slice(), CharSet::Whitespace);
    let author: &[char] = trim(author.as_slice(), CharSet::Whitespace);
    let minute: usize = match minute_index(from_chars(time).as_str()) {
        Some(minute) => minute,
        None => {
            return Err("literary record time must use 24-hour HH:MM");
        },
    };
    if !bounded_clean_text(phrase, MAX_TIME_PHRASE_CHARACTERS) || !bounded_optional_text(
        title,
        MAX_CREDIT_FIELD_CHARACTERS,
    ) || !bounded_optional_text(author, MAX_CREDIT_FIELD_CHARACTERS) {
        return Err("literary record metadata is oversized or contains controls");
    }
    if !bounded_clean_text(quote, MAX_QUOTE_CHARACTERS) {
        return Err(
            "literary excerpt is empty, exceeds 800 characters, or contains controls",
        );
    }
    let (start, end): (usize, usize) = match find_phrase(quote, phrase) {
        Some(range) => range,
        None => {
            return Err("literary excerpt does not contain its declared time phrase");
        },
    };
    Ok(
        PreparedExcerpt {
            minute,
            markdown: emphasized_markdown(quote, start, end),
            credit: credit_line(title, author),
            font_size: excerpt_font_size(quote.len()),
        },
    )
}

/// Finds the phrase in the quote, in any case of its ASCII letters.
fn find_phrase(quote: &[char], phrase: &[char]) -> (range: Option<(usize, usize)>)
    ensures
        ({
            let text = crate::text::lowered(quote@);
            let needle = crate::text::lowered(phrase@);
            match range {
                Some((start, end)) => {
                    &&& crate::text::occurs(text, needle)
                    &&& start == crate::pattern::first_position(text, needle)
                    &&& end == start + phrase@.len()
                    &&& end <= quote@.len()
                },
                None => !crate::text::occurs(text, needle),
            }
        }),
{
    let text: Vec<char> = to_lower(quote);
    let needle: Vec<char> = to_lower(phrase);
    let length: usize = text.len();
    match find(text.as_slice(), needle.as_slice()) {
        Some(start) => {
            proof {
                crate::pattern::first_position_is_unique(text@, needle@, start as int);
            }
            Some((start, start + needle.len()))
        },
        None => None,
    }
}

// ---------------------------------------------------------------------------
// Corpus
// ---------------------------------------------------------------------------
/// What each excerpt holds.
pub open spec fn excerpts(list: Seq<LiteraryExcerpt>) -> Seq<Excerpt> {
    list.map_values(|excerpt: LiteraryExcerpt| excerpt@)
}

/// Why a corpus is refused.
pub enum CorpusProblem {
    /// A rule of the format is broken.
    Invalid { message: Seq<char> },
    /// A record could not be read.
    Unreadable,
    /// An excerpt could not be styled.
    Unstyled,
}

/// A group for each minute of the day, without any excerpt.
pub open spec fn no_groups() -> Seq<Seq<Excerpt>> {
    Seq::new(MINUTES_PER_DAY as nat, |i: int| Seq::<Excerpt>::empty())
}

/// The groups after one more record.
pub open spec fn groups_after(
    groups: Seq<Seq<Excerpt>>,
    record: Option<Seq<Seq<char>>>,
    index: int,
) -> Result<Seq<Seq<Excerpt>>, CorpusProblem> {
    if index >= MAX_CORPUS_RECORDS {
        Err(CorpusProblem::Invalid { message: "corpus contains more than 5,000 records"@ })
    } else {
        match record {
            None => Err(CorpusProblem::Unreadable),
            Some(fields) => match prepared(fields) {
                Err(message) => Err(CorpusProblem::Invalid { message }),
                Ok(excerpt) => match styled(excerpt.markdown) {
                    None => Err(CorpusProblem::Unstyled),
                    Some(text) => Ok(
                        groups.update(
                            excerpt.minute,
                            groups[excerpt.minute].push(
                                Excerpt {
                                    text,
                                    credit: excerpt.credit,
                                    font_size: excerpt.font_size,
                                },
                            ),
                        ),
                    ),
                },
            },
        }
    }
}

/// The groups after the first `n` records, or what is wrong with the first bad
/// one.
pub open spec fn groups_of(records: Seq<Option<Seq<Seq<char>>>>, n: int) -> Result<
    Seq<Seq<Excerpt>>,
    CorpusProblem,
>
    decreases n,
{
    if n <= 0 {
        Ok(no_groups())
    } else {
        match groups_of(records, n - 1) {
            Err(problem) => Err(problem),
            Ok(groups) => groups_after(groups, records[n - 1], n - 1),
        }
    }
}

/// What a list of records makes.
pub open spec fn corpus_of(records: Seq<Option<Seq<Seq<char>>>>) -> Result<
    Seq<Seq<Excerpt>>,
    CorpusProblem,
> {
    match groups_of(records, records.len() as int) {
        Err(problem) => Err(problem),
        Ok(groups) => if records.len() == 0 {
            Err(CorpusProblem::Invalid { message: "corpus contains no usable excerpts"@ })
        } else {
            Ok(groups)
        },
    }
}

/// The number of the first `n` groups that hold an excerpt.
pub open spec fn covered(groups: Seq<Seq<Excerpt>>, n: int) -> nat
    decreases n,
{
    if n <= 0 {
        0
    } else {
        covered(groups, n - 1) + (if groups[n - 1].len() > 0 {
            1nat
        } else {
            0nat
        })
    }
}

/// The number of excerpts in the first `n` groups.
pub open spec fn total(groups: Seq<Seq<Excerpt>>, n: int) -> nat
    decreases n,
{
    if n <= 0 {
        0
    } else {
        total(groups, n - 1) + groups[n - 1].len()
    }
}

/// Every bounded excerpt grouped by minute of day.
#[derive(Debug)]
pub struct LiteraryClockCorpus {
    entries: Vec<Vec<LiteraryExcerpt>>,
    entry_count: usize,
    covered_minutes: usize,
}

impl View for LiteraryClockCorpus {
    type V = Seq<Seq<Excerpt>>;

    closed spec fn view(&self) -> Seq<Seq<Excerpt>> {
        groups_in(self.entries@)
    }
}

/// What each group holds.
pub open spec fn groups_in(entries: Seq<Vec<LiteraryExcerpt>>) -> Seq<Seq<Excerpt>> {
    entries.map_values(|group: Vec<LiteraryExcerpt>| excerpts(group@))
}

/// Adding an excerpt to a group adds one to the total, and one to the covered
/// groups when the group was empty.
proof fn one_more_excerpt(groups: Seq<Seq<Excerpt>>, minute: int, excerpt: Excerpt, n: int)
    requires
        0 <= minute < groups.len(),
        0 <= n <= groups.len(),
    ensures
        ({
            let after = groups.update(minute, groups[minute].push(excerpt));
            &&& total(after, n) == total(groups, n) + (if minute < n {
                1nat
            } else {
                0nat
            })
            &&& covered(after, n) == covered(groups, n) + (if minute < n && groups[minute].len()
                == 0 {
                1nat
            } else {
                0nat
            })
        }),
    decreases n,
{
    if n > 0 {
        one_more_excerpt(groups, minute, excerpt, n - 1);
    }
}

proof fn nothing_at_first(n: int)
    requires
        0 <= n <= MINUTES_PER_DAY,
    ensures
        total(no_groups(), n) == 0,
        covered(no_groups(), n) == 0,
    decreases n,
{
    if n > 0 {
        nothing_at_first(n - 1);
    }
}

proof fn covered_is_bounded(groups: Seq<Seq<Excerpt>>, n: int)
    requires
        0 <= n,
    ensures
        covered(groups, n) <= n,
    decreases n,
{
    if n > 0 {
        covered_is_bounded(groups, n - 1);
    }
}

/// A problem with an early record is the problem of the whole list.
proof fn problems_stay(records: Seq<Option<Seq<Seq<char>>>>, i: int, n: int)
    requires
        0 <= i <= n,
        groups_of(records, i) is Err,
    ensures
        groups_of(records, n) == groups_of(records, i),
    decreases n,
{
    if i < n {
        problems_stay(records, i, n - 1);
    }
}

impl LiteraryClockCorpus {
    #[verifier::type_invariant]
    spec fn inv(&self) -> bool {
        &&& self.entries@.len() == MINUTES_PER_DAY
        &&& self.entry_count == total(groups_in(self.entries@), MINUTES_PER_DAY as int)
        &&& self.covered_minutes == covered(groups_in(self.entries@), MINUTES_PER_DAY as int)
    }

    fn new() -> (corpus: Self)
        ensures
            corpus@ == no_groups(),
            corpus.entry_count == 0,
    {
        let mut entries: Vec<Vec<LiteraryExcerpt>> = Vec::new();
        for i in 0..MINUTES_PER_DAY
            invariant
                entries@.len() == i,
                forall|j: int| 0 <= j < i ==> (#[trigger] entries@[j])@.len() == 0,
        {
            entries.push(Vec::new());
        }
        proof {
            assert(groups_in(entries@) =~= no_groups()) by {
                assert forall|j: int| 0 <= j < MINUTES_PER_DAY implies #[trigger] groups_in(
                    entries@,
                )[j] == no_groups()[j] by {
                    assert(excerpts(entries@[j]@) =~= Seq::<Excerpt>::empty());
                }
            }
            nothing_at_first(MINUTES_PER_DAY as int);
        }
        LiteraryClockCorpus { entries, entry_count: 0, covered_minutes: 0 }
    }

    /// The corpus with one more excerpt.
    fn with(self, minute: usize, excerpt: LiteraryExcerpt) -> (corpus: Self)
        requires
            minute < MINUTES_PER_DAY,
            self.entry_count < MAX_CORPUS_RECORDS,
        ensures
            corpus@ == self@.update(minute as int, self@[minute as int].push(excerpt@)),
            corpus.entry_count == self.entry_count + 1,
    {
        proof {
            use_type_invariant(&self);
            one_more_excerpt(
                groups_in(self.entries@),
                minute as int,
                excerpt@,
                MINUTES_PER_DAY as int,
            );
            covered_is_bounded(groups_in(self.entries@), MINUTES_PER_DAY as int);
        }
        let ghost before = groups_in(self.entries@);
        let ghost item = excerpt@;
        let mut entries: Vec<Vec<LiteraryExcerpt>> = self.entries;
        let ghost given = entries@;
        let mut group: Vec<LiteraryExcerpt> = Vec::new();
        core::mem::swap(&mut entries[minute], &mut group);
        assert(group@ == given[minute as int]@);
        let fresh: bool = group.len() == 0;
        group.push(excerpt);
        assert(excerpts(group@) =~= before[minute as int].push(item));
        entries[minute] = group;
        assert(groups_in(entries@) =~= before.update(
            minute as int,
            before[minute as int].push(item),
        ));
        let covered_minutes: usize = if fresh {
            self.covered_minutes + 1
        } else {
            self.covered_minutes
        };
        LiteraryClockCorpus { entries, entry_count: self.entry_count + 1, covered_minutes }
    }

    /// Whether the outcome is what a list of records makes.
    pub open spec fn is_outcome_of(
        result: Result<LiteraryClockCorpus, LiteraryClockError>,
        records: Seq<Option<Seq<Seq<char>>>>,
    ) -> bool {
        match result {
            Ok(corpus) => {
                &&& corpus_of(records) == Ok::<_, CorpusProblem>(corpus@)
                &&& corpus.spec_len() == records.len()
            },
            Err(LiteraryClockError::InvalidCorpus(message)) => corpus_of(records) == Err::<
                Seq<Seq<Excerpt>>,
                _,
            >(CorpusProblem::Invalid { message: message@ }),
            Err(LiteraryClockError::Csv(_)) => corpus_of(records) == Err::<Seq<Seq<Excerpt>>, _>(
                CorpusProblem::Unreadable,
            ),
            Err(LiteraryClockError::StyledText(_)) => corpus_of(records) == Err::<
                Seq<Seq<Excerpt>>,
                _,
            >(CorpusProblem::Unstyled),
            Err(LiteraryClockError::Io(_)) => false,
        }
    }

    /// Builds a corpus from the records of a file.
    pub fn from_records(records: Vec<Result<Vec<String>, csv::Error>>) -> (result: Result<
        Self,
        LiteraryClockError,
    >)
        ensures
            Self::is_outcome_of(result, record_texts(records@)),
            result matches Err(LiteraryClockError::Csv(error)) ==> exists|i: int|
                0 <= i < records@.len() && (#[trigger] records@[i]) == Err::<
                    Vec<String>,
                    csv::Error,
                >(error) && groups_of(record_texts(records@), i) is Ok,
    {
        let ghost all = record_texts(records@);
        let ghost given = records@;
        let count: usize = records.len();
        let mut rest: Vec<Result<Vec<String>, csv::Error>> = records;
        let mut corpus: LiteraryClockCorpus = LiteraryClockCorpus::new();
        let mut i: usize = 0;
        while i < count
            invariant
                i <= count == given.len(),
                i <= MAX_CORPUS_RECORDS,
                all == record_texts(given),
                given == records@,
                rest@.len() == given.len(),
                forall|j: int| i <= j < count ==> #[trigger] rest@[j] == given[j],
                groups_of(all, i as int) == Ok::<_, CorpusProblem>(corpus@),
                corpus.entry_count == i,
            decreases count - i,
        {
            proof {
                assert(groups_of(all, i + 1) == groups_after(corpus@, all[i as int], i as int));
                if groups_of(all, i + 1) is Err {
                    problems_stay(all, i + 1, count as int);
                }
            }
            if i >= MAX_CORPUS_RECORDS {
                return Err(
                    LiteraryClockError::InvalidCorpus("corpus contains more than 5,000 records"),
                );
            }
            let mut record: Result<Vec<String>, csv::Error> = Ok(Vec::new());
            core::mem::swap(&mut rest[i], &mut record);
            assert(record == given[i as int]);
            let fields: Vec<String> = match record {
                Ok(fields) => fields,
                Err(error) => {
                    assert(given[i as int] == Err::<Vec<String>, csv::Error>(error));
                    return Err(LiteraryClockError::Csv(error));
                },
            };
            assert(all[i as int] == Some(crate::text::texts(fields@)));
            let excerpt: PreparedExcerpt = match prepare_record(&fields) {
                Ok(excerpt) => excerpt,
                Err(message) => {
                    return Err(LiteraryClockError::InvalidCorpus(message));
                },
            };
            let styled_text: slint::StyledText = match style_markdown(excerpt.markdown.as_str()) {
                Ok(styled_text) => styled_text,
                Err(error) => {
                    return Err(LiteraryClockError::StyledText(error));
                },
            };
            corpus = corpus.with(
                excerpt.minute,
                LiteraryExcerpt {
                    styled_text,
                    credit: excerpt.credit,
                    font_size: excerpt.font_size,
                },
            );
            i = i + 1;
        }
        if count == 0 {
            return Err(LiteraryClockError::InvalidCorpus("corpus contains no usable excerpts"));
        }
        Ok(corpus)
    }

    /// Parses the six-field pipe-separated corpus format.
    pub fn from_pipe_separated(input: &[u8]) -> (result: Result<Self, LiteraryClockError>)
        ensures
            if input@.len() == 0 || input@.len() > MAX_CORPUS_BYTES {
                result matches Err(LiteraryClockError::InvalidCorpus(message)) && message@
                    == "corpus must contain at most 2 MiB"@
            } else {
                Self::is_outcome_of(result, csv_records(input@, '|' as u8))
            },
    {
        if input.len() == 0 || input.len() as u64 > MAX_CORPUS_BYTES {
            return Err(LiteraryClockError::InvalidCorpus("corpus must contain at most 2 MiB"));
        }
        Self::from_records(read_records(input, 124))
    }

    /// Accepts or refuses a corpus file before it is read.
    pub fn check_file(is_regular: bool, length: u64) -> (result: Result<(), &'static str>)
        ensures
            match result {
                Ok(()) => is_regular && 0 < length <= MAX_CORPUS_BYTES,
                Err(message) => !(is_regular && 0 < length <= MAX_CORPUS_BYTES) && message@
                    == "corpus must be a non-empty regular file no larger than 2 MiB"@,
            },
    {
        if !is_regular || length == 0 || length > MAX_CORPUS_BYTES {
            return Err("corpus must be a non-empty regular file no larger than 2 MiB");
        }
        Ok(())
    }

    /// Accepts or refuses the number of bytes that were read.
    pub fn check_read(length: u64) -> (result: Result<(), &'static str>)
        ensures
            match result {
                Ok(()) => length <= MAX_CORPUS_BYTES,
                Err(message) => length > MAX_CORPUS_BYTES && message@
                    == "corpus grew beyond the 2 MiB read bound"@,
            },
    {
        if length > MAX_CORPUS_BYTES {
            return Err("corpus grew beyond the 2 MiB read bound");
        }
        Ok(())
    }

    /// The excerpt for a time and a selector.
    pub open spec fn chosen(groups: Seq<Seq<Excerpt>>, time: Seq<char>, selector: u64) -> Option<
        Excerpt,
    > {
        match minute_of(time) {
            Some(minute) => if groups[minute].len() == 0 {
                None
            } else {
                Some(groups[minute][selector as int % groups[minute].len() as int])
            },
            None => None,
        }
    }

    /// Returns one deterministic excerpt registered for an exact 24-hour
    /// `HH:MM` key.
    ///
    /// The selector lets the caller rotate through every excerpt for a minute.
    pub fn excerpt_at(&self, time: &str, selector: u64) -> (excerpt: Option<&LiteraryExcerpt>)
        ensures
            match excerpt {
                Some(excerpt) => Self::chosen(self@, time@, selector) == Some(excerpt@),
                None => Self::chosen(self@, time@, selector) is None,
            },
    {
        proof {
            use_type_invariant(self);
        }
        match minute_index(time) {
            Some(minute) => {
                let group: &Vec<LiteraryExcerpt> = &self.entries[minute];
                assert(self@[minute as int] == excerpts(group@));
                if group.len() == 0 {
                    return None;
                }
                let index: usize = (selector % group.len() as u64) as usize;
                assert(excerpts(group@)[index as int] == group@[index as int]@);
                Some(&group[index])
            },
            None => None,
        }
    }

    /// The number of excerpts.
    pub closed spec fn spec_len(&self) -> nat {
        self.entry_count as nat
    }

    /// Returns the number of excerpts.
    pub fn len(&self) -> (count: usize)
        ensures
            count == self.spec_len(),
            count == total(self@, MINUTES_PER_DAY as int),
    {
        proof {
            use_type_invariant(self);
        }
        self.entry_count
    }

    /// Reports whether the corpus has no usable entries.
    pub fn is_empty(&self) -> (empty: bool)
        ensures
            empty == (self.spec_len() == 0),
            empty == (total(self@, MINUTES_PER_DAY as int) == 0),
    {
        proof {
            use_type_invariant(self);
        }
        self.entry_count == 0
    }

    /// Returns the number of clock minutes represented by at least one excerpt.
    pub fn covered_minutes(&self) -> (minutes: usize)
        ensures
            minutes == covered(self@, MINUTES_PER_DAY as int),
    {
        proof {
            use_type_invariant(self);
        }
        self.covered_minutes
    }
}

/// Selectors rotate: one more than the last excerpt of a minute leads back to
/// its first, and each excerpt of a minute has a selector.
pub proof fn law_selectors_rotate_through_the_group(
    groups: Seq<Seq<Excerpt>>,
    time: Seq<char>,
    selector: u64,
    i: int,
)
    requires
        minute_of(time) is Some,
        0 <= i < groups[minute_of(time)->0].len() <= u64::MAX,
        selector + groups[minute_of(time)->0].len() <= u64::MAX,
    ensures
        LiteraryClockCorpus::chosen(groups, time, i as u64) == Some(
            groups[minute_of(time)->0][i],
        ),
        LiteraryClockCorpus::chosen(
            groups,
            time,
            (selector + groups[minute_of(time)->0].len()) as u64,
        ) == LiteraryClockCorpus::chosen(groups, time, selector),
{
    let count = groups[minute_of(time)->0].len() as int;
    vstd::arithmetic::div_mod::lemma_small_mod(i as nat, count as nat);
    vstd::arithmetic::div_mod::lemma_mod_add_multiples_vanish(selector as int, count);
}

/// Every record is retained: an accepted list gives as many excerpts as it has
/// records.
pub proof fn law_every_record_is_retained(records: Seq<Option<Seq<Seq<char>>>>, n: int)
    requires
        0 <= n <= records.len(),
        groups_of(records, n) is Ok,
    ensures
        groups_of(records, n)->Ok_0.len() == MINUTES_PER_DAY,
        total(groups_of(records, n)->Ok_0, MINUTES_PER_DAY as int) == n,
    decreases n,
{
    if n == 0 {
        nothing_at_first(MINUTES_PER_DAY as int);
    } else {
        law_every_record_is_retained(records, n - 1);
        let groups = groups_of(records, n - 1)->Ok_0;
        let excerpt = prepared(records[n - 1]->0)->Ok_0;
        one_more_excerpt(
            groups,
            excerpt.minute,
            Excerpt {
                text: styled(excerpt.markdown)->0,
                credit: excerpt.credit,
                font_size: excerpt.font_size,
            },
            MINUTES_PER_DAY as int,
        );
    }
}

// ---------------------------------------------------------------------------
// What a corpus holds
// ---------------------------------------------------------------------------
/// A time is written with two digits for the hour, a colon and two for the
/// minute, and names the minute of the day that these count; hours end at 23
/// and minutes at 59. Nothing that has no colon in the middle is a time.
pub proof fn law_times_name_minutes_of_the_day(time: Seq<char>, h: nat, g: nat, m: nat, n: nat)
    requires
        h < 10,
        g < 10,
        m < 10,
        n < 10,
    ensures
        ({
            let written = seq![
                (0x30 + h) as char,
                (0x30 + g) as char,
                ':',
                (0x30 + m) as char,
                (0x30 + n) as char,
            ];
            let hour = 10 * h + g;
            let minute = 10 * m + n;
            &&& hour < 24 && minute < 60 ==> minute_of(written) == Some((60 * hour + minute) as int)
            &&& hour >= 24 || minute >= 60 ==> minute_of(written) is None
        }),
        minute_of(time) is Some ==> time.len() == 5 && time[2] == ':' && 0 <= minute_of(time)->0
            < 24 * 60,
{
    let written = seq![
        (0x30 + h) as char,
        (0x30 + g) as char,
        ':',
        (0x30 + m) as char,
        (0x30 + n) as char,
    ];
    two_digits((0x30 + h) as char, (0x30 + g) as char, h, g);
    two_digits((0x30 + m) as char, (0x30 + n) as char, m, n);
    assert(written.take(2) =~= seq![(0x30 + h) as char, (0x30 + g) as char]);
    assert(written.skip(3) =~= seq![(0x30 + m) as char, (0x30 + n) as char]);
}

proof fn two_digits(a: char, b: char, tens: nat, ones: nat)
    requires
        tens < 10,
        ones < 10,
        a == (0x30 + tens) as char,
        b == (0x30 + ones) as char,
    ensures
        crate::number::unsigned_value(seq![a, b], 10) == Some((10 * tens + ones) as nat),
{
    let empty = Seq::<char>::empty();
    crate::number::law_values_are_positional(empty, a, 10);
    crate::number::law_values_are_positional(empty.push(a), b, 10);
    assert(empty.push(a).push(b) =~= seq![a, b]);
    assert(a as u32 == 0x30 + tens && b as u32 == 0x30 + ones);
    crate::number::law_digits_have_their_values(a, 10);
    crate::number::law_digits_have_their_values(b, 10);
}

/// Escaping goes character by character: a backslash before each character of
/// ASCII punctuation, and nothing before any other.
pub proof fn law_escaping_goes_character_by_character(s: Seq<char>, c: char)
    ensures
        escaped(Seq::<char>::empty()) == Seq::<char>::empty(),
        ({
            let code = c as u32;
            let punctuation = 0x21 <= code <= 0x2f || 0x3a <= code <= 0x40 || 0x5b <= code <= 0x60
                || 0x7b <= code <= 0x7e;
            escaped(s.push(c)) == escaped(s) + (if punctuation {
                seq!['\\', c]
            } else {
                seq![c]
            })
        }),
{
    assert(s.push(c).drop_last() =~= s);
    assert(escaped(s).push(c) =~= escaped(s) + seq![c]);
}

/// The emphasis is put around the phrase: read back, the excerpt is the quote
/// with two stars before the phrase and two behind it.
pub proof fn law_emphasis_surrounds_the_phrase(quote: Seq<char>, start: int, end: int)
    requires
        0 <= start <= end <= quote.len(),
    ensures
        unescaped(emphasized(quote, start, end)) == quote.take(start) + seq!['*', '*']
            + quote.subrange(start, end) + seq!['*', '*'] + quote.skip(end),
{
    let a = quote.take(start);
    let b = quote.subrange(start, end);
    let c = quote.skip(end);
    reveal_strlit("**");
    let stars = "**"@;
    assert(stars =~= seq!['*', '*']);
    let tail = stars + escaped(c);
    assert(emphasized(quote, start, end) =~= escaped(a) + (stars + (escaped(b) + tail)));
    unescaping_goes_on(a, stars + (escaped(b) + tail));
    stars_stay(escaped(b) + tail);
    unescaping_goes_on(b, tail);
    stars_stay(escaped(c));
    unescaping_goes_on(c, Seq::<char>::empty());
    assert(escaped(c) + Seq::<char>::empty() =~= escaped(c));
    assert(unescaped(emphasized(quote, start, end)) =~= a + (stars + (b + (stars + c))));
    assert(a + (stars + (b + (stars + c))) =~= a + seq!['*', '*'] + b + seq!['*', '*'] + c);
}

proof fn stars_stay(rest: Seq<char>)
    ensures
        unescaped("**"@ + rest) == "**"@ + unescaped(rest),
{
    reveal_strlit("**");
    let all = "**"@ + rest;
    assert(all.skip(1) =~= seq!['*'] + rest);
    assert(all.skip(1).skip(1) =~= rest);
    assert(unescaped(all.skip(1)) == seq!['*'] + unescaped(rest));
    assert(unescaped(all) =~= "**"@ + unescaped(rest));
}

/// The characters of a text are at most `maximum`, none of them a control
/// character and neither the first nor the last white space.
pub open spec fn clean(text: Seq<char>, maximum: int) -> bool {
    &&& text.len() <= maximum
    &&& forall|i: int| 0 <= i < text.len() ==> !CharSet::Control.has(#[trigger] text[i])
    &&& text.len() > 0 ==> !CharSet::Whitespace.has(text[0]) && !CharSet::Whitespace.has(
        text.last(),
    )
}

proof fn clean_texts_are_bounded(text: Seq<char>, maximum: int)
    ensures
        is_bounded(text, maximum) <==> clean(text, maximum),
{
    let set = CharSet::Whitespace;
    crate::text::law_trimming_stops_at_the_first_other(text, set);
    if clean(text, maximum) {
        crate::text::leading_is_unique(text, set, 0);
        assert(text.skip(0) =~= text);
        crate::text::trailing_is_unique(text, set, 0);
        assert(text.take(text.len() as int) =~= text);
    }
    if is_bounded(text, maximum) {
        assert forall|i: int| 0 <= i < text.len() implies !CharSet::Control.has(
            #[trigger] text[i],
        ) by {}
    }
}

/// A record is accepted exactly when it has six fields whose last one is YES or
/// NO, its time is one, its phrase has 1 to 80 characters, its quote 1 to 800,
/// and its title and author at most 160 each, all without controls, and its
/// quote holds its phrase, in any case. White space around a field does not
/// count.
pub proof fn law_records_are_accepted_when_complete(fields: Seq<Seq<char>>)
    ensures
        prepared(fields) is Ok <==> {
            let field = |i: int| crate::text::trimmed(fields[i], CharSet::Whitespace);
            &&& fields.len() == 6
            &&& fields[5] == "YES"@ || fields[5] == "NO"@
            &&& minute_of(field(0)) is Some
            &&& field(1).len() > 0 && clean(field(1), 80)
            &&& field(2).len() > 0 && clean(field(2), 800)
            &&& clean(field(3), 160)
            &&& clean(field(4), 160)
            &&& crate::text::occurs(
                crate::text::lowered(field(2)),
                crate::text::lowered(field(1)),
            )
        },
{
    let field = |i: int| crate::text::trimmed(fields[i], CharSet::Whitespace);
    clean_texts_are_bounded(field(1), 80);
    clean_texts_are_bounded(field(2), 800);
    clean_texts_are_bounded(field(3), 160);
    clean_texts_are_bounded(field(4), 160);
}

/// An accepted record is filed at the minute that its time names. Its excerpt is
/// its quote, with the first place where the phrase stands emphasized; its
/// credit is that of its title and author, and its size goes by the length of
/// the quote.
pub proof fn law_records_become_their_excerpts(fields: Seq<Seq<char>>)
    requires
        prepared(fields) is Ok,
    ensures
        ({
            let excerpt = prepared(fields)->Ok_0;
            let field = |i: int| crate::text::trimmed(fields[i], CharSet::Whitespace);
            let quote = field(2);
            let length = field(1).len() as int;
            &&& minute_of(field(0)) == Some(excerpt.minute)
            &&& excerpt.credit == credit_for(field(3), field(4))
            &&& excerpt.font_size == font_size_for(quote.len() as int)
            &&& exists|at: int|
                {
                    &&& 0 <= at && at + length <= quote.len()
                    &&& crate::text::lowered(quote.subrange(at, at + length))
                        == crate::text::lowered(field(1))
                    &&& forall|i: int|
                        0 <= i < at ==> crate::text::lowered(
                            #[trigger] quote.subrange(i, i + length),
                        ) != crate::text::lowered(field(1))
                    &&& unescaped(excerpt.markdown) == quote.take(at) + seq!['*', '*']
                        + #[trigger] quote.subrange(at, at + length) + seq!['*', '*'] + quote.skip(
                        at + length,
                    )
                }
        }),
{
    let field = |i: int| crate::text::trimmed(fields[i], CharSet::Whitespace);
    let quote = field(2);
    let phrase = field(1);
    let length = phrase.len() as int;
    let lower = crate::text::lowered(quote);
    let needle = crate::text::lowered(phrase);
    let at = crate::pattern::first_position(lower, needle);
    crate::pattern::first_position_is_first(lower, needle);
    assert(crate::text::lowered(quote.subrange(at, at + length)) =~= lower.subrange(
        at,
        at + length,
    ));
    assert forall|i: int| 0 <= i < at implies crate::text::lowered(
        #[trigger] quote.subrange(i, i + length),
    ) != needle by {
        assert(!crate::text::occurs_at(lower, needle, i));
        assert(crate::text::lowered(quote.subrange(i, i + length)) =~= lower.subrange(
            i,
            i + length,
        ));
    }
    law_emphasis_surrounds_the_phrase(quote, at, at + length);
    assert(0 <= at && at + length <= quote.len());
    let _ = quote.subrange(at, at + length);
}

/// Longer quotes are set smaller: 30 up to 240 characters, 26 up to 420, 23 up
/// to 600 and 20 beyond.
pub proof fn law_longer_quotes_are_set_smaller(characters: int)
    ensures
        font_size_for(characters) == 30 <==> characters <= 240,
        font_size_for(characters) == 26 <==> 240 < characters <= 420,
        font_size_for(characters) == 23 <==> 420 < characters <= 600,
        font_size_for(characters) == 20 <==> 600 < characters,
{
}

/// A credit names what is known: the title before the author, with a comma where
/// there are both.
pub proof fn law_credits_name_what_is_known(title: Seq<char>, author: Seq<char>)
    ensures
        crate::text::begins(credit_for(title, author), "— "@),
        ({
            let named = credit_for(title, author).skip(2);
            &&& title.len() > 0 && author.len() > 0 ==> named == title + seq![',', ' '] + author
            &&& title.len() > 0 && author.len() == 0 ==> named == title
            &&& title.len() == 0 && author.len() > 0 ==> named == author
            &&& title.len() == 0 && author.len() == 0 ==> named == "Source unavailable"@
        }),
{
    reveal_strlit("— ");
    reveal_strlit(", ");
    reveal_strlit("— Source unavailable");
    reveal_strlit("Source unavailable");
    let credit = credit_for(title, author);
    assert(", "@ =~= seq![',', ' ']);
    assert(credit.subrange(0, 2) =~= "— "@);
    if title.len() > 0 && author.len() > 0 {
        assert(credit.skip(2) =~= title + seq![',', ' '] + author);
    } else if title.len() > 0 {
        assert(credit.skip(2) =~= title);
    } else if author.len() > 0 {
        assert(credit.skip(2) =~= author);
    } else {
        assert(credit.skip(2) =~= "Source unavailable"@);
    }
}

/// The minute that a record's time field names.
pub open spec fn named_minute(record: Option<Seq<Seq<char>>>) -> Option<int> {
    match record {
        Some(fields) => minute_of(crate::text::trimmed(fields[0], CharSet::Whitespace)),
        None => None,
    }
}

/// Whether an excerpt is that of a record.
pub open spec fn is_excerpt_of(excerpt: Excerpt, record: Option<Seq<Seq<char>>>) -> bool {
    &&& record is Some
    &&& prepared(record->0) is Ok
    &&& styled(prepared(record->0)->Ok_0.markdown) == Some(excerpt.text)
    &&& excerpt.credit == prepared(record->0)->Ok_0.credit
    &&& excerpt.font_size == prepared(record->0)->Ok_0.font_size
}

/// In an accepted corpus, the group of a minute holds the excerpts of exactly
/// those records whose time names the minute, in their order.
pub proof fn law_groups_hold_the_records_of_their_minute(
    records: Seq<Option<Seq<Seq<char>>>>,
    n: int,
    minute: int,
)
    requires
        0 <= n <= records.len(),
        groups_of(records, n) is Ok,
        0 <= minute < 1_440,
    ensures
        ({
            let group = groups_of(records, n)->Ok_0[minute];
            let filed = records.take(n).filter(
                |record: Option<Seq<Seq<char>>>| named_minute(record) == Some(minute),
            );
            &&& group.len() == filed.len()
            &&& forall|k: int|
                0 <= k < group.len() ==> is_excerpt_of(#[trigger] group[k], filed[k])
        }),
    decreases n,
{
    let here = |record: Option<Seq<Seq<char>>>| named_minute(record) == Some(minute);
    reveal(Seq::filter);
    if n <= 0 {
        assert(records.take(0).filter(here) =~= Seq::<Option<Seq<Seq<char>>>>::empty());
    } else {
        law_groups_hold_the_records_of_their_minute(records, n - 1, minute);
        law_every_record_is_retained(records, n - 1);
        assert(records.take(n).drop_last() =~= records.take(n - 1));
        let record = records[n - 1];
        let before = groups_of(records, n - 1)->Ok_0;
        let group = groups_of(records, n)->Ok_0[minute];
        let filed = records.take(n).filter(here);
        let filed_before = records.take(n - 1).filter(here);
        law_records_become_their_excerpts(record->0);
        law_times_name_minutes_of_the_day(
            crate::text::trimmed(record->0[0], CharSet::Whitespace),
            0,
            0,
            0,
            0,
        );
        if here(record) {
            assert(filed == filed_before.push(record));
            assert(group == before[minute].push(group.last()));
            assert forall|k: int| 0 <= k < group.len() implies is_excerpt_of(
                #[trigger] group[k],
                filed[k],
            ) by {
                if k < before[minute].len() {
                    assert(is_excerpt_of(before[minute][k], filed_before[k]));
                }
            }
        } else {
            assert(filed == filed_before);
            assert(group == before[minute]);
        }
    }
}

/// In an accepted corpus, every record has its excerpt in the group of the
/// minute that its time names.
pub proof fn law_every_record_is_found_at_its_minute(
    records: Seq<Option<Seq<Seq<char>>>>,
    n: int,
    i: int,
)
    requires
        0 <= i < n <= records.len(),
        groups_of(records, n) is Ok,
    ensures
        named_minute(records[i]) is Some,
        0 <= named_minute(records[i])->0 < 1_440,
        exists|k: int|
            0 <= k < groups_of(records, n)->Ok_0[named_minute(records[i])->0].len()
                && is_excerpt_of(
                #[trigger] groups_of(records, n)->Ok_0[named_minute(records[i])->0][k],
                records[i],
            ),
    decreases n,
{
    law_every_record_is_retained(records, n - 1);
    let before = groups_of(records, n - 1)->Ok_0;
    let after = groups_of(records, n)->Ok_0;
    let added = prepared(records[n - 1]->0)->Ok_0.minute;
    law_records_become_their_excerpts(records[n - 1]->0);
    law_times_name_minutes_of_the_day(
        crate::text::trimmed(records[n - 1]->0[0], CharSet::Whitespace),
        0,
        0,
        0,
        0,
    );
    if i == n - 1 {
        assert(is_excerpt_of(after[added][after[added].len() - 1], records[i]));
    } else {
        law_every_record_is_found_at_its_minute(records, n - 1, i);
        let minute = named_minute(records[i])->0;
        let k = choose|k: int|
            0 <= k < before[minute].len() && is_excerpt_of(
                #[trigger] before[minute][k],
                records[i],
            );
        assert(after[minute][k] == before[minute][k]);
    }
}

/// The excerpt for a time is one of the group of the minute that the time names;
/// there is none where that group is empty or the text is no time.
pub proof fn law_the_clock_shows_its_minute(
    groups: Seq<Seq<Excerpt>>,
    time: Seq<char>,
    selector: u64,
)
    ensures
        match minute_of(time) {
            Some(minute) => if groups[minute].len() == 0 {
                LiteraryClockCorpus::chosen(groups, time, selector) is None
            } else {
                LiteraryClockCorpus::chosen(groups, time, selector) is Some
                    && groups[minute].contains(
                    LiteraryClockCorpus::chosen(groups, time, selector)->0,
                )
            },
            None => LiteraryClockCorpus::chosen(groups, time, selector) is None,
        },
{
    if let Some(minute) = minute_of(time) {
        if groups[minute].len() > 0 {
            let k = selector as int % groups[minute].len() as int;
            assert(0 <= k < groups[minute].len());
            assert(groups[minute].contains(groups[minute][k]));
        }
    }
}

/// A corpus has 1 to 5,000 records, all of which are readable, complete and can
/// be styled; anything else is refused, by the first record that is not.
pub proof fn law_corpora_are_accepted_as_a_whole(records: Seq<Option<Seq<Seq<char>>>>)
    ensures
        corpus_of(records) is Ok <==> {
            &&& 1 <= records.len() <= 5_000
            &&& forall|i: int|
                0 <= i < records.len() ==> (#[trigger] records[i]) is Some && prepared(
                    records[i]->0,
                ) is Ok && styled(prepared(records[i]->0)->Ok_0.markdown) is Some
        },
{
    accepted_as_a_whole(records, records.len() as int);
}

proof fn accepted_as_a_whole(records: Seq<Option<Seq<Seq<char>>>>, n: int)
    requires
        0 <= n <= records.len(),
    ensures
        groups_of(records, n) is Ok <==> {
            &&& n <= 5_000
            &&& forall|i: int|
                0 <= i < n ==> (#[trigger] records[i]) is Some && prepared(records[i]->0) is Ok
                    && styled(prepared(records[i]->0)->Ok_0.markdown) is Some
        },
    decreases n,
{
    if n > 0 {
        accepted_as_a_whole(records, n - 1);
        let last = records[n - 1];
        assert(groups_of(records, n) is Ok <==> groups_of(records, n - 1) is Ok && n <= 5_000
            && last is Some && prepared(last->0) is Ok && styled(
            prepared(last->0)->Ok_0.markdown,
        ) is Some);
    }
}

/// The covered minutes are those whose groups are not empty, and the excerpts
/// are those of all groups.
pub proof fn law_minutes_are_counted_once(groups: Seq<Seq<Excerpt>>, n: int)
    requires
        0 <= n < groups.len(),
    ensures
        covered(groups, 0) == 0,
        total(groups, 0) == 0,
        groups[n].len() > 0 ==> covered(groups, n + 1) == covered(groups, n) + 1,
        groups[n].len() == 0 ==> covered(groups, n + 1) == covered(groups, n),
        total(groups, n + 1) == total(groups, n) + groups[n].len(),
        covered(groups, n) <= total(groups, n),
    decreases n,
{
    if n > 0 {
        law_minutes_are_counted_once(groups, n - 1);
    }
}

} // verus!
