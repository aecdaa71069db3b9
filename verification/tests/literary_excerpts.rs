use ferrink::literary_clock::{excerpt_font_size, LiteraryClockCorpus};
use slint::StyledText;

#[test]
fn parses_safe_excerpt_and_emphasizes_only_the_time_phrase() {
    let input = b"09:41|nine forty-one|At nine forty-one, [Ada] closed *one* book.|Notes|A. Reader|NO\n";
    let corpus = LiteraryClockCorpus::from_pipe_separated(input)
        .expect("bounded safe corpus should parse");
    let excerpt = corpus
        .excerpt_at("09:41", 0)
        .expect("registered minute should be present");
    let expected = StyledText::from_markdown(
        "At **nine forty\\-one**, \\[Ada\\] closed \\*one\\* book\\.",
    )
    .expect("test markdown should parse");

    assert_eq!(excerpt.styled_text(), &expected);
    assert_eq!(excerpt.credit(), "— Notes, A. Reader");
    assert_eq!(excerpt.font_size(), 30);
    assert_eq!(corpus.len(), 1);
}

#[test]
fn retains_every_record_and_rotates_same_minute_excerpts() {
    let input = b"09:41|09:41|First 09:41 excerpt.|Work A|Author A|NO\n09:41|nine forty-one|Second nine forty-one excerpt.|Work B|Author B|YES\n";
    let corpus = LiteraryClockCorpus::from_pipe_separated(input)
        .expect("complete bounded corpus should parse");

    assert_eq!(corpus.len(), 2);
    assert_eq!(corpus.covered_minutes(), 1);
    assert_eq!(
        corpus.excerpt_at("09:41", 0).unwrap().credit(),
        "— Work A, Author A"
    );
    assert_eq!(
        corpus.excerpt_at("09:41", 1).unwrap().credit(),
        "— Work B, Author B"
    );
    assert_eq!(
        corpus.excerpt_at("09:41", 2).unwrap().credit(),
        "— Work A, Author A"
    );
}

#[test]
fn malformed_or_empty_corpora_fail_closed() {
    assert!(LiteraryClockCorpus::from_pipe_separated(b"").is_err());
    assert!(
        LiteraryClockCorpus::from_pipe_separated(b"24:00|midnight|midnight|A|B|NO\n").is_err()
    );
    assert!(LiteraryClockCorpus::from_pipe_separated(b"09:41|09:41|09:41|A|B\n").is_err());
    assert!(
        LiteraryClockCorpus::from_pipe_separated(b"09:41|09:41|09:41|A|B|MAYBE\n").is_err()
    );
}

#[test]
fn long_excerpts_use_a_readable_bounded_font_scale() {
    assert_eq!(excerpt_font_size(16), 30);
    assert_eq!(excerpt_font_size(241), 26);
    assert_eq!(excerpt_font_size(421), 23);
    assert_eq!(excerpt_font_size(760), 20);
}
