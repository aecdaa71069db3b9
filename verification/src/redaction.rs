//! What is removed from identifiers and diagnostic text.

use crate::text::{
    from_chars, push_chars, split_words, test_begins, test_occurs, to_chars, to_lower, to_upper,
    trim, upper_char, CharSet,
};
use vstd::prelude::*;
use vstd::slice::slice_subrange;

verus! {

/// The redaction rules of probe reports.
pub const REDACTION_POLICY: &'static str = "ferrink-wp1-v1";

/// What is kept of a serial number.
#[derive(Debug, Clone, PartialEq, Eq)]
pub struct RedactedSerial {
    /// The characters that identify the model.
    pub prefix: String,
    /// The beginning of the serial number and a mark for what was removed.
    pub display: String,
}

/// The letters and digits of a text, in upper case.
pub open spec fn normalized_serial(input: Seq<char>) -> Seq<char> {
    crate::text::uppered(input.filter(|c: char| crate::text::is_alphanumeric(c)))
}

/// What identifies the model in a normalized serial number.
pub open spec fn model_prefix(serial: Seq<char>) -> Seq<char> {
    if serial.len() >= 6 && crate::text::begins(serial, "G000"@) {
        serial.subrange(3, 6)
    } else {
        serial.take(4)
    }
}

/// What may be shown of a normalized serial number.
pub open spec fn visible_part(serial: Seq<char>) -> Seq<char> {
    if serial.len() >= 6 && crate::text::begins(serial, "G000"@) {
        serial.take(6)
    } else {
        serial.take(4)
    }
}

fn normalize_serial(chars: &[char]) -> (serial: Vec<char>)
    ensures
        serial@ == normalized_serial(chars@),
{
    let ghost pred = |c: char| crate::text::is_alphanumeric(c);
    let mut serial: Vec<char> = Vec::new();
    proof {
        reveal(Seq::filter);
    }
    assert(chars@.take(0).filter(pred) =~= Seq::<char>::empty());
    for i in 0..chars.len()
        invariant
            pred == (|c: char| crate::text::is_alphanumeric(c)),
            serial@ == crate::text::uppered(chars@.take(i as int).filter(pred)),
    {
        proof {
            reveal(Seq::filter);
        }
        let ghost before = chars@.take(i as int).filter(pred);
        assert(chars@.take(i + 1).drop_last() =~= chars@.take(i as int));
        if CharSet::Alphanumeric.test(chars[i]) {
            serial.push(upper_char(chars[i]));
            assert(crate::text::uppered(before.push(chars@[i as int])) =~= crate::text::uppered(
                before,
            ).push(crate::text::upper(chars@[i as int])));
        }
    }
    assert(chars@.take(chars@.len() as int) =~= chars@);
    serial
}

fn push_removed(display: &mut String)
    ensures
        final(display)@ == old(display)@ + "…REDACTED"@,
{
    display.append("…REDACTED");
}

/// Keeps only the model-identifying prefix of a Kindle serial.
///
/// Newer `G000...` serials are identified by their fourth to sixth character
/// (for example `0AA`), older ones by their first four characters.
pub fn redact_serial(input: &str) -> (redacted: Option<RedactedSerial>)
    ensures
        ({
            let serial = normalized_serial(input@);
            match redacted {
                Some(redacted) => {
                    &&& serial.len() >= 4
                    &&& redacted.prefix@ == model_prefix(serial)
                    &&& redacted.display@ == visible_part(serial) + "…REDACTED"@
                },
                None => serial.len() < 4,
            }
        }),
{
    let chars: Vec<char> = to_chars(input);
    let serial: Vec<char> = normalize_serial(chars.as_slice());
    if serial.len() < 4 {
        return None;
    }
    let all: &[char] = serial.as_slice();
    let (prefix, visible): (&[char], &[char]) = if test_begins(all, "G000") && all.len() >= 6 {
        (slice_subrange(all, 3, 6), slice_subrange(all, 0, 6))
    } else {
        (slice_subrange(all, 0, 4), slice_subrange(all, 0, 4))
    };
    assert(serial@.subrange(0, 4) =~= serial@.take(4));
    assert(serial@.len() >= 6 ==> serial@.subrange(0, 6) =~= serial@.take(6));
    let mut display: String = from_chars(visible);
    push_removed(&mut display);
    Some(RedactedSerial { prefix: from_chars(prefix), display })
}

/// At most six characters of a serial number are ever shown.
pub proof fn law_redaction_shows_at_most_six_characters(serial: Seq<char>)
    requires
        serial.len() >= 4,
    ensures
        visible_part(serial).len() <= 6,
        model_prefix(serial).len() <= 4,
        visible_part(serial) == serial.take(visible_part(serial).len() as int),
{
}

/// The letters and digits of a text stay letters and digits in upper case.
proof fn normalized_serials_are_alphanumeric(input: Seq<char>)
    ensures
        CharSet::Alphanumeric.covers(normalized_serial(input)),
{
    let pred = |c: char| crate::text::is_alphanumeric(c);
    let kept = input.filter(pred);
    assert forall|i: int| 0 <= i < kept.len() implies CharSet::Alphanumeric.has(
        #[trigger] crate::text::uppered(kept)[i],
    ) by {
        input.lemma_filter_pred(pred, i);
        let c = kept[i];
        if crate::text::is_lower(c) {
            assert(crate::text::is_upper(crate::text::upper(c)));
        }
    }
}

/// What is kept of a serial number is always in the form that reports demand.
pub proof fn law_redacted_serials_are_reportable(input: Seq<char>)
    requires
        normalized_serial(input).len() >= 4,
    ensures
        crate::probe::is_short_prefix(model_prefix(normalized_serial(input))),
        crate::probe::is_redacted_serial(visible_part(normalized_serial(input)) + "…REDACTED"@),
{
    let serial = normalized_serial(input);
    let visible = visible_part(serial);
    let shown = visible + "…REDACTED"@;
    normalized_serials_are_alphanumeric(input);
    reveal_strlit("…REDACTED");
    reveal_strlit("G000");
    assert forall|i: int| 0 <= i < model_prefix(serial).len() implies CharSet::Alphanumeric.has(
        #[trigger] model_prefix(serial)[i],
    ) by {
        let from = if serial.len() >= 6 && crate::text::begins(serial, "G000"@) {
            3int
        } else {
            0
        };
        assert(CharSet::Alphanumeric.has(serial[from + i]));
    }
    assert(shown.take(shown.len() - 9) =~= visible);
    assert(shown.skip(shown.len() - 9) =~= "…REDACTED"@);
    assert forall|i: int| 0 <= i < visible.len() implies visible[i] != '…' && (visible[i] as u32)
        < 128 by {
        assert(CharSet::Alphanumeric.has(serial[i]));
    }
    assert(vstd::utf8::is_ascii_chars(visible));
    vstd::utf8::is_ascii_chars_encode_utf8(visible);
}

/// The words that mark a secret.
pub open spec fn secret_markers() -> Seq<&'static str> {
    seq![
        "token",
        "password",
        "passwd",
        "secret",
        "cookie",
        "private_key",
        "ssid",
        "account",
    ]
}

/// Whether a word holds one of the markers of a secret, in any case.
pub open spec fn is_secret(word: Seq<char>) -> bool {
    exists|i: int|
        0 <= i < secret_markers().len() && crate::text::occurs(
            crate::text::lowered(word),
            (#[trigger] secret_markers()[i])@,
        )
}

/// The word in upper case, without what is neither letter nor digit at its
/// ends.
pub open spec fn bare_word(word: Seq<char>) -> Seq<char> {
    crate::text::uppered(crate::text::trimmed(word, CharSet::NotAlphanumeric))
}

/// Whether a bare word looks like a complete serial number.
pub open spec fn is_identifier(bare: Seq<char>) -> bool {
    &&& bare.len() >= 12
    &&& bare[0] == 'G' || bare[0] == 'B'
    &&& CharSet::Alphanumeric.covers(bare)
}

/// What is kept of one word.
pub open spec fn redacted_word(word: Seq<char>) -> Seq<char> {
    if is_secret(word) {
        "<redacted>"@
    } else if is_identifier(bare_word(word)) {
        visible_part(bare_word(word)) + "…REDACTED"@
    } else if word.len() > 128 {
        word.take(128)
    } else {
        word
    }
}

/// A text with control characters replaced by spaces.
pub open spec fn without_controls(s: Seq<char>) -> Seq<char> {
    s.map_values(
        |c: char|
            if crate::text::is_control(c) && !crate::text::is_ascii_space(c) {
                ' '
            } else {
                c
            },
    )
}

/// What is kept of a text: its first 64 words, each redacted, with one space
/// between each two of them.
pub open spec fn redacted_text(s: Seq<char>) -> Seq<char> {
    let all = crate::text::words(without_controls(s));
    let kept = if all.len() > 64 {
        all.take(64)
    } else {
        all
    };
    crate::text::joined(kept.map_values(|word: Seq<char>| redacted_word(word)), seq![' '])
}

/// An identifier is its own normalized serial number.
proof fn identifiers_are_normalized(bare: Seq<char>, word: Seq<char>)
    requires
        bare == bare_word(word),
        is_identifier(bare),
    ensures
        normalized_serial(bare) == bare,
{
    let pred = |c: char| crate::text::is_alphanumeric(c);
    assert(forall|i: int| 0 <= i < bare.len() ==> pred(#[trigger] bare[i]));
    filter_keeps_all(bare, pred);
    assert(crate::text::uppered(bare) =~= bare);
}

proof fn filter_keeps_all(s: Seq<char>, pred: spec_fn(char) -> bool)
    requires
        forall|i: int| 0 <= i < s.len() ==> pred(#[trigger] s[i]),
    ensures
        s.filter(pred) == s,
    decreases s.len(),
{
    reveal(Seq::filter);
    if s.len() > 0 {
        filter_keeps_all(s.drop_last(), pred);
        assert(s.drop_last().push(s.last()) =~= s);
    }
}

/// The first four characters of the markers.
proof fn marker_heads(j: int)
    requires
        0 <= j < secret_markers().len(),
    ensures
        ({
            let marker = secret_markers()[j]@;
            &&& marker.len() >= 4
            &&& marker.take(4) == seq!['t', 'o', 'k', 'e'] || marker.take(4) == seq![
                'p',
                'a',
                's',
                's',
            ] || marker.take(4) == seq!['s', 'e', 'c', 'r'] || marker.take(4) == seq![
                'c',
                'o',
                'o',
                'k',
            ] || marker.take(4) == seq!['p', 'r', 'i', 'v'] || marker.take(4) == seq![
                's',
                's',
                'i',
                'd',
            ] || marker.take(4) == seq!['a', 'c', 'c', 'o']
        }),
{
    reveal_strlit("token");
    reveal_strlit("password");
    reveal_strlit("passwd");
    reveal_strlit("secret");
    reveal_strlit("cookie");
    reveal_strlit("private_key");
    reveal_strlit("ssid");
    reveal_strlit("account");
    assert("token"@.take(4) =~= seq!['t', 'o', 'k', 'e']);
    assert("password"@.take(4) =~= seq!['p', 'a', 's', 's']);
    assert("passwd"@.take(4) =~= seq!['p', 'a', 's', 's']);
    assert("secret"@.take(4) =~= seq!['s', 'e', 'c', 'r']);
    assert("cookie"@.take(4) =~= seq!['c', 'o', 'o', 'k']);
    assert("private_key"@.take(4) =~= seq!['p', 'r', 'i', 'v']);
    assert("ssid"@.take(4) =~= seq!['s', 's', 'i', 'd']);
    assert("account"@.take(4) =~= seq!['a', 'c', 'c', 'o']);
}

/// Where a marker stands, its first four characters stand.
proof fn marker_head_stands(lower: Seq<char>, j: int, i: int)
    requires
        0 <= j < secret_markers().len(),
        crate::text::occurs_at(lower, secret_markers()[j]@, i),
    ensures
        0 <= i,
        i + 4 <= lower.len(),
        forall|k: int| 0 <= k < 4 ==> lower[i + k] == #[trigger] secret_markers()[j]@.take(4)[k],
{
    marker_heads(j);
    let marker = secret_markers()[j]@;
    assert forall|k: int| 0 <= k < 4 implies lower[i + k] == #[trigger] marker.take(4)[k] by {
        assert(lower.subrange(i, i + marker.len())[k] == marker[k]);
    }
}

proof fn mark_is_free_of_markers(i: int, j: int)
    requires
        0 <= j < secret_markers().len(),
    ensures
        !crate::text::occurs_at(
            crate::text::lowered("<redacted>"@),
            secret_markers()[j]@,
            i,
        ),
{
    let lower = crate::text::lowered("<redacted>"@);
    reveal_strlit("<redacted>");
    assert(lower =~= seq!['<', 'r', 'e', 'd', 'a', 'c', 't', 'e', 'd', '>']);
    if crate::text::occurs_at(lower, secret_markers()[j]@, i) {
        marker_heads(j);
        marker_head_stands(lower, j, i);
        let head = secret_markers()[j]@.take(4);
        assert(lower[i + 0] == head[0]);
        assert(lower[i + 1] == head[1]);
        assert(lower[i + 2] == head[2]);
    }
}

proof fn shown_serial_is_free_of_markers(bare: Seq<char>, i: int, j: int)
    requires
        is_identifier(bare),
        0 <= j < secret_markers().len(),
    ensures
        !crate::text::occurs_at(
            crate::text::lowered(visible_part(bare) + "…REDACTED"@),
            secret_markers()[j]@,
            i,
        ),
{
    let shown = visible_part(bare) + "…REDACTED"@;
    let lower = crate::text::lowered(shown);
    let n = visible_part(bare).len() as int;
    reveal_strlit("…REDACTED");
    reveal_strlit("G000");
    assert(lower.skip(n) =~= seq!['…', 'r', 'e', 'd', 'a', 'c', 't', 'e', 'd']);
    assert(forall|k: int| 0 <= k < 9 ==> #[trigger] lower.skip(n)[k] == lower[n + k]);
    if crate::text::occurs_at(lower, secret_markers()[j]@, i) {
        marker_heads(j);
        marker_head_stands(lower, j, i);
        let head = secret_markers()[j]@.take(4);
        assert(lower[i + 0] == head[0]);
        assert(lower[i + 1] == head[1]);
        assert(lower[i + 2] == head[2]);
        assert(lower[i + 3] == head[3]);
        assert(lower[0] == 'g' || lower[0] == 'b');
        assert(lower[n] == '…') by {
            assert(lower.skip(n)[0] == lower[n + 0]);
        }
        if i > n {
            assert(lower[i] == lower.skip(n)[i - n]);
            assert(lower[i + 1] == lower.skip(n)[i + 1 - n]);
            assert(lower[i + 2] == lower.skip(n)[i + 2 - n]);
        } else if n == 6 {
            assert(bare.subrange(0, 4) == "G000"@);
            assert(bare[1] == bare.subrange(0, 4)[1]);
            assert(bare[2] == bare.subrange(0, 4)[2]);
            assert(bare[3] == bare.subrange(0, 4)[3]);
            assert(lower[1] == '0' && lower[2] == '0' && lower[3] == '0');
        }
    }
}

/// No word of a redacted text holds a marker of a secret, in any case.
pub proof fn law_no_marked_word_survives(word: Seq<char>)
    ensures
        !is_secret(redacted_word(word)),
{
    let kept = redacted_word(word);
    let lower = crate::text::lowered(kept);
    assert forall|j: int| 0 <= j < secret_markers().len() implies !crate::text::occurs(
        lower,
        (#[trigger] secret_markers()[j])@,
    ) by {
        let marker = secret_markers()[j]@;
        if crate::text::occurs(lower, marker) {
            let i = choose|i: int| crate::text::occurs_at(lower, marker, i);
            if is_secret(word) {
                mark_is_free_of_markers(i, j);
            } else if is_identifier(bare_word(word)) {
                shown_serial_is_free_of_markers(bare_word(word), i, j);
            } else {
                let whole = crate::text::lowered(word);
                assert(whole.subrange(i, i + marker.len()) =~= lower.subrange(
                    i,
                    i + marker.len(),
                ));
                assert(crate::text::occurs_at(whole, marker, i));
                assert(is_secret(word));
            }
        }
    }
}

fn test_secret(word: &[char]) -> (held: bool)
    ensures
        held == is_secret(word@),
{
    let lower: Vec<char> = to_lower(word);
    let markers: [&'static str; 8] = [
        "token",
        "password",
        "passwd",
        "secret",
        "cookie",
        "private_key",
        "ssid",
        "account",
    ];
    assert(markers@ =~= secret_markers());
    for i in 0..8usize
        invariant
            markers@ == secret_markers(),
            lower@ == crate::text::lowered(word@),
            forall|j: int|
                0 <= j < i ==> !crate::text::occurs(lower@, (#[trigger] secret_markers()[j])@),
    {
        if test_occurs(lower.as_slice(), markers[i]) {
            assert(crate::text::occurs(lower@, secret_markers()[i as int]@));
            return true;
        }
    }
    false
}

fn push_redacted(out: &mut String, word: &[char])
    ensures
        final(out)@ == old(out)@ + redacted_word(word@),
{
    if test_secret(word) {
        out.append("<redacted>");
        return;
    }
    let bare: Vec<char> = to_upper(trim(word, CharSet::NotAlphanumeric));
    if bare.len() >= 12 && (bare[0] == 'G' || bare[0] == 'B') && CharSet::Alphanumeric.test_all(
        bare.as_slice(),
    ) {
        proof {
            identifiers_are_normalized(bare@, word@);
        }
        match redact_serial(from_chars(bare.as_slice()).as_str()) {
            Some(serial) => {
                out.append(serial.display.as_str());
            },
            None => {
                out.append("<redacted-identifier>");
            },
        }
    } else if word.len() > 128 {
        assert(word@.subrange(0, 128) =~= word@.take(128));
        push_chars(out, slice_subrange(word, 0, 128));
    } else {
        push_chars(out, word);
    }
}

fn replace_controls(chars: &[char]) -> (r: Vec<char>)
    ensures
        r@ == without_controls(chars@),
{
    let mut r: Vec<char> = Vec::new();
    for i in 0..chars.len()
        invariant
            r@ == without_controls(chars@.take(i as int)),
    {
        let c: char = chars[i];
        let space: bool = c == ' ' || c == '\t' || c == '\n' || c == '\x0c' || c == '\r';
        if CharSet::Control.test(c) && !space {
            r.push(' ');
        } else {
            r.push(c);
        }
        assert(r@ =~= without_controls(chars@.take(i + 1)));
    }
    assert(chars@.take(chars@.len() as int) =~= chars@);
    r
}

/// Sanitizes a short diagnostic value and suppresses likely secrets and full
/// device identifiers.
pub fn redact_text(input: &str) -> (output: String)
    ensures
        output@ == redacted_text(input@),
{
    let chars: Vec<char> = to_chars(input);
    let collapsed: Vec<char> = replace_controls(chars.as_slice());
    let words: Vec<&[char]> = split_words(collapsed.as_slice());
    let ghost all = crate::text::words(collapsed@);
    let count: usize = if words.len() > 64 {
        64
    } else {
        words.len()
    };
    let ghost kept = all.take(count as int).map_values(|word: Seq<char>| redacted_word(word));
    let mut output: String = String::new();
    assert(kept.take(0) =~= Seq::<Seq<char>>::empty());
    assert(output@ =~= crate::text::joined(kept.take(0), seq![' ']));
    for i in 0..count
        invariant
            count <= words@.len(),
            all == crate::text::slices(words@),
            kept == all.take(count as int).map_values(|word: Seq<char>| redacted_word(word)),
            output@ == crate::text::joined(kept.take(i as int), seq![' ']),
    {
        assert(kept.take(i + 1).drop_last() =~= kept.take(i as int));
        assert(kept.take(i + 1).last() == redacted_word(words@[i as int]@));
        if i > 0 {
            output.push(' ');
        }
        push_redacted(&mut output, words[i]);
        assert(output@ =~= crate::text::joined(kept.take(i + 1), seq![' ']));
    }
    assert(kept.take(count as int) =~= kept);
    assert(all.len() <= 64 ==> all.take(count as int) =~= all);
    output
}

// ---------------------------------------------------------------------------
// What is left of a text
// ---------------------------------------------------------------------------
/// Whether a word looks like a complete serial number: without what is neither
/// letter nor digit at its ends it is twelve or more letters and digits, the
/// first of them a G or a B in either case.
pub open spec fn looks_like_a_serial(word: Seq<char>) -> bool {
    let core = crate::text::trimmed(word, CharSet::NotAlphanumeric);
    &&& core.len() >= 12
    &&& core[0] == 'G' || core[0] == 'B' || core[0] == 'g' || core[0] == 'b'
    &&& forall|i: int| 0 <= i < core.len() ==> CharSet::Alphanumeric.has(#[trigger] core[i])
}

proof fn serials_are_identifiers(word: Seq<char>)
    ensures
        looks_like_a_serial(word) <==> is_identifier(bare_word(word)),
{
    let core = crate::text::trimmed(word, CharSet::NotAlphanumeric);
    let bare = bare_word(word);
    assert(bare.len() == core.len());
    assert(forall|i: int|
        0 <= i < core.len() ==> #[trigger] bare[i] == crate::text::upper(core[i]));
    if is_identifier(bare) {
        assert forall|i: int| 0 <= i < core.len() implies CharSet::Alphanumeric.has(
            #[trigger] core[i],
        ) by {
            assert(CharSet::Alphanumeric.has(bare[i]));
        }
        assert(bare[0] == crate::text::upper(core[0]));
    }
    if looks_like_a_serial(word) {
        assert forall|i: int| 0 <= i < bare.len() implies CharSet::Alphanumeric.has(
            #[trigger] bare[i],
        ) by {
            assert(CharSet::Alphanumeric.has(core[i]));
        }
        assert(bare[0] == crate::text::upper(core[0]));
    }
}

/// Whether a word holds `token`, `password`, `passwd`, `secret`, `cookie`,
/// `private_key`, `ssid` or `account`, in any case.
pub open spec fn holds_a_marker(word: Seq<char>) -> bool {
    let lower = crate::text::lowered(word);
    ||| crate::text::occurs(lower, "token"@)
    ||| crate::text::occurs(lower, "password"@)
    ||| crate::text::occurs(lower, "passwd"@)
    ||| crate::text::occurs(lower, "secret"@)
    ||| crate::text::occurs(lower, "cookie"@)
    ||| crate::text::occurs(lower, "private_key"@)
    ||| crate::text::occurs(lower, "ssid"@)
    ||| crate::text::occurs(lower, "account"@)
}

proof fn markers_are_these(word: Seq<char>)
    ensures
        is_secret(word) <==> holds_a_marker(word),
{
    let lower = crate::text::lowered(word);
    assert(secret_markers().len() == 8);
    assert(secret_markers()[0]@ == "token"@);
    assert(secret_markers()[1]@ == "password"@);
    assert(secret_markers()[2]@ == "passwd"@);
    assert(secret_markers()[3]@ == "secret"@);
    assert(secret_markers()[4]@ == "cookie"@);
    assert(secret_markers()[5]@ == "private_key"@);
    assert(secret_markers()[6]@ == "ssid"@);
    assert(secret_markers()[7]@ == "account"@);
}

/// A word that holds a marker of a secret is replaced as a whole, whatever else
/// it holds, and no marker is left in any word, in any case.
pub proof fn law_secrets_are_replaced(word: Seq<char>)
    ensures
        holds_a_marker(word) ==> redacted_word(word) == "<redacted>"@,
        !crate::text::occurs(crate::text::lowered(redacted_word(word)), "token"@),
        !crate::text::occurs(crate::text::lowered(redacted_word(word)), "password"@),
        !crate::text::occurs(crate::text::lowered(redacted_word(word)), "passwd"@),
        !crate::text::occurs(crate::text::lowered(redacted_word(word)), "secret"@),
        !crate::text::occurs(crate::text::lowered(redacted_word(word)), "cookie"@),
        !crate::text::occurs(crate::text::lowered(redacted_word(word)), "private_key"@),
        !crate::text::occurs(crate::text::lowered(redacted_word(word)), "ssid"@),
        !crate::text::occurs(crate::text::lowered(redacted_word(word)), "account"@),
{
    markers_are_these(word);
    markers_are_these(redacted_word(word));
    law_no_marked_word_survives(word);
}

/// Of a word that looks like a serial number, the first four characters are
/// kept, or the first six where they begin with `G000`, in upper case and with
/// the mark of a removal; the rest is gone.
pub proof fn law_serials_are_cut(word: Seq<char>)
    requires
        looks_like_a_serial(word),
    ensures
        redacted_word(word) == "<redacted>"@ || ({
            let core = crate::text::uppered(
                crate::text::trimmed(word, CharSet::NotAlphanumeric),
            );
            redacted_word(word) == core.take(
                if core.take(4) == "G000"@ {
                    6
                } else {
                    4
                },
            ) + "…REDACTED"@
        }),
{
    serials_are_identifiers(word);
    reveal_strlit("G000");
    let core = bare_word(word);
    assert(core.subrange(0, 4) =~= core.take(4));
}

/// What is left of a word never looks like a serial number, unless the word was
/// longer than 128 characters and looks like one only where it is cut off.
pub proof fn law_no_serial_survives(word: Seq<char>)
    requires
        word.len() <= 128,
    ensures
        !looks_like_a_serial(redacted_word(word)),
{
    serials_are_identifiers(word);
    let kept = redacted_word(word);
    let set = CharSet::NotAlphanumeric;
    let core = crate::text::trimmed(kept, set);
    crate::text::law_trimming_stops_at_the_first_other(kept, set);
    let at = choose|i: int|
        0 <= i && i + core.len() <= kept.len() && core == #[trigger] kept.subrange(
            i,
            i + core.len(),
        ) && set.covers(kept.take(i)) && set.covers(kept.skip(i + core.len()));
    if is_secret(word) {
        reveal_strlit("<redacted>");
        assert(core.len() <= 10);
    } else if is_identifier(bare_word(word)) {
        reveal_strlit("…REDACTED");
        let shown = visible_part(bare_word(word));
        let n = shown.len() as int;
        assert(kept[n] == '…');
        assert(kept.len() == n + 9);
        assert(shown[0] == bare_word(word)[0]);
        assert(CharSet::Alphanumeric.has(kept[0]));
        assert(kept[n + 8] == 'D');
        if at > 0 {
            assert(set.has(kept.take(at)[0]));
        }
        if at + core.len() <= n + 8 {
            let tail = kept.skip(at + core.len());
            assert(set.has(tail[tail.len() - 1]));
            assert(tail[tail.len() - 1] == kept[n + 8]);
        }
        assert(at == 0 && core.len() == n + 9);
        assert(core[n] == '…');
        assert(!CharSet::Alphanumeric.has(core[n]));
    }
}

/// A word without a marker that does not look like a serial number is kept as it
/// is, as far as 128 characters go.
pub proof fn law_harmless_words_are_kept(word: Seq<char>)
    requires
        !holds_a_marker(word),
        !looks_like_a_serial(word),
    ensures
        word.len() <= 128 ==> redacted_word(word) == word,
        word.len() > 128 ==> redacted_word(word) == word.take(128),
{
    markers_are_these(word);
    serials_are_identifiers(word);
}

/// Control characters that are no white space part words; every other character
/// stays.
pub proof fn law_controls_become_spaces(s: Seq<char>, i: int)
    requires
        0 <= i < s.len(),
    ensures
        without_controls(s).len() == s.len(),
        ({
            let space = s[i] == ' ' || s[i] == '\t' || s[i] == '\n' || s[i] == '\x0c' || s[i]
                == '\r';
            let control = s[i] <= '\u{1f}' || '\u{7f}' <= s[i] <= '\u{9f}';
            &&& control && !space ==> without_controls(s)[i] == ' '
            &&& !control || space ==> without_controls(s)[i] == s[i]
        }),
{
}

proof fn redacted_words_are_words(word: Seq<char>)
    requires
        word.len() > 0,
        CharSet::NotWhitespace.covers(word),
    ensures
        redacted_word(word).len() > 0,
        CharSet::NotWhitespace.covers(redacted_word(word)),
{
    let kept = redacted_word(word);
    reveal_strlit("<redacted>");
    reveal_strlit("…REDACTED");
    assert forall|i: int| 0 <= i < kept.len() implies CharSet::NotWhitespace.has(
        #[trigger] kept[i],
    ) by {
        if is_secret(word) {
        } else if is_identifier(bare_word(word)) {
            let bare = bare_word(word);
            if i < visible_part(bare).len() {
                assert(CharSet::Alphanumeric.has(bare[i]));
                assert(kept[i] == bare[i]);
            }
        } else {
            assert(CharSet::NotWhitespace.has(word[i]));
        }
    }
}

/// A text is redacted word by word: the output has as many words as the input,
/// but at most 64, and each is what is left of the input's word in its place.
pub proof fn law_texts_are_redacted_word_by_word(s: Seq<char>)
    ensures
        ({
            let given = crate::text::words(without_controls(s));
            let left = crate::text::words(redacted_text(s));
            &&& left.len() == (if given.len() <= 64 {
                given.len()
            } else {
                64
            })
            &&& forall|i: int|
                0 <= i < left.len() ==> #[trigger] left[i] == redacted_word(given[i])
        }),
{
    let given = crate::text::words(without_controls(s));
    let kept = if given.len() > 64 {
        given.take(64)
    } else {
        given
    };
    let left = kept.map_values(|word: Seq<char>| redacted_word(word));
    assert forall|i: int| 0 <= i < left.len() implies (#[trigger] left[i]).len() > 0
        && CharSet::NotWhitespace.covers(left[i]) by {
        crate::text::law_words_hold_no_white_space(without_controls(s), i);
        redacted_words_are_words(given[i]);
        assert(left[i] == redacted_word(given[i]));
    }
    crate::text::law_joined_words_are_found_again(left);
}

/// No word of a redacted text looks like a complete serial number, as long as no
/// word of the text is longer than 128 characters.
pub proof fn law_redacted_texts_hold_no_serial(s: Seq<char>, i: int)
    requires
        forall|j: int|
            0 <= j < crate::text::words(without_controls(s)).len()
                ==> (#[trigger] crate::text::words(without_controls(s))[j]).len() <= 128,
        0 <= i < crate::text::words(redacted_text(s)).len(),
    ensures
        !looks_like_a_serial(crate::text::words(redacted_text(s))[i]),
{
    law_texts_are_redacted_word_by_word(s);
    law_no_serial_survives(crate::text::words(without_controls(s))[i]);
}

/// A serial number is normalized character by character: letters and digits stay
/// in upper case, and everything else is dropped.
pub proof fn law_serials_are_normalized_character_by_character(s: Seq<char>, c: char)
    ensures
        normalized_serial(Seq::<char>::empty()) == Seq::<char>::empty(),
        CharSet::Alphanumeric.has(c) ==> normalized_serial(s.push(c)) == normalized_serial(s).push(
            crate::text::upper(c),
        ),
        !CharSet::Alphanumeric.has(c) ==> normalized_serial(s.push(c)) == normalized_serial(s),
{
    reveal(Seq::filter);
    let pred = |x: char| crate::text::is_alphanumeric(x);
    assert(s.push(c).drop_last() =~= s);
    assert(Seq::<char>::empty().filter(pred) =~= Seq::<char>::empty());
    assert(normalized_serial(Seq::<char>::empty()) =~= Seq::<char>::empty());
    if CharSet::Alphanumeric.has(c) {
        assert(s.push(c).filter(pred) =~= s.filter(pred).push(c));
        assert(normalized_serial(s.push(c)) =~= normalized_serial(s).push(crate::text::upper(c)));
    }
}

/// The first four characters of a serial number are shown and tell the model;
/// of one that begins with `G000` and goes on, six are shown and the last three
/// of them tell the model.
pub proof fn law_models_are_told_by_the_beginning(serial: Seq<char>)
    requires
        serial.len() >= 4,
    ensures
        ({
            let newer = serial.len() >= 6 && serial[0] == 'G' && serial[1] == '0' && serial[2]
                == '0' && serial[3] == '0';
            &&& newer ==> visible_part(serial) == serial.take(6) && model_prefix(serial) == seq![
                serial[3],
                serial[4],
                serial[5],
            ]
            &&& !newer ==> visible_part(serial) == serial.take(4) && model_prefix(serial)
                == serial.take(4)
        }),
{
    reveal_strlit("G000");
    assert("G000"@ =~= seq!['G', '0', '0', '0']);
    let head = serial.subrange(0, 4);
    assert(head =~= seq![serial[0], serial[1], serial[2], serial[3]]);
    if serial.len() >= 6 {
        assert(serial.subrange(3, 6) =~= seq![serial[3], serial[4], serial[5]]);
    }
    if head == "G000"@ {
        assert(head[0] == 'G' && head[1] == '0' && head[2] == '0' && head[3] == '0');
    }
}

} // verus!
