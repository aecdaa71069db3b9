//! Building operator-facing messages and lists of them.

use crate::text::{push_string, push_text};
use vstd::prelude::*;

verus! {

/// What the UTF-8 form of a text takes in bytes.
pub open spec fn byte_length(s: Seq<char>) -> nat {
    vstd::utf8::encode_utf8(s).len()
}

/// Returns the length of `s` in bytes.
pub fn byte_len(s: &str) -> (length: usize)
    ensures
        length == byte_length(s@),
{
    s.as_bytes().len()
}

/// One text, when something is wrong; nothing otherwise.
pub open spec fn remark(wrong: bool, text: Seq<char>) -> Seq<Seq<char>> {
    if wrong {
        seq![text]
    } else {
        seq![]
    }
}

/// Appends `text` when `wrong`.
pub(crate) fn note_text(list: &mut Vec<String>, wrong: bool, text: &str)
    ensures
        crate::text::texts(final(list)@) == crate::text::texts(old(list)@) + remark(wrong, text@),
{
    if wrong {
        push_text(list, text);
    }
    assert(crate::text::texts(list@) =~= crate::text::texts(old(list)@) + remark(wrong, text@));
}

/// Appends `text` when `wrong`.
pub(crate) fn note_string(list: &mut Vec<String>, wrong: bool, text: String)
    ensures
        crate::text::texts(final(list)@) == crate::text::texts(old(list)@) + remark(wrong, text@),
{
    let ghost characters = text@;
    if wrong {
        push_string(list, text);
    }
    assert(crate::text::texts(list@) =~= crate::text::texts(old(list)@) + remark(
        wrong,
        characters,
    ));
}

/// A text as the `Debug` format of the standard library writes it: in double
/// quotes, with escapes.
pub uninterp spec fn quoted(s: Seq<char>) -> Seq<char>;

/// Formats `s` with the `Debug` implementation of `str`. The result is a
/// function of the characters alone; which of them are escaped is left to the
/// standard library.
#[verifier::external_body]
pub(crate) fn quote(s: &str) -> (r: String)
    ensures
        r@ == quoted(s@),
{
    format!("{s:?}")
}

/// The texts, quoted, with a comma and a space between each two of them.
pub open spec fn quoted_items(list: Seq<Seq<char>>) -> Seq<char> {
    crate::text::joined(list.map_values(|s: Seq<char>| quoted(s)), ", "@)
}

/// A list of texts in square brackets, each one quoted.
pub open spec fn quoted_list(list: Seq<Seq<char>>) -> Seq<char> {
    "["@ + quoted_items(list) + "]"@
}

/// Appends a list of texts in square brackets, each one quoted.
pub(crate) fn push_quoted_list(out: &mut String, list: &Vec<String>)
    ensures
        final(out)@ == old(out)@ + quoted_list(crate::text::texts(list@)),
{
    let ghost all = crate::text::texts(list@).map_values(|s: Seq<char>| quoted(s));
    out.append("[");
    let ghost opened = out@;
    assert(opened + crate::text::joined(all.take(0), ", "@) =~= opened);
    for i in 0..list.len()
        invariant
            all == crate::text::texts(list@).map_values(|s: Seq<char>| quoted(s)),
            out@ == opened + crate::text::joined(all.take(i as int), ", "@),
    {
        assert(all.take(i + 1).drop_last() =~= all.take(i as int));
        assert(all.take(i + 1).last() == quoted(list@[i as int]@));
        if i > 0 {
            out.append(", ");
        }
        out.append(quote(list[i].as_str()).as_str());
        assert(out@ =~= opened + crate::text::joined(all.take(i + 1), ", "@));
    }
    assert(all.take(all.len() as int) =~= all);
    out.append("]");
    assert(out@ =~= old(out)@ + quoted_list(crate::text::texts(list@)));
}

/// Appends the texts, with `separator` between each two of them.
pub(crate) fn push_joined(out: &mut String, list: &Vec<String>, separator: &str)
    ensures
        final(out)@ == old(out)@ + crate::text::joined(crate::text::texts(list@), separator@),
{
    let ghost all = crate::text::texts(list@);
    assert(out@ + crate::text::joined(all.take(0), separator@) =~= out@);
    for i in 0..list.len()
        invariant
            all == crate::text::texts(list@),
            out@ == old(out)@ + crate::text::joined(all.take(i as int), separator@),
    {
        assert(all.take(i + 1).drop_last() =~= all.take(i as int));
        assert(all.take(i + 1).last() == list@[i as int]@);
        if i > 0 {
            out.append(separator);
        }
        out.append(list[i].as_str());
        assert(out@ =~= old(out)@ + crate::text::joined(all.take(i + 1), separator@));
    }
    assert(all.take(all.len() as int) =~= all);
}

/// A remark is made exactly where something is wrong, and is its text.
pub proof fn law_remarks_are_made_when_wrong(wrong: bool, text: Seq<char>)
    ensures
        wrong ==> remark(wrong, text) == seq![text],
        !wrong ==> remark(wrong, text).len() == 0,
{
}

/// A list is shown in brackets, with commas between its quoted items.
pub proof fn law_lists_are_shown_in_brackets(list: Seq<Seq<char>>, item: Seq<char>)
    ensures
        quoted_list(Seq::<Seq<char>>::empty()) == seq!['[', ']'],
        quoted_list(seq![item]) == seq!['['] + quoted(item) + seq![']'],
        list.len() > 0 ==> quoted_list(list.push(item)) == quoted_list(list).drop_last() + seq![
            ',',
            ' ',
        ] + quoted(item) + seq![']'],
{
    reveal_strlit("[");
    reveal_strlit("]");
    reveal_strlit(", ");
    assert("["@ =~= seq!['[']);
    assert("]"@ =~= seq![']']);
    assert(", "@ =~= seq![',', ' ']);
    let view = |s: Seq<char>| quoted(s);
    let none = Seq::<Seq<char>>::empty();
    assert(none.map_values(view) =~= none);
    assert(quoted_list(none) =~= seq!['[', ']']);
    assert(seq![item].map_values(view) =~= seq![quoted(item)]);
    let items = list.map_values(view);
    assert(list.push(item).map_values(view) =~= items.push(quoted(item)));
    assert(items.push(quoted(item)).drop_last() =~= items);
    if list.len() > 0 {
        assert(quoted_list(list).drop_last() =~= seq!['['] + quoted_items(list));
        assert(quoted_list(list.push(item)) =~= quoted_list(list).drop_last() + seq![',', ' ']
            + quoted(item) + seq![']']);
    }
}

} // verus!
