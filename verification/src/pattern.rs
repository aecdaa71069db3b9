//! Splitting and replacing at a pattern of several characters.

use crate::text::{find, to_chars};
use vstd::prelude::*;
use vstd::slice::slice_subrange;

verus! {

/// The first position at which `needle` stands in `s`.
#[verifier::opaque]
pub open spec fn first_position(s: Seq<char>, needle: Seq<char>) -> int {
    choose|i: int|
        crate::text::occurs_at(s, needle, i) && forall|j: int|
            0 <= j < i ==> !#[trigger] crate::text::occurs_at(s, needle, j)
}

/// The text before and after the first `needle`, if there is one.
pub open spec fn split_at_first(s: Seq<char>, needle: Seq<char>) -> Option<
    (Seq<char>, Seq<char>),
> {
    if crate::text::occurs(s, needle) {
        let i = first_position(s, needle);
        Some((s.take(i), s.skip(i + needle.len())))
    } else {
        None
    }
}

/// Where `needle` stands in `s` at all, it stands at its first position and
/// nowhere before it.
pub proof fn first_position_is_first(s: Seq<char>, needle: Seq<char>)
    requires
        crate::text::occurs(s, needle),
    ensures
        crate::text::occurs_at(s, needle, first_position(s, needle)),
        forall|i: int|
            0 <= i < first_position(s, needle) ==> !#[trigger] crate::text::occurs_at(
                s,
                needle,
                i,
            ),
{
    let some = choose|i: int| crate::text::occurs_at(s, needle, i);
    least_position(s, needle, some);
    reveal(first_position);
}

/// Below a position at which `needle` stands there is a first one.
proof fn least_position(s: Seq<char>, needle: Seq<char>, i: int)
    requires
        crate::text::occurs_at(s, needle, i),
    ensures
        exists|k: int|
            #[trigger] crate::text::occurs_at(s, needle, k) && forall|j: int|
                0 <= j < k ==> !#[trigger] crate::text::occurs_at(s, needle, j),
    decreases i,
{
    if exists|j: int| 0 <= j < i && #[trigger] crate::text::occurs_at(s, needle, j) {
        let j = choose|j: int| 0 <= j < i && #[trigger] crate::text::occurs_at(s, needle, j);
        least_position(s, needle, j);
    }
}

pub(crate) proof fn first_position_is_unique(s: Seq<char>, needle: Seq<char>, i: int)
    requires
        crate::text::occurs_at(s, needle, i),
        forall|j: int| 0 <= j < i ==> !#[trigger] crate::text::occurs_at(s, needle, j),
    ensures
        first_position(s, needle) == i,
{
    reveal(first_position);
    let k = first_position(s, needle);
    assert(crate::text::occurs_at(s, needle, k));
    if k < i {
        assert(!crate::text::occurs_at(s, needle, k));
    } else if i < k {
        assert(!crate::text::occurs_at(s, needle, i));
    }
}

/// Splits `chars` at the first `needle`.
pub fn split_once_at<'a>(chars: &'a [char], needle: &str) -> (pair: Option<
    (&'a [char], &'a [char]),
>)
    ensures
        crate::text::optional_pair(pair) == split_at_first(chars@, needle@),
{
    let needle: Vec<char> = to_chars(needle);
    let length: usize = chars.len();
    match find(chars, needle.as_slice()) {
        Some(i) => {
            proof {
                first_position_is_unique(chars@, needle@, i as int);
            }
            let before: &[char] = slice_subrange(chars, 0, i);
            let after: &[char] = slice_subrange(chars, i + needle.len(), length);
            assert(before@ =~= chars@.take(i as int));
            assert(after@ =~= chars@.skip(i + needle@.len()));
            Some((before, after))
        },
        None => None,
    }
}

/// The text with every occurrence of `needle` replaced, from left to right.
pub open spec fn replaced(s: Seq<char>, needle: Seq<char>, with: char) -> Seq<char>
    decreases s.len(),
{
    if s.len() == 0 || needle.len() == 0 {
        s
    } else if crate::text::begins(s, needle) {
        seq![with] + replaced(s.skip(needle.len() as int), needle, with)
    } else {
        seq![s[0]] + replaced(s.skip(1), needle, with)
    }
}

/// Replaces every occurrence of `needle`, which is not empty.
pub fn replace(chars: &[char], needle: &str, with: char) -> (r: Vec<char>)
    requires
        needle@.len() > 0,
    ensures
        r@ == replaced(chars@, needle@, with),
{
    let needle: Vec<char> = to_chars(needle);
    let mut r: Vec<char> = Vec::new();
    let mut at: usize = 0;
    assert(chars@.skip(0) =~= chars@);
    assert(r@ + replaced(chars@.skip(0), needle@, with) =~= replaced(chars@, needle@, with));
    while at < chars.len()
        invariant
            at <= chars.len(),
            needle@.len() > 0,
            r@ + replaced(chars@.skip(at as int), needle@, with) == replaced(
                chars@,
                needle@,
                with,
            ),
        decreases chars.len() - at,
    {
        let ghost s = chars@.skip(at as int);
        let ghost before = r@;
        let tail: &[char] = slice_subrange(chars, at, chars.len());
        assert(tail@ =~= s);
        if crate::text::test_occurs_at(tail, needle.as_slice(), 0) {
            r.push(with);
            at = at + needle.len();
            assert(chars@.skip(at as int) =~= s.skip(needle@.len() as int));
            assert(r@ + replaced(chars@.skip(at as int), needle@, with) =~= before + (seq![with]
                + replaced(s.skip(needle@.len() as int), needle@, with)));
        } else {
            r.push(chars[at]);
            at = at + 1;
            assert(chars@.skip(at as int) =~= s.skip(1));
            assert(r@ + replaced(chars@.skip(at as int), needle@, with) =~= before + (seq![s[0]]
                + replaced(s.skip(1), needle@, with)));
        }
    }
    assert(chars@.skip(at as int) =~= Seq::<char>::empty());
    assert(r@ + replaced(chars@.skip(at as int), needle@, with) =~= r@);
    r
}

/// The texts between the occurrences of `needle`, from left to right; there is
/// always at least one.
pub open spec fn split_at_all(s: Seq<char>, needle: Seq<char>) -> Seq<Seq<char>>
    decreases s.len(),
{
    match split_at_first(s, needle) {
        Some((before, after)) => if after.len() < s.len() {
            seq![before] + split_at_all(after, needle)
        } else {
            seq![s]
        },
        None => seq![s],
    }
}

/// Splits `chars` at every `needle`, which is not empty.
pub fn split_at_every<'a>(chars: &'a [char], needle: &str) -> (list: Vec<&'a [char]>)
    requires
        needle@.len() > 0,
    ensures
        crate::text::slices(list@) == split_at_all(chars@, needle@),
{
    let mut list: Vec<&'a [char]> = Vec::new();
    let mut rest: &'a [char] = chars;
    assert(crate::text::slices(list@) + split_at_all(rest@, needle@) =~= split_at_all(
        chars@,
        needle@,
    ));
    loop
        invariant
            needle@.len() > 0,
            crate::text::slices(list@) + split_at_all(rest@, needle@) == split_at_all(
                chars@,
                needle@,
            ),
        decreases rest@.len(),
    {
        let ghost done = crate::text::slices(list@);
        match split_once_at(rest, needle) {
            Some((before, after)) => {
                proof {
                    split_takes_the_first(rest@, needle@, before@, after@);
                    pieces_move_over(done, before@, split_at_all(after@, needle@));
                }
                list.push(before);
                assert(crate::text::slices(list@) =~= done.push(before@));
                rest = after;
            },
            None => {
                list.push(rest);
                assert(crate::text::slices(list@) =~= done + seq![rest@]);
                return list;
            },
        }
    }
}

/// A split takes the text before the first `needle`, and goes on behind it.
proof fn split_takes_the_first(
    s: Seq<char>,
    needle: Seq<char>,
    before: Seq<char>,
    after: Seq<char>,
)
    requires
        needle.len() > 0,
        split_at_first(s, needle) == Some((before, after)),
    ensures
        after.len() < s.len(),
        split_at_all(s, needle) == seq![before] + split_at_all(after, needle),
{
    let k = choose|k: int| crate::text::occurs_at(s, needle, k);
    first_occurrence_exists(s, needle, k);
    assert(crate::text::occurs_at(s, needle, first_position(s, needle)));
}

proof fn pieces_move_over(done: Seq<Seq<char>>, piece: Seq<char>, rest: Seq<Seq<char>>)
    ensures
        done.push(piece) + rest == done + (seq![piece] + rest),
{
    assert(done.push(piece) + rest =~= done + (seq![piece] + rest));
}

/// A pattern that occurs has a first occurrence.
proof fn first_occurrence_exists(s: Seq<char>, needle: Seq<char>, k: int)
    requires
        crate::text::occurs_at(s, needle, k),
    ensures
        crate::text::occurs_at(s, needle, first_position(s, needle)),
    decreases k,
{
    if forall|j: int| 0 <= j < k ==> !#[trigger] crate::text::occurs_at(s, needle, j) {
        first_position_is_unique(s, needle, k);
    } else {
        let j = choose|j: int| 0 <= j < k && #[trigger] crate::text::occurs_at(s, needle, j);
        first_occurrence_exists(s, needle, j);
    }
}

/// A text is split at the first occurrence of a pattern: the two parts with the
/// pattern between them are the text, and the pattern stands nowhere before.
pub proof fn law_splitting_takes_the_first(s: Seq<char>, needle: Seq<char>)
    ensures
        match split_at_first(s, needle) {
            None => !crate::text::occurs(s, needle),
            Some((before, after)) => {
                &&& s == before + needle + after
                &&& forall|j: int|
                    0 <= j < before.len() ==> !#[trigger] crate::text::occurs_at(s, needle, j)
            },
        },
{
    if crate::text::occurs(s, needle) {
        first_position_is_first(s, needle);
        let i = first_position(s, needle);
        assert(s =~= s.take(i) + s.subrange(i, i + needle.len()) + s.skip(i + needle.len()));
    }
}

proof fn occurrences_move_with_the_text(s: Seq<char>, needle: Seq<char>, i: int)
    requires
        s.len() > 0,
        i >= 0,
    ensures
        crate::text::occurs_at(s, needle, i + 1) <==> crate::text::occurs_at(
            s.skip(1),
            needle,
            i,
        ),
{
    if i + 1 + needle.len() <= s.len() {
        assert(s.skip(1).subrange(i, i + needle.len()) =~= s.subrange(
            i + 1,
            i + 1 + needle.len(),
        ));
    }
}

/// Replacing a pattern puts one character in place of its first occurrence, and
/// goes on behind it; a text without the pattern stays as it is.
pub proof fn law_replacing_goes_from_first_to_first(s: Seq<char>, needle: Seq<char>, with: char)
    requires
        needle.len() > 0,
    ensures
        match split_at_first(s, needle) {
            None => replaced(s, needle, with) == s,
            Some((before, after)) => replaced(s, needle, with) == before + seq![with] + replaced(
                after,
                needle,
                with,
            ),
        },
    decreases s.len(),
{
    if s.len() == 0 {
        assert(!crate::text::occurs(s, needle));
    } else if crate::text::begins(s, needle) {
        first_position_is_unique(s, needle, 0);
        assert(s.take(0) =~= Seq::<char>::empty());
        assert(crate::text::occurs(s, needle));
        assert(replaced(s, needle, with) =~= s.take(0) + seq![with] + replaced(
            s.skip(needle.len() as int),
            needle,
            with,
        ));
    } else {
        let t = s.skip(1);
        law_replacing_goes_from_first_to_first(t, needle, with);
        if crate::text::occurs(s, needle) {
            first_position_is_first(s, needle);
            let i = first_position(s, needle);
            assert(i > 0);
            occurrences_move_with_the_text(s, needle, i - 1);
            assert forall|j: int| 0 <= j < i - 1 implies !#[trigger] crate::text::occurs_at(
                t,
                needle,
                j,
            ) by {
                occurrences_move_with_the_text(s, needle, j);
                assert(!crate::text::occurs_at(s, needle, j + 1));
            }
            first_position_is_unique(t, needle, i - 1);
            assert(crate::text::occurs(t, needle));
            assert(t.skip(i - 1 + needle.len()) =~= s.skip(i + needle.len()));
            assert(seq![s[0]] + t.take(i - 1) =~= s.take(i));
            assert(replaced(s, needle, with) =~= s.take(i) + seq![with] + replaced(
                s.skip(i + needle.len()),
                needle,
                with,
            ));
        } else {
            if crate::text::occurs(t, needle) {
                let j = choose|j: int| crate::text::occurs_at(t, needle, j);
                occurrences_move_with_the_text(s, needle, j);
                assert(crate::text::occurs_at(s, needle, j + 1));
            }
            assert(seq![s[0]] + t =~= s);
        }
    }
}

/// The parts between the occurrences of a pattern do not hold it, and joined by
/// it they are the text again.
pub proof fn law_joined_parts_are_the_text(s: Seq<char>, needle: Seq<char>)
    requires
        needle.len() > 0,
    ensures
        split_at_all(s, needle).len() > 0,
        crate::text::joined(split_at_all(s, needle), needle) == s,
        forall|i: int|
            0 <= i < split_at_all(s, needle).len() ==> !crate::text::occurs(
                #[trigger] split_at_all(s, needle)[i],
                needle,
            ),
    decreases s.len(),
{
    law_splitting_takes_the_first(s, needle);
    if let Some((before, after)) = split_at_first(s, needle) {
        split_takes_the_first(s, needle, before, after);
        law_joined_parts_are_the_text(after, needle);
        let rest = split_at_all(after, needle);
        crate::text::law_joining_puts_separators_between(before, rest, needle);
        if crate::text::occurs(before, needle) {
            let j = choose|j: int| crate::text::occurs_at(before, needle, j);
            assert(s.subrange(j, j + needle.len()) =~= before.subrange(j, j + needle.len()));
            assert(crate::text::occurs_at(s, needle, j));
        }
        let all = split_at_all(s, needle);
        assert forall|i: int| 0 <= i < all.len() implies !crate::text::occurs(
            #[trigger] all[i],
            needle,
        ) by {
            if i > 0 {
                assert(all[i] == rest[i - 1]);
            } else {
                assert(all[0] == before);
            }
        }
    } else {
        assert(split_at_all(s, needle) =~= seq![s]);
        crate::text::law_joining_puts_separators_between(s, seq![], needle);
    }
}

} // verus!
