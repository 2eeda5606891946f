//! Text utilities over the characters of a string: comparison, splitting at
//! a separator, and cutting at the last one.

use vstd::prelude::*;
use vstd::utf8::encode_utf8_decode_utf8;
use vstd::string::StringSliceAdditionalSpecFns;

verus! {

broadcast use vstd::string::group_string_axioms;

/// What `str::to_uppercase` returns for a text: its upper-case equivalent by
/// the Unicode case mappings, which may be longer than the text itself.
pub uninterp spec fn uppercased(text: Seq<char>) -> Seq<char>;

/// `str::to_uppercase` allocates a new string that holds the upper-case
/// equivalent of its argument; the result is a function of the text alone.
pub assume_specification[ str::to_uppercase ](text: &str) -> (upper: String)
    ensures
        upper@ == uppercased(text@),
;

/// Whether two strings hold the same characters.
pub fn same_text(a: &str, b: &str) -> (same: bool)
    ensures
        same == (a@ == b@),
{
    let x = a.as_bytes();
    let y = b.as_bytes();
    if x.len() != y.len() {
        return false;
    }
    let mut i: usize = 0;
    while i < x.len()
        invariant
            x@ == a.spec_bytes(),
            y@ == b.spec_bytes(),
            x.len() == y.len(),
            i <= x.len(),
            forall|j: int| 0 <= j < i ==> x@[j] == y@[j],
        decreases x.len() - i,
    {
        if x[i] != y[i] {
            return false;
        }
        i += 1;
    }
    proof {
        assert(x@ =~= y@);
        encode_utf8_decode_utf8(a@);
        encode_utf8_decode_utf8(b@);
    }
    true
}

/// The segments of `text` between occurrences of `sep`, in order, read off
/// character by character: the empty text is one empty segment, a `sep`
/// closes the last segment and opens an empty one, and any other character
/// goes to the end of the last segment.
pub open spec fn split_text(text: Seq<char>, sep: char) -> Seq<Seq<char>>
    decreases text.len(),
{
    if text.len() == 0 {
        seq![Seq::<char>::empty()]
    } else {
        let before = split_text(text.drop_last(), sep);
        if text.last() == sep {
            before.push(Seq::<char>::empty())
        } else {
            before.drop_last().push(before.last().push(text.last()))
        }
    }
}

/// Splits `text` at every `sep`: the segments between the separators, in
/// order, as slices of `text`. There is at least one segment, none holds
/// `sep`, and joined by `sep` they are `text` again.
pub fn split<'a>(text: &'a str, sep: char) -> (parts: Vec<&'a str>)
    ensures
        parts.deep_view() == split_text(text@, sep),
        parts.len() >= 1,
        forall|i: int| 0 <= i < parts.len() ==> !(#[trigger] parts[i])@.contains(sep),
        join_text(parts.deep_view(), sep) == text@,
{
    let n = text.unicode_len();
    let mut parts: Vec<&'a str> = Vec::new();
    let mut start: usize = 0;
    let mut i: usize = 0;
    proof {
        assert(text@.take(0) =~= Seq::<char>::empty());
        assert(parts.deep_view().push(text@.subrange(0, 0)) =~= seq![Seq::<char>::empty()]);
    }
    for c in it: text.chars()
        invariant
            it.seq() == text@,
            n == text@.len(),
            i == it.index(),
            start <= i,
            split_text(text@.take(i as int), sep) == parts.deep_view().push(
                text@.subrange(start as int, i as int),
            ),
    {
        let ghost done = parts.deep_view();
        let ghost open = text@.subrange(start as int, i as int);
        proof {
            let next = text@.take(i + 1);
            assert(next.drop_last() =~= text@.take(i as int));
            assert(next.last() == c);
            assert(done.push(open).drop_last() =~= done);
        }
        if c == sep {
            parts.push(text.substring_char(start, i));
            start = i + 1;
            proof {
                assert(parts.deep_view() =~= done.push(open));
                assert(text@.subrange(start as int, i + 1) =~= Seq::<char>::empty());
            }
        } else {
            proof {
                assert(text@.subrange(start as int, i + 1) =~= open.push(c));
            }
        }
        i += 1;
    }
    let ghost done = parts.deep_view();
    parts.push(text.substring_char(start, n));
    proof {
        assert(text@.take(n as int) =~= text@);
        assert(parts.deep_view() =~= done.push(text@.subrange(start as int, n as int)));
        lemma_split_segments_are_free_of_separator(text@, sep);
        lemma_join_restores_text(text@, sep);
        assert forall|i: int| 0 <= i < parts.len() implies !(#[trigger] parts[i])@.contains(
            sep,
        ) by {
            assert(parts[i]@ == split_text(text@, sep)[i]);
        }
    }
    parts
}

/// The segments `parts` written one after another with `sep` between
/// neighbours.
pub open spec fn join_text(parts: Seq<Seq<char>>, sep: char) -> Seq<char>
    decreases parts.len(),
{
    if parts.len() == 0 {
        Seq::<char>::empty()
    } else if parts.len() == 1 {
        parts[0]
    } else {
        join_text(parts.drop_last(), sep).push(sep) + parts.last()
    }
}

/// Splitting never yields an empty list: even the empty text has one
/// (empty) segment.
pub proof fn lemma_split_is_nonempty(text: Seq<char>, sep: char)
    ensures
        split_text(text, sep).len() >= 1,
    decreases text.len(),
{
    if text.len() > 0 {
        lemma_split_is_nonempty(text.drop_last(), sep);
    }
}

/// No segment of a split holds the separator.
pub proof fn lemma_split_segments_are_free_of_separator(text: Seq<char>, sep: char)
    ensures
        forall|i: int|
            0 <= i < split_text(text, sep).len() ==> !(#[trigger] split_text(
                text,
                sep,
            )[i]).contains(sep),
    decreases text.len(),
{
    if text.len() > 0 {
        lemma_split_is_nonempty(text.drop_last(), sep);
        lemma_split_segments_are_free_of_separator(text.drop_last(), sep);
    }
}

/// Joining the segments of a split with the separator gives the text back.
pub proof fn lemma_join_restores_text(text: Seq<char>, sep: char)
    ensures
        join_text(split_text(text, sep), sep) == text,
    decreases text.len(),
{
    if text.len() > 0 {
        let shorter = text.drop_last();
        let before = split_text(shorter, sep);
        lemma_split_is_nonempty(shorter, sep);
        lemma_join_restores_text(shorter, sep);
        if text.last() == sep {
            assert(before.push(Seq::<char>::empty()).drop_last() =~= before);
        } else {
            let grown = before.last().push(text.last());
            assert(before.drop_last().push(grown).drop_last() =~= before.drop_last());
            assert(shorter.push(text.last()) =~= text);
        }
    }
}

/// A text without the separator is its own single segment.
pub proof fn lemma_split_without_separator(text: Seq<char>, sep: char)
    requires
        !text.contains(sep),
    ensures
        split_text(text, sep) == seq![text],
    decreases text.len(),
{
    if text.len() > 0 {
        let shorter = text.drop_last();
        assert(!shorter.contains(sep));
        lemma_split_without_separator(shorter, sep);
        assert(shorter.push(text.last()) =~= text);
    } else {
        assert(text =~= Seq::<char>::empty());
    }
}

/// Splitting distributes over a separator: the segments of `head`, `sep`,
/// `tail` written in a row are those of `head` followed by those of `tail`.
pub proof fn lemma_split_around_separator(head: Seq<char>, tail: Seq<char>, sep: char)
    ensures
        split_text(head.push(sep) + tail, sep) == split_text(head, sep) + split_text(tail, sep),
    decreases tail.len(),
{
    let text = head.push(sep) + tail;
    let left = split_text(head, sep);
    if tail.len() == 0 {
        assert(text.drop_last() =~= head);
    } else {
        let shorter = tail.drop_last();
        let right = split_text(shorter, sep);
        lemma_split_around_separator(head, shorter, sep);
        lemma_split_is_nonempty(shorter, sep);
        assert(text.drop_last() =~= head.push(sep) + shorter);
        let before = left + right;
        if tail.last() != sep {
            assert(before.drop_last().push(before.last().push(tail.last())) =~= left
                + right.drop_last().push(right.last().push(tail.last())));
        }
    }
}

/// The split is the only way to cut a text at its separators: segments that
/// are free of the separator and give the text when joined are the segments
/// of the split.
pub proof fn lemma_split_is_the_only_cut(text: Seq<char>, parts: Seq<Seq<char>>, sep: char)
    requires
        parts.len() >= 1,
        forall|i: int| 0 <= i < parts.len() ==> !(#[trigger] parts[i]).contains(sep),
        join_text(parts, sep) == text,
    ensures
        parts == split_text(text, sep),
    decreases parts.len(),
{
    if parts.len() == 1 {
        lemma_split_without_separator(text, sep);
    } else {
        let head = join_text(parts.drop_last(), sep);
        lemma_split_is_the_only_cut(head, parts.drop_last(), sep);
        lemma_split_around_separator(head, parts.last(), sep);
        lemma_split_without_separator(parts.last(), sep);
    }
}

/// A split has a single segment exactly if the text holds no separator, and
/// that segment is empty exactly if the text is.
pub proof fn lemma_single_segment(text: Seq<char>, sep: char)
    ensures
        split_text(text, sep).len() == 1 <==> !text.contains(sep),
        split_text(text, sep) == seq![Seq::<char>::empty()] <==> text.len() == 0,
{
    lemma_join_restores_text(text, sep);
    lemma_split_segments_are_free_of_separator(text, sep);
    if !text.contains(sep) {
        lemma_split_without_separator(text, sep);
    }
}

/// What `text` says before its last `sep`: all of it where it holds none.
pub open spec fn text_before_last(text: Seq<char>, sep: char) -> Seq<char> {
    if text.contains(sep) {
        join_text(split_text(text, sep).drop_last(), sep)
    } else {
        text
    }
}

/// What `text` says after its last `sep`: all of it where it holds none.
pub open spec fn text_after_last(text: Seq<char>, sep: char) -> Seq<char> {
    split_text(text, sep).last()
}

/// A text that holds the separator is what it says before the last one, the
/// separator, and what it says after it; and after it there is no other.
pub proof fn lemma_text_around_last(text: Seq<char>, sep: char)
    ensures
        !text_after_last(text, sep).contains(sep),
        text.contains(sep) ==> text == text_before_last(text, sep).push(sep) + text_after_last(
            text,
            sep,
        ),
        !text.contains(sep) ==> text == text_before_last(text, sep) && text == text_after_last(
            text,
            sep,
        ),
{
    lemma_split_is_nonempty(text, sep);
    lemma_split_segments_are_free_of_separator(text, sep);
    lemma_join_restores_text(text, sep);
    lemma_single_segment(text, sep);
    if !text.contains(sep) {
        lemma_split_without_separator(text, sep);
    }
}

/// In a text that ends in a separator and a tail without one, the last
/// separator is that one: before it stands the head, after it the tail.
pub proof fn lemma_last_of_joined(head: Seq<char>, tail: Seq<char>, sep: char)
    requires
        !tail.contains(sep),
    ensures
        text_before_last(head.push(sep) + tail, sep) == head,
        text_after_last(head.push(sep) + tail, sep) == tail,
{
    let text = head.push(sep) + tail;
    assert(text[head.len() as int] == sep);
    lemma_split_around_separator(head, tail, sep);
    lemma_split_without_separator(tail, sep);
    lemma_split_is_nonempty(head, sep);
    lemma_join_restores_text(head, sep);
    assert((split_text(head, sep) + seq![tail]).drop_last() =~= split_text(head, sep));
}

/// Cuts `text` at its last `sep`: what stands before it and what stands
/// after it, or nothing where `text` holds no `sep`.
pub fn cut_at_last<'a>(text: &'a str, sep: char) -> (cut: Option<(&'a str, &'a str)>)
    ensures
        match cut {
            Some((before, after)) => text@.contains(sep) && before@ == text_before_last(text@, sep)
                && after@ == text_after_last(text@, sep),
            None => !text@.contains(sep),
        },
{
    let parts = split(text, sep);
    proof {
        lemma_single_segment(text@, sep);
        lemma_text_around_last(text@, sep);
    }
    if parts.len() == 1 {
        return None;
    }
    let after = parts[parts.len() - 1];
    let n = text.unicode_len();
    let tail = after.unicode_len();
    proof {
        let before = text_before_last(text@, sep);
        assert(text@.len() == before.len() + 1 + after@.len());
        assert(text@.subrange(0, n - tail - 1) =~= before);
    }
    Some((text.substring_char(0, n - tail - 1), after))
}

} // verus!
