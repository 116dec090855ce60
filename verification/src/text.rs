//! Texts as sequences of characters, and their splitting at a separator.

use vstd::prelude::*;

verus! {

/// A text that may be absent, by its characters.
pub open spec fn text_view(text: Option<String>) -> Option<Seq<char>> {
    match text {
        Some(text) => Some(text@),
        None => None,
    }
}

/// No character of `text` is `separator`.
pub open spec fn free_of(text: Seq<char>, separator: char) -> bool {
    forall|i: int| 0 <= i < text.len() ==> text[i] != separator
}

/// The pieces of `text` that lie between the occurrences of `separator`,
/// in order. A text with `n` separators has `n + 1` pieces, some of which
/// may be empty.
pub open spec fn split_on(text: Seq<char>, separator: char) -> Seq<Seq<char>>
    decreases text.len(),
{
    if text.len() == 0 {
        seq![Seq::<char>::empty()]
    } else {
        let before = split_on(text.drop_last(), separator);
        if text.last() == separator {
            before.push(Seq::<char>::empty())
        } else {
            before.update(before.len() - 1, before.last().push(text.last()))
        }
    }
}

/// A text has at least one piece.
pub proof fn lemma_split_some(text: Seq<char>, separator: char)
    ensures
        split_on(text, separator).len() >= 1,
    decreases text.len(),
{
    if text.len() > 0 {
        lemma_split_some(text.drop_last(), separator);
    }
}

/// A tail without separator lengthens the last piece and changes no
/// other.
pub proof fn lemma_split_tail(text: Seq<char>, tail: Seq<char>, separator: char)
    requires
        free_of(tail, separator),
    ensures
        split_on(text, separator).len() >= 1,
        split_on(text + tail, separator) == split_on(text, separator).update(
            split_on(text, separator).len() - 1,
            split_on(text, separator).last() + tail,
        ),
    decreases tail.len(),
{
    let pieces = split_on(text, separator);
    lemma_split_some(text, separator);
    if tail.len() == 0 {
        assert(text + tail =~= text);
        assert(pieces.last() + tail =~= pieces.last());
        assert(pieces.update(pieces.len() - 1, pieces.last()) =~= pieces);
    } else {
        let shorter = tail.drop_last();
        lemma_split_tail(text, shorter, separator);
        assert((text + tail).drop_last() =~= text + shorter);
        assert((text + tail).last() == tail.last());
        let inner = split_on(text + shorter, separator);
        assert(inner.last().push(tail.last()) =~= pieces.last() + tail);
        assert(inner.update(inner.len() - 1, pieces.last() + tail) =~= pieces.update(
            pieces.len() - 1,
            pieces.last() + tail,
        ));
    }
}

/// A separator and a tail without separator add the tail as one more
/// piece.
pub proof fn lemma_split_next(text: Seq<char>, tail: Seq<char>, separator: char)
    requires
        free_of(tail, separator),
    ensures
        split_on(text + seq![separator] + tail, separator) == split_on(text, separator).push(tail),
{
    let opened = text + seq![separator];
    assert(opened.drop_last() =~= text);
    assert(opened.last() == separator);
    lemma_split_tail(opened, tail, separator);
    let pieces = split_on(opened, separator);
    assert(pieces.last() + tail =~= tail);
    assert(pieces.update(pieces.len() - 1, tail) =~= split_on(text, separator).push(tail));
}

/// A text without separator is its own single piece.
pub proof fn lemma_split_whole(text: Seq<char>, separator: char)
    requires
        free_of(text, separator),
    ensures
        split_on(text, separator) == seq![text],
{
    let nothing = Seq::<char>::empty();
    lemma_split_tail(nothing, text, separator);
    assert(nothing + text =~= text);
    let pieces = split_on(nothing, separator);
    assert(pieces.update(pieces.len() - 1, pieces.last() + text) =~= seq![text]);
}

/// The text of these lines, each followed by `end`.
pub open spec fn terminated(lines: Seq<Seq<char>>, end: char) -> Seq<char>
    decreases lines.len(),
{
    if lines.len() == 0 {
        Seq::<char>::empty()
    } else {
        terminated(lines.drop_last(), end) + lines.last() + seq![end]
    }
}

/// Lines that hold no line end are found again by splitting their text at
/// the line ends; after the last line end an empty piece is left.
pub proof fn lemma_split_terminated(lines: Seq<Seq<char>>, end: char)
    requires
        forall|i: int| 0 <= i < lines.len() ==> free_of(#[trigger] lines[i], end),
    ensures
        split_on(terminated(lines, end), end) == lines.push(Seq::<char>::empty()),
    decreases lines.len(),
{
    let nothing = Seq::<char>::empty();
    if lines.len() == 0 {
        assert(lines.push(nothing) =~= seq![nothing]);
    } else {
        let earlier = lines.drop_last();
        let body = terminated(earlier, end);
        lemma_split_terminated(earlier, end);
        lemma_split_tail(body, lines.last(), end);
        let open_line = body + lines.last();
        let closed = open_line + seq![end];
        assert(closed.drop_last() =~= open_line);
        assert(closed.last() == end);
        assert(nothing + lines.last() =~= lines.last());
        assert(earlier.push(nothing).update(earlier.len() as int, lines.last()) =~= lines);
    }
}

} // verus!
