//! Hex dumps of bytes, as the `pretty_hex` crate makes them, and text cut
//! into lines.

use vstd::prelude::*;
use crate::text::views_of;

verus! {

/// The one-line dump that `pretty_hex::simple_hex` makes of the bytes.
pub uninterp spec fn simple_hex_text(bytes: Seq<u8>) -> Seq<char>;

/// The dump in rows that `pretty_hex::pretty_hex` makes of the bytes.
pub uninterp spec fn pretty_hex_text(bytes: Seq<u8>) -> Seq<char>;

/// `pretty_hex::simple_hex`: the bytes as hexadecimal digits on one line,
/// without a title, addresses or a column of characters. The dump depends on
/// the bytes alone; nothing more is claimed of it.
#[verifier::external_body]
pub(crate) fn simple_dump(bytes: &[u8]) -> (dump: String)
    ensures
        dump@ == simple_hex_text(bytes@),
{
    pretty_hex::simple_hex(&bytes)
}

/// `pretty_hex::pretty_hex`: a title with the number of bytes, then rows of
/// sixteen bytes, each with its address, the bytes as hexadecimal digits and
/// as characters. The dump depends on the bytes alone; nothing more is
/// claimed of it.
#[verifier::external_body]
pub(crate) fn pretty_dump(bytes: &[u8]) -> (dump: String)
    ensures
        dump@ == pretty_hex_text(bytes@),
{
    pretty_hex::pretty_hex(&bytes)
}

/// The lines of a text: what stands between one line feed and the next. A
/// text without a line feed is one line, and so is the empty text; a text
/// that ends in a line feed has an empty last line.
pub open spec fn lines_of(text: Seq<char>) -> Seq<Seq<char>>
    decreases text.len(),
{
    if text.len() == 0 {
        seq![Seq::empty()]
    } else {
        let before = lines_of(text.drop_last());
        if text.last() == '\n' {
            before.push(Seq::empty())
        } else {
            before.drop_last().push(before.last().push(text.last()))
        }
    }
}

/// Lines put together again, with a line feed between one and the next.
pub open spec fn joined(lines: Seq<Seq<char>>) -> Seq<char>
    decreases lines.len(),
{
    if lines.len() == 0 {
        Seq::empty()
    } else if lines.len() == 1 {
        lines[0]
    } else {
        joined(lines.drop_last()) + seq!['\n'] + lines.last()
    }
}

/// Cuts a text into its lines.
pub fn split_lines(text: &str) -> (lines: Vec<String>)
    ensures
        views_of(lines@) == lines_of(text@),
{
    let mut lines: Vec<String> = Vec::new();
    let mut current: String = String::new();
    assert(text@.take(0) == Seq::<char>::empty());
    assert(views_of(lines@).push(current@) == lines_of(text@.take(0)));
    for c in it: text.chars()
        invariant
            it.seq() == text@,
            views_of(lines@).push(current@) == lines_of(text@.take(it.index() as int)),
    {
        let ghost seen = text@.take(it.index() as int);
        let ghost next = text@.take(it.index() + 1);
        let ghost lines_before = views_of(lines@);
        let ghost current_before = current@;
        assert(next.drop_last() == seen);
        assert(next.last() == c);
        if c == '\n' {
            lines.push(current);
            current = String::new();
            assert(views_of(lines@) == lines_before.push(current_before));
        } else {
            current.push(c);
            assert(lines_of(seen).drop_last() == lines_before);
        }
    }
    assert(text@.take(text@.len() as int) == text@);
    let ghost lines_before = views_of(lines@);
    lines.push(current);
    assert(views_of(lines@) == lines_before.push(current@));
    lines
}

/// The dump of a whole image, line by line: a title line with the number of
/// bytes, then one line for each row of sixteen bytes.
pub fn image_dump(image: &[u8]) -> (lines: Vec<String>)
    ensures
        views_of(lines@) == lines_of(pretty_hex_text(image@)),
{
    let dump: String = pretty_dump(image);
    split_lines(dump.as_str())
}

/// Cutting a text into lines loses nothing: there is at least one line, no
/// line has a line feed in it, and the lines joined give the text again.
pub proof fn lemma_lines_join(text: Seq<char>)
    ensures
        lines_of(text).len() >= 1,
        forall|i: int, j: int|
            0 <= i < lines_of(text).len() && 0 <= j < lines_of(text)[i].len() ==> lines_of(
                text,
            )[i][j] != '\n',
        joined(lines_of(text)) == text,
    decreases text.len(),
{
    if text.len() > 0 {
        let shorter = text.drop_last();
        let before = lines_of(shorter);
        lemma_lines_join(shorter);
        if text.last() == '\n' {
            let lines = before.push(Seq::empty());
            assert(lines.drop_last() == before);
            assert(joined(lines) == joined(before) + seq!['\n'] + Seq::<char>::empty());
            assert(joined(lines) == text);
        } else {
            let grown = before.last().push(text.last());
            let lines = before.drop_last().push(grown);
            assert(lines.drop_last() == before.drop_last());
            if before.len() == 1 {
                assert(joined(lines) == grown);
                assert(joined(before) == before.last());
            } else {
                assert(joined(lines) == joined(before.drop_last()) + seq!['\n'] + grown);
                assert(joined(before) == joined(before.drop_last()) + seq!['\n'] + before.last());
            }
            assert(joined(lines) == joined(before).push(text.last()));
            assert(shorter.push(text.last()) == text);
        }
    } else {
        assert(joined(lines_of(text)) == text);
    }
}

} // verus!
