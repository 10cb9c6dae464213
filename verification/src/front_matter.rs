//! The metadata block that a document may carry at its very start.
//!
//! A document carries a block when its first line is exactly
//! `<!-- metadata`. The block is made of the lines that follow, up to a line
//! that is exactly `-->` or to the end of the document, each with a line
//! break after it. Lines are separated by `\n` alone.

use crate::text::{chars_of, option_view, push_range, range_equals};
use vstd::prelude::*;

verus! {

/// The line that opens a metadata block.
pub open spec fn opening_marker() -> Seq<char> {
    "<!-- metadata"@
}

/// The line that closes a metadata block.
pub open spec fn closing_line() -> Seq<char> {
    "-->"@
}

/// Where the line that holds position `from` ends: the position of the first
/// line break at or after `from`, or the length of `text` if there is none.
pub open spec fn line_end(text: Seq<char>, from: int) -> int
    decreases text.len() - from,
{
    if 0 <= from < text.len() && text[from] != '\n' {
        line_end(text, from + 1)
    } else {
        from
    }
}

/// `line_end` stops at the first line break, or at the end of the text.
pub proof fn lemma_line_end(text: Seq<char>, from: int)
    requires
        0 <= from <= text.len(),
    ensures
        from <= line_end(text, from) <= text.len(),
        line_end(text, from) < text.len() ==> text[line_end(text, from)] == '\n',
        forall|j: int| from <= j < line_end(text, from) ==> text[j] != '\n',
    decreases text.len() - from,
{
    if from < text.len() && text[from] != '\n' {
        lemma_line_end(text, from + 1);
    }
}

/// The line of `text` that starts at `start`, without its line break.
pub open spec fn line_at(text: Seq<char>, start: int) -> Seq<char> {
    text.subrange(start, line_end(text, start))
}

/// Whether the first line of `text` is exactly the opening marker.
pub open spec fn has_marker(text: Seq<char>) -> bool {
    line_at(text, 0) == opening_marker()
}

/// The lines of `text` from the one that starts at `start` on, up to a
/// closing line or the end of `text`, each followed by a line break.
pub open spec fn block_from(text: Seq<char>, start: int) -> Seq<char>
    decreases text.len() - start,
{
    if 0 <= start <= text.len() {
        let end = line_end(text, start);
        let line = line_at(text, start);
        if line == closing_line() {
            Seq::empty()
        } else if end < text.len() {
            proof {
                lemma_line_end(text, start);
            }
            line + seq!['\n'] + block_from(text, end + 1)
        } else {
            line + seq!['\n']
        }
    } else {
        Seq::empty()
    }
}

/// The metadata block of a document: none where the first line is not the
/// opening marker, and an empty one where the document ends with that
/// line.
pub open spec fn front_matter_block(text: Seq<char>) -> Option<Seq<char>> {
    if !has_marker(text) {
        None
    } else if line_end(text, 0) < text.len() {
        Some(block_from(text, line_end(text, 0) + 1))
    } else {
        Some(Seq::empty())
    }
}

/// The position where the line that holds position `from` ends.
fn find_line_end(chars: &Vec<char>, from: usize) -> (end: usize)
    requires
        from <= chars.len(),
    ensures
        end == line_end(chars@, from as int),
        from <= end <= chars.len(),
{
    let mut end: usize = from;
    while end < chars.len() && chars[end] != '\n'
        invariant
            from <= end <= chars.len(),
            line_end(chars@, from as int) == line_end(chars@, end as int),
        decreases chars.len() - end,
    {
        end += 1;
    }
    end
}

/// Extracts the metadata block from the text of a document, if the
/// document carries one.
pub fn front_matter(document: &str) -> (found: Option<String>)
    ensures
        option_view(found) == front_matter_block(document@),
{
    let chars = chars_of(document);
    let marker = chars_of("<!-- metadata");
    let closing = chars_of("-->");
    let mut block = String::new();
    let first_end = find_line_end(&chars, 0);
    if !range_equals(&chars, 0, first_end, &marker) {
        return None;
    }
    if first_end == chars.len() {
        return Some(block);
    }
    let mut start: usize = first_end + 1;
    loop
        invariant_except_break
            start <= chars.len(),
            front_matter_block(document@) == Some(block@ + block_from(chars@, start as int)),
        invariant
            chars@ == document@,
            closing@ == closing_line(),
        ensures
            front_matter_block(document@) == Some(block@),
        decreases chars.len() - start,
    {
        let end = find_line_end(&chars, start);
        if range_equals(&chars, start, end, &closing) {
            break;
        }
        push_range(&mut block, &chars, start, end);
        block.push('\n');
        if end == chars.len() {
            break;
        }
        start = end + 1;
    }
    Some(block)
}

} // verus!
