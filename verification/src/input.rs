//! Input lines: what counts as blank, and what text a line contributes.

use vstd::prelude::*;

verus! {

/// Whether `c` is white space: a character with the Unicode property
/// `White_Space`.
pub open spec fn is_white_space(c: char) -> bool {
    let code = c as u32;
    ||| 0x09 <= code <= 0x0D
    ||| code == 0x20
    ||| code == 0x85
    ||| code == 0xA0
    ||| code == 0x1680
    ||| 0x2000 <= code <= 0x200A
    ||| code == 0x2028
    ||| code == 0x2029
    ||| code == 0x202F
    ||| code == 0x205F
    ||| code == 0x3000
}

/// `text` without the white space it starts with.
pub open spec fn without_leading_space(text: Seq<char>) -> Seq<char>
    decreases text.len(),
{
    if text.len() > 0 && is_white_space(text.first()) {
        without_leading_space(text.drop_first())
    } else {
        text
    }
}

/// `text` without the white space it ends with.
pub open spec fn without_trailing_space(text: Seq<char>) -> Seq<char>
    decreases text.len(),
{
    if text.len() > 0 && is_white_space(text.last()) {
        without_trailing_space(text.drop_last())
    } else {
        text
    }
}

/// `text` without the white space at either end.
pub open spec fn trimmed(text: Seq<char>) -> Seq<char> {
    without_trailing_space(without_leading_space(text))
}

/// A line is blank when nothing is left of it after trimming.
pub open spec fn is_blank(line: Seq<char>) -> bool {
    trimmed(line).len() == 0
}

/// Whether `c` is white space.
pub fn is_space(c: char) -> (space: bool)
    ensures
        space == is_white_space(c),
{
    let code: u32 = c as u32;
    (0x09 <= code && code <= 0x0D) || code == 0x20 || code == 0x85 || code == 0xA0 || code
        == 0x1680 || (0x2000 <= code && code <= 0x200A) || code == 0x2028 || code == 0x2029
        || code == 0x202F || code == 0x205F || code == 0x3000
}

/// The characters of `text`, in order.
fn chars_of(text: &str) -> (chars: Vec<char>)
    ensures
        chars@ == text@,
{
    let mut chars: Vec<char> = Vec::new();
    for c in it: text.chars()
        invariant
            it.seq() == text@,
            chars@ == text@.take(it.index() as int),
    {
        chars.push(c);
    }
    chars
}

/// The line without the white space at either end.
pub fn trim_line(line: &str) -> (text: &str)
    ensures
        text@ == trimmed(line@),
{
    let chars = chars_of(line);
    let len = chars.len();
    let mut start: usize = 0;
    assert(chars@ =~= chars@.subrange(0, len as int));
    while start < len && is_space(chars[start])
        invariant
            len == chars@.len(),
            start <= len,
            without_leading_space(chars@) == without_leading_space(
                chars@.subrange(start as int, len as int),
            ),
        decreases len - start,
    {
        proof {
            let rest = chars@.subrange(start as int, len as int);
            assert(rest.first() == chars@[start as int]);
            assert(rest.drop_first() =~= chars@.subrange(start as int + 1, len as int));
        }
        start = start + 1;
    }
    let ghost kept = chars@.subrange(start as int, len as int);
    assert(without_leading_space(chars@) == kept) by {
        if start < len {
            assert(kept.first() == chars@[start as int]);
        }
    }
    let mut end: usize = len;
    while end > start && is_space(chars[end - 1])
        invariant
            len == chars@.len(),
            start <= end <= len,
            without_trailing_space(kept) == without_trailing_space(
                chars@.subrange(start as int, end as int),
            ),
        decreases end - start,
    {
        proof {
            let rest = chars@.subrange(start as int, end as int);
            assert(rest.last() == chars@[end as int - 1]);
            assert(rest.drop_last() =~= chars@.subrange(start as int, end as int - 1));
        }
        end = end - 1;
    }
    proof {
        let rest = chars@.subrange(start as int, end as int);
        if start < end {
            assert(rest.last() == chars@[end as int - 1]);
        }
        assert(without_trailing_space(rest) == rest);
    }
    line.substring_char(start, end)
}

} // verus!
