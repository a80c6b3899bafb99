//! Text without the white space round it.

use crate::bytes::{least_from, lemma_least_from_is, lemma_least_from_none};
use vstd::prelude::*;
use vstd::string::{StrSliceExecFns, StringExecFns};

verus! {

/// Whether `c` is white space, as Unicode defines it.
pub open spec fn is_white(c: char) -> bool {
    let n = c as u32;
    ||| 0x09 <= n <= 0x0d
    ||| n == 0x20
    ||| n == 0x85
    ||| n == 0xa0
    ||| n == 0x1680
    ||| 0x2000 <= n <= 0x200a
    ||| n == 0x2028
    ||| n == 0x2029
    ||| n == 0x202f
    ||| n == 0x205f
    ||| n == 0x3000
}

/// The index of the first character of `text` that is not white space; the
/// length of `text` where all of it is.
pub open spec fn first_visible(text: Seq<char>) -> int {
    match least_from(|i: int| !is_white(text[i]), 0, text.len() as int) {
        Some(i) => i,
        None => text.len() as int,
    }
}

/// `text` without its trailing white space.
pub open spec fn without_trailing(text: Seq<char>) -> Seq<char>
    decreases text.len(),
{
    if text.len() > 0 && is_white(text.last()) {
        without_trailing(text.drop_last())
    } else {
        text
    }
}

/// `text` without white space at either end.
pub open spec fn trimmed(text: Seq<char>) -> Seq<char> {
    without_trailing(text.skip(first_visible(text)))
}

/// Tests whether `c` is white space.
pub fn char_is_white(c: char) -> (r: bool)
    ensures
        r == is_white(c),
{
    let n: u32 = c as u32;
    (0x09 <= n && n <= 0x0d) || n == 0x20 || n == 0x85 || n == 0xa0 || n == 0x1680 || (0x2000 <= n
        && n <= 0x200a) || n == 0x2028 || n == 0x2029 || n == 0x202f || n == 0x205f || n == 0x3000
}

/// Strips the white space at both ends of `text`.
pub fn trim(text: &str) -> (r: String)
    ensures
        r@ == trimmed(text@),
{
    let len = text.unicode_len();
    let ghost p = |i: int| !is_white(text@[i]);
    let mut start: usize = 0;
    while start < len && char_is_white(text.get_char(start))
        invariant
            start <= len,
            len == text@.len(),
            p == (|i: int| !is_white(text@[i])),
            forall|j: int| 0 <= j < start ==> !#[trigger] p(j),
        decreases len - start,
    {
        start += 1;
    }
    proof {
        if start < len {
            lemma_least_from_is(p, 0, text@.len() as int, start as int);
        } else {
            lemma_least_from_none(p, 0, text@.len() as int);
        }
    }
    let mut end: usize = len;
    while end > start && char_is_white(text.get_char(end - 1))
        invariant
            start <= end <= len,
            len == text@.len(),
            without_trailing(text@.skip(start as int)) == without_trailing(
                text@.subrange(start as int, end as int),
            ),
        decreases end,
    {
        assert(text@.subrange(start as int, end as int).drop_last() =~= text@.subrange(
            start as int,
            end - 1,
        ));
        end -= 1;
    }
    String::from_str(text.substring_char(start, end))
}

} // verus!
