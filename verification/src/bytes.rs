//! Searching and classifying the bytes of a buffer.

use vstd::prelude::*;
use vstd::slice::slice_subrange;

verus! {

pub const TAB: u8 = 9;

pub const LINE_FEED: u8 = 10;

pub const CARRIAGE_RETURN: u8 = 13;

pub const BLANK: u8 = 32;

pub const COLON: u8 = 58;

/// Whether `at` is the least index in `from..to` at which `p` holds.
pub open spec fn is_least(p: spec_fn(int) -> bool, from: int, to: int, at: int) -> bool {
    &&& from <= at < to
    &&& p(at)
    &&& forall|j: int| from <= j < at ==> !#[trigger] p(j)
}

/// The least index in `from..to` at which `p` holds, if there is one.
pub open spec fn least_from(p: spec_fn(int) -> bool, from: int, to: int) -> Option<int> {
    if exists|at: int| is_least(p, from, to, at) {
        Some(choose|at: int| is_least(p, from, to, at))
    } else {
        None
    }
}

/// Where `p` holds at some index of the range, it holds at a least one.
proof fn lemma_least_exists(p: spec_fn(int) -> bool, from: int, to: int, at: int)
    requires
        from <= at < to,
        p(at),
    ensures
        exists|least: int| is_least(p, from, to, least),
    decreases at - from,
{
    if exists|j: int| from <= j < at && #[trigger] p(j) {
        let j = choose|j: int| from <= j < at && #[trigger] p(j);
        lemma_least_exists(p, from, to, j);
    } else {
        assert(is_least(p, from, to, at));
    }
}

/// `least_from` returns an index at which `p` holds and before which, from
/// `from` on, it does not; it returns nothing only where `p` holds nowhere
/// in the range.
pub proof fn lemma_least_from(p: spec_fn(int) -> bool, from: int, to: int)
    ensures
        match least_from(p, from, to) {
            Some(i) => is_least(p, from, to, i),
            None => forall|j: int| from <= j < to ==> !#[trigger] p(j),
        },
{
    if least_from(p, from, to) is None {
        assert forall|j: int| from <= j < to implies !#[trigger] p(j) by {
            if p(j) {
                lemma_least_exists(p, from, to, j);
            }
        }
    }
}

/// An index at which `p` holds and before which it does not is the one
/// `least_from` returns.
pub proof fn lemma_least_from_is(p: spec_fn(int) -> bool, from: int, to: int, at: int)
    requires
        is_least(p, from, to, at),
    ensures
        least_from(p, from, to) == Some(at),
{
    let found = choose|i: int| is_least(p, from, to, i);
    assert(is_least(p, from, to, found));
    if found < at {
        assert(!p(found));
    } else if at < found {
        assert(!p(at));
    }
}

/// Where `p` holds nowhere in the range, `least_from` returns nothing.
pub proof fn lemma_least_from_none(p: spec_fn(int) -> bool, from: int, to: int)
    requires
        forall|j: int| from <= j < to ==> !#[trigger] p(j),
    ensures
        least_from(p, from, to) is None,
{
    if exists|at: int| is_least(p, from, to, at) {
        let at = choose|at: int| is_least(p, from, to, at);
        assert(!p(at));
    }
}

/// Whether `needle` stands in `hay` at index `at`.
pub open spec fn matches_at(hay: Seq<u8>, needle: Seq<u8>, at: int) -> bool {
    &&& 0 <= at
    &&& at + needle.len() <= hay.len()
    &&& forall|k: int| 0 <= k < needle.len() ==> hay[at + k] == #[trigger] needle[k]
}

/// The index of the first occurrence of `needle` in `hay`.
pub open spec fn first_match(hay: Seq<u8>, needle: Seq<u8>) -> Option<int> {
    least_from(|i: int| matches_at(hay, needle, i), 0, (hay.len() + 1) as int)
}

/// Whether `needle` occurs anywhere in `hay`.
pub open spec fn occurs(hay: Seq<u8>, needle: Seq<u8>) -> bool {
    first_match(hay, needle) is Some
}

/// Whether `hay` ends with `suffix`.
pub open spec fn ends_with(hay: Seq<u8>, suffix: Seq<u8>) -> bool {
    matches_at(hay, suffix, hay.len() - suffix.len())
}

/// The lower-case form of an ASCII letter; any other byte unchanged.
pub open spec fn lower(b: u8) -> u8 {
    if 65 <= b <= 90 {
        (b + 32) as u8
    } else {
        b
    }
}

/// Whether `name`, given in lower case, stands in `hay` at index `at` in
/// any mix of upper and lower case.
pub open spec fn matches_folded_at(hay: Seq<u8>, name: Seq<u8>, at: int) -> bool {
    &&& 0 <= at
    &&& at + name.len() <= hay.len()
    &&& forall|k: int| 0 <= k < name.len() ==> lower(hay[at + k]) == #[trigger] name[k]
}

/// Whether a line begins at index `at` of `text`.
pub open spec fn is_line_start(text: Seq<u8>, at: int) -> bool {
    at == 0 || (0 < at <= text.len() && text[at - 1] == LINE_FEED)
}

/// The start of the first line of `text` that begins with `name`, compared
/// without regard to ASCII case.
pub open spec fn first_line_with(text: Seq<u8>, name: Seq<u8>) -> Option<int> {
    least_from(
        |i: int| is_line_start(text, i) && matches_folded_at(text, name, i),
        0,
        (text.len() + 1) as int,
    )
}

/// Whether `b` is ASCII white space.
pub open spec fn is_space(b: u8) -> bool {
    b == BLANK || (TAB <= b <= CARRIAGE_RETURN)
}

/// A set of bytes that a scan looks for.
#[derive(Clone, Copy, Debug)]
pub enum ByteClass {
    /// White space.
    Space,
    /// Anything but white space.
    Visible,
    /// The line feed.
    LineEnd,
    /// A colon or a line feed.
    FieldEnd,
}

impl ByteClass {
    /// Whether `b` belongs to the class.
    pub open spec fn holds(self, b: u8) -> bool {
        match self {
            ByteClass::Space => is_space(b),
            ByteClass::Visible => !is_space(b),
            ByteClass::LineEnd => b == LINE_FEED,
            ByteClass::FieldEnd => b == COLON || b == LINE_FEED,
        }
    }

    /// Tests whether `b` belongs to the class.
    pub fn test(self, b: u8) -> (r: bool)
        ensures
            r == self.holds(b),
    {
        match self {
            ByteClass::Space => byte_is_space(b),
            ByteClass::Visible => !byte_is_space(b),
            ByteClass::LineEnd => b == LINE_FEED,
            ByteClass::FieldEnd => b == COLON || b == LINE_FEED,
        }
    }
}

/// The least index from `from` on at which a byte of `class` stands, or the
/// end of `text` where none does.
pub open spec fn scan(text: Seq<u8>, from: int, class: ByteClass) -> int {
    match least_from(|i: int| class.holds(text[i]), from, text.len() as int) {
        Some(i) => i,
        None => if from <= text.len() {
            text.len() as int
        } else {
            from
        },
    }
}

/// `text` without its leading white space.
pub open spec fn trim_start(text: Seq<u8>) -> Seq<u8> {
    text.skip(scan(text, 0, ByteClass::Visible))
}

/// `text` without its trailing white space.
pub open spec fn trim_end(text: Seq<u8>) -> Seq<u8>
    decreases text.len(),
{
    if text.len() > 0 && is_space(text.last()) {
        trim_end(text.drop_last())
    } else {
        text
    }
}

/// `text` without white space at either end.
pub open spec fn trimmed(text: Seq<u8>) -> Seq<u8> {
    trim_end(trim_start(text))
}

/// Tests whether `b` is ASCII white space.
pub fn byte_is_space(b: u8) -> (r: bool)
    ensures
        r == is_space(b),
{
    b == BLANK || (TAB <= b && b <= CARRIAGE_RETURN)
}

/// The lower-case form of `b`.
pub fn to_lower(b: u8) -> (r: u8)
    ensures
        r == lower(b),
{
    if 65 <= b && b <= 90 {
        b + 32
    } else {
        b
    }
}

/// Tests whether `needle` stands in `hay` at index `at`.
pub fn has_at(hay: &[u8], needle: &[u8], at: usize) -> (r: bool)
    ensures
        r == matches_at(hay@, needle@, at as int),
{
    if needle.len() > hay.len() || at > hay.len() - needle.len() {
        return false;
    }
    let mut k: usize = 0;
    while k < needle.len()
        invariant
            k <= needle.len(),
            at + needle.len() <= hay.len(),
            forall|j: int| 0 <= j < k ==> hay@[at + j] == #[trigger] needle@[j],
        decreases needle.len() - k,
    {
        if hay[at + k] != needle[k] {
            return false;
        }
        k += 1;
    }
    true
}

/// Tests whether `name`, given in lower case, stands in `hay` at index `at`
/// in any mix of upper and lower case.
pub fn has_folded_at(hay: &[u8], name: &[u8], at: usize) -> (r: bool)
    ensures
        r == matches_folded_at(hay@, name@, at as int),
{
    if name.len() > hay.len() || at > hay.len() - name.len() {
        return false;
    }
    let mut k: usize = 0;
    while k < name.len()
        invariant
            k <= name.len(),
            at + name.len() <= hay.len(),
            forall|j: int| 0 <= j < k ==> lower(hay@[at + j]) == #[trigger] name@[j],
        decreases name.len() - k,
    {
        if to_lower(hay[at + k]) != name[k] {
            return false;
        }
        k += 1;
    }
    true
}

/// Finds the first occurrence of `needle` in `hay`.
pub fn find(hay: &[u8], needle: &[u8]) -> (r: Option<usize>)
    ensures
        match r {
            Some(i) => first_match(hay@, needle@) == Some(i as int),
            None => first_match(hay@, needle@) is None,
        },
{
    let ghost p = |i: int| matches_at(hay@, needle@, i);
    let mut i: usize = 0;
    while i <= hay.len()
        invariant
            i <= hay.len() + 1,
            p == (|i: int| matches_at(hay@, needle@, i)),
            forall|j: int| 0 <= j < i ==> !#[trigger] p(j),
        decreases hay.len() + 1 - i,
    {
        if has_at(hay, needle, i) {
            proof {
                lemma_least_from_is(p, 0, (hay@.len() + 1) as int, i as int);
            }
            return Some(i);
        }
        if i == hay.len() {
            proof {
                lemma_least_from_none(p, 0, (hay@.len() + 1) as int);
            }
            return None;
        }
        i += 1;
    }
    proof {
        lemma_least_from_none(p, 0, (hay@.len() + 1) as int);
    }
    None
}

/// Tests whether `hay` ends with `suffix`.
pub fn finishes_with(hay: &[u8], suffix: &[u8]) -> (r: bool)
    ensures
        r == ends_with(hay@, suffix@),
{
    if suffix.len() > hay.len() {
        return false;
    }
    has_at(hay, suffix, hay.len() - suffix.len())
}

/// Finds the start of the first line of `text` that begins with `name`,
/// compared without regard to ASCII case. `name` is given in lower case.
pub fn find_line_with(text: &[u8], name: &[u8]) -> (r: Option<usize>)
    ensures
        match r {
            Some(i) => first_line_with(text@, name@) == Some(i as int),
            None => first_line_with(text@, name@) is None,
        },
{
    let ghost p = |i: int| is_line_start(text@, i) && matches_folded_at(text@, name@, i);
    let mut i: usize = 0;
    while i <= text.len()
        invariant
            i <= text.len() + 1,
            p == (|i: int| is_line_start(text@, i) && matches_folded_at(text@, name@, i)),
            forall|j: int| 0 <= j < i ==> !#[trigger] p(j),
        decreases text.len() + 1 - i,
    {
        if (i == 0 || text[i - 1] == LINE_FEED) && has_folded_at(text, name, i) {
            proof {
                lemma_least_from_is(p, 0, (text@.len() + 1) as int, i as int);
            }
            return Some(i);
        }
        if i == text.len() {
            proof {
                lemma_least_from_none(p, 0, (text@.len() + 1) as int);
            }
            return None;
        }
        i += 1;
    }
    proof {
        lemma_least_from_none(p, 0, (text@.len() + 1) as int);
    }
    None
}

/// Finds the first byte of `class` from index `from` on; the end of `text`
/// where there is none.
pub fn scan_for(text: &[u8], from: usize, class: ByteClass) -> (r: usize)
    ensures
        r == scan(text@, from as int, class),
        from <= text.len() ==> from <= r <= text.len(),
{
    let ghost p = |i: int| class.holds(text@[i]);
    let mut i: usize = from;
    while i < text.len()
        invariant
            from <= i,
            from <= text.len() ==> i <= text.len(),
            from > text.len() ==> i == from,
            p == (|i: int| class.holds(text@[i])),
            forall|j: int| from <= j < i ==> !#[trigger] p(j),
        decreases text.len() - i,
    {
        if class.test(text[i]) {
            proof {
                lemma_least_from_is(p, from as int, text@.len() as int, i as int);
            }
            return i;
        }
        i += 1;
    }
    proof {
        lemma_least_from_none(p, from as int, text@.len() as int);
    }
    i
}

/// Strips the white space at both ends of `text`.
pub fn trim(text: &[u8]) -> (r: &[u8])
    ensures
        r@ == trimmed(text@),
{
    let start = scan_for(text, 0, ByteClass::Visible);
    let mut end: usize = text.len();
    while end > start && byte_is_space(text[end - 1])
        invariant
            start <= end <= text.len(),
            trim_end(text@.skip(start as int)) == trim_end(text@.subrange(start as int, end as int)),
        decreases end,
    {
        assert(text@.subrange(start as int, end as int).drop_last() =~= text@.subrange(
            start as int,
            end - 1,
        ));
        end -= 1;
    }
    slice_subrange(text, start, end)
}

} // verus!
