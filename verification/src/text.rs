//! Comparing and trimming strings.

use vstd::prelude::*;
use vstd::string::{StrSliceExecFns, StringSliceAdditionalSpecFns};
use vstd::utf8::encode_utf8_decode_utf8;

verus! {

/// Whether two strings hold the same text.
pub fn same_text(left: &str, right: &str) -> (same: bool)
    ensures
        same == (left@ == right@),
{
    let a = left.as_bytes();
    let b = right.as_bytes();
    proof {
        encode_utf8_decode_utf8(left@);
        encode_utf8_decode_utf8(right@);
    }
    if a.len() != b.len() {
        return false;
    }
    let mut i: usize = 0;
    while i < a.len()
        invariant
            i <= a.len(),
            a.len() == b.len(),
            a@ == left.spec_bytes(),
            b@ == right.spec_bytes(),
            forall|k: int| 0 <= k < i ==> a@[k] == b@[k],
        decreases a.len() - i,
    {
        if a[i] != b[i] {
            return false;
        }
        i = i + 1;
    }
    assert(a@ =~= b@);
    true
}

/// Whether a character is white space: one of the characters with the
/// Unicode property `White_Space`.
pub open spec fn white_space(c: char) -> bool {
    let n = c as u32;
    ||| 0x09 <= n <= 0x0D
    ||| n == 0x20
    ||| n == 0x85
    ||| n == 0xA0
    ||| n == 0x1680
    ||| 0x2000 <= n <= 0x200A
    ||| n == 0x2028
    ||| n == 0x2029
    ||| n == 0x202F
    ||| n == 0x205F
    ||| n == 0x3000
}

/// Where the text of a line begins: the place of its first character that is
/// not white space, or its length where there is none.
pub open spec fn text_start(line: Seq<char>) -> int
    decreases line.len(),
{
    if line.len() == 0 || !white_space(line[0]) {
        0
    } else {
        1 + text_start(line.drop_first())
    }
}

/// Where the text of a line ends: the place after its last character that is
/// not white space, or zero where there is none.
pub open spec fn text_end(line: Seq<char>) -> int
    decreases line.len(),
{
    if line.len() == 0 || !white_space(line.last()) {
        line.len() as int
    } else {
        text_end(line.drop_last())
    }
}

/// A line without the white space at its start and at its end.
pub open spec fn trimmed(line: Seq<char>) -> Seq<char> {
    if text_start(line) < text_end(line) {
        line.subrange(text_start(line), text_end(line))
    } else {
        Seq::empty()
    }
}

/// Whether a character is white space.
pub fn is_white_space(c: char) -> (r: bool)
    ensures
        r == white_space(c),
{
    let n = c as u32;
    (0x09 <= n && n <= 0x0D) || n == 0x20 || n == 0x85 || n == 0xA0 || n == 0x1680 || (0x2000 <= n
        && n <= 0x200A) || n == 0x2028 || n == 0x2029 || n == 0x202F || n == 0x205F || n == 0x3000
}

/// The start of a line's text lies within the line, only white space comes
/// before it, and what stands there is not white space.
pub proof fn lemma_text_start(line: Seq<char>)
    ensures
        0 <= text_start(line) <= line.len(),
        forall|i: int| 0 <= i < text_start(line) ==> white_space(#[trigger] line[i]),
        text_start(line) < line.len() ==> !white_space(line[text_start(line)]),
    decreases line.len(),
{
    if line.len() > 0 && white_space(line[0]) {
        let rest = line.drop_first();
        lemma_text_start(rest);
        assert forall|i: int| 0 <= i < text_start(line) implies white_space(
            #[trigger] line[i],
        ) by {
            if i > 0 {
                assert(line[i] == rest[i - 1]);
            }
        }
        if text_start(line) < line.len() {
            assert(line[text_start(line)] == rest[text_start(rest)]);
        }
    }
}

/// The end of a line's text lies within the line, only white space comes
/// after it, and what stands before it is not white space.
pub proof fn lemma_text_end(line: Seq<char>)
    ensures
        0 <= text_end(line) <= line.len(),
        forall|i: int| text_end(line) <= i < line.len() ==> white_space(#[trigger] line[i]),
        text_end(line) > 0 ==> !white_space(line[text_end(line) - 1]),
    decreases line.len(),
{
    if line.len() > 0 && white_space(line.last()) {
        let rest = line.drop_last();
        lemma_text_end(rest);
        assert forall|i: int| text_end(line) <= i < line.len() implies white_space(
            #[trigger] line[i],
        ) by {
            if i < line.len() - 1 {
                assert(line[i] == rest[i]);
            }
        }
        if text_end(line) > 0 {
            assert(line[text_end(line) - 1] == rest[text_end(rest) - 1]);
        }
    }
}

/// The start and the end of a line's text are the only places with white
/// space alone on the outside and none just inside.
pub proof fn lemma_text_bounds(line: Seq<char>, start: int, end: int)
    requires
        0 <= start <= line.len(),
        forall|i: int| 0 <= i < start ==> white_space(#[trigger] line[i]),
        start < line.len() ==> !white_space(line[start]),
        0 <= end <= line.len(),
        forall|i: int| end <= i < line.len() ==> white_space(#[trigger] line[i]),
        end > 0 ==> !white_space(line[end - 1]),
    ensures
        start == text_start(line),
        end == text_end(line),
{
    lemma_text_start(line);
    lemma_text_end(line);
    let s = text_start(line);
    let e = text_end(line);
    if start < s {
        assert(white_space(line[start]));
    }
    if s < start {
        assert(white_space(line[s]));
    }
    if end < e {
        assert(white_space(line[e - 1]));
    }
    if e < end {
        assert(white_space(line[end - 1]));
    }
}

/// What is left of a line neither begins nor ends with white space.
pub proof fn lemma_trimmed_is_bare(line: Seq<char>)
    ensures
        trimmed(line).len() > 0 ==> !white_space(trimmed(line).first()) && !white_space(
            trimmed(line).last(),
        ),
{
    lemma_text_start(line);
    lemma_text_end(line);
}

/// Takes the white space off the start and the end of a line.
pub fn trim(line: &str) -> (text: String)
    ensures
        text@ == trimmed(line@),
{
    let n = line.unicode_len();
    let mut start: usize = n;
    let mut end: usize = 0;
    let mut at: usize = 0;
    for c in it: line.chars()
        invariant
            n == line@.len(),
            it.seq() == line@,
            at == it.index(),
            at <= n,
            end <= at,
            forall|i: int| end <= i < at ==> white_space(#[trigger] line@[i]),
            end > 0 ==> !white_space(line@[end - 1]),
            end == 0 ==> start == n,
            end > 0 ==> start < end && !white_space(line@[start as int]),
            forall|i: int| 0 <= i < start && i < at ==> white_space(#[trigger] line@[i]),
    {
        if !is_white_space(c) {
            if end == 0 {
                start = at;
            }
            end = at + 1;
        }
        at = at + 1;
    }
    proof {
        lemma_text_bounds(line@, start as int, end as int);
    }
    if start < end {
        line.substring_char(start, end).to_owned()
    } else {
        String::new()
    }
}

} // verus!
