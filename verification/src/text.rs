//! Text helpers: trimming white space off both ends of a line, and comparing
//! two pieces of text character by character.

use vstd::prelude::*;
use vstd::string::*;

verus! {

/// Whether `c` carries the Unicode property White_Space.
pub open spec fn is_white_space(c: char) -> bool {
    let n = c as u32;
    ||| 0x09 <= n <= 0x0D
    ||| n == 0x20
    ||| n == 0x85
    ||| n == 0xA0
    ||| n == 0x1680
    ||| 0x2000 <= n <= 0x200A
    ||| n == 0x2028
    ||| n == 0x2029
    ||| n == 0x202F
    ||| n == 0x205F
    ||| n == 0x3000
}

/// `s` without its leading white space.
pub open spec fn trim_start(s: Seq<char>) -> Seq<char>
    decreases s.len(),
{
    if s.len() > 0 && is_white_space(s[0]) {
        trim_start(s.drop_first())
    } else {
        s
    }
}

/// `s` without its trailing white space.
pub open spec fn trim_end(s: Seq<char>) -> Seq<char>
    decreases s.len(),
{
    if s.len() > 0 && is_white_space(s.last()) {
        trim_end(s.drop_last())
    } else {
        s
    }
}

/// `s` without the white space at either end.
pub open spec fn trim(s: Seq<char>) -> Seq<char> {
    trim_end(trim_start(s))
}

/// Tells whether a character is white space.
pub fn is_space(c: char) -> (r: bool)
    ensures
        r == is_white_space(c),
{
    let n: u32 = c as u32;
    (0x09 <= n && n <= 0x0D) || n == 0x20 || n == 0x85 || n == 0xA0 || n == 0x1680 || (0x2000 <= n
        && n <= 0x200A) || n == 0x2028 || n == 0x2029 || n == 0x202F || n == 0x205F || n == 0x3000
}

/// Strips the white space from both ends of `s`.
pub fn trimmed(s: &str) -> (r: &str)
    ensures
        r@ == trim(s@),
{
    let len: usize = s.unicode_len();
    let mut from: usize = 0;
    assert(s@.subrange(0, len as int) =~= s@);
    while from < len && is_space(s.get_char(from))
        invariant
            from <= len == s@.len(),
            trim_start(s@) == trim_start(s@.subrange(from as int, len as int)),
        decreases len - from,
    {
        proof {
            let rest = s@.subrange(from as int, len as int);
            assert(rest[0] == s@[from as int]);
            assert(rest.drop_first() =~= s@.subrange(from + 1, len as int));
        }
        from += 1;
    }
    let ghost body = s@.subrange(from as int, len as int);
    assert(trim_start(s@) == body);
    let mut to: usize = len;
    while from < to && is_space(s.get_char(to - 1))
        invariant
            from <= to <= len == s@.len(),
            body == s@.subrange(from as int, len as int),
            trim_end(body) == trim_end(s@.subrange(from as int, to as int)),
        decreases to - from,
    {
        proof {
            let rest = s@.subrange(from as int, to as int);
            assert(rest.last() == s@[to - 1]);
            assert(rest.drop_last() =~= s@.subrange(from as int, to - 1));
        }
        to -= 1;
    }
    proof {
        let kept = s@.subrange(from as int, to as int);
        assert(kept.len() > 0 ==> kept.last() == s@[to - 1]);
    }
    s.substring_char(from, to)
}

/// Tells whether `a` and `b` hold the same characters.
pub fn same_text(a: &str, b: &str) -> (r: bool)
    ensures
        r == (a@ == b@),
{
    let len: usize = a.unicode_len();
    if b.unicode_len() != len {
        return false;
    }
    let mut i: usize = 0;
    while i < len
        invariant
            i <= len == a@.len() == b@.len(),
            forall|k: int| 0 <= k < i ==> a@[k] == b@[k],
        decreases len - i,
    {
        if a.get_char(i) != b.get_char(i) {
            return false;
        }
        i += 1;
    }
    assert(a@ =~= b@);
    true
}

/// Trimming at the start drops a run of white space and nothing else: the
/// result is the input from some position `i` on, everything before `i` is
/// white space, and the character at `i`, if there is one, is not.
pub proof fn lemma_trim_start_bound(s: Seq<char>) -> (i: int)
    ensures
        0 <= i <= s.len(),
        trim_start(s) == s.subrange(i, s.len() as int),
        forall|k: int| 0 <= k < i ==> is_white_space(s[k]),
        i < s.len() ==> !is_white_space(s[i]),
    decreases s.len(),
{
    if s.len() > 0 && is_white_space(s[0]) {
        let rest = s.drop_first();
        let j = lemma_trim_start_bound(rest);
        assert(rest.subrange(j, rest.len() as int) =~= s.subrange(j + 1, s.len() as int));
        assert forall|k: int| 0 <= k < j + 1 implies is_white_space(s[k]) by {
            if k > 0 {
                assert(s[k] == rest[k - 1]);
            }
        }
        assert(j < rest.len() ==> s[j + 1] == rest[j]);
        j + 1
    } else {
        assert(s.subrange(0, s.len() as int) =~= s);
        0
    }
}

/// Trimming at the end drops a run of white space and nothing else: the
/// result is the input up to some position `j`, everything from `j` on is
/// white space, and the character before `j`, if there is one, is not.
pub proof fn lemma_trim_end_bound(s: Seq<char>) -> (j: int)
    ensures
        0 <= j <= s.len(),
        trim_end(s) == s.subrange(0, j),
        forall|k: int| j <= k < s.len() ==> is_white_space(s[k]),
        0 < j ==> !is_white_space(s[j - 1]),
    decreases s.len(),
{
    if s.len() > 0 && is_white_space(s.last()) {
        let rest = s.drop_last();
        let j = lemma_trim_end_bound(rest);
        assert(rest.subrange(0, j) =~= s.subrange(0, j));
        assert forall|k: int| j <= k < s.len() implies is_white_space(s[k]) by {
            if k < s.len() - 1 {
                assert(s[k] == rest[k]);
            }
        }
        assert(0 < j ==> s[j - 1] == rest[j - 1]);
        j
    } else {
        assert(s.subrange(0, s.len() as int) =~= s);
        s.len() as int
    }
}

/// Trimming keeps one piece of the input, from `b.0` up to `b.1`. All that
/// lies outside the piece is white space, and the piece neither starts nor
/// ends with white space; where the input is all white space the piece is
/// empty.
pub proof fn lemma_trim_bounds(s: Seq<char>) -> (b: (int, int))
    ensures
        0 <= b.0 <= b.1 <= s.len(),
        trim(s) == s.subrange(b.0, b.1),
        forall|k: int| 0 <= k < b.0 || b.1 <= k < s.len() ==> is_white_space(s[k]),
        b.0 < b.1 ==> !is_white_space(s[b.0]) && !is_white_space(s[b.1 - 1]),
{
    let i = lemma_trim_start_bound(s);
    let body = s.subrange(i, s.len() as int);
    let j = lemma_trim_end_bound(body);
    assert(body.subrange(0, j) =~= s.subrange(i, i + j));
    assert forall|k: int| 0 <= k < i || i + j <= k < s.len() implies is_white_space(s[k]) by {
        if k >= i + j {
            assert(s[k] == body[k - i]);
        }
    }
    if 0 < j {
        assert(body[j - 1] == s[i + j - 1]);
    }
    (i, i + j)
}

/// Text that neither starts nor ends with white space is its own trimming.
pub proof fn lemma_trim_of_clean(s: Seq<char>)
    requires
        s.len() > 0 ==> !is_white_space(s[0]) && !is_white_space(s.last()),
    ensures
        trim(s) == s,
{
}

/// Trimming twice is trimming once.
pub proof fn lemma_trim_idempotent(s: Seq<char>)
    ensures
        trim(trim(s)) == trim(s),
{
    let b = lemma_trim_bounds(s);
    let t = trim(s);
    if t.len() > 0 {
        assert(t[0] == s[b.0]);
        assert(t.last() == s[b.1 - 1]);
    }
    lemma_trim_of_clean(t);
}

} // verus!
