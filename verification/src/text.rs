//! Executable character-sequence helpers with exact contracts: prefix tests
//! and equality over `&str` views.

use vstd::prelude::*;

verus! {

/// `p` is a prefix of `s`.
pub open spec fn seq_starts_with(s: Seq<char>, p: Seq<char>) -> bool {
    p.len() <= s.len() && s.subrange(0, p.len() as int) == p
}

/// Prefix test over string slices, by character.
pub fn str_starts_with(s: &str, p: &str) -> (r: bool)
    ensures
        r == seq_starts_with(s@, p@),
{
    let p_len = p.unicode_len();
    let s_len = s.unicode_len();
    if p_len > s_len {
        assert(!seq_starts_with(s@, p@));
        return false;
    }
    let mut i: usize = 0;
    while i < p_len
        invariant
            i <= p_len,
            p_len == p@.len(),
            p_len <= s_len == s@.len(),
            forall|k: int| 0 <= k < i ==> s@[k] == p@[k],
        decreases p_len - i,
    {
        if s.get_char(i) != p.get_char(i) {
            assert(s@[i as int] != p@[i as int]);
            assert(!seq_starts_with(s@, p@)) by {
                if seq_starts_with(s@, p@) {
                    assert(s@.subrange(0, p@.len() as int)[i as int] == s@[i as int]);
                }
            }
            return false;
        }
        i = i + 1;
    }
    assert(s@.subrange(0, p@.len() as int) =~= p@);
    true
}

/// Equality of two string slices, by view.
pub fn str_eq(a: &str, b: &str) -> (r: bool)
    ensures
        r == (a@ == b@),
{
    let a_owned = a.to_owned();
    let b_owned = b.to_owned();
    a_owned == b_owned
}

/// `s` holds no line feed.
pub open spec fn newline_free(s: Seq<char>) -> bool {
    forall|i: int| 0 <= i < s.len() ==> s[i] != '\n'
}

/// A character of the standard base64 alphabet (no padding).
pub open spec fn is_b64_char(c: char) -> bool {
    let v = c as u32;
    (65 <= v && v <= 90) || (97 <= v && v <= 122) || (48 <= v && v <= 57) || v == 43 || v == 47
}

/// The position of the `n`-th line feed of `s` at or after `from`,
/// counting from zero.
pub open spec fn nth_newline_pos(s: Seq<char>, n: int, from: int) -> Option<int>
    decreases s.len() - from,
{
    if from < 0 || from >= s.len() {
        None
    } else if s[from] == '\n' {
        if n <= 0 {
            Some(from)
        } else {
            nth_newline_pos(s, n - 1, from + 1)
        }
    } else {
        nth_newline_pos(s, n, from + 1)
    }
}

/// The fourth line of `s` (after the third line feed, up to the next line
/// feed or the end) is exactly 88 characters: 86 of the base64 alphabet
/// followed by two padding signs — the padded encoding of exactly 64
/// bytes.
pub open spec fn global_sig_line_ok(s: Seq<char>) -> bool {
    match nth_newline_pos(s, 2, 0) {
        None => false,
        Some(t) => {
            let start = t + 1;
            let end = match nth_newline_pos(s, 0, start) {
                Some(e) => e,
                None => s.len() as int,
            };
            &&& end - start == 88
            &&& forall|i: int| start <= i < start + 86 ==> is_b64_char(#[trigger] s[i])
            &&& s[start + 86] == '='
            &&& s[start + 87] == '='
        },
    }
}

/// Whether a base64 character stands at position `i`.
fn b64_char_at(s: &str, i: usize) -> (r: bool)
    requires
        i < s@.len(),
    ensures
        r == is_b64_char(s@[i as int]),
{
    let v = s.get_char(i) as u32;
    (65 <= v && v <= 90) || (97 <= v && v <= 122) || (48 <= v && v <= 57) || v == 43 || v == 47
}

/// Decide `global_sig_line_ok` on a string slice, by character.
pub fn sig_global_line_ok(s: &str) -> (r: bool)
    ensures
        r == global_sig_line_ok(s@),
{
    let n = s.unicode_len();
    let mut i: usize = 0;
    let mut seen: usize = 0;
    while i < n && seen < 3
        invariant
            i <= n,
            n == s@.len(),
            seen <= 3,
            seen < 3 ==> nth_newline_pos(s@, 2, 0) == nth_newline_pos(
                s@,
                2 - seen as int,
                i as int,
            ),
            seen == 3 ==> i >= 1 && nth_newline_pos(s@, 2, 0) == Some(i - 1),
        decreases n - i,
    {
        if s.get_char(i) == '\n' {
            seen = seen + 1;
        }
        i = i + 1;
    }
    if seen < 3 {
        return false;
    }
    let start = i;
    let mut j: usize = start;
    while j < n && s.get_char(j) != '\n'
        invariant
            start <= j <= n,
            n == s@.len(),
            nth_newline_pos(s@, 0, start as int) == nth_newline_pos(s@, 0, j as int),
        decreases n - j,
    {
        j = j + 1;
    }
    proof {
        if j < n {
            assert(nth_newline_pos(s@, 0, start as int) == Some(j as int));
        } else {
            assert(nth_newline_pos(s@, 0, start as int) is None);
        }
    }
    if j - start != 88 {
        return false;
    }
    let mut k: usize = 0;
    while k < 86
        invariant
            k <= 86,
            n == s@.len(),
            start >= 1,
            start + 88 <= n,
            nth_newline_pos(s@, 2, 0) == Some(start as int - 1),
            ({
                let e = match nth_newline_pos(s@, 0, start as int) {
                    Some(e) => e,
                    None => s@.len() as int,
                };
                e == start + 88
            }),
            forall|m: int| 0 <= m < k ==> is_b64_char(#[trigger] s@[start + m]),
        decreases 86 - k,
    {
        if !b64_char_at(s, start + k) {
            return false;
        }
        k = k + 1;
    }
    proof {
        assert forall|i: int| start <= i < start + 86 implies is_b64_char(s@[i]) by {
            assert(is_b64_char(s@[start + (i - start)]));
        }
    }
    s.get_char(start + 86) == '=' && s.get_char(start + 87) == '='
}

} // verus!
