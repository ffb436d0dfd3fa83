//! Recovering a status category from raw response text.  The text is read
//! as whitespace-delimited tokens, left to right; the first token of
//! exactly three ASCII digits gives the numeric code, and 0 stands for no
//! such token.  The scan never fails: an absent or unrecognized code
//! degrades to the `Unknown` category.

use vstd::prelude::*;

use crate::status_code::StatusCode;

verus! {

/// ASCII whitespace: the separators between tokens of the raw text.
pub open spec fn is_space(c: char) -> bool {
    c == ' ' || c == '\t' || c == '\n' || c == '\r' || c == '\x0b' || c == '\x0c'
}

/// An ASCII decimal digit.
pub open spec fn is_digit(c: char) -> bool {
    48 <= c as int && c as int <= 57
}

/// The numeric value of an ASCII decimal digit.
pub open spec fn digit_val(c: char) -> int {
    c as int - 48
}

/// The length of the leading whitespace-free run of the text.
pub open spec fn token_len(s: Seq<char>) -> nat
    decreases s.len(),
{
    if s.len() == 0 || is_space(s[0]) {
        0
    } else {
        (1 + token_len(s.skip(1))) as nat
    }
}

/// A token of exactly three ASCII digits: the shape of a status code.
pub open spec fn is_code_token(t: Seq<char>) -> bool {
    t.len() == 3 && is_digit(t[0]) && is_digit(t[1]) && is_digit(t[2])
}

/// The numeric value of a three-digit token.
pub open spec fn token_value(t: Seq<char>) -> int
    recommends
        is_code_token(t),
{
    100 * digit_val(t[0]) + 10 * digit_val(t[1]) + digit_val(t[2])
}

/// The numeric code that the scan of the raw text finds: tokens are maximal
/// whitespace-free runs, read left to right, and the first one of exactly
/// three ASCII digits gives the code; 0 stands for none.
pub open spec fn status_code_of(s: Seq<char>) -> int
    decreases s.len(),
    via status_code_of_decreases
{
    if s.len() == 0 {
        0
    } else if is_space(s[0]) {
        status_code_of(s.skip(1))
    } else if is_code_token(s.take(token_len(s) as int)) {
        token_value(s.take(token_len(s) as int))
    } else {
        status_code_of(s.skip(token_len(s) as int))
    }
}

#[via_fn]
proof fn status_code_of_decreases(s: Seq<char>) {
    if s.len() != 0 && !is_space(s[0]) {
        lemma_token_len_ensures(s);
    }
}

/// The leading token is whitespace-free, ends at whitespace or at the end
/// of the text, and fits inside the text.
pub proof fn lemma_token_len_ensures(s: Seq<char>)
    ensures
        token_len(s) <= s.len(),
        forall|k: int| 0 <= k < token_len(s) ==> !is_space(s[k]),
        token_len(s) == s.len() || is_space(s[token_len(s) as int]),
    decreases s.len(),
{
    if s.len() == 0 || is_space(s[0]) {
    } else {
        lemma_token_len_ensures(s.skip(1));
        assert forall|k: int| 0 <= k < token_len(s) implies !is_space(s[k]) by {
            if k > 0 {
                assert(s.skip(1)[k - 1] == s[k]);
            }
        }
        if token_len(s) < s.len() {
            assert(s.skip(1)[token_len(s) as int - 1] == s[token_len(s) as int]);
        }
    }
}

/// Any stretch that is whitespace-free up to `m` and hits whitespace or the
/// end at `m` is exactly the leading token.
pub proof fn lemma_token_len_is_boundary(s: Seq<char>, m: int)
    requires
        0 <= m <= s.len(),
        forall|k: int| 0 <= k < m ==> !is_space(s[k]),
        m == s.len() || is_space(s[m]),
    ensures
        token_len(s) == m,
    decreases s.len(),
{
    if m == 0 {
    } else {
        assert(!is_space(s[0]));
        assert forall|k: int| 0 <= k < m - 1 implies !is_space(s.skip(1)[k]) by {
            assert(s.skip(1)[k] == s[k + 1]);
        }
        if m < s.len() {
            assert(s.skip(1)[m - 1] == s[m]);
        }
        lemma_token_len_is_boundary(s.skip(1), m - 1);
    }
}

/// `s[i .. j)` is a token of the scan: a maximal whitespace-free run.
pub open spec fn is_token_at(s: Seq<char>, i: int, j: int) -> bool {
    &&& 0 <= i < j <= s.len()
    &&& (forall|k: int| i <= k < j ==> !is_space(s[k]))
    &&& (i == 0 || is_space(s[i - 1]))
    &&& (j == s.len() || is_space(s[j]))
}

/// Raw text none of whose tokens is exactly three ASCII digits scans to the
/// numeric code 0, and so to the `Unknown` category: absence of a
/// recognizable code never fails, it degrades.
pub proof fn lemma_no_code_token_scans_to_zero(s: Seq<char>)
    requires
        forall|i: int, j: int| is_token_at(s, i, j) ==> !is_code_token(s.subrange(i, j)),
    ensures
        status_code_of(s) == 0,
    decreases s.len(),
{
    if s.len() == 0 {
    } else if is_space(s[0]) {
        let t = s.skip(1);
        assert forall|i: int, j: int| is_token_at(t, i, j) implies !is_code_token(
            t.subrange(i, j),
        ) by {
            assert forall|k: int| i + 1 <= k < j + 1 implies !is_space(s[k]) by {
                assert(t[k - 1] == s[k]);
            }
            if i > 0 {
                assert(s[i] == t[i - 1]);
            }
            if j < t.len() {
                assert(s[j + 1] == t[j]);
            }
            assert(is_token_at(s, i + 1, j + 1));
            assert(t.subrange(i, j) =~= s.subrange(i + 1, j + 1));
        }
        lemma_no_code_token_scans_to_zero(t);
    } else {
        lemma_token_len_ensures(s);
        let m = token_len(s) as int;
        assert(is_token_at(s, 0, m));
        assert(s.take(m) =~= s.subrange(0, m));
        assert(!is_code_token(s.take(m)));
        let t = s.skip(m);
        assert forall|i: int, j: int| is_token_at(t, i, j) implies !is_code_token(
            t.subrange(i, j),
        ) by {
            assert(t[i] == s[i + m]);
            assert(i > 0) by {
                if i == 0 {
                    assert(m < s.len());
                    assert(is_space(s[m]));
                }
            }
            assert forall|k: int| i + m <= k < j + m implies !is_space(s[k]) by {
                assert(t[k - m] == s[k]);
            }
            assert(s[i + m - 1] == t[i - 1]);
            if j < t.len() {
                assert(s[j + m] == t[j]);
            }
            assert(is_token_at(s, i + m, j + m));
            assert(t.subrange(i, j) =~= s.subrange(i + m, j + m));
        }
        lemma_no_code_token_scans_to_zero(t);
    }
}

/// ASCII whitespace, decided on one character.
fn is_space_char(c: char) -> (r: bool)
    ensures
        r == is_space(c),
{
    c == ' ' || c == '\t' || c == '\n' || c == '\r' || c == '\x0b' || c == '\x0c'
}

/// An ASCII decimal digit, decided on one character.
fn is_digit_char(c: char) -> (r: bool)
    ensures
        r == is_digit(c),
{
    c >= '0' && c <= '9'
}

/// Scans the text for its first token of exactly three ASCII digits and
/// returns its value, or 0 when no such token exists.
fn find_status_code(s: &str) -> (code: usize)
    ensures
        code as int == status_code_of(s@),
{
    let n = s.unicode_len();
    let mut i: usize = 0;
    proof {
        assert(s@.skip(0) =~= s@);
    }
    loop
        invariant
            0 <= i <= n,
            n == s@.len(),
            status_code_of(s@) == status_code_of(s@.skip(i as int)),
        decreases n - i,
    {
        if i >= n {
            proof {
                assert(s@.skip(i as int).len() == 0);
            }
            return 0;
        }
        let c = s.get_char(i);
        proof {
            assert(s@.skip(i as int)[0] == s@[i as int]);
        }
        if is_space_char(c) {
            proof {
                assert(s@.skip(i as int).skip(1) =~= s@.skip(i as int + 1));
            }
            i = i + 1;
        } else {
            let ghost ss = s@.skip(i as int);
            let mut j: usize = i + 1;
            while j < n && !is_space_char(s.get_char(j))
                invariant
                    i < j <= n,
                    n == s@.len(),
                    forall|k: int| i <= k < j ==> !is_space(s@[k]),
                decreases n - j,
            {
                j = j + 1;
            }
            proof {
                assert forall|k: int| 0 <= k < j - i implies !is_space(ss[k]) by {
                    assert(ss[k] == s@[k + i]);
                }
                if j < n {
                    assert(ss[j - i] == s@[j as int]);
                }
                lemma_token_len_is_boundary(ss, j - i);
            }
            if j - i == 3 {
                let d0 = s.get_char(i);
                let d1 = s.get_char(i + 1);
                let d2 = s.get_char(i + 2);
                proof {
                    assert(ss.take(3)[0] == s@[i as int]);
                    assert(ss.take(3)[1] == s@[i as int + 1]);
                    assert(ss.take(3)[2] == s@[i as int + 2]);
                }
                if is_digit_char(d0) && is_digit_char(d1) && is_digit_char(d2) {
                    let code: usize = (d0 as usize - 48) * 100 + (d1 as usize - 48) * 10 + (
                    d2 as usize - 48);
                    proof {
                        assert(is_code_token(ss.take(token_len(ss) as int)));
                        assert(code as int == token_value(ss.take(3)));
                    }
                    return code;
                }
            }
            proof {
                assert(ss.take(token_len(ss) as int).len() == j - i);
                assert(!is_code_token(ss.take(token_len(ss) as int)));
                assert(ss.skip(j - i) =~= s@.skip(j as int));
            }
            i = j;
        }
    }
}

/// A parsed response: the status category the scan found, the byte count
/// the transport reported, and the raw text unmodified.
pub struct Response {
    /// Status category of this response.
    pub status_code: StatusCode,
    /// Size of the response in bytes.
    pub byte_count: usize,
    /// Raw data of this response.
    pub data: String,
}

impl Response {
    /// Builds a response from the transport's byte count and raw text.
    /// Never fails: the category is the one behind the first three-digit
    /// token of the text, or `Unknown` when there is none or the code is
    /// outside the table; the raw text is kept unmodified.
    pub fn from_raw(byte_count: usize, raw_data: String) -> (r: Response)
        ensures
            r.status_code == StatusCode::spec_from_num(status_code_of(raw_data@)),
            r.byte_count == byte_count,
            r.data@ == raw_data@,
    {
        let code = find_status_code(raw_data.as_str());
        Response { status_code: StatusCode::from_num(code), byte_count, data: raw_data }
    }
}

} // verus!
