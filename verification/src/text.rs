//! Verified text utilities: whitespace trimming, repeated prefix/suffix
//! stripping (used to peel Markdown code fences off model output),
//! substring search (used by the region filter), and newline
//! normalization (embedding models are sensitive to literal newlines).

use vstd::prelude::*;

verus! {

/// The Unicode white-space characters, as Rust's `char::is_whitespace`
/// recognizes them.
pub open spec fn is_space(c: char) -> bool {
    ||| c == ' '
    ||| c == '\t'
    ||| c == '\n'
    ||| c == '\u{b}'
    ||| c == '\u{c}'
    ||| c == '\r'
    ||| c == '\u{85}'
    ||| c == '\u{a0}'
    ||| c == '\u{1680}'
    ||| c == '\u{2000}'
    ||| c == '\u{2001}'
    ||| c == '\u{2002}'
    ||| c == '\u{2003}'
    ||| c == '\u{2004}'
    ||| c == '\u{2005}'
    ||| c == '\u{2006}'
    ||| c == '\u{2007}'
    ||| c == '\u{2008}'
    ||| c == '\u{2009}'
    ||| c == '\u{200a}'
    ||| c == '\u{2028}'
    ||| c == '\u{2029}'
    ||| c == '\u{202f}'
    ||| c == '\u{205f}'
    ||| c == '\u{3000}'
}

pub fn is_space_char(c: char) -> (r: bool)
    ensures
        r == is_space(c),
{
    c == ' ' || c == '\t' || c == '\n' || c == '\u{b}' || c == '\u{c}' || c == '\r'
        || c == '\u{85}' || c == '\u{a0}' || c == '\u{1680}' || c == '\u{2000}' || c == '\u{2001}'
        || c == '\u{2002}' || c == '\u{2003}' || c == '\u{2004}' || c == '\u{2005}'
        || c == '\u{2006}' || c == '\u{2007}' || c == '\u{2008}' || c == '\u{2009}'
        || c == '\u{200a}' || c == '\u{2028}' || c == '\u{2029}' || c == '\u{202f}'
        || c == '\u{205f}' || c == '\u{3000}'
}

/// Every character is white space (so `trim` would leave nothing).
pub open spec fn all_spaces(s: Seq<char>) -> bool {
    forall|i: int| 0 <= i < s.len() ==> is_space(#[trigger] s[i])
}

pub open spec fn trim_start_spec(s: Seq<char>) -> Seq<char>
    decreases s.len(),
{
    if s.len() > 0 && is_space(s[0]) {
        trim_start_spec(s.drop_first())
    } else {
        s
    }
}

pub open spec fn trim_end_spec(s: Seq<char>) -> Seq<char>
    decreases s.len(),
{
    if s.len() > 0 && is_space(s.last()) {
        trim_end_spec(s.drop_last())
    } else {
        s
    }
}

/// What `str::trim` leaves: the input without leading and trailing
/// white space.
pub open spec fn trim_spec(s: Seq<char>) -> Seq<char> {
    trim_end_spec(trim_start_spec(s))
}

/// What `str::trim_start_matches` leaves: the input without every
/// leading repetition of `p`.
pub open spec fn strip_prefix_reps(s: Seq<char>, p: Seq<char>) -> Seq<char>
    decreases s.len(),
{
    if p.len() > 0 && s.len() >= p.len() && s.take(p.len() as int) == p {
        strip_prefix_reps(s.skip(p.len() as int), p)
    } else {
        s
    }
}

/// What `str::trim_end_matches` leaves: the input without every
/// trailing repetition of `p`.
pub open spec fn strip_suffix_reps(s: Seq<char>, p: Seq<char>) -> Seq<char>
    decreases s.len(),
{
    if p.len() > 0 && s.len() >= p.len() && s.skip(s.len() - p.len()) == p {
        strip_suffix_reps(s.take(s.len() - p.len()), p)
    } else {
        s
    }
}

/// `needle` occurs contiguously somewhere in `hay`.
pub open spec fn is_substring(hay: Seq<char>, needle: Seq<char>) -> bool {
    exists|i: int|
        0 <= i <= hay.len() - needle.len() && #[trigger] hay.subrange(i, i + needle.len())
            == needle
}

/// The input with every newline replaced by a space.
pub open spec fn replace_newlines_spec(s: Seq<char>) -> Seq<char> {
    s.map_values(|c: char| if c == '\n' { ' ' } else { c })
}

/// Narrows the window `[a, b)` of `s` by leading white space; the
/// resulting window carries exactly `trim_start_spec` of the old one.
pub(crate) fn trim_start_range(s: &str, a: usize, b: usize) -> (r: usize)
    requires
        a <= b <= s@.len(),
    ensures
        a <= r <= b,
        s@.subrange(r as int, b as int) == trim_start_spec(s@.subrange(a as int, b as int)),
{
    let mut i = a;
    while i < b && is_space_char(s.get_char(i))
        invariant
            a <= i <= b <= s@.len(),
            trim_start_spec(s@.subrange(i as int, b as int)) == trim_start_spec(
                s@.subrange(a as int, b as int),
            ),
        decreases b - i,
    {
        proof {
            let cur = s@.subrange(i as int, b as int);
            assert(cur.drop_first() =~= s@.subrange(i + 1, b as int));
        }
        i = i + 1;
    }
    proof {
        let cur = s@.subrange(i as int, b as int);
        if i < b {
            assert(cur[0] == s@[i as int]);
        }
        assert(trim_start_spec(cur) == cur);
    }
    i
}

/// Narrows the window `[a, b)` of `s` by trailing white space.
pub(crate) fn trim_end_range(s: &str, a: usize, b: usize) -> (r: usize)
    requires
        a <= b <= s@.len(),
    ensures
        a <= r <= b,
        s@.subrange(a as int, r as int) == trim_end_spec(s@.subrange(a as int, b as int)),
{
    let mut j = b;
    while j > a && is_space_char(s.get_char(j - 1))
        invariant
            a <= j <= b <= s@.len(),
            trim_end_spec(s@.subrange(a as int, j as int)) == trim_end_spec(
                s@.subrange(a as int, b as int),
            ),
        decreases j - a,
    {
        proof {
            let cur = s@.subrange(a as int, j as int);
            assert(cur.last() == s@[j - 1]);
            assert(cur.drop_last() =~= s@.subrange(a as int, j - 1));
        }
        j = j - 1;
    }
    proof {
        let cur = s@.subrange(a as int, j as int);
        if j > a {
            assert(cur.last() == s@[j - 1]);
        }
        assert(trim_end_spec(cur) == cur);
    }
    j
}

/// Whether the window `[i, b)` of `s` begins with the pattern `p`.
pub(crate) fn window_starts_with(s: &str, i: usize, b: usize, p: &str, p_len: usize) -> (r: bool)
    requires
        i <= b <= s@.len(),
        p_len == p@.len(),
    ensures
        r == (i + p@.len() <= b && s@.subrange(i as int, i + p@.len()) == p@),
{
    if p_len > b - i {
        return false;
    }
    let mut k: usize = 0;
    while k < p_len
        invariant
            0 <= k <= p_len,
            i + p_len <= b <= s@.len(),
            p_len == p@.len(),
            forall|m: int| 0 <= m < k ==> s@[i + m] == p@[m],
        decreases p_len - k,
    {
        if s.get_char(i + k) != p.get_char(k) {
            assert(s@.subrange(i as int, i + p@.len())[k as int] == s@[i + k]);
            return false;
        }
        k = k + 1;
    }
    proof {
        assert(s@.subrange(i as int, i + p@.len()) =~= p@);
    }
    true
}

/// Advances the window start past every leading repetition of `p`.
pub(crate) fn strip_prefix_reps_range(s: &str, a: usize, b: usize, p: &str) -> (r: usize)
    requires
        a <= b <= s@.len(),
        p@.len() > 0,
    ensures
        a <= r <= b,
        s@.subrange(r as int, b as int) == strip_prefix_reps(s@.subrange(a as int, b as int), p@),
{
    let p_len = p.unicode_len();
    let mut i = a;
    while window_starts_with(s, i, b, p, p_len)
        invariant
            a <= i <= b <= s@.len(),
            p_len == p@.len(),
            p@.len() > 0,
            strip_prefix_reps(s@.subrange(i as int, b as int), p@) == strip_prefix_reps(
                s@.subrange(a as int, b as int),
                p@,
            ),
        decreases b - i,
    {
        proof {
            let cur = s@.subrange(i as int, b as int);
            assert(cur.take(p@.len() as int) =~= s@.subrange(i as int, i + p@.len()));
            assert(cur.skip(p@.len() as int) =~= s@.subrange(i + p@.len(), b as int));
        }
        i = i + p_len;
    }
    proof {
        let cur = s@.subrange(i as int, b as int);
        if cur.len() >= p@.len() {
            assert(cur.take(p@.len() as int) =~= s@.subrange(i as int, i + p@.len()));
        }
        assert(strip_prefix_reps(cur, p@) == cur);
    }
    i
}

/// Pulls the window end back past every trailing repetition of `p`.
pub(crate) fn strip_suffix_reps_range(s: &str, a: usize, b: usize, p: &str) -> (r: usize)
    requires
        a <= b <= s@.len(),
        p@.len() > 0,
    ensures
        a <= r <= b,
        s@.subrange(a as int, r as int) == strip_suffix_reps(s@.subrange(a as int, b as int), p@),
{
    let p_len = p.unicode_len();
    let mut j = b;
    while j - a >= p_len && window_starts_with(s, j - p_len, j, p, p_len)
        invariant
            a <= j <= b <= s@.len(),
            p_len == p@.len(),
            p@.len() > 0,
            strip_suffix_reps(s@.subrange(a as int, j as int), p@) == strip_suffix_reps(
                s@.subrange(a as int, b as int),
                p@,
            ),
        decreases j - a,
    {
        proof {
            let cur = s@.subrange(a as int, j as int);
            assert(cur.skip(cur.len() - p@.len()) =~= s@.subrange(j - p@.len(), j as int));
            assert(cur.take(cur.len() - p@.len()) =~= s@.subrange(a as int, j - p@.len()));
        }
        j = j - p_len;
    }
    proof {
        let cur = s@.subrange(a as int, j as int);
        if cur.len() >= p@.len() {
            assert(cur.skip(cur.len() - p@.len()) =~= s@.subrange(j - p@.len(), j as int));
        }
        assert(strip_suffix_reps(cur, p@) == cur);
    }
    j
}

/// What `clean_json_str` leaves of a model response: surrounding white
/// space and Markdown code fences removed.
pub open spec fn clean_json_spec(s: Seq<char>) -> Seq<char> {
    trim_spec(
        strip_suffix_reps(
            strip_prefix_reps(strip_prefix_reps(trim_spec(s), "```json"@), "```"@),
            "```"@,
        ),
    )
}

/// Strips white space and Markdown code fences (```json ... ```) from a
/// model response, so that the payload can be parsed as JSON.
pub fn clean_json_str(s: &str) -> (r: String)
    ensures
        r@ == clean_json_spec(s@),
{
    let n = s.unicode_len();
    proof {
        assert(s@.subrange(0, n as int) =~= s@);
    }
    let a0 = trim_start_range(s, 0, n);
    let b0 = trim_end_range(s, a0, n);
    proof {
        reveal_strlit("```json");
        reveal_strlit("```");
    }
    let a1 = strip_prefix_reps_range(s, a0, b0, "```json");
    let a2 = strip_prefix_reps_range(s, a1, b0, "```");
    let b1 = strip_suffix_reps_range(s, a2, b0, "```");
    let a3 = trim_start_range(s, a2, b1);
    let b2 = trim_end_range(s, a3, b1);
    s.substring_char(a3, b2).to_owned()
}

/// Whether two strings hold the same characters.
pub fn str_equal(a: &str, b: &str) -> (r: bool)
    ensures
        r == (a@ == b@),
{
    let x = a.to_owned();
    let y = b.to_owned();
    x == y
}

/// Whether `needle` occurs contiguously in `hay`; mirrors
/// `str::contains` for string patterns.
pub fn contains_substring(hay: &str, needle: &str) -> (r: bool)
    ensures
        r == is_substring(hay@, needle@),
{
    let hay_len = hay.unicode_len();
    let needle_len = needle.unicode_len();
    if needle_len > hay_len {
        return false;
    }
    if needle_len == 0 {
        proof {
            assert(hay@.subrange(0, 0 + needle@.len() as int) =~= needle@);
        }
        return true;
    }
    let mut i: usize = 0;
    while i <= hay_len - needle_len
        invariant
            0 <= i <= hay_len - needle_len + 1,
            1 <= needle_len <= hay_len,
            hay_len == hay@.len(),
            needle_len == needle@.len(),
            forall|m: int|
                0 <= m < i ==> #[trigger] hay@.subrange(m, m + needle@.len()) != needle@,
        decreases hay_len - needle_len - i + 1,
    {
        if window_starts_with(hay, i, hay_len, needle, needle_len) {
            return true;
        }
        i = i + 1;
    }
    false
}

/// Whether the string consists of white space alone (so `trim` would
/// leave it empty).
pub fn is_blank(s: &str) -> (r: bool)
    ensures
        r == all_spaces(s@),
{
    let n = s.unicode_len();
    let mut i: usize = 0;
    while i < n
        invariant
            0 <= i <= n == s@.len(),
            forall|m: int| 0 <= m < i ==> is_space(#[trigger] s@[m]),
        decreases n - i,
    {
        if !is_space_char(s.get_char(i)) {
            return false;
        }
        i = i + 1;
    }
    true
}

/// Replaces every newline with a space; embedding requests send the
/// query on one line.
pub fn replace_newlines(s: &str) -> (r: String)
    ensures
        r@ == replace_newlines_spec(s@),
{
    let n = s.unicode_len();
    let mut out = String::new();
    let mut i: usize = 0;
    while i < n
        invariant
            0 <= i <= n == s@.len(),
            out@ == replace_newlines_spec(s@.take(i as int)),
        decreases n - i,
    {
        let c = s.get_char(i);
        if c == '\n' {
            out.append(" ");
            proof {
                reveal_strlit(" ");
            }
        } else {
            out.append(s.substring_char(i, i + 1));
        }
        proof {
            assert(replace_newlines_spec(s@.take(i + 1)) =~= replace_newlines_spec(
                s@.take(i as int),
            ).push(if s@[i as int] == '\n' { ' ' } else { s@[i as int] }));
            assert(s@.subrange(i as int, i + 1) =~= seq![s@[i as int]]);
        }
        i = i + 1;
    }
    proof {
        assert(s@.take(n as int) =~= s@);
    }
    out
}

} // verus!
