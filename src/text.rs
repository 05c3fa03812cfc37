//! Text primitives the dialog logic needs: matching a pattern at a position,
//! finding it anywhere, trimming whitespace, and serde_yaml's rendering of a
//! list of strings.
use vstd::prelude::*;

verus! {

#[verifier::external_type_specification]
#[verifier::external_body]
pub struct ExYamlError(serde_yaml::Error);

/// Whether `s` begins with `p`.
pub open spec fn begins_with(s: Seq<char>, p: Seq<char>) -> bool {
    p.len() <= s.len() && s.subrange(0, p.len() as int) == p
}

/// Whether `p` occurs as a contiguous run of characters inside `s`.
pub open spec fn occurs_in(s: Seq<char>, p: Seq<char>) -> bool {
    exists|i: int| 0 <= i <= s.len() - p.len() && #[trigger] s.subrange(i, i + p.len()) == p
}

/// The characters of Unicode's White_Space property.
pub open spec fn is_white_space(c: char) -> bool {
    ('\u{9}' <= c && c <= '\u{d}') || c == ' ' || c == '\u{85}' || c == '\u{a0}' || c
        == '\u{1680}' || ('\u{2000}' <= c && c <= '\u{200a}') || c == '\u{2028}' || c
        == '\u{2029}' || c == '\u{202f}' || c == '\u{205f}' || c == '\u{3000}'
}

/// `s` without its leading white space.
pub open spec fn trim_start(s: Seq<char>) -> Seq<char>
    decreases s.len(),
{
    if s.len() > 0 && is_white_space(s[0]) {
        trim_start(s.drop_first())
    } else {
        s
    }
}

/// `s` without its trailing white space.
pub open spec fn trim_end(s: Seq<char>) -> Seq<char>
    decreases s.len(),
{
    if s.len() > 0 && is_white_space(s.last()) {
        trim_end(s.drop_last())
    } else {
        s
    }
}

/// `s` without leading and trailing white space.
pub open spec fn trimmed(s: Seq<char>) -> Seq<char> {
    trim_end(trim_start(s))
}

/// The YAML document serde_yaml writes for a sequence of strings.
pub uninterp spec fn yaml_of_strings(items: Seq<Seq<char>>) -> Seq<char>;

/// Relies on `str::trim`: the string without the leading and trailing
/// characters that have Unicode's White_Space property.
#[verifier::external_body]
pub(crate) fn trim_whitespace(s: &str) -> (r: String)
    ensures
        r@ == trimmed(s@),
{
    s.trim().to_string()
}

/// Relies on `serde_yaml::to_string` on a sequence of strings: it writes the
/// YAML block sequence of those strings into memory, which does not fail for
/// strings.
#[verifier::external_body]
pub(crate) fn strings_to_yaml(items: &Vec<String>) -> (r: Result<String, serde_yaml::Error>)
    ensures
        r is Ok,
        r matches Ok(y) ==> y@ == yaml_of_strings(items@.map_values(|s: String| s@)),
{
    serde_yaml::to_string(items)
}

/// Whether the characters of `t` from position `i` on begin with `p`.
pub fn matches_at(t: &str, n: usize, i: usize, p: &str) -> (r: bool)
    requires
        n == t@.len(),
        i <= n,
    ensures
        r == begins_with(t@.subrange(i as int, n as int), p@),
{
    let k = p.unicode_len();
    if k > n - i {
        return false;
    }
    let here = String::from_str(t.substring_char(i, i + k));
    let pattern = String::from_str(p);
    assert(t@.subrange(i as int, n as int).subrange(0, k as int) =~= t@.subrange(
        i as int,
        (i + k) as int,
    ));
    here == pattern
}

/// Whether `p` occurs anywhere in `t`.
pub fn occurs(t: &str, p: &str) -> (r: bool)
    ensures
        r == occurs_in(t@, p@),
{
    let n = t.unicode_len();
    let k = p.unicode_len();
    if k > n {
        return false;
    }
    if k == 0 {
        assert(t@.subrange(0, 0 + p@.len() as int) =~= p@);
        assert(occurs_in(t@, p@));
        return true;
    }
    let mut i: usize = 0;
    while i <= n - k
        invariant
            n == t@.len(),
            k == p@.len(),
            0 < k <= n,
            i <= n - k + 1,
            forall|j: int| 0 <= j < i ==> #[trigger] t@.subrange(j, j + k) != p@,
        decreases n - k + 1 - i,
    {
        let found = matches_at(t, n, i, p);
        assert(t@.subrange(i as int, n as int).subrange(0, k as int) =~= t@.subrange(
            i as int,
            (i + k) as int,
        ));
        if found {
            assert(t@.subrange(i as int, i + p@.len()) == p@);
            assert(occurs_in(t@, p@));
            return true;
        }
        i = i + 1;
    }
    assert(!occurs_in(t@, p@)) by {
        if occurs_in(t@, p@) {
            let j = choose|j: int|
                0 <= j <= t@.len() - p@.len() && #[trigger] t@.subrange(j, j + p@.len()) == p@;
            assert(t@.subrange(j, j + k) != p@);
        }
    }
    false
}

} // verus!
