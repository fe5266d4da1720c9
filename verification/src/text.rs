//! Plain text handling for field values: characters of a string, removal of
//! thousands separators, and the leading whitespace-delimited token.

use vstd::prelude::*;
use vstd::string::*;

verus! {

/// The character that groups thousands in a number as the listings print it.
pub const SEPARATOR: char = ',';

/// Whether `char::is_whitespace` holds of the character: whether Unicode
/// marks it `White_Space`.
pub uninterp spec fn is_space(c: char) -> bool;

/// Calls `char::is_whitespace`.
#[verifier::external_body]
pub(crate) fn char_is_space(c: char) -> (r: bool)
    ensures
        r == is_space(c),
{
    c.is_whitespace()
}

/// The text with every separator removed, the other characters in order.
pub open spec fn without_separators(s: Seq<char>) -> Seq<char> {
    s.filter(|c: char| c != SEPARATOR)
}

/// The first index at or after `i` that holds no whitespace, or the length.
pub open spec fn after_spaces(s: Seq<char>, i: int) -> int
    decreases s.len() - i,
{
    if 0 <= i < s.len() && is_space(s[i]) {
        after_spaces(s, i + 1)
    } else {
        i
    }
}

/// The first index at or after `i` that holds whitespace, or the length.
pub open spec fn after_token(s: Seq<char>, i: int) -> int
    decreases s.len() - i,
{
    if 0 <= i < s.len() && !is_space(s[i]) {
        after_token(s, i + 1)
    } else {
        i
    }
}

/// The first maximal run of characters that are not whitespace, if the text
/// holds any such character.
pub open spec fn first_token(s: Seq<char>) -> Option<Seq<char>> {
    let start = after_spaces(s, 0);
    if start >= s.len() {
        None
    } else {
        Some(s.subrange(start, after_token(s, start)))
    }
}

/// The characters of a string, in order.
pub fn chars_of(s: &str) -> (r: Vec<char>)
    ensures
        r@ == s@,
{
    let n: usize = s.unicode_len();
    let mut r: Vec<char> = Vec::new();
    let mut i: usize = 0;
    while i < n
        invariant
            i <= n,
            n == s@.len(),
            r@ == s@.take(i as int),
        decreases n - i,
    {
        r.push(s.get_char(i));
        assert(s@.take(i + 1) =~= s@.take(i as int).push(s@[i as int]));
        i += 1;
    }
    assert(s@.take(n as int) =~= s@);
    r
}

/// Removes every thousands separator from the text.
pub fn strip_separators(s: &Vec<char>) -> (r: Vec<char>)
    ensures
        r@ == without_separators(s@),
{
    let mut r: Vec<char> = Vec::new();
    let mut i: usize = 0;
    proof {
        reveal(Seq::filter);
    }
    while i < s.len()
        invariant
            i <= s.len(),
            r@ == without_separators(s@.take(i as int)),
        decreases s.len() - i,
    {
        let c: char = s[i];
        proof {
            reveal(Seq::filter);
            assert(s@.take(i + 1).drop_last() =~= s@.take(i as int));
            assert(s@.take(i + 1).last() == c);
        }
        if c != SEPARATOR {
            r.push(c);
        }
        i += 1;
    }
    assert(s@.take(s.len() as int) =~= s@);
    r
}

/// The leading token of the text: what stands between the whitespace at its
/// start and the next whitespace. `None` where the text is empty or all
/// whitespace.
pub fn leading_token(s: &Vec<char>) -> (r: Option<Vec<char>>)
    ensures
        r.is_some() == first_token(s@).is_some(),
        r matches Some(t) ==> first_token(s@) == Some(t@),
{
    let n: usize = s.len();
    let mut start: usize = 0;
    while start < n && char_is_space(s[start])
        invariant
            start <= n,
            n == s@.len(),
            after_spaces(s@, 0) == after_spaces(s@, start as int),
        decreases n - start,
    {
        start += 1;
    }
    if start >= n {
        return None;
    }
    let mut t: Vec<char> = Vec::new();
    let mut end: usize = start;
    while end < n && !char_is_space(s[end])
        invariant
            start <= end <= n,
            n == s@.len(),
            after_token(s@, start as int) == after_token(s@, end as int),
            t@ == s@.subrange(start as int, end as int),
        decreases n - end,
    {
        t.push(s[end]);
        assert(s@.subrange(start as int, end + 1) =~= s@.subrange(start as int, end as int).push(
            s@[end as int],
        ));
        end += 1;
    }
    Some(t)
}

} // verus!
