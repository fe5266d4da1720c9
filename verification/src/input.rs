//! Reading the answers that a run is started with.

use vstd::prelude::*;
use vstd::string::*;
use crate::decimal::{count_of, parse_count};
use crate::text::chars_of;

verus! {

/// What an answer to a yes-or-no question says: yes for `y`, no for `n`, in
/// either case; nothing for any other answer.
pub open spec fn yes_no_of(answer: Seq<char>) -> Option<bool> {
    if answer == seq!['y'] || answer == seq!['Y'] {
        Some(true)
    } else if answer == seq!['n'] || answer == seq!['N'] {
        Some(false)
    } else {
        None
    }
}

/// Reads an answer to a yes-or-no question. `None` asks for the question
/// to be put again.
pub fn yes_no(answer: &str) -> (r: Option<bool>)
    ensures
        r == yes_no_of(answer@),
{
    if answer.unicode_len() != 1 {
        return None;
    }
    let c: char = answer.get_char(0);
    assert(answer@ =~= seq![c]);
    if c == 'y' || c == 'Y' {
        Some(true)
    } else if c == 'n' || c == 'N' {
        assert(seq![c] != seq!['y'] && seq![c] != seq!['Y']) by {
            assert(seq![c][0] == c);
            assert(seq!['y'][0] == 'y');
            assert(seq!['Y'][0] == 'Y');
        }
        Some(false)
    } else {
        assert(yes_no_of(seq![c]).is_none()) by {
            assert(seq![c][0] == c);
            assert(seq!['y'][0] == 'y');
            assert(seq!['Y'][0] == 'Y');
            assert(seq!['n'][0] == 'n');
            assert(seq!['N'][0] == 'N');
        }
        None
    }
}

/// Reads the number of pages of a run: a count, as `count_of` reads it.
pub fn page_count(answer: &str) -> (r: Option<u32>)
    ensures
        r == count_of(answer@),
{
    let chars = chars_of(answer);
    parse_count(&chars)
}

} // verus!
