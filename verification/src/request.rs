//! The request for one listing page: its address and the headers it carries.

use vstd::prelude::*;
use vstd::string::*;

verus! {

/// The browser identification that every request carries.
pub const USER_AGENT: &'static str =
    "Mozilla/5.0 (Windows NT 10.0; Win64; x64) AppleWebKit/537.36 (KHTML, like Gecko) Chrome/91.0.4472.124 Safari/537.36";

/// The content types that every request asks for.
pub const ACCEPT: &'static str =
    "text/html,application/xhtml+xml,application/xml;q=0.9,image/webp,*/*;q=0.8";

/// The languages that every request asks for.
pub const ACCEPT_LANGUAGE: &'static str = "en-US,en;q=0.5";

/// The address of the search, up to the query term.
pub const SEARCH_PREFIX: &'static str = "https://www.amazon.in/s?k=";

/// What stands between the query term and the page index.
pub const PAGE_INFIX: &'static str = "&page=";

/// The character that writes a digit below ten.
pub open spec fn digit_char(d: nat) -> char {
    seq!['0', '1', '2', '3', '4', '5', '6', '7', '8', '9'][d as int]
}

/// A number in base ten, without sign or leading zero.
pub open spec fn decimal_text(n: nat) -> Seq<char>
    decreases n,
{
    if n < 10 {
        seq![digit_char(n)]
    } else {
        decimal_text(n / 10).push(digit_char(n % 10))
    }
}

/// The address of one page of the search for a query term.
pub open spec fn page_url_of(query: Seq<char>, page: u32) -> Seq<char> {
    SEARCH_PREFIX@ + query + PAGE_INFIX@ + decimal_text(page as nat)
}

/// Calls `String::from_iter` on the characters, which gives the string that
/// holds them in order.
#[verifier::external_body]
pub(crate) fn string_of(chars: &Vec<char>) -> (r: String)
    ensures
        r@ == chars@,
{
    chars.iter().collect()
}

/// The character of a digit.
pub fn digit_to_char(d: u32) -> (r: char)
    requires
        d < 10,
    ensures
        r == digit_char(d as nat),
{
    if d == 0 {
        '0'
    } else if d == 1 {
        '1'
    } else if d == 2 {
        '2'
    } else if d == 3 {
        '3'
    } else if d == 4 {
        '4'
    } else if d == 5 {
        '5'
    } else if d == 6 {
        '6'
    } else if d == 7 {
        '7'
    } else if d == 8 {
        '8'
    } else {
        '9'
    }
}

/// Appends a number in base ten to the characters.
pub fn push_decimal(n: u32, out: &mut Vec<char>)
    ensures
        final(out)@ == old(out)@ + decimal_text(n as nat),
    decreases n,
{
    if n >= 10 {
        push_decimal(n / 10, out);
    }
    out.push(digit_to_char(n % 10));
    assert(out@ =~= old(out)@ + decimal_text(n as nat));
}

/// A number in base ten.
pub fn decimal_string(n: u32) -> (r: String)
    ensures
        r@ == decimal_text(n as nat),
{
    let mut chars: Vec<char> = Vec::new();
    push_decimal(n, &mut chars);
    assert(chars@ =~= decimal_text(n as nat));
    string_of(&chars)
}

/// The address of page `page` of the search for `query`. The query term is
/// taken as it is.
pub fn page_url(query: &str, page: u32) -> (r: String)
    ensures
        r@ == page_url_of(query@, page),
{
    let mut url = String::from_str(SEARCH_PREFIX);
    url.append(query);
    url.append(PAGE_INFIX);
    let number = decimal_string(page);
    url.append(number.as_str());
    url
}

} // verus!
