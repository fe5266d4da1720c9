//! Numbers as the listings print them: exact decimals of any length, and
//! counts that fit in 32 bits.

use vstd::prelude::*;

verus! {

/// An exact decimal: its sign, its digits, most significant first, and how
/// many of them stand behind the decimal point.
#[derive(Clone, Debug, PartialEq, Eq)]
pub struct Decimal {
    negative: bool,
    digits: Vec<u8>,
    scale: usize,
}

/// What a [`Decimal`] stands for: the number written by `digits`, divided by
/// ten to the power `scale`, and taken below zero where `negative` is set.
pub struct DecimalView {
    pub negative: bool,
    pub digits: Seq<u8>,
    pub scale: nat,
}

/// Whether the character is one of `0` to `9`.
pub open spec fn is_digit(c: char) -> bool {
    48 <= c as u32 <= 57
}

/// The value of a digit character.
pub open spec fn digit_of(c: char) -> u8 {
    (c as u32 - 48) as u8
}

/// Whether every character of the text is a digit.
pub open spec fn all_digits(s: Seq<char>) -> bool {
    forall|i: int| 0 <= i < s.len() ==> is_digit(#[trigger] s[i])
}

/// The values of the characters of a text of digits.
pub open spec fn digits_of(s: Seq<char>) -> Seq<u8> {
    s.map_values(|c: char| digit_of(c))
}

/// The number that a sequence of digits writes in base ten; zero for none.
pub open spec fn number_of(ds: Seq<u8>) -> nat
    decreases ds.len(),
{
    if ds.len() == 0 {
        0
    } else {
        number_of(ds.drop_last()) * 10 + ds.last() as nat
    }
}

/// The first index at or after `i` that holds no digit, or the length.
pub open spec fn after_digits(s: Seq<char>, i: int) -> int
    decreases s.len() - i,
{
    if 0 <= i < s.len() && is_digit(s[i]) {
        after_digits(s, i + 1)
    } else {
        i
    }
}

/// Whether the text writes a decimal: digits, with at most one point among
/// them, before them or behind them, and at least one digit. No sign, no
/// exponent, no space.
pub open spec fn is_decimal(s: Seq<char>) -> bool {
    let k = after_digits(s, 0);
    if k >= s.len() {
        s.len() > 0
    } else {
        s[k] == '.' && s.len() > 1 && all_digits(s.skip(k + 1))
    }
}

/// The decimal that a text writes, where `is_decimal` holds of it: all its
/// digits in order, and as scale the number of digits behind the point.
pub open spec fn decimal_of(s: Seq<char>) -> DecimalView {
    let k = after_digits(s, 0);
    if k >= s.len() {
        DecimalView { negative: false, digits: digits_of(s), scale: 0 }
    } else {
        DecimalView {
            negative: false,
            digits: digits_of(s.take(k) + s.skip(k + 1)),
            scale: (s.len() - k - 1) as nat,
        }
    }
}

/// Whether the text starts with a sign.
pub open spec fn has_sign(s: Seq<char>) -> bool {
    s.len() > 0 && (s[0] == '+' || s[0] == '-')
}

/// Whether the text starts with a minus sign.
pub open spec fn has_minus(s: Seq<char>) -> bool {
    s.len() > 0 && s[0] == '-'
}

/// The text without its sign, where it starts with one.
pub open spec fn unsigned_part(s: Seq<char>) -> Seq<char> {
    if has_sign(s) {
        s.skip(1)
    } else {
        s
    }
}

/// Whether the text writes a decimal after at most one sign.
pub open spec fn is_signed_decimal(s: Seq<char>) -> bool {
    is_decimal(unsigned_part(s))
}

/// The decimal that a text writes, where `is_signed_decimal` holds of it:
/// that of its unsigned part, below zero where the sign is a minus.
pub open spec fn signed_decimal_of(s: Seq<char>) -> DecimalView {
    DecimalView { negative: has_minus(s), ..decimal_of(unsigned_part(s)) }
}

/// The digits of a count's text: the text itself, without one leading `+`.
pub open spec fn count_body(s: Seq<char>) -> Seq<char> {
    if s.len() > 0 && s[0] == '+' {
        s.skip(1)
    } else {
        s
    }
}

/// The count that a text writes: one or more digits, after at most one `+`,
/// whose number fits in 32 bits. `None` for any other text.
pub open spec fn count_of(s: Seq<char>) -> Option<u32> {
    let body = count_body(s);
    if body.len() > 0 && all_digits(body) && number_of(digits_of(body)) <= u32::MAX {
        Some(number_of(digits_of(body)) as u32)
    } else {
        None
    }
}

impl DecimalView {
    /// The zero that stands for an absent or unreadable number.
    pub open spec fn zero() -> DecimalView {
        DecimalView { negative: false, digits: Seq::empty(), scale: 0 }
    }

    /// Every digit is below ten and the scale counts digits that are there.
    pub open spec fn well_formed(self) -> bool {
        &&& self.scale <= self.digits.len()
        &&& forall|i: int| 0 <= i < self.digits.len() ==> #[trigger] self.digits[i] < 10
    }

    /// The number written by the digits, the decimal point left out.
    pub open spec fn mantissa(self) -> nat {
        number_of(self.digits)
    }
}

impl View for Decimal {
    type V = DecimalView;

    closed spec fn view(&self) -> DecimalView {
        DecimalView { negative: self.negative, digits: self.digits@, scale: self.scale as nat }
    }
}

impl Decimal {
    /// The invariant of the type, which every function of this library that
    /// returns a `Decimal` establishes.
    pub open spec fn wf(&self) -> bool {
        self@.well_formed()
    }

    /// The decimal zero, written with no digit.
    pub fn zero() -> (r: Decimal)
        ensures
            r@ == DecimalView::zero(),
            r.wf(),
    {
        Decimal { negative: false, digits: Vec::new(), scale: 0 }
    }

    /// Whether the decimal was written with a minus sign.
    pub fn is_negative(&self) -> (r: bool)
        ensures
            r == self@.negative,
    {
        self.negative
    }

    /// The digits, most significant first.
    pub fn digits(&self) -> (r: &Vec<u8>)
        ensures
            r@ == self@.digits,
    {
        &self.digits
    }

    /// How many of the digits stand behind the decimal point.
    pub fn scale(&self) -> (r: usize)
        ensures
            r == self@.scale,
    {
        self.scale
    }
}

/// Whether the character is a digit.
pub fn is_digit_char(c: char) -> (r: bool)
    ensures
        r == is_digit(c),
{
    let v: u32 = c as u32;
    48 <= v && v <= 57
}

/// The value of a digit character.
pub fn digit_value(c: char) -> (r: u8)
    requires
        is_digit(c),
    ensures
        r == digit_of(c),
        r < 10,
{
    let v: u32 = c as u32;
    (v - 48) as u8
}

/// A prefix of a sequence of digits writes a number that is no larger.
pub proof fn lemma_number_prefix(ds: Seq<u8>, k: int)
    requires
        0 <= k <= ds.len(),
    ensures
        number_of(ds.take(k)) <= number_of(ds),
    decreases ds.len() - k,
{
    if k == ds.len() {
        assert(ds.take(k) =~= ds);
    } else {
        lemma_number_prefix(ds.drop_last(), k);
        assert(ds.drop_last().take(k) =~= ds.take(k));
    }
}

/// Reads a decimal. Succeeds exactly on the texts of which `is_decimal`
/// holds, with all their digits kept.
pub fn parse_decimal(s: &Vec<char>) -> (r: Option<Decimal>)
    ensures
        r.is_some() == is_decimal(s@),
        r matches Some(d) ==> d@ == decimal_of(s@) && d.wf(),
{
    let n: usize = s.len();
    let mut digits: Vec<u8> = Vec::new();
    let mut k: usize = 0;
    while k < n && is_digit_char(s[k])
        invariant
            k <= n,
            n == s@.len(),
            after_digits(s@, 0) == after_digits(s@, k as int),
            digits@ == digits_of(s@.take(k as int)),
            forall|i: int| 0 <= i < digits@.len() ==> #[trigger] digits@[i] < 10,
        decreases n - k,
    {
        digits.push(digit_value(s[k]));
        assert(digits@ =~= digits_of(s@.take(k + 1)));
        k += 1;
    }
    if k >= n {
        assert(s@.take(n as int) =~= s@);
        if n == 0 {
            return None;
        }
        return Some(Decimal { negative: false, digits, scale: 0 });
    }
    assert(after_digits(s@, 0) == k);
    if s[k] != '.' || n == 1 {
        return None;
    }
    let ghost tail = s@.skip(k + 1);
    let mut j: usize = k + 1;
    while j < n
        invariant
            k < j <= n,
            1 < n == s@.len(),
            after_digits(s@, 0) == k,
            s@[k as int] == '.',
            tail == s@.skip(k + 1),
            all_digits(tail.take(j - k - 1)),
            digits@ == digits_of(s@.take(k as int) + tail.take(j - k - 1)),
            forall|i: int| 0 <= i < digits@.len() ==> #[trigger] digits@[i] < 10,
        decreases n - j,
    {
        if !is_digit_char(s[j]) {
            assert(!is_digit(tail[j - k - 1]));
            return None;
        }
        digits.push(digit_value(s[j]));
        assert(tail[j - k - 1] == s@[j as int]);
        assert(tail.take(j - k) =~= tail.take(j - k - 1).push(s@[j as int]));
        assert(digits@ =~= digits_of(s@.take(k as int) + tail.take(j - k)));
        j += 1;
    }
    assert(tail.take(n - k - 1) =~= tail);
    Some(Decimal { negative: false, digits, scale: n - k - 1 })
}

/// The characters from index `from` on.
pub fn tail_of(s: &Vec<char>, from: usize) -> (r: Vec<char>)
    requires
        from <= s@.len(),
    ensures
        r@ == s@.skip(from as int),
{
    let mut r: Vec<char> = Vec::new();
    let mut i: usize = from;
    while i < s.len()
        invariant
            from <= i <= s.len(),
            r@ == s@.subrange(from as int, i as int),
        decreases s.len() - i,
    {
        r.push(s[i]);
        assert(r@ =~= s@.subrange(from as int, i + 1));
        i += 1;
    }
    assert(r@ =~= s@.skip(from as int));
    r
}

/// Reads a decimal that may carry a sign. Succeeds exactly on the texts of
/// which `is_signed_decimal` holds.
pub fn parse_signed_decimal(s: &Vec<char>) -> (r: Option<Decimal>)
    ensures
        r.is_some() == is_signed_decimal(s@),
        r matches Some(d) ==> d@ == signed_decimal_of(s@) && d.wf(),
{
    if s.len() > 0 && (s[0] == '+' || s[0] == '-') {
        let negative: bool = s[0] == '-';
        let rest = tail_of(s, 1);
        match parse_decimal(&rest) {
            Some(d) => Some(Decimal { negative, digits: d.digits, scale: d.scale }),
            None => None,
        }
    } else {
        parse_decimal(s)
    }
}

/// Reads a count. Succeeds exactly on the texts that `count_of` accepts, with
/// the number they write.
pub fn parse_count(s: &Vec<char>) -> (r: Option<u32>)
    ensures
        r == count_of(s@),
{
    let n: usize = s.len();
    let start: usize = if n > 0 && s[0] == '+' {
        1
    } else {
        0
    };
    if start >= n {
        return None;
    }
    let ghost body = count_body(s@);
    assert(body =~= s@.skip(start as int));
    let mut acc: u64 = 0;
    let mut i: usize = start;
    while i < n
        invariant
            start <= i <= n,
            start < n == s@.len(),
            body == count_body(s@),
            body == s@.skip(start as int),
            all_digits(body.take(i - start)),
            acc == number_of(digits_of(body.take(i - start))),
            acc <= u32::MAX,
        decreases n - i,
    {
        if !is_digit_char(s[i]) {
            assert(!is_digit(body[i - start]));
            return None;
        }
        let d: u8 = digit_value(s[i]);
        let next: u64 = acc * 10 + d as u64;
        proof {
            let p = body.take(i - start + 1);
            assert(p.drop_last() =~= body.take(i - start));
            assert(digits_of(p).drop_last() =~= digits_of(body.take(i - start)));
            assert(digits_of(p).last() == d);
            assert(next == number_of(digits_of(p)));
            assert(all_digits(p));
        }
        if next > 0xFFFF_FFFFu64 {
            proof {
                lemma_number_prefix(digits_of(body), i - start + 1);
                assert(digits_of(body).take(i - start + 1) =~= digits_of(
                    body.take(i - start + 1),
                ));
            }
            return None;
        }
        acc = next;
        i += 1;
    }
    assert(body.take(n - start) =~= body);
    Some(acc as u32)
}

} // verus!
