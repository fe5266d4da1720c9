//! The record of one listing, and how each of its fields is read from the
//! text of the element that carries it.

use vstd::prelude::*;
use vstd::string::*;
use crate::decimal::{
    count_of, has_minus, is_signed_decimal, parse_count, parse_signed_decimal, signed_decimal_of,
    Decimal, DecimalView,
};
use crate::text::{chars_of, first_token, leading_token, strip_separators, without_separators};

verus! {

/// One listing. Every field is always there: where the markup lacks one, or
/// holds text that cannot be read, the field has its default.
#[derive(Clone, Debug, PartialEq, Eq)]
pub struct Product {
    pub title: String,
    pub price: Decimal,
    pub rating: Decimal,
    pub review_count: u32,
}

/// What a [`Product`] holds, as plain values.
pub struct ProductView {
    pub title: Seq<char>,
    pub price: DecimalView,
    pub rating: DecimalView,
    pub review_count: u32,
}

/// The texts of the four field elements of one listing, each absent where
/// the listing has no such element.
#[derive(Clone, Debug, PartialEq, Eq)]
pub struct FieldTexts {
    pub title: Option<String>,
    pub price: Option<String>,
    pub rating: Option<String>,
    pub review_count: Option<String>,
}

/// What a [`FieldTexts`] holds, as plain values.
pub struct FieldTextsView {
    pub title: Option<Seq<char>>,
    pub price: Option<Seq<char>>,
    pub rating: Option<Seq<char>>,
    pub review_count: Option<Seq<char>>,
}

/// The characters of a text that may be absent.
pub open spec fn text_view(text: Option<String>) -> Option<Seq<char>> {
    match text {
        Some(t) => Some(t@),
        None => None,
    }
}

/// The characters of a borrowed text that may be absent.
pub open spec fn str_view(text: Option<&str>) -> Option<Seq<char>> {
    match text {
        Some(t) => Some(t@),
        None => None,
    }
}

/// The title that stands for an absent one.
pub open spec fn missing_title() -> Seq<char> {
    "N/A"@
}

/// The title of a listing: the text as it is, or the sentinel.
pub open spec fn title_of(text: Option<Seq<char>>) -> Seq<char> {
    match text {
        Some(t) => t,
        None => missing_title(),
    }
}

/// The number that a text writes, or zero where it writes none.
pub open spec fn decimal_or_zero(text: Seq<char>) -> DecimalView {
    if is_signed_decimal(text) {
        signed_decimal_of(text)
    } else {
        DecimalView::zero()
    }
}

/// Whether a text, its separators removed, writes a price: a decimal
/// without a minus sign.
pub open spec fn is_price(bare: Seq<char>) -> bool {
    is_signed_decimal(bare) && !has_minus(bare)
}

/// The price of a listing: the decimal that the text writes once its
/// separators are removed; zero where the text is absent, writes none, or
/// writes one with a minus sign. A price is never below zero.
pub open spec fn price_of(text: Option<Seq<char>>) -> DecimalView {
    match text {
        Some(t) => if is_price(without_separators(t)) {
            signed_decimal_of(without_separators(t))
        } else {
            DecimalView::zero()
        },
        None => DecimalView::zero(),
    }
}

/// The rating of a listing: the decimal that the leading token of the text
/// writes; zero where the text is absent, has no token, or the token writes
/// none.
pub open spec fn rating_of(text: Option<Seq<char>>) -> DecimalView {
    match text {
        Some(t) => match first_token(t) {
            Some(token) => decimal_or_zero(token),
            None => DecimalView::zero(),
        },
        None => DecimalView::zero(),
    }
}

/// The review count of a listing: the count that the text writes once its
/// separators are removed; zero where the text is absent or writes none.
pub open spec fn review_count_of(text: Option<Seq<char>>) -> u32 {
    match text {
        Some(t) => match count_of(without_separators(t)) {
            Some(n) => n,
            None => 0,
        },
        None => 0,
    }
}

/// The record that the four field texts of a listing give.
pub open spec fn record_of(texts: FieldTextsView) -> ProductView {
    ProductView {
        title: title_of(texts.title),
        price: price_of(texts.price),
        rating: rating_of(texts.rating),
        review_count: review_count_of(texts.review_count),
    }
}

impl View for Product {
    type V = ProductView;

    open spec fn view(&self) -> ProductView {
        ProductView {
            title: self.title@,
            price: self.price@,
            rating: self.rating@,
            review_count: self.review_count,
        }
    }
}

impl Product {
    /// Both numbers of the record are well-formed decimals, and the price
    /// is not below zero.
    pub open spec fn wf(&self) -> bool {
        self.price.wf() && self.rating.wf() && !self.price@.negative
    }
}

impl View for FieldTexts {
    type V = FieldTextsView;

    open spec fn view(&self) -> FieldTextsView {
        FieldTextsView {
            title: text_view(self.title),
            price: text_view(self.price),
            rating: text_view(self.rating),
            review_count: text_view(self.review_count),
        }
    }
}

/// A borrowed look at a text that may be absent.
pub fn borrowed(text: &Option<String>) -> (r: Option<&str>)
    ensures
        str_view(r) == text_view(*text),
{
    match text {
        Some(t) => Some(t.as_str()),
        None => None,
    }
}

/// The title of a listing from the text of its title element.
pub fn title_from(text: Option<String>) -> (r: String)
    ensures
        r@ == title_of(text_view(text)),
{
    match text {
        Some(t) => t,
        None => String::from_str("N/A"),
    }
}

/// Reads a decimal, with zero for a text that writes none.
fn decimal_or_default(chars: &Vec<char>) -> (r: Decimal)
    ensures
        r@ == decimal_or_zero(chars@),
        r.wf(),
{
    match parse_signed_decimal(chars) {
        Some(d) => d,
        None => Decimal::zero(),
    }
}

/// The price of a listing from the text of its price element.
pub fn price_from(text: Option<&str>) -> (r: Decimal)
    ensures
        r@ == price_of(str_view(text)),
        r.wf(),
        !r@.negative,
{
    match text {
        Some(t) => {
            let chars = chars_of(t);
            let bare = strip_separators(&chars);
            let price = decimal_or_default(&bare);
            if price.is_negative() {
                Decimal::zero()
            } else {
                price
            }
        },
        None => Decimal::zero(),
    }
}

/// The rating of a listing from the text of its rating element.
pub fn rating_from(text: Option<&str>) -> (r: Decimal)
    ensures
        r@ == rating_of(str_view(text)),
        r.wf(),
{
    match text {
        Some(t) => {
            let chars = chars_of(t);
            match leading_token(&chars) {
                Some(token) => decimal_or_default(&token),
                None => Decimal::zero(),
            }
        },
        None => Decimal::zero(),
    }
}

/// The review count of a listing from the text of its review-count element.
pub fn review_count_from(text: Option<&str>) -> (r: u32)
    ensures
        r == review_count_of(str_view(text)),
{
    match text {
        Some(t) => {
            let chars = chars_of(t);
            let bare = strip_separators(&chars);
            match parse_count(&bare) {
                Some(n) => n,
                None => 0,
            }
        },
        None => 0,
    }
}

/// Builds the record of one listing from the texts of its field elements.
/// No text makes this fail: each field falls back to its own default.
pub fn record_from_texts(texts: FieldTexts) -> (r: Product)
    ensures
        r@ == record_of(texts@),
        r.wf(),
{
    let price = price_from(borrowed(&texts.price));
    let rating = rating_from(borrowed(&texts.rating));
    let review_count = review_count_from(borrowed(&texts.review_count));
    let title = title_from(texts.title);
    Product { title, price, rating, review_count }
}

/// A field whose element is absent has its default, whatever the other
/// fields hold: the sentinel title, a zero price, a zero rating, a zero
/// count. A zero decimal is written with no digit and stands for the number
/// zero.
pub proof fn law_absent_field_defaults(texts: FieldTextsView)
    ensures
        texts.title.is_none() ==> record_of(texts).title == missing_title(),
        texts.price.is_none() ==> record_of(texts).price == DecimalView::zero(),
        texts.rating.is_none() ==> record_of(texts).rating == DecimalView::zero(),
        texts.review_count.is_none() ==> record_of(texts).review_count == 0,
        DecimalView::zero().mantissa() == 0,
        DecimalView::zero().well_formed(),
        !record_of(texts).price.negative,
{
}

/// A field whose element is there but whose text writes no number has its
/// default as well.
pub proof fn law_unreadable_field_defaults(texts: FieldTextsView)
    ensures
        texts.price matches Some(t) && !is_price(without_separators(t)) ==> record_of(
            texts,
        ).price == DecimalView::zero(),
        texts.rating matches Some(t) && (first_token(t) matches Some(token) ==> !is_signed_decimal(
            token,
        )) ==> record_of(texts).rating == DecimalView::zero(),
        texts.review_count matches Some(t) && count_of(without_separators(t)).is_none()
            ==> record_of(texts).review_count == 0,
{
}

} // verus!
