//! The markup engine: documents, compiled queries and the elements they
//! match. Everything here is believed, not proved; the rest of the library
//! reasons over the names declared in this file.

use vstd::prelude::*;

verus! {

/// A compiled structural query of the markup engine.
#[verifier::external_type_specification]
#[verifier::external_body]
pub struct ExSelector(scraper::Selector);

/// A parsed document of the markup engine.
#[verifier::external_type_specification]
#[verifier::external_body]
pub struct ExHtml(scraper::Html);

/// A handle on one element of a parsed document.
#[verifier::external_type_specification]
#[verifier::external_body]
pub struct ExElementRef<'a>(scraper::ElementRef<'a>);

/// The compiled query that `scraper::Selector::parse` returns for a query
/// text, or `None` where it returns an error.
pub uninterp spec fn compiled_query(query: Seq<char>) -> Option<scraper::Selector>;

/// The document that `scraper::Html::parse_document` builds from a body.
pub uninterp spec fn document_of(body: Seq<char>) -> scraper::Html;

/// The elements of a document that `scraper::Html::select` yields for a
/// query, in the order in which its iterator yields them.
pub uninterp spec fn matches_in(document: &scraper::Html, query: scraper::Selector) -> Seq<scraper::ElementRef<'_>>;

/// The first element that `scraper::ElementRef::select` yields for a query
/// below the given element, if it yields any.
pub uninterp spec fn first_below(scope: scraper::ElementRef<'_>, query: scraper::Selector) -> Option<scraper::ElementRef<'_>>;

/// The text that the iterator of `scraper::ElementRef::text` yields for an
/// element, piece after piece, joined into one string.
pub uninterp spec fn text_of(element: scraper::ElementRef<'_>) -> Seq<char>;

/// Calls `scraper::Selector::parse` and drops the error's detail. The result
/// is a function of the text; nothing is claimed about which texts the engine
/// accepts.
#[verifier::external_body]
pub(crate) fn compile_query(query: &str) -> (r: Option<scraper::Selector>)
    ensures
        r == compiled_query(query@),
{
    scraper::Selector::parse(query).ok()
}

/// Calls `scraper::Html::parse_document`, which never fails: the result is
/// the document that the engine builds from this body.
#[verifier::external_body]
pub(crate) fn parse_document(body: &str) -> (r: scraper::Html)
    ensures
        r == document_of(body@),
{
    scraper::Html::parse_document(body)
}

/// Calls `scraper::Html::select` and collects what its iterator yields, in
/// the iterator's order.
#[verifier::external_body]
pub(crate) fn select_all<'a>(document: &'a scraper::Html, query: &scraper::Selector) -> (r: Vec<scraper::ElementRef<'a>>)
    ensures
        r@ == matches_in(document, *query),
{
    document.select(query).collect()
}

/// Calls `scraper::ElementRef::select` and takes the first element that its
/// iterator yields.
#[verifier::external_body]
pub(crate) fn select_first<'a>(scope: &scraper::ElementRef<'a>, query: &scraper::Selector) -> (r: Option<scraper::ElementRef<'a>>)
    ensures
        r == first_below(*scope, *query),
{
    scope.select(query).next()
}

/// Calls `scraper::ElementRef::text` and joins the pieces that its iterator
/// yields into one string.
#[verifier::external_body]
pub(crate) fn element_text<'a>(element: &scraper::ElementRef<'a>) -> (r: String)
    ensures
        r@ == text_of(*element),
{
    element.text().collect()
}

} // verus!
