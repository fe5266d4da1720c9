//! The record extractor: from a parsed document and the selector set to the
//! records of the listings in it.

use vstd::prelude::*;
use crate::markup::{
    document_of, element_text, first_below, matches_in, parse_document, select_all, select_first,
    text_of,
};
use crate::record::{record_from_texts, record_of, FieldTexts, FieldTextsView, Product, ProductView};
use crate::selectors::{Selectors, SelectorsView};

verus! {

/// The text of the first element below `scope` that the query matches, if
/// it matches any.
pub open spec fn field_text(scope: scraper::ElementRef<'_>, query: scraper::Selector) -> Option<
    Seq<char>,
> {
    match first_below(scope, query) {
        Some(element) => Some(text_of(element)),
        None => None,
    }
}

/// The field texts of one listing, each located independently of the others.
pub open spec fn field_texts(container: scraper::ElementRef<'_>, set: SelectorsView) -> FieldTextsView {
    FieldTextsView {
        title: field_text(container, set.title),
        price: field_text(container, set.price),
        rating: field_text(container, set.rating),
        review_count: field_text(container, set.review_count),
    }
}

/// The records of a document: one for each element that the container query
/// matches, in the order in which the engine yields them.
pub open spec fn listings_of(document: &scraper::Html, set: SelectorsView) -> Seq<ProductView> {
    matches_in(document, set.container).map_values(
        |container: scraper::ElementRef<'_>| record_of(field_texts(container, set)),
    )
}

/// The views of a sequence of records.
pub open spec fn record_views(records: Seq<Product>) -> Seq<ProductView> {
    records.map_values(|p: Product| p@)
}

/// Whether every record of the sequence is well-formed.
pub open spec fn all_wf(records: Seq<Product>) -> bool {
    forall|i: int| 0 <= i < records.len() ==> (#[trigger] records[i]).wf()
}

/// Locates one field below a listing and reads its text.
pub fn locate_text(container: &scraper::ElementRef<'_>, query: &scraper::Selector) -> (r: Option<String>)
    ensures
        crate::record::text_view(r) == field_text(*container, *query),
{
    match select_first(container, query) {
        Some(element) => Some(element_text(&element)),
        None => None,
    }
}

/// Extracts the record of one listing.
pub fn extract_record(container: &scraper::ElementRef<'_>, set: &Selectors) -> (r: Product)
    ensures
        r@ == record_of(field_texts(*container, set@)),
        r.wf(),
{
    let texts = FieldTexts {
        title: locate_text(container, set.title()),
        price: locate_text(container, set.price()),
        rating: locate_text(container, set.rating()),
        review_count: locate_text(container, set.review_count()),
    };
    record_from_texts(texts)
}

/// Extracts the records of a document. The result is a function of the
/// document and the set alone: one record per matching container, none where
/// nothing matches, and no field can make it fail.
pub fn extract_records(document: &scraper::Html, set: &Selectors) -> (r: Vec<Product>)
    ensures
        record_views(r@) == listings_of(document, set@),
        all_wf(r@),
{
    let containers = select_all(document, set.container());
    let mut records: Vec<Product> = Vec::new();
    let mut i: usize = 0;
    while i < containers.len()
        invariant
            i <= containers.len(),
            containers@ == matches_in(document, set@.container),
            records@.len() == i,
            forall|j: int| 0 <= j < i ==> (#[trigger] records@[j])@ == record_of(field_texts(containers@[j], set@)),
            all_wf(records@),
        decreases containers.len() - i,
    {
        let record = extract_record(&containers[i], set);
        records.push(record);
        i += 1;
    }
    assert(record_views(records@) =~= listings_of(document, set@));
    records
}

/// Parses a page body and extracts its records.
pub fn extract_from_body(body: &str, set: &Selectors) -> (r: Vec<Product>)
    ensures
        record_views(r@) == listings_of(&document_of(body@), set@),
        all_wf(r@),
{
    let document = parse_document(body);
    extract_records(&document, set)
}

/// Extraction is a function of the document and the set: what two
/// extractions from the same document with the same set return holds the
/// same records in the same order.
pub proof fn law_extraction_repeats(
    document: &scraper::Html,
    set: SelectorsView,
    first: Seq<Product>,
    second: Seq<Product>,
)
    requires
        record_views(first) == listings_of(document, set),
        record_views(second) == listings_of(document, set),
    ensures
        first.len() == second.len(),
        forall|i: int| 0 <= i < first.len() ==> first[i]@ == second[i]@,
{
    assert(record_views(first).len() == first.len());
    assert(record_views(second).len() == second.len());
    assert forall|i: int| 0 <= i < first.len() implies first[i]@ == second[i]@ by {
        assert(record_views(first)[i] == first[i]@);
        assert(record_views(second)[i] == second[i]@);
    }
}

/// A document in which the container query matches nothing has no records.
pub proof fn law_no_container_no_record(document: &scraper::Html, set: SelectorsView)
    requires
        matches_in(document, set.container).len() == 0,
    ensures
        listings_of(document, set).len() == 0,
{
}

/// The extractor yields as many records as the container query matches
/// elements.
pub proof fn law_one_record_per_container(document: &scraper::Html, set: SelectorsView)
    ensures
        listings_of(document, set).len() == matches_in(document, set.container).len(),
{
}

} // verus!
