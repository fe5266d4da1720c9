//! The selector set: the five compiled queries that locate a listing and
//! its fields.

use vstd::prelude::*;
use crate::markup::{compile_query, compiled_query};

verus! {

/// The structural target that a query of the set locates.
#[derive(Clone, Copy, Debug, PartialEq, Eq, Structural)]
pub enum Target {
    Container,
    Title,
    Price,
    Rating,
    ReviewCount,
}

/// A query text of the set is structurally invalid.
#[derive(Clone, Copy, Debug, PartialEq, Eq, Structural)]
pub struct SelectorCompileError {
    /// The first target, in the order of [`Target`], whose text is invalid.
    pub target: Target,
}

/// The five query texts of a selector set.
pub struct QueryTexts<'a> {
    pub container: &'a str,
    pub title: &'a str,
    pub price: &'a str,
    pub rating: &'a str,
    pub review_count: &'a str,
}

/// The compiled set. It is built once and only read afterwards.
pub struct Selectors {
    container: scraper::Selector,
    title: scraper::Selector,
    price: scraper::Selector,
    rating: scraper::Selector,
    review_count: scraper::Selector,
}

/// What a [`Selectors`] holds.
pub struct SelectorsView {
    pub container: scraper::Selector,
    pub title: scraper::Selector,
    pub price: scraper::Selector,
    pub rating: scraper::Selector,
    pub review_count: scraper::Selector,
}

/// The first target whose query text does not compile, if there is one.
pub open spec fn first_invalid(texts: QueryTexts<'_>) -> Option<Target> {
    if compiled_query(texts.container@).is_none() {
        Some(Target::Container)
    } else if compiled_query(texts.title@).is_none() {
        Some(Target::Title)
    } else if compiled_query(texts.price@).is_none() {
        Some(Target::Price)
    } else if compiled_query(texts.rating@).is_none() {
        Some(Target::Rating)
    } else if compiled_query(texts.review_count@).is_none() {
        Some(Target::ReviewCount)
    } else {
        None
    }
}

/// The set that the five texts compile to, where each of them compiles.
pub open spec fn compiled_set(texts: QueryTexts<'_>) -> SelectorsView {
    SelectorsView {
        container: compiled_query(texts.container@).unwrap(),
        title: compiled_query(texts.title@).unwrap(),
        price: compiled_query(texts.price@).unwrap(),
        rating: compiled_query(texts.rating@).unwrap(),
        review_count: compiled_query(texts.review_count@).unwrap(),
    }
}

/// The query texts of the listing site's result pages.
pub fn listing_queries() -> (r: QueryTexts<'static>)
    ensures
        r.container@ == "div[data-component-type='s-search-result']"@,
        r.title@ == "h2 span.a-text-normal"@,
        r.price@ == "span.a-price-whole"@,
        r.rating@ == "span.a-icon-alt"@,
        r.review_count@ == "span.a-size-base"@,
{
    QueryTexts {
        container: "div[data-component-type='s-search-result']",
        title: "h2 span.a-text-normal",
        price: "span.a-price-whole",
        rating: "span.a-icon-alt",
        review_count: "span.a-size-base",
    }
}

impl View for Selectors {
    type V = SelectorsView;

    closed spec fn view(&self) -> SelectorsView {
        SelectorsView {
            container: self.container,
            title: self.title,
            price: self.price,
            rating: self.rating,
            review_count: self.review_count,
        }
    }
}

impl Selectors {
    /// Compiles the five query texts. Fails exactly where one of them is
    /// invalid, and names the first such target; compiles each only once.
    pub fn compile(texts: QueryTexts<'_>) -> (r: Result<Selectors, SelectorCompileError>)
        ensures
            r.is_ok() == first_invalid(texts).is_none(),
            r matches Ok(set) ==> set@ == compiled_set(texts),
            r matches Err(e) ==> first_invalid(texts) == Some(e.target),
    {
        let container = match compile_query(texts.container) {
            Some(q) => q,
            None => {
                return Err(SelectorCompileError { target: Target::Container });
            },
        };
        let title = match compile_query(texts.title) {
            Some(q) => q,
            None => {
                return Err(SelectorCompileError { target: Target::Title });
            },
        };
        let price = match compile_query(texts.price) {
            Some(q) => q,
            None => {
                return Err(SelectorCompileError { target: Target::Price });
            },
        };
        let rating = match compile_query(texts.rating) {
            Some(q) => q,
            None => {
                return Err(SelectorCompileError { target: Target::Rating });
            },
        };
        let review_count = match compile_query(texts.review_count) {
            Some(q) => q,
            None => {
                return Err(SelectorCompileError { target: Target::ReviewCount });
            },
        };
        Ok(Selectors { container, title, price, rating, review_count })
    }

    /// The query that locates a listing.
    pub fn container(&self) -> (r: &scraper::Selector)
        ensures
            *r == self@.container,
    {
        &self.container
    }

    /// The query that locates the title below a listing.
    pub fn title(&self) -> (r: &scraper::Selector)
        ensures
            *r == self@.title,
    {
        &self.title
    }

    /// The query that locates the price below a listing.
    pub fn price(&self) -> (r: &scraper::Selector)
        ensures
            *r == self@.price,
    {
        &self.price
    }

    /// The query that locates the rating below a listing.
    pub fn rating(&self) -> (r: &scraper::Selector)
        ensures
            *r == self@.rating,
    {
        &self.rating
    }

    /// The query that locates the review count below a listing.
    pub fn review_count(&self) -> (r: &scraper::Selector)
        ensures
            *r == self@.review_count,
    {
        &self.review_count
    }
}

} // verus!
