//! Selector-driven extraction of listing records from markup, and the
//! aggregation of per-page outcomes into one result.

pub mod markup;
pub mod text;
pub mod decimal;
pub mod record;
pub mod selectors;
pub mod extract;
pub mod pages;
pub mod request;
pub mod input;
