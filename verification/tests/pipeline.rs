use scrape_with_rust::decimal::Decimal;
use scrape_with_rust::extract::{extract_from_body, extract_records};
use scrape_with_rust::pages::{
    aggregate, page_numbers, page_outcome, page_result, AggregateResult, FailureKind, FetchError,
    PageOutcome, Retrieval,
};
use scrape_with_rust::record::Product;
use scrape_with_rust::selectors::{
    listing_queries, QueryTexts, SelectorCompileError, Selectors, Target,
};

fn number(d: &Decimal) -> f64 {
    let digits = d.digits();
    let point = digits.len() - d.scale();
    let mut text = String::from(if d.is_negative() { "-0" } else { "0" });
    for (i, digit) in digits.iter().enumerate() {
        if i == point {
            text.push('.');
        }
        text.push(char::from(b'0' + *digit));
    }
    text.parse::<f64>().unwrap()
}

fn set() -> Selectors {
    Selectors::compile(listing_queries()).unwrap()
}

fn container(title: &str, price: &str, rating: Option<&str>, reviews: &str) -> String {
    let rating = match rating {
        Some(r) => format!("<i><span class=\"a-icon-alt\">{}</span></i>", r),
        None => String::new(),
    };
    format!(
        "<div data-component-type=\"s-search-result\"><h2><a><span class=\"a-text-normal\">{}</span></a></h2>\
         <span class=\"a-price\"><span class=\"a-price-whole\">{}</span></span>{}\
         <span class=\"a-size-base\">{}</span></div>",
        title, price, rating, reviews
    )
}

fn document(containers: &[String]) -> String {
    format!("<!DOCTYPE html><html><head><title>results</title></head><body><div id=\"main\">{}</div></body></html>", containers.concat())
}

fn page_one() -> String {
    document(&[
        container("Fossil Gen 6", "18,495", Some("4.3 out of 5 stars"), "2,500"),
        container("Fossil Grant", "7,995", Some("4.5 out of 5 stars"), "12,345"),
        container("Fossil Minimalist", "6,497.50", Some("3.9 out of 5 stars"), "87"),
    ])
}

fn page_two() -> String {
    document(&[container("Fossil Machine", "9,995", None, "1,024")])
}

fn answered(body: String) -> Retrieval {
    Retrieval::Answered { status: 200, body: Ok(body) }
}

#[test]
fn listing_queries_compile() {
    assert!(Selectors::compile(listing_queries()).is_ok());
}

#[test]
fn invalid_query_is_named() {
    let mut texts = listing_queries();
    texts.rating = "span[";
    assert_eq!(
        Selectors::compile(texts).err(),
        Some(SelectorCompileError { target: Target::Rating })
    );
    let all_bad = QueryTexts { container: "", title: "!", price: "[", rating: "((", review_count: ">" };
    assert_eq!(
        Selectors::compile(all_bad).err(),
        Some(SelectorCompileError { target: Target::Container })
    );
}

#[test]
fn extracts_each_container_in_order() {
    let records = extract_from_body(&page_one(), &set());
    assert_eq!(records.len(), 3);
    assert_eq!(records[0].title, "Fossil Gen 6");
    assert_eq!(number(&records[0].price), 18495.0);
    assert_eq!(number(&records[0].rating), 4.3);
    assert_eq!(records[0].review_count, 2500);
    assert_eq!(records[1].title, "Fossil Grant");
    assert_eq!(records[1].review_count, 12345);
    assert_eq!(records[2].title, "Fossil Minimalist");
    assert_eq!(number(&records[2].price), 6497.5);
    assert_eq!(number(&records[2].rating), 3.9);
    assert_eq!(records[2].review_count, 87);
}

#[test]
fn title_joins_nested_text() {
    let body = document(&[container("Fossil <b>Gen</b> 6", "1", None, "1")]);
    let records = extract_from_body(&body, &set());
    assert_eq!(records.len(), 1);
    assert_eq!(records[0].title, "Fossil Gen 6");
}

#[test]
fn first_matching_element_is_used() {
    let body = document(&[String::from(
        "<div data-component-type=\"s-search-result\">\
         <span class=\"a-size-base\">310</span><span class=\"a-size-base\">999</span>\
         <span class=\"a-price-whole\">5</span><span class=\"a-price-whole\">6</span></div>",
    )]);
    let records = extract_from_body(&body, &set());
    assert_eq!(records.len(), 1);
    assert_eq!(records[0].review_count, 310);
    assert_eq!(number(&records[0].price), 5.0);
    assert_eq!(records[0].title, "N/A");
}

#[test]
fn missing_elements_take_defaults() {
    let body = document(&[String::from("<div data-component-type=\"s-search-result\"><p>sold out</p></div>")]);
    let records = extract_from_body(&body, &set());
    assert_eq!(records.len(), 1);
    assert_eq!(records[0].title, "N/A");
    assert_eq!(number(&records[0].price), 0.0);
    assert_eq!(number(&records[0].rating), 0.0);
    assert_eq!(records[0].review_count, 0);
}

#[test]
fn extraction_is_repeatable() {
    let document = scraper::Html::parse_document(&page_one());
    let selectors = set();
    let first = extract_records(&document, &selectors);
    let second = extract_records(&document, &selectors);
    assert_eq!(first, second);
    assert_eq!(first, extract_from_body(&page_one(), &selectors));
    assert_eq!(first.len(), 3);
}

#[test]
fn no_container_is_no_failure() {
    let body = String::from("<html><body><p>No results for your search.</p></body></html>");
    assert_eq!(extract_from_body(&body, &set()), Vec::<Product>::new());
    let outcome = page_outcome(1, answered(body), &set());
    assert_eq!(outcome, PageOutcome { page: 1, result: Ok(Vec::new()) });
    let total = aggregate(vec![outcome]);
    assert_eq!(total.records.len(), 0);
    assert_eq!(total.succeeded_pages, vec![1]);
    assert_eq!(total.failed_pages, Vec::<u32>::new());
    let empty = page_outcome(2, answered(String::new()), &set());
    assert_eq!(empty.result, Ok(Vec::new()));
}

#[test]
fn retrieval_decides_page_result() {
    assert_eq!(page_result(3, answered(String::from("<p>"))), Ok(String::from("<p>")));
    assert_eq!(
        page_result(3, Retrieval::Answered { status: 299, body: Ok(String::from("x")) }),
        Ok(String::from("x"))
    );
    assert_eq!(
        page_result(3, Retrieval::Answered { status: 503, body: Ok(String::from("x")) }),
        Err(FetchError { page: 3, kind: FailureKind::Status { code: 503 }, cause: None })
    );
    assert_eq!(
        page_result(3, Retrieval::Answered { status: 199, body: Ok(String::from("x")) }),
        Err(FetchError { page: 3, kind: FailureKind::Status { code: 199 }, cause: None })
    );
    assert_eq!(
        page_result(3, Retrieval::Answered { status: 300, body: Err(String::from("cut")) }),
        Err(FetchError { page: 3, kind: FailureKind::Status { code: 300 }, cause: None })
    );
    assert_eq!(
        page_result(4, Retrieval::Answered { status: 200, body: Err(String::from("not text")) }),
        Err(FetchError { page: 4, kind: FailureKind::Body, cause: Some(String::from("not text")) })
    );
    assert_eq!(
        page_result(5, Retrieval::Unreachable { cause: String::from("refused") }),
        Err(FetchError { page: 5, kind: FailureKind::Transport, cause: Some(String::from("refused")) })
    );
    assert_eq!(
        page_result(6, Retrieval::Lost { cause: String::from("panicked") }),
        Err(FetchError { page: 6, kind: FailureKind::Worker, cause: Some(String::from("panicked")) })
    );
}

#[test]
fn page_numbers_run_from_one() {
    assert_eq!(page_numbers(0), Vec::<u32>::new());
    assert_eq!(page_numbers(1), vec![1]);
    assert_eq!(page_numbers(5), vec![1, 2, 3, 4, 5]);
}

#[test]
fn every_page_is_counted() {
    let selectors = set();
    let mut outcomes = Vec::new();
    for page in page_numbers(7) {
        let retrieval = if page % 3 == 0 {
            Retrieval::Unreachable { cause: String::from("timeout") }
        } else {
            answered(page_two())
        };
        outcomes.push(page_outcome(page, retrieval, &selectors));
    }
    assert_eq!(outcomes.len(), 7);
    let total = aggregate(outcomes);
    assert_eq!(total.succeeded_pages, vec![1, 2, 4, 5, 7]);
    assert_eq!(total.failed_pages, vec![3, 6]);
    assert_eq!(total.succeeded_pages.len() + total.failed_pages.len(), 7);
    assert_eq!(total.records.len(), 5);
}

#[test]
fn one_failure_leaves_the_others() {
    let selectors = set();
    let mut outcomes = Vec::new();
    for page in page_numbers(5) {
        let retrieval = if page == 2 {
            Retrieval::Answered { status: 503, body: Ok(page_one()) }
        } else {
            answered(document(&[container(&format!("item {}", page), "10", Some("4.0"), "1")]))
        };
        outcomes.push(page_outcome(page, retrieval, &selectors));
    }
    let total = aggregate(outcomes);
    assert_eq!(total.failed_pages, vec![2]);
    assert_eq!(total.succeeded_pages, vec![1, 3, 4, 5]);
    let titles: Vec<&str> = total.records.iter().map(|r| r.title.as_str()).collect();
    assert_eq!(titles, vec!["item 1", "item 3", "item 4", "item 5"]);
}

#[test]
fn duplicates_are_kept() {
    let selectors = set();
    let total = aggregate(vec![
        page_outcome(1, answered(page_two()), &selectors),
        page_outcome(2, answered(page_two()), &selectors),
    ]);
    assert_eq!(total.records.len(), 2);
    assert_eq!(total.records[0], total.records[1]);
}

#[test]
fn absorb_fills_incrementally() {
    let selectors = set();
    let mut total = AggregateResult::new();
    assert_eq!(total.succeeded_pages.len() + total.failed_pages.len(), 0);
    total.absorb(page_outcome(2, answered(page_one()), &selectors));
    assert_eq!(total.records.len(), 3);
    total.absorb(page_outcome(1, Retrieval::Lost { cause: String::from("gone") }, &selectors));
    assert_eq!(total.records.len(), 3);
    assert_eq!(total.succeeded_pages, vec![2]);
    assert_eq!(total.failed_pages, vec![1]);
}

#[test]
fn two_pages_end_to_end() {
    let selectors = set();
    let bodies = [page_one(), page_two()];
    let mut outcomes = Vec::new();
    for page in page_numbers(2) {
        let body = bodies[(page - 1) as usize].clone();
        outcomes.push(page_outcome(page, answered(body), &selectors));
    }
    let total = aggregate(outcomes);
    assert_eq!(total.records.len(), 4);
    assert_eq!(total.failed_pages.len(), 0);
    assert_eq!(number(&total.records[3].rating), 0.0);
    assert_eq!(total.records[3].title, "Fossil Machine");
    assert_eq!(number(&total.records[3].price), 9995.0);
    assert_eq!(total.records[3].review_count, 1024);
    assert_eq!(number(&total.records[0].rating), 4.3);
}

#[test]
fn first_invalid_target_is_reported() {
    let mut texts = listing_queries();
    texts.review_count = "span..x";
    assert_eq!(Selectors::compile(texts).err().map(|e| e.target), Some(Target::ReviewCount));
    let mut texts = listing_queries();
    texts.review_count = "span..x";
    texts.price = "";
    assert_eq!(Selectors::compile(texts).err().map(|e| e.target), Some(Target::Price));
    let mut texts = listing_queries();
    texts.price = "";
    texts.title = "h2 >";
    assert_eq!(Selectors::compile(texts).err().map(|e| e.target), Some(Target::Title));
}
