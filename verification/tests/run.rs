use scrape_with_rust::input::{page_count, yes_no};
use scrape_with_rust::pages::{collect, page_outcomes, FailureKind, Retrieval};
use scrape_with_rust::decimal::{digit_value, is_digit_char};
use scrape_with_rust::request::{
    decimal_string, digit_to_char, page_url, push_decimal, ACCEPT, ACCEPT_LANGUAGE, USER_AGENT,
};
use scrape_with_rust::selectors::{listing_queries, Selectors};

fn listing(title: &str) -> String {
    format!(
        "<html><body><div data-component-type='s-search-result'><h2><span class='a-text-normal'>{}</span></h2>\
         <span class='a-price-whole'>1,499.</span><span class='a-icon-alt'>4.1 out of 5 stars</span>\
         <span class='a-size-base'>3,021</span></div></body></html>",
        title
    )
}

#[test]
fn page_url_holds_query_and_page() {
    assert_eq!(page_url("fossil", 1), "https://www.amazon.in/s?k=fossil&page=1");
    assert_eq!(page_url("fossil", 2), "https://www.amazon.in/s?k=fossil&page=2");
    assert_eq!(
        page_url("smart watch", 120),
        "https://www.amazon.in/s?k=smart watch&page=120"
    );
    assert_eq!(page_url("", 0), "https://www.amazon.in/s?k=&page=0");
}

#[test]
fn decimal_string_agrees_with_std() {
    for n in [0u32, 1, 9, 10, 11, 99, 100, 101, 1000, 65535, 4294967295] {
        assert_eq!(decimal_string(n), n.to_string());
    }
}

#[test]
fn request_headers_are_fixed() {
    assert!(USER_AGENT.starts_with("Mozilla/5.0 "));
    assert_eq!(ACCEPT, "text/html,application/xhtml+xml,application/xml;q=0.9,image/webp,*/*;q=0.8");
    assert_eq!(ACCEPT_LANGUAGE, "en-US,en;q=0.5");
}

#[test]
fn yes_no_reads_single_letter() {
    assert_eq!(yes_no("y"), Some(true));
    assert_eq!(yes_no("Y"), Some(true));
    assert_eq!(yes_no("n"), Some(false));
    assert_eq!(yes_no("N"), Some(false));
    assert_eq!(yes_no(""), None);
    assert_eq!(yes_no("yes"), None);
    assert_eq!(yes_no("no"), None);
    assert_eq!(yes_no(" y"), None);
    assert_eq!(yes_no("x"), None);
}

#[test]
fn page_count_reads_a_count() {
    assert_eq!(page_count("2"), Some(2));
    assert_eq!(page_count("+10"), Some(10));
    assert_eq!(page_count("0"), Some(0));
    assert_eq!(page_count("two"), None);
    assert_eq!(page_count("-1"), None);
    assert_eq!(page_count(""), None);
    assert_eq!(page_count("2.0"), None);
}

#[test]
fn outcomes_follow_page_order() {
    let set = Selectors::compile(listing_queries()).unwrap();
    let outcomes = page_outcomes(
        vec![
            Retrieval::Answered { status: 200, body: Ok(listing("first")) },
            Retrieval::Unreachable { cause: String::from("reset") },
            Retrieval::Answered { status: 200, body: Ok(listing("third")) },
        ],
        &set,
    );
    assert_eq!(outcomes.len(), 3);
    assert_eq!(outcomes[0].page, 1);
    assert_eq!(outcomes[1].page, 2);
    assert_eq!(outcomes[2].page, 3);
    assert_eq!(outcomes[0].result.as_ref().unwrap()[0].title, "first");
    let failure = outcomes[1].result.as_ref().unwrap_err();
    assert_eq!(failure.page, 2);
    assert_eq!(failure.kind, FailureKind::Transport);
    assert_eq!(failure.cause.as_deref(), Some("reset"));
    assert_eq!(outcomes[2].result.as_ref().unwrap()[0].title, "third");
}

#[test]
fn collect_isolates_a_failed_page() {
    let set = Selectors::compile(listing_queries()).unwrap();
    let mut retrievals = Vec::new();
    for page in 1..=5 {
        if page == 4 {
            retrievals.push(Retrieval::Lost { cause: String::from("worker panicked") });
        } else {
            retrievals.push(Retrieval::Answered { status: 200, body: Ok(listing(&format!("p{}", page))) });
        }
    }
    let total = collect(retrievals, &set);
    assert_eq!(total.records.len(), 4);
    assert_eq!(total.succeeded_pages, vec![1, 2, 3, 5]);
    assert_eq!(total.failed_pages, vec![4]);
    let titles: Vec<&str> = total.records.iter().map(|r| r.title.as_str()).collect();
    assert_eq!(titles, vec!["p1", "p2", "p3", "p5"]);
    assert_eq!(total.records[0].price.digits(), &vec![1u8, 4, 9, 9]);
    assert_eq!(total.records[0].rating.digits(), &vec![4u8, 1]);
    assert_eq!(total.records[0].rating.scale(), 1);
    assert_eq!(total.records[0].review_count, 3021);
}

#[test]
fn collect_of_nothing_is_empty() {
    let set = Selectors::compile(listing_queries()).unwrap();
    let total = collect(Vec::new(), &set);
    assert_eq!(total.records.len(), 0);
    assert_eq!(total.succeeded_pages.len() + total.failed_pages.len(), 0);
}

#[test]
fn digits_and_their_characters() {
    for (value, c) in ('0'..='9').enumerate() {
        assert!(is_digit_char(c));
        assert_eq!(usize::from(digit_value(c)), value);
        assert_eq!(digit_to_char(value as u32), c);
    }
    for c in ['/', ':', 'a', ' ', '٣', '₁'] {
        assert!(!is_digit_char(c));
    }
}

#[test]
fn push_decimal_appends() {
    let mut out = vec!['p', '='];
    push_decimal(0, &mut out);
    push_decimal(907, &mut out);
    assert_eq!(out, vec!['p', '=', '0', '9', '0', '7']);
}

#[test]
fn selectors_expose_compiled_queries() {
    let set = Selectors::compile(listing_queries()).unwrap();
    let document = scraper::Html::parse_document(&listing("watch"));
    assert_eq!(document.select(set.container()).count(), 1);
    assert_eq!(document.select(set.title()).count(), 1);
    assert_eq!(document.select(set.price()).count(), 1);
    assert_eq!(document.select(set.rating()).count(), 1);
    assert_eq!(document.select(set.review_count()).count(), 1);
    assert_eq!(*set.rating(), scraper::Selector::parse("span.a-icon-alt").unwrap());
    assert_ne!(set.rating(), set.price());
}
