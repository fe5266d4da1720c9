//! Pages of a run: what a retrieval gave, the outcome of one page, and the
//! aggregate of all outcomes.

use vstd::prelude::*;
use crate::extract::{all_wf, extract_from_body, listings_of, record_views};
use crate::markup::{document_of, matches_in};
use crate::record::Product;
use crate::selectors::{Selectors, SelectorsView};

verus! {

/// Why a page contributed nothing.
#[derive(Clone, Copy, Debug, PartialEq, Eq, Structural)]
pub enum FailureKind {
    /// The request got no response.
    Transport,
    /// The response carried a status outside 200 to 299.
    Status { code: u16 },
    /// The body of the response could not be read as text.
    Body,
    /// The worker of the page ended without a result.
    Worker,
}

/// The failure of one page, with the page it belongs to.
#[derive(Clone, Debug, PartialEq, Eq)]
pub struct FetchError {
    pub page: u32,
    pub kind: FailureKind,
    /// What the transport or the worker said of it, where it said anything.
    pub cause: Option<String>,
}

/// What the retrieval of one page gave.
#[derive(Debug, PartialEq, Eq)]
pub enum Retrieval {
    /// No response came; `cause` says why.
    Unreachable { cause: String },
    /// A response came, with its status and its body, or the reason why the
    /// body could not be read.
    Answered { status: u16, body: Result<String, String> },
    /// The worker that was to retrieve the page ended without a result.
    Lost { cause: String },
}

/// The outcome of one page: its records, or its failure.
#[derive(Debug, PartialEq, Eq)]
pub struct PageOutcome {
    pub page: u32,
    pub result: Result<Vec<Product>, FetchError>,
}

/// The records of all pages that succeeded, and the pages on either side.
#[derive(Clone, Debug, PartialEq, Eq)]
pub struct AggregateResult {
    pub records: Vec<Product>,
    pub succeeded_pages: Vec<u32>,
    pub failed_pages: Vec<u32>,
}

/// Whether a status counts as success.
pub open spec fn is_success(status: u16) -> bool {
    200 <= status <= 299
}

/// The body that a retrieval gave for a page, or the failure of that page.
pub open spec fn page_result_of(page: u32, retrieval: Retrieval) -> Result<String, FetchError> {
    match retrieval {
        Retrieval::Unreachable { cause } => Err(
            FetchError { page, kind: FailureKind::Transport, cause: Some(cause) },
        ),
        Retrieval::Answered { status, body } => if !is_success(status) {
            Err(FetchError { page, kind: FailureKind::Status { code: status }, cause: None })
        } else {
            match body {
                Ok(text) => Ok(text),
                Err(cause) => Err(FetchError { page, kind: FailureKind::Body, cause: Some(cause) }),
            }
        },
        Retrieval::Lost { cause } => Err(FetchError { page, kind: FailureKind::Worker, cause: Some(cause) }),
    }
}

/// The records that one outcome contributes: its own, or none.
pub open spec fn contribution(outcome: PageOutcome) -> Seq<Product> {
    match outcome.result {
        Ok(records) => records@,
        Err(_) => Seq::empty(),
    }
}

/// The records of all outcomes, outcome after outcome, each page's records
/// in their own order.
pub open spec fn gathered(outcomes: Seq<PageOutcome>) -> Seq<Product>
    decreases outcomes.len(),
{
    if outcomes.len() == 0 {
        Seq::empty()
    } else {
        gathered(outcomes.drop_last()) + contribution(outcomes.last())
    }
}

/// The pages of the outcomes that succeeded, in order.
pub open spec fn succeeded_of(outcomes: Seq<PageOutcome>) -> Seq<u32>
    decreases outcomes.len(),
{
    if outcomes.len() == 0 {
        Seq::empty()
    } else if outcomes.last().result.is_ok() {
        succeeded_of(outcomes.drop_last()).push(outcomes.last().page)
    } else {
        succeeded_of(outcomes.drop_last())
    }
}

/// The pages of the outcomes that failed, in order.
pub open spec fn failed_of(outcomes: Seq<PageOutcome>) -> Seq<u32>
    decreases outcomes.len(),
{
    if outcomes.len() == 0 {
        Seq::empty()
    } else if outcomes.last().result.is_err() {
        failed_of(outcomes.drop_last()).push(outcomes.last().page)
    } else {
        failed_of(outcomes.drop_last())
    }
}

/// The page indices of a run over `pages` pages: one to `pages`, in order.
pub fn page_numbers(pages: u32) -> (r: Vec<u32>)
    ensures
        r@.len() == pages,
        forall|i: int| 0 <= i < pages ==> #[trigger] r@[i] == i + 1,
{
    let mut r: Vec<u32> = Vec::new();
    let mut page: u32 = 0;
    while page < pages
        invariant
            page <= pages,
            r@.len() == page,
            forall|i: int| 0 <= i < page ==> #[trigger] r@[i] == i + 1,
        decreases pages - page,
    {
        page += 1;
        r.push(page);
    }
    r
}

/// Decides what a retrieval means for its page: the body to extract from,
/// or the page's failure. Only a response with a success status and a
/// readable body gives a body.
pub fn page_result(page: u32, retrieval: Retrieval) -> (r: Result<String, FetchError>)
    ensures
        r == page_result_of(page, retrieval),
{
    match retrieval {
        Retrieval::Unreachable { cause } => Err(
            FetchError { page, kind: FailureKind::Transport, cause: Some(cause) },
        ),
        Retrieval::Answered { status, body } => {
            if status < 200 || status > 299 {
                Err(FetchError { page, kind: FailureKind::Status { code: status }, cause: None })
            } else {
                match body {
                    Ok(text) => Ok(text),
                    Err(cause) => Err(FetchError { page, kind: FailureKind::Body, cause: Some(cause) }),
                }
            }
        },
        Retrieval::Lost { cause } => Err(FetchError { page, kind: FailureKind::Worker, cause: Some(cause) }),
    }
}

/// Whether `outcome` is what the retrieval of page `page` comes to: the
/// records of the body where it gave one, else the failure of that page.
pub open spec fn is_outcome_of(
    outcome: PageOutcome,
    page: u32,
    retrieval: Retrieval,
    set: SelectorsView,
) -> bool {
    &&& outcome.page == page
    &&& match page_result_of(page, retrieval) {
        Ok(body) => outcome.result matches Ok(records) && record_views(records@) == listings_of(
            &document_of(body@),
            set,
        ) && all_wf(records@),
        Err(e) => outcome.result == Err::<Vec<Product>, FetchError>(e),
    }
}

/// The outcome of one page. A body always gives records, none where no
/// listing is found in it; only a failed retrieval gives a failure, and the
/// failure is that of this page.
pub fn page_outcome(page: u32, retrieval: Retrieval, set: &Selectors) -> (r: PageOutcome)
    ensures
        is_outcome_of(r, page, retrieval, set@),
{
    match page_result(page, retrieval) {
        Ok(body) => PageOutcome { page, result: Ok(extract_from_body(body.as_str(), set)) },
        Err(e) => PageOutcome { page, result: Err(e) },
    }
}

/// Whether `outcomes` are what the retrievals of a run come to, the first
/// for page one: as many, each the outcome of its own page.
pub open spec fn are_outcomes_of(
    outcomes: Seq<PageOutcome>,
    retrievals: Seq<Retrieval>,
    set: SelectorsView,
) -> bool {
    &&& outcomes.len() == retrievals.len()
    &&& forall|i: int|
        0 <= i < outcomes.len() ==> is_outcome_of(
            #[trigger] outcomes[i],
            (i + 1) as u32,
            retrievals[i],
            set,
        )
}

/// Whether `total` is the aggregate of the outcomes, in their order.
pub open spec fn is_aggregate_of(total: AggregateResult, outcomes: Seq<PageOutcome>) -> bool {
    &&& total.records@ == gathered(outcomes)
    &&& total.succeeded_pages@ == succeeded_of(outcomes)
    &&& total.failed_pages@ == failed_of(outcomes)
}

/// The outcomes of a run whose retrievals are given in page order, the
/// first for page one: one outcome for each retrieval, whatever the others
/// came to.
pub fn page_outcomes(retrievals: Vec<Retrieval>, set: &Selectors) -> (r: Vec<PageOutcome>)
    requires
        retrievals@.len() <= u32::MAX,
    ensures
        are_outcomes_of(r@, retrievals@, set@),
{
    let ghost all = retrievals@;
    let mut outcomes: Vec<PageOutcome> = Vec::new();
    let mut page: u32 = 0;
    for retrieval in it: retrievals
        invariant
            it.seq() == all,
            all.len() <= u32::MAX,
            page == it.index(),
            are_outcomes_of(outcomes@, all.take(it.index() as int), set@),
    {
        page += 1;
        outcomes.push(page_outcome(page, retrieval, set));
    }
    assert(all.take(all.len() as int) =~= all);
    outcomes
}

/// Runs the pages whose retrievals are given in page order and aggregates
/// them: every page ends on exactly one side, and the records are those of
/// the pages that succeeded.
pub fn collect(retrievals: Vec<Retrieval>, set: &Selectors) -> (r: AggregateResult)
    requires
        retrievals@.len() <= u32::MAX,
    ensures
        r.succeeded_pages@.len() + r.failed_pages@.len() == retrievals@.len(),
        exists|outcomes: Seq<PageOutcome>| #[trigger]
            are_outcomes_of(outcomes, retrievals@, set@) && is_aggregate_of(r, outcomes),
{
    let outcomes = page_outcomes(retrievals, set);
    let ghost witness = outcomes@;
    let total = aggregate(outcomes);
    assert(are_outcomes_of(witness, retrievals@, set@) && is_aggregate_of(total, witness));
    total
}

impl AggregateResult {
    /// The aggregate of no outcome.
    pub fn new() -> (r: AggregateResult)
        ensures
            r.records@ == Seq::<Product>::empty(),
            r.succeeded_pages@ == Seq::<u32>::empty(),
            r.failed_pages@ == Seq::<u32>::empty(),
    {
        AggregateResult {
            records: Vec::new(),
            succeeded_pages: Vec::new(),
            failed_pages: Vec::new(),
        }
    }

    /// Takes one outcome in: the records of a page that succeeded are
    /// appended as they are, a page that failed is noted and changes no
    /// record.
    pub fn absorb(&mut self, outcome: PageOutcome)
        ensures
            final(self).records@ == old(self).records@ + contribution(outcome),
            final(self).succeeded_pages@ == if outcome.result.is_ok() {
                old(self).succeeded_pages@.push(outcome.page)
            } else {
                old(self).succeeded_pages@
            },
            final(self).failed_pages@ == if outcome.result.is_err() {
                old(self).failed_pages@.push(outcome.page)
            } else {
                old(self).failed_pages@
            },
    {
        let page: u32 = outcome.page;
        match outcome.result {
            Ok(mut records) => {
                self.records.append(&mut records);
                self.succeeded_pages.push(page);
            },
            Err(_) => {
                self.failed_pages.push(page);
                assert(self.records@ =~= old(self).records@ + Seq::<Product>::empty());
            },
        }
    }
}

/// Aggregates the outcomes of a run, in the order given: every record of
/// every page that succeeded, nothing added, nothing dropped and nothing
/// merged, and every page on the side it belongs to.
pub fn aggregate(outcomes: Vec<PageOutcome>) -> (r: AggregateResult)
    ensures
        is_aggregate_of(r, outcomes@),
        r.succeeded_pages@.len() + r.failed_pages@.len() == outcomes@.len(),
{
    let ghost all = outcomes@;
    let mut total = AggregateResult::new();
    for outcome in it: outcomes
        invariant
            it.seq() == all,
            total.records@ == gathered(all.take(it.index() as int)),
            total.succeeded_pages@ == succeeded_of(all.take(it.index() as int)),
            total.failed_pages@ == failed_of(all.take(it.index() as int)),
    {
        proof {
            let k = it.index() as int;
            assert(all.take(k + 1).drop_last() =~= all.take(k));
            assert(all.take(k + 1).last() == outcome);
        }
        total.absorb(outcome);
    }
    proof {
        assert(all.take(all.len() as int) =~= all);
        law_every_page_counted(all);
    }
    total
}

/// A retrieval that was answered with a success status and a readable body
/// never comes to a failure, however few listings the body holds: where the
/// container query matches nothing in it, the page succeeds with no record.
pub proof fn law_body_never_fails(
    outcome: PageOutcome,
    page: u32,
    status: u16,
    body: String,
    set: SelectorsView,
)
    requires
        is_success(status),
        is_outcome_of(outcome, page, Retrieval::Answered { status, body: Ok(body) }, set),
    ensures
        outcome.result.is_ok(),
        contribution(outcome).len() == matches_in(&document_of(body@), set.container).len(),
        failed_of(seq![outcome]).len() == 0,
{
    let records = outcome.result->Ok_0;
    assert(record_views(records@).len() == records@.len());
    let one = seq![outcome];
    assert(one.drop_last() =~= Seq::<PageOutcome>::empty());
    assert(failed_of(one.drop_last()).len() == 0);
}

/// Every outcome is counted once: the pages that succeeded and the pages
/// that failed are together as many as the outcomes.
pub proof fn law_every_page_counted(outcomes: Seq<PageOutcome>)
    ensures
        succeeded_of(outcomes).len() + failed_of(outcomes).len() == outcomes.len(),
    decreases outcomes.len(),
{
    if outcomes.len() > 0 {
        law_every_page_counted(outcomes.drop_last());
    }
}

/// Gathering two runs of outcomes one after the other gives the records of
/// the first followed by those of the second.
pub proof fn law_gathered_concat(first: Seq<PageOutcome>, second: Seq<PageOutcome>)
    ensures
        gathered(first + second) == gathered(first) + gathered(second),
    decreases second.len(),
{
    if second.len() == 0 {
        assert(first + second =~= first);
        assert(gathered(first) + gathered(second) =~= gathered(first));
    } else {
        law_gathered_concat(first, second.drop_last());
        assert((first + second).drop_last() =~= first + second.drop_last());
        assert((first + second).last() == second.last());
        assert(gathered(first + second) =~= gathered(first) + gathered(second));
    }
}

/// Gathering a single outcome gives its contribution.
pub proof fn law_gathered_one(outcome: PageOutcome)
    ensures
        gathered(seq![outcome]) == contribution(outcome),
{
    let one = seq![outcome];
    assert(one.drop_last() =~= Seq::<PageOutcome>::empty());
    assert(gathered(one.drop_last()) =~= Seq::<Product>::empty());
    assert(one.last() == outcome);
    assert(gathered(one) =~= contribution(outcome));
}

/// A page that failed takes nothing away from the others: the records
/// gathered with it among the outcomes are those gathered without it.
pub proof fn law_failure_is_isolated(
    before: Seq<PageOutcome>,
    failed: PageOutcome,
    after: Seq<PageOutcome>,
)
    requires
        failed.result.is_err(),
    ensures
        gathered(before + seq![failed] + after) == gathered(before + after),
{
    law_gathered_concat(before + seq![failed], after);
    law_gathered_concat(before, seq![failed]);
    law_gathered_concat(before, after);
    law_gathered_one(failed);
    assert(gathered(before) + Seq::<Product>::empty() =~= gathered(before));
}

/// The records of a page that succeeded all stand in what is gathered, in
/// their own order, whatever the other outcomes are.
pub proof fn law_success_contributes(
    before: Seq<PageOutcome>,
    page: PageOutcome,
    after: Seq<PageOutcome>,
)
    ensures
        gathered(before + seq![page] + after) == gathered(before) + contribution(page) + gathered(
            after,
        ),
{
    law_gathered_concat(before + seq![page], after);
    law_gathered_concat(before, seq![page]);
    law_gathered_one(page);
}

} // verus!
