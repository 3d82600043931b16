//! One listing request, step by step: validate, fetch the page, count the matches, respond.
//!
//! The library decides and the caller talks to the store. Each state offers the statement
//! to run next and takes the store's answer; a state is only reached through the one before
//! it, so no statement exists for a request that was rejected, and no response without both
//! answers.

use crate::error::{ListingError, StoreFailure};
use crate::request::{normalize, outcome, page_len, Params, ParamsView, QuerySpec, QueryView};
use crate::statement::{
    count_binds, count_statement, count_text, listing_binds, listing_statement, listing_text,
    statement_binds, statement_text, Statement,
};
use vstd::math::min;
use vstd::prelude::*;

verus! {

/// One page of a listing and the number of rows that match over all pages.
#[derive(Debug)]
pub struct PaginatedResponse<T> {
    /// The rows of the page, in the order of the sort.
    pub data: Vec<T>,
    /// The number of rows that match the filter, whatever the page.
    pub total: i64,
}

/// A request that passed validation and waits for the rows of its page.
#[derive(Debug)]
pub struct AwaitingRows {
    spec: QuerySpec,
}

/// A request whose page was fetched and that waits for the number of matching rows.
#[derive(Debug)]
pub struct AwaitingTotal<T> {
    spec: QuerySpec,
    rows: Vec<T>,
}

/// The rows that a store serves for a page: of the rows that match, in the order of the
/// sort, those after the first `offset`, and no more than `limit` of them.
pub open spec fn page_of<T>(matching: Seq<T>, offset: int, limit: int) -> Seq<T> {
    matching.subrange(min(offset, matching.len() as int), min(offset + limit, matching.len() as int))
}

impl<T> PaginatedResponse<T> {
    /// Whether the response is what a store serves for `q` while `matching` are the rows
    /// that match, in the order of the sort.
    pub open spec fn serves(self, matching: Seq<T>, q: QueryView) -> bool {
        &&& self.data@ == page_of(matching, q.offset, q.limit)
        &&& self.total == matching.len()
    }

    /// Tells whether the page holds as many rows as the total calls for. A response does
    /// not where the rows changed between the two statements.
    pub fn agrees_with(&self, spec: &QuerySpec) -> (b: bool)
        ensures
            b == (self.data@.len() == page_len(spec@.offset, spec@.limit, self.total as int)),
    {
        let expected = spec.page_len(self.total);
        proof {
            use_type_invariant(spec);
        }
        self.data.len() == expected as usize
    }
}

/// Starts a request: validates its parameters, where pages may hold up to `max_page_size`
/// rows. A rejected request ends here.
pub fn begin(params: &Params, max_page_size: i32) -> (r: Result<AwaitingRows, ListingError>)
    ensures
        match r {
            Ok(state) => outcome(params@, max_page_size as int) == Ok::<QueryView, ListingError>(
                state.query(),
            ),
            Err(e) => outcome(params@, max_page_size as int) == Err::<QueryView, ListingError>(e),
        },
{
    match normalize(params, max_page_size) {
        Ok(spec) => Ok(AwaitingRows { spec }),
        Err(e) => Err(e),
    }
}

impl AwaitingRows {
    /// The query specification of the request.
    pub closed spec fn query(self) -> QueryView {
        self.spec@
    }

    /// The query specification of the request.
    pub fn spec(&self) -> (spec: &QuerySpec)
        ensures
            spec@ == self.query(),
    {
        &self.spec
    }

    /// The statement to run now: it fetches the page.
    pub fn statement(&self) -> (s: Statement)
        ensures
            statement_text(s) == listing_text(
                self.query().search_term is Some,
                self.query().sort_column,
                self.query().sort_direction,
            ),
            statement_binds(s) == Some(listing_binds(self.query())),
    {
        listing_statement(&self.spec)
    }

    /// Takes the store's answer to the statement: the rows are kept for the response, a
    /// failure ends the request.
    pub fn rows_fetched<T>(self, answer: Result<Vec<T>, StoreFailure>) -> (r: Result<
        AwaitingTotal<T>,
        ListingError,
    >)
        ensures
            match answer {
                Ok(rows) => r matches Ok(next) && next.query() == self.query() && next.rows()
                    == rows,
                Err(failure) => r == Err::<AwaitingTotal<T>, ListingError>(
                    ListingError::of_failure(failure),
                ),
            },
    {
        match answer {
            Ok(rows) => Ok(AwaitingTotal { spec: self.spec, rows }),
            Err(failure) => Err(ListingError::from_failure(failure)),
        }
    }
}

impl<T> AwaitingTotal<T> {
    /// The query specification of the request.
    pub closed spec fn query(self) -> QueryView {
        self.spec@
    }

    /// The rows of the page.
    pub closed spec fn rows(self) -> Vec<T> {
        self.rows
    }

    /// The query specification of the request.
    pub fn spec(&self) -> (spec: &QuerySpec)
        ensures
            spec@ == self.query(),
    {
        &self.spec
    }

    /// The statement to run now: it counts the rows that match.
    pub fn statement(&self) -> (s: Statement)
        ensures
            statement_text(s) == count_text(self.query().search_term is Some),
            statement_binds(s) == Some(count_binds(self.query())),
    {
        count_statement(&self.spec)
    }

    /// Takes the store's answer to the statement: with the total the response is whole, a
    /// failure ends the request and the rows are dropped.
    pub fn total_fetched(self, answer: Result<i64, StoreFailure>) -> (r: Result<
        PaginatedResponse<T>,
        ListingError,
    >)
        ensures
            match answer {
                Ok(total) => r matches Ok(response) && response.data == self.rows()
                    && response.total == total,
                Err(failure) => r == Err::<PaginatedResponse<T>, ListingError>(
                    ListingError::of_failure(failure),
                ),
            },
    {
        match answer {
            Ok(total) => Ok(PaginatedResponse { data: self.rows, total }),
            Err(failure) => Err(ListingError::from_failure(failure)),
        }
    }
}

/// The length of a page is that of the formula: a response that a store serves for a
/// query specification holds `min(limit, max(0, total - offset))` rows.
pub proof fn lemma_served_page_len<T>(response: PaginatedResponse<T>, matching: Seq<T>, q: QueryView)
    requires
        q.wf(),
        response.serves(matching, q),
    ensures
        response.data@.len() == page_len(q.offset, q.limit, response.total as int),
{
}

/// A page holds no more rows than the limit and no more than there are; beyond the last
/// row it is empty, and before the last `limit` rows it is full.
pub proof fn lemma_page_len_bounds(q: QueryView, total: int)
    requires
        q.wf(),
        0 <= total,
    ensures
        0 <= page_len(q.offset, q.limit, total) <= q.limit,
        page_len(q.offset, q.limit, total) <= total,
        q.offset >= total ==> page_len(q.offset, q.limit, total) == 0,
        q.offset + q.limit <= total ==> page_len(q.offset, q.limit, total) == q.limit,
{
}

/// The number of rows on the first `pages` pages of `limit` rows, where `total` rows match.
pub open spec fn rows_on_pages(limit: int, total: int, pages: nat) -> int
    decreases pages,
{
    if pages == 0 {
        0
    } else {
        rows_on_pages(limit, total, (pages - 1) as nat) + page_len((pages - 1) * limit, limit, total)
    }
}

/// The pages partition the rows that match: the first `pages` pages hold the first
/// `pages * limit` rows, and all of them once that reaches the total.
pub proof fn lemma_pages_cover_total(limit: int, total: int, pages: nat)
    requires
        1 <= limit,
        0 <= total,
    ensures
        rows_on_pages(limit, total, pages) == min(pages * limit, total),
    decreases pages,
{
    if pages == 0 {
        assert(pages * limit == 0) by (nonlinear_arith)
            requires
                pages == 0,
        ;
    } else {
        let before = (pages - 1) as nat;
        lemma_pages_cover_total(limit, total, before);
        assert(pages * limit == before * limit + limit && 0 <= before * limit) by (nonlinear_arith)
            requires
                before == pages - 1,
                limit >= 1,
        ;
    }
}

/// The total does not depend on the page: two requests that pass validation and search
/// for the same text count with the same statement, whatever their pages, page sizes and
/// sorts are.
pub proof fn lemma_total_ignores_page(a: ParamsView, b: ParamsView, max_page_size: int)
    requires
        a.search == b.search,
        outcome(a, max_page_size) is Ok,
        outcome(b, max_page_size) is Ok,
    ensures
        ({
            let x = outcome(a, max_page_size)->Ok_0;
            let y = outcome(b, max_page_size)->Ok_0;
            &&& count_text(x.search_term is Some) == count_text(y.search_term is Some)
            &&& count_binds(x) == count_binds(y)
        }),
{
}

/// Validation and the statements are functions of the request alone: a request that is
/// repeated is validated to the same end and, where it passes, asks the store with the same
/// two statements.
pub proof fn lemma_repeatable(a: ParamsView, b: ParamsView, max_page_size: int)
    requires
        a == b,
    ensures
        outcome(a, max_page_size) == outcome(b, max_page_size),
        outcome(a, max_page_size) matches Ok(q) ==> {
            let r = outcome(b, max_page_size)->Ok_0;
            &&& listing_text(q.search_term is Some, q.sort_column, q.sort_direction)
                == listing_text(r.search_term is Some, r.sort_column, r.sort_direction)
            &&& listing_binds(q) == listing_binds(r)
            &&& count_text(q.search_term is Some) == count_text(r.search_term is Some)
            &&& count_binds(q) == count_binds(r)
        },
{
}

} // verus!
