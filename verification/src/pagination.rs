//! The page-walking engine for list endpoints the server pages internally.
//!
//! A caller that can perform HTTP requests drives the walk: it asks the
//! cursor for the next page's query string, fetches that page, and hands the
//! parsed envelope back to [`PageCursor::step`], which accumulates the
//! records and decides — from the current page's `result_info` alone —
//! whether the walk is finished. Pages are strictly sequential: page `n+1`
//! exists only once page `n`'s metadata asked for it.
//!
//! The two termination tests are preserved verbatim from the observed
//! behavior of the service: a page that is not full (`count < per_page`) is
//! the last, and a page that exactly completes the total
//! (`page * per_page == total_count`) is the last. No stronger rule is
//! inferred; when `per_page` is zero or `total_count` is not a multiple of
//! `per_page`, only the first test can end the walk.

use vstd::prelude::*;

use crate::envelope::{Response, ResultInfo};
use crate::errors::ApiError;
use crate::query::{page_query, spec_has_page_key, spec_page_query, spec_pairs, has_page_key};

verus! {

/// The termination test, evaluated against the current page's metadata:
/// the page was not full, or the page exactly completes the reported total.
pub open spec fn page_complete(info: ResultInfo) -> bool {
    info.count < info.per_page || info.page * info.per_page == info.total_count
}

/// Decides whether this page's metadata ends the walk.
pub fn is_page_complete(info: &ResultInfo) -> (r: bool)
    ensures
        r == page_complete(*info),
{
    proof {
        assert((info.page as int) * (info.per_page as int) <= 0xffff_ffffi64 * 0xffff_ffffi64)
            by (nonlinear_arith)
            requires
                info.page <= 0xffff_ffffu32,
                info.per_page <= 0xffff_ffffu32,
        ;
    }
    info.count < info.per_page || (info.page as u64) * (info.per_page as u64) == (
    info.total_count as u64)
}

/// Rejects a caller-supplied fixed parameter list that already carries a
/// `page` key: pagination control is exclusively owned by the paginating
/// accessor, and the clash is reported before any request is composed.
pub fn reject_page_param(params: &Vec<(&str, &str)>) -> (r: Result<(), ApiError>)
    ensures
        r is Err <==> spec_has_page_key(spec_pairs(params@)),
        r matches Err(e) ==> e is InvalidOptions,
{
    if has_page_key(params) {
        Err(ApiError::InvalidOptions)
    } else {
        Ok(())
    }
}

/// Classifies one fetched page's envelope, with no condition on any walk
/// state: a false `success` flag is [`ApiError::NotSuccess`] even when
/// records are present; a successful envelope without `result`, or without
/// the `result_info` that pagination cannot proceed without, is
/// [`ApiError::NoResultsReturned`]; otherwise the page's records and
/// metadata are handed out unchanged.
pub fn take_page<T>(response: Response<Vec<T>>) -> (r: Result<(Vec<T>, ResultInfo), ApiError>)
    ensures
        !response.success ==> (r matches Err(e) && e is NotSuccess),
        response.success && response.result is None ==> (r matches Err(e)
            && e is NoResultsReturned),
        response.success && response.result is Some && response.result_info is None ==> (
        r matches Err(e) && e is NoResultsReturned),
        response.success && response.result is Some && response.result_info is Some ==> (
        r matches Ok(p) && p.0 == response.result->0 && p.1 == response.result_info->0),
{
    if !response.success {
        return Err(ApiError::NotSuccess);
    }
    let items = match response.result {
        Some(items) => items,
        None => {
            return Err(ApiError::NoResultsReturned);
        }
    };
    let info = match response.result_info {
        Some(info) => info,
        None => {
            return Err(ApiError::NoResultsReturned);
        }
    };
    Ok((items, info))
}

/// The transient state of one paginating call: the page about to be
/// fetched (1-indexed), the records accumulated so far, and the retained
/// original query string of a parameterized call.
#[derive(Debug)]
pub struct PageCursor<T> {
    page_num: u32,
    output: Vec<T>,
    orig_query: Option<String>,
}

/// What one step of the walk decided: fetch another page from the given
/// cursor, or stop and hand the accumulated records out.
#[derive(Debug)]
pub enum PageStep<T> {
    Next(PageCursor<T>),
    Done(Vec<T>),
}

impl<T> PageCursor<T> {
    /// The number of the page the cursor will ask for next.
    pub closed spec fn spec_page(self) -> nat {
        self.page_num as nat
    }

    /// The records accumulated from the pages already consumed.
    pub closed spec fn spec_output(self) -> Seq<T> {
        self.output@
    }

    /// The retained original query string, if the call was parameterized.
    pub closed spec fn spec_orig_query(self) -> Option<Seq<char>> {
        match self.orig_query {
            Some(q) => Some(q@),
            None => None,
        }
    }

    /// Pages are 1-indexed.
    pub open spec fn wf(self) -> bool {
        1 <= self.spec_page()
    }

    /// Starts a walk whose only query parameter is the page number.
    pub fn start() -> (r: PageCursor<T>)
        ensures
            r.wf(),
            r.spec_page() == 1,
            r.spec_output() == Seq::<T>::empty(),
            r.spec_orig_query() is None,
    {
        PageCursor { page_num: 1, output: Vec::new(), orig_query: None }
    }

    /// Starts a walk that reuses a fixed, already-serialized query string on
    /// every page, with the page number appended to it.
    pub fn start_with_query(orig_query: String) -> (r: PageCursor<T>)
        ensures
            r.wf(),
            r.spec_page() == 1,
            r.spec_output() == Seq::<T>::empty(),
            r.spec_orig_query() == Some(orig_query@),
    {
        PageCursor { page_num: 1, output: Vec::new(), orig_query: Some(orig_query) }
    }

    /// The number of the page this cursor asks for next, so that a driver
    /// can guard against the page counter reaching its machine limit before
    /// handing another page in.
    pub fn page_number(&self) -> (r: u32)
        ensures
            r as nat == self.spec_page(),
    {
        self.page_num
    }

    /// The exact query string of the page this cursor asks for:
    /// `<orig>&page=<n>` for a parameterized walk, `page=<n>` otherwise.
    pub fn query_string(&self) -> (r: String)
        ensures
            r@ == spec_page_query(self.spec_orig_query(), self.spec_page()),
    {
        match &self.orig_query {
            Some(q) => page_query(Some(q.as_str()), self.page_num),
            None => page_query(None, self.page_num),
        }
    }

    /// Consumes one fetched page and decides how the walk goes on.
    ///
    /// The envelope is classified by [`take_page`] before any pagination
    /// bookkeeping: a false `success` flag is [`ApiError::NotSuccess`], and
    /// an absent `result` or `result_info` is
    /// [`ApiError::NoResultsReturned`]. Otherwise every record
    /// of the page is appended, in order, to the accumulated output, and the
    /// walk stops exactly when [`page_complete`] holds of the current page's
    /// metadata; otherwise the page number advances by one and the original
    /// query is kept for the next request.
    pub fn step(self, response: Response<Vec<T>>) -> (r: Result<PageStep<T>, ApiError>)
        requires
            self.wf(),
            self.spec_page() < u32::MAX,
        ensures
            !response.success ==> (r matches Err(e) && e is NotSuccess),
            response.success && response.result is None ==> (r matches Err(e)
                && e is NoResultsReturned),
            response.success && response.result is Some && response.result_info is None ==> (
            r matches Err(e) && e is NoResultsReturned),
            response.success && response.result is Some && response.result_info is Some
                && page_complete(response.result_info->0) ==> (r matches Ok(s)
                && s matches PageStep::Done(out)
                && out@ == self.spec_output() + response.result->0@),
            response.success && response.result is Some && response.result_info is Some
                && !page_complete(response.result_info->0) ==> (r matches Ok(s)
                && s matches PageStep::Next(c) && c.wf()
                && c.spec_page() == self.spec_page() + 1 && c.spec_output() == self.spec_output()
                + response.result->0@ && c.spec_orig_query() == self.spec_orig_query()),
    {
        let (mut items, info) = match take_page(response) {
            Ok(p) => p,
            Err(e) => {
                return Err(e);
            }
        };
        let PageCursor { page_num, mut output, orig_query } = self;
        output.append(&mut items);
        if is_page_complete(&info) {
            Ok(PageStep::Done(output))
        } else {
            Ok(PageStep::Next(PageCursor { page_num: page_num + 1, output, orig_query }))
        }
    }
}

} // verus!
