//! Usage-endpoint data model and the cursor-based pagination state
//! machine.
//!
//! The state machine decides, page by page, whether fetching continues
//! and with which cursor; the HTTP requests themselves are made by the
//! caller, which feeds each decoded page back in.
use vstd::prelude::*;
use crate::numfmt::{format_signed, signed_dec_digits};
use vstd::string::StringExecFns;

verus! {

/// One model's usage within a day bucket.  `input_tokens` includes the
/// cached tokens; a record with `input_cached_tokens` above
/// `input_tokens` is out of the server's documented range and its
/// non-cached share is taken as zero downstream.
#[derive(Debug, Clone)]
pub struct UsageResult {
    pub input_tokens: u64,
    pub output_tokens: u64,
    pub num_model_requests: u64,
    pub model: Option<String>,
    pub input_cached_tokens: u64,
}

/// One day bucket: its start time in epoch seconds and the usage
/// records the server reported for it, in server order.
#[derive(Debug, Clone)]
pub struct Bucket {
    pub start_time: i64,
    pub results: Vec<UsageResult>,
}

/// One page of the usage endpoint's response, or the unified result of
/// draining every page.
#[derive(Debug, Clone)]
pub struct UsageResponse {
    pub object: String,
    pub data: Vec<Bucket>,
    pub has_more: bool,
    pub next_page: Option<String>,
}

/// Whether a page asks for fetching to continue: only when it both
/// claims more pages and carries a cursor.  A page that claims more but
/// gives no cursor ends pagination.
pub open spec fn page_continues(page: UsageResponse) -> bool {
    page.has_more && page.next_page is Some
}

/// Pagination stops at any page that lacks either signal: a page
/// without a cursor never continues, even when it claims more pages,
/// and a page that claims no more pages never continues, even when it
/// carries a cursor.
pub proof fn lemma_pagination_stops(page: UsageResponse)
    ensures
        page.next_page is None ==> !page_continues(page),
        !page.has_more ==> !page_continues(page),
{
}

/// The pagination state machine.  Feed each fetched page to
/// [`UsagePager::absorb_page`]; while [`UsagePager::done`] is false,
/// [`UsagePager::next_request`] gives the query of the next request.
pub struct UsagePager {
    /// Epoch-seconds start of the requested window.
    pub start_time: i64,
    /// Every bucket of every absorbed page, in page order.
    pub data: Vec<Bucket>,
    /// The cursor the next request must carry, from the last absorbed
    /// page that asked to continue.
    pub cursor: Option<String>,
    /// How many pages were absorbed, saturating at the type's maximum.
    pub pages_fetched: u64,
    /// Whether pagination has ended.
    pub done: bool,
}

impl UsagePager {
    /// Starts pagination for the window beginning at `start_time`.
    pub fn new(start_time: i64) -> (r: UsagePager)
        ensures
            r.start_time == start_time,
            r.data@ =~= Seq::<Bucket>::empty(),
            r.cursor is None,
            r.pages_fetched == 0,
            !r.done,
    {
        UsagePager {
            start_time,
            data: Vec::new(),
            cursor: None,
            pages_fetched: 0,
            done: false,
        }
    }

    /// The query parameters of the next request: the window start, the
    /// grouping and bucket width, and the cursor when one is held.
    pub fn next_request(&self) -> (r: Vec<(String, String)>)
        ensures
            r@.len() == (if self.cursor is Some { 4int } else { 3int }),
            r@[0].0@ == "start_time"@,
            r@[0].1@ == signed_dec_digits(self.start_time as int),
            r@[1].0@ == "group_by"@,
            r@[1].1@ == "model"@,
            r@[2].0@ == "bucket_width"@,
            r@[2].1@ == "1d"@,
            self.cursor matches Some(c) ==> r@[3].0@ == "page"@ && r@[3].1@ == c@,
    {
        let mut params: Vec<(String, String)> = Vec::new();
        params.push((String::from_str("start_time"), format_signed(self.start_time)));
        params.push((String::from_str("group_by"), String::from_str("model")));
        params.push((String::from_str("bucket_width"), String::from_str("1d")));
        match &self.cursor {
            Some(c) => {
                params.push((String::from_str("page"), c.clone()));
            },
            None => {},
        }
        params
    }

    /// Absorbs one fetched page: appends its buckets in order, counts
    /// it, and decides whether fetching continues.  Pagination ends
    /// unless the page both claims more pages and carries a cursor.
    pub fn absorb_page(&mut self, page: UsageResponse)
        ensures
            final(self).start_time == old(self).start_time,
            final(self).data@ == old(self).data@ + page.data@,
            final(self).done == !page_continues(page),
            final(self).cursor == (if page_continues(page) {
                page.next_page
            } else {
                old(self).cursor
            }),
            final(self).pages_fetched == (if old(self).pages_fetched < u64::MAX {
                old(self).pages_fetched + 1
            } else {
                u64::MAX as int
            }),
    {
        let UsageResponse { object: _, data: mut new_data, has_more, next_page } = page;
        self.data.append(&mut new_data);
        if self.pages_fetched < u64::MAX {
            self.pages_fetched = self.pages_fetched + 1;
        }
        if has_more && next_page.is_some() {
            self.cursor = next_page;
            self.done = false;
        } else {
            self.done = true;
        }
    }

    /// Hands out the unified result once pagination has ended: every
    /// absorbed bucket in order, marked as having no further pages.
    pub fn finish(self) -> (r: UsageResponse)
        requires
            self.done,
        ensures
            r.object@ == "page"@,
            r.data@ == self.data@,
            !r.has_more,
            r.next_page is None,
    {
        UsageResponse {
            object: String::from_str("page"),
            data: self.data,
            has_more: false,
            next_page: None,
        }
    }
}

} // verus!
