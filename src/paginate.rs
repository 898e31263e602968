//! Cursor-following pagination as a state machine, and the policies that
//! decide whether a fetched page warrants fetching the next one.
//!
//! The transport that performs each request lives with the caller: it asks
//! the paginator which request is pending, performs it, and reports back
//! either the failure or the page's `Link` header and the policy's verdict.

use vstd::prelude::*;
use crate::links::{next_link, next_link_spec};
use crate::model::{Run, Timestamp};
use crate::requests::{Method, Request, Requests, describes};
use crate::stats::{counted, included};

verus! {

/// The next page to fetch, or the end of the listing.
#[derive(Debug)]
pub enum Cursor {
    Fetch(Request),
    End,
}

/// Why a listing ended.
#[derive(Clone, Copy, Debug, PartialEq, Eq, Structural)]
pub enum Termination {
    /// The last page had no `next` link.
    Exhausted,
    /// The continuation policy declined the next page.
    Declined,
    /// A request or the decoding of its page failed.
    Failed,
}

/// The state of one listing: what to fetch next, how many pages came back
/// (counted up to the largest `usize`), and, once it ended, why.
#[derive(Debug)]
pub struct Paginator {
    pub cursor: Cursor,
    pub pages: usize,
    pub ended: Option<Termination>,
}

/// A paginator that is either still going or has ended for a stated reason.
pub open spec fn consistent(p: Paginator) -> bool {
    (p.cursor is End) == (p.ended is Some)
}

/// The continuation policy that exhausts every page.
pub fn always_continue<I>(items: &Vec<I>) -> (r: bool)
    ensures
        r,
{
    true
}

/// Whether some run of the page was created at or after `since`.
pub open spec fn possibly_recent(runs: Seq<Run>, since: Timestamp) -> bool {
    exists|i: int| 0 <= i < runs.len() && counted(#[trigger] runs[i], since)
}

/// The continuation policy for runs listed newest first: go on while the page
/// just fetched has a run created at or after `since`.
pub fn continue_while_recent(runs: &Vec<Run>, since: Timestamp) -> (r: bool)
    ensures
        r == possibly_recent(runs@, since),
{
    let mut i: usize = 0;
    while i < runs.len()
        invariant
            i <= runs.len(),
            forall|j: int| 0 <= j < i ==> !counted(#[trigger] runs@[j], since),
        decreases runs.len() - i,
    {
        if runs[i].created_at.secs >= since.secs {
            assert(counted(runs@[i as int], since));
            return true;
        }
        i = i + 1;
    }
    false
}

/// For runs listed newest first, once a page holds no run created at or after
/// the cutoff, no run on a later page is either: stopping there loses none of
/// the runs that statistics from the cutoff count.
pub proof fn lemma_stopping_loses_nothing(page: Seq<Run>, later: Seq<Run>, since: Timestamp)
    requires
        page.len() > 0,
        forall|i: int, j: int| 0 <= i < page.len() && 0 <= j < later.len()
            ==> (#[trigger] later[j]).created_at.secs <= (#[trigger] page[i]).created_at.secs,
        !possibly_recent(page, since),
    ensures
        included(later, since).len() == 0,
{
    broadcast use vstd::seq_lib::group_filter_ensures;
    let pred = |r: Run| counted(r, since);
    if included(later, since).len() > 0 {
        let r = included(later, since)[0];
        assert(later.filter(pred).contains(r));
        later.lemma_filter_contains_rev(pred, r);
        let j = choose|j: int| 0 <= j < later.len() && later[j] == r;
        assert(later[j].created_at.secs <= page[0].created_at.secs);
        assert(!counted(page[0], since));
    }
}

impl Paginator {
    /// A listing that starts with `first`.
    pub fn new(first: Request) -> (r: Paginator)
        ensures
            r.cursor == Cursor::Fetch(first),
            r.pages == 0,
            r.ended is None,
            consistent(r),
    {
        Paginator { cursor: Cursor::Fetch(first), pages: 0, ended: None }
    }

    /// The request to perform next, if the listing has not ended.
    pub fn pending(&self) -> (r: Option<&Request>)
        ensures
            match self.cursor {
                Cursor::Fetch(req) => r == Some(&req),
                Cursor::End => r is None,
            },
    {
        match &self.cursor {
            Cursor::Fetch(req) => Some(req),
            Cursor::End => None,
        }
    }

    /// Whether the listing has ended.
    pub fn is_done(&self) -> (r: bool)
        ensures
            r == (self.cursor is End),
    {
        match &self.cursor {
            Cursor::Fetch(_) => false,
            Cursor::End => true,
        }
    }

    /// The pending request failed: the listing ends, and says so.
    pub fn page_failed(&mut self)
        ensures
            final(self).cursor is End,
            final(self).ended == Some(Termination::Failed),
            final(self).pages == old(self).pages,
    {
        self.cursor = Cursor::End;
        self.ended = Some(Termination::Failed);
    }

    /// The pending request came back with a page whose `Link` header is
    /// `link_header` and which the continuation policy judged by `approve`.
    /// The listing goes on with a `GET` of the `next` link only if there is
    /// one and the policy approved.
    pub fn page_fetched(&mut self, requests: &Requests, link_header: Option<&str>, approve: bool)
        requires
            old(self).cursor is Fetch,
        ensures
            final(self).pages == if old(self).pages < usize::MAX { old(self).pages + 1 } else { old(self).pages as int },
            consistent(*final(self)),
            match next_link_spec(link_header.deep_view()) {
                Some(link) => if approve {
                    &&& final(self).cursor matches Cursor::Fetch(req)
                    &&& describes(req, Method::Get, link, Seq::empty(), requests.token@)
                    &&& final(self).ended is None
                } else {
                    final(self).cursor is End && final(self).ended == Some(Termination::Declined)
                },
                None => final(self).cursor is End && final(self).ended == Some(Termination::Exhausted),
            },
    {
        if self.pages < usize::MAX {
            self.pages = self.pages + 1;
        }
        let link = next_link(link_header);
        match link {
            Some(url) => {
                if approve {
                    self.cursor = Cursor::Fetch(requests.get(url.as_str()));
                    self.ended = None;
                } else {
                    self.cursor = Cursor::End;
                    self.ended = Some(Termination::Declined);
                }
            },
            None => {
                self.cursor = Cursor::End;
                self.ended = Some(Termination::Exhausted);
            },
        }
    }

    /// A page of runs listed newest first came back with `link_header`: the
    /// listing goes on to the `next` link only while the page holds a run
    /// created at or after `since`.
    pub fn runs_page_fetched(&mut self, requests: &Requests, link_header: Option<&str>, runs: &Vec<Run>, since: Timestamp)
        requires
            old(self).cursor is Fetch,
        ensures
            consistent(*final(self)),
            match next_link_spec(link_header.deep_view()) {
                Some(link) => if possibly_recent(runs@, since) {
                    &&& final(self).cursor matches Cursor::Fetch(req)
                    &&& describes(req, Method::Get, link, Seq::empty(), requests.token@)
                    &&& final(self).ended is None
                } else {
                    final(self).cursor is End && final(self).ended == Some(Termination::Declined)
                },
                None => final(self).cursor is End && final(self).ended == Some(Termination::Exhausted),
            },
    {
        let approve = continue_while_recent(runs, since);
        self.page_fetched(requests, link_header, approve);
    }
}

} // verus!
