//! The lazy paginated sequence over a cursor-based listing endpoint.
//!
//! A [`Paginator`] owns a finalized query description, the current cursor,
//! and a buffer of records not yet handed out. Pulling from it serves the
//! buffer front-first; when the buffer is empty and a cursor remains it
//! asks its driver for one page fetch, and the driver feeds back either a
//! decoded [`RecordPage`] or a failure. Any fetch failure is masked as
//! exhaustion: the stream simply ends. Once the cursor is gone and the
//! buffer is empty the paginator is exhausted for good.

use vstd::prelude::*;

use crate::page::Record;
use crate::page::RecordPage;
use crate::page::decoded_records;
use crate::page::into_records;
use crate::query::ClientModel;
use crate::query::QueryBuilder;
use crate::query::QueryModel;
use crate::query::auth_header_model;
use crate::query::params_view;
use crate::query::spec_params;
use crate::query::table_url_model;

verus! {

/// What one pull from the paginator asks of its driver.
pub enum Pull<T> {
    /// The next record of the listing, served from the page buffer.
    Item(T),
    /// The buffer is empty and a cursor remains: fetch one page (with
    /// [`Paginator::request_params`]) and feed the outcome back in.
    NeedFetch,
    /// The listing is exhausted; every later pull reports the same.
    Finished,
}

/// The outcome of one page fetch, as the driver reports it back.
pub enum FetchOutcome<T> {
    /// Transport failure, error status, or an undecodable body.
    Failure,
    /// A decoded page envelope.
    Success(RecordPage<T>),
}

/// The cursor a fetched page leaves behind: an absent or empty `offset`
/// ends the listing, any other token resumes it.
pub open spec fn cursor_after(offset: Seq<char>) -> Option<Seq<char>> {
    if offset.len() == 0 {
        None
    } else {
        Some(offset)
    }
}

/// Everything a paginator in the given state will yield when driven
/// against the given sequence of fetch outcomes: first the buffered
/// records, then, page by page while a cursor remains, the decoded records
/// of each fetched page — ending at a page with an empty cursor, at a
/// fetch failure, or when the outcomes run out.
pub open spec fn stream_yield<T: Record>(
    cursor: Option<Seq<char>>,
    buffer: Seq<T>,
    script: Seq<FetchOutcome<T>>,
) -> Seq<T>
    decreases script.len(),
{
    buffer + (match cursor {
        None => Seq::<T>::empty(),
        Some(_) => {
            if script.len() == 0 {
                Seq::<T>::empty()
            } else {
                match script[0] {
                    FetchOutcome::Failure => Seq::<T>::empty(),
                    FetchOutcome::Success(page) => stream_yield(
                        cursor_after(page.offset@),
                        decoded_records(page.records@),
                        script.skip(1),
                    ),
                }
            }
        },
    })
}

/// The pull-based engine serving one finalized query: records come out of
/// an in-memory buffer, and a fetch is requested exactly when the buffer
/// is exhausted while a cursor remains.
pub struct Paginator<T: Record> {
    builder: QueryBuilder<T>,
    offset: Option<String>,
    buffer: Vec<T>,
}

impl<T: Record> QueryBuilder<T> {
    /// Finalize the accumulated query description into a paginator. The
    /// paginator starts before the first page (the empty cursor) with an
    /// empty buffer; no request is made until it is first pulled.
    pub fn finalize(self) -> (p: Paginator<T>)
        ensures
            p.ctx() == self.ctx(),
            p.query() == self.model(),
            p.cursor() == Some(Seq::<char>::empty()),
            p.buffered() == Seq::<T>::empty(),
    {
        let p = Paginator { builder: self, offset: Some(String::new()), buffer: Vec::new() };
        proof {
            assert(p.buffered() =~= Seq::<T>::empty());
        }
        p
    }
}

impl<T: Record> Paginator<T> {
    /// The connection context the paginator fetches against.
    pub closed spec fn ctx(&self) -> ClientModel {
        self.builder.ctx()
    }

    /// The immutable query description the paginator was finalized with.
    pub closed spec fn query(&self) -> QueryModel {
        self.builder.model()
    }

    /// The current cursor: `Some("")` before the first page, `Some(token)`
    /// to resume mid-listing, `None` once the listing is exhausted.
    pub closed spec fn cursor(&self) -> Option<Seq<char>> {
        match self.offset {
            Some(ref s) => Some(s@),
            None => None,
        }
    }

    /// The records fetched but not yet handed out, front first.
    pub closed spec fn buffered(&self) -> Seq<T> {
        self.buffer@
    }

    /// Terminal state: no cursor and nothing buffered. Every pull from
    /// here on reports the end of the listing.
    pub open spec fn exhausted(&self) -> bool {
        self.cursor() is None && self.buffered().len() == 0
    }

    /// One pull. Serves the front of the buffer without touching the
    /// state otherwise; on an empty buffer either asks for a fetch (while
    /// a cursor remains) or reports the listing finished, changing
    /// nothing.
    pub fn poll(&mut self) -> (r: Pull<T>)
        ensures
            final(self).ctx() == old(self).ctx(),
            final(self).query() == old(self).query(),
            match r {
                Pull::Item(t) => old(self).buffered().len() > 0 && t == old(self).buffered()[0]
                    && final(self).buffered() == old(self).buffered().skip(1)
                    && final(self).cursor() == old(self).cursor(),
                Pull::NeedFetch => old(self).buffered().len() == 0 && old(self).cursor() is Some
                    && *final(self) == *old(self),
                Pull::Finished => old(self).exhausted() && *final(self) == *old(self),
            },
    {
        if self.buffer.len() > 0 {
            let t = self.buffer.remove(0);
            proof {
                assert(self.buffer@ =~= old(self).buffered().skip(1));
            }
            Pull::Item(t)
        } else if self.offset.is_some() {
            Pull::NeedFetch
        } else {
            Pull::Finished
        }
    }

    /// Whether the paginator is waiting for a page fetch: nothing is
    /// buffered and a cursor remains.
    pub fn awaiting_fetch(&self) -> (r: bool)
        ensures
            r == (self.buffered().len() == 0 && self.cursor() is Some),
    {
        self.buffer.len() == 0 && self.offset.is_some()
    }

    /// The ordered query parameters of the page fetch the paginator is
    /// asking for: the current cursor plus the finalized query
    /// description.
    pub fn request_params(&self) -> (ps: Vec<(String, String)>)
        requires
            self.cursor() is Some,
        ensures
            params_view(ps@) == spec_params(self.cursor().unwrap(), self.query()),
    {
        let c = self.offset.as_ref().unwrap();
        self.builder.request_params(c)
    }

    /// The URL of the listing endpoint the fetch goes to.
    pub fn table_url(&self) -> (r: String)
        ensures
            r@ == table_url_model(self.ctx()),
    {
        self.builder.table_url()
    }

    /// The `Authorization` header value of the fetch.
    pub fn auth_header(&self) -> (r: String)
        ensures
            r@ == auth_header_model(self.ctx()),
    {
        self.builder.auth_header()
    }

    /// Report a failed page fetch. The failure is masked as exhaustion:
    /// the paginator terminates and yields nothing more.
    pub fn feed_failure(&mut self)
        requires
            old(self).buffered().len() == 0,
            old(self).cursor() is Some,
        ensures
            final(self).ctx() == old(self).ctx(),
            final(self).query() == old(self).query(),
            final(self).exhausted(),
            final(self).buffered() == Seq::<T>::empty(),
    {
        self.offset = None;
        proof {
            assert(self.buffered() =~= Seq::<T>::empty());
        }
    }

    /// Report a fetched page. The buffer is refilled with the page's
    /// records in server order, each with its envelope identifier written
    /// in; the cursor becomes the page's `offset`, or goes away when that
    /// is empty, ending the listing after this page.
    pub fn feed_page(&mut self, page: RecordPage<T>)
        requires
            old(self).buffered().len() == 0,
            old(self).cursor() is Some,
        ensures
            final(self).ctx() == old(self).ctx(),
            final(self).query() == old(self).query(),
            final(self).cursor() == cursor_after(page.offset@),
            final(self).buffered() == decoded_records(page.records@),
            forall|i: int|
                0 <= i < final(self).buffered().len() ==> #[trigger] final(self).buffered()[i].id_model()
                    == page.records@[i].id,
    {
        let RecordPage { records, offset } = page;
        if offset.as_str().is_empty() {
            self.offset = None;
        } else {
            self.offset = Some(offset);
        }
        self.buffer = into_records(records);
    }

    /// Drive the paginator to exhaustion against a fixed sequence of fetch
    /// outcomes, collecting everything it yields. The result is exactly
    /// [`stream_yield`] of the starting state and the outcomes: buffered
    /// records first, then the pages in order — nothing reordered, nothing
    /// dropped, nothing duplicated.
    pub fn run_script(&mut self, script: Vec<FetchOutcome<T>>) -> (out: Vec<T>)
        ensures
            out@ == stream_yield(old(self).cursor(), old(self).buffered(), script@),
            final(self).ctx() == old(self).ctx(),
            final(self).query() == old(self).query(),
            final(self).buffered().len() == 0,
    {
        let ghost total = stream_yield(old(self).cursor(), old(self).buffered(), script@);
        let ghost c0 = old(self).ctx();
        let ghost q0 = old(self).query();
        let mut rest = script;
        let mut out: Vec<T> = Vec::new();
        loop
            invariant
                self.ctx() == c0,
                self.query() == q0,
                out@ + stream_yield(self.cursor(), self.buffered(), rest@) == total,
            ensures
                self.ctx() == c0,
                self.query() == q0,
                self.buffered().len() == 0,
                out@ == total,
            decreases rest@.len(), self.buffered().len(),
        {
            let ghost pre_cursor = self.cursor();
            let ghost pre_buf = self.buffered();
            let ghost pre_rest = rest@;
            let ghost pre_out = out@;
            match self.poll() {
                Pull::Item(t) => {
                    out.push(t);
                    proof {
                        assert(out@ + stream_yield(self.cursor(), self.buffered(), rest@) =~= (
                        pre_out + stream_yield(pre_cursor, pre_buf, pre_rest)));
                    }
                },
                Pull::Finished => {
                    proof {
                        assert(stream_yield(pre_cursor, pre_buf, pre_rest) =~= Seq::<T>::empty());
                        assert(out@ =~= pre_out + stream_yield(pre_cursor, pre_buf, pre_rest));
                    }
                    break ;
                },
                Pull::NeedFetch => {
                    if rest.len() == 0 {
                        proof {
                            assert(stream_yield(pre_cursor, pre_buf, pre_rest) =~= Seq::<
                                T,
                            >::empty());
                            assert(out@ =~= pre_out + stream_yield(pre_cursor, pre_buf, pre_rest));
                        }
                        break ;
                    }
                    let o = rest.remove(0);
                    proof {
                        assert(o == pre_rest[0]);
                        assert(rest@ =~= pre_rest.skip(1));
                    }
                    match o {
                        FetchOutcome::Failure => {
                            self.feed_failure();
                            proof {
                                assert(stream_yield(pre_cursor, pre_buf, pre_rest) =~= Seq::<
                                    T,
                                >::empty());
                                assert(stream_yield(self.cursor(), self.buffered(), rest@) =~= Seq::<
                                    T,
                                >::empty());
                            }
                        },
                        FetchOutcome::Success(p) => {
                            self.feed_page(p);
                            proof {
                                assert(stream_yield(pre_cursor, pre_buf, pre_rest) =~= stream_yield(
                                    self.cursor(),
                                    self.buffered(),
                                    rest@,
                                ));
                            }
                        },
                    }
                },
            }
        }
        out
    }
}

/// A single-page listing: when the one fetched page carries no further
/// cursor, the paginator yields exactly that page's records, in order,
/// and then the listing ends.
pub proof fn lemma_single_page_run<T: Record>(start: Seq<char>, page: RecordPage<T>)
    requires
        page.offset@.len() == 0,
    ensures
        stream_yield(Some(start), Seq::<T>::empty(), seq![FetchOutcome::Success(page)])
            == decoded_records(page.records@),
{
    let script = seq![FetchOutcome::Success(page)];
    assert(script.skip(1) =~= Seq::<FetchOutcome<T>>::empty());
    assert(stream_yield(
        cursor_after(page.offset@),
        decoded_records(page.records@),
        Seq::<FetchOutcome<T>>::empty(),
    ) =~= decoded_records(page.records@));
    assert(stream_yield(Some(start), Seq::<T>::empty(), script) =~= decoded_records(
        page.records@,
    ));
}

/// A two-page listing: with a cursor chain `A -> B -> end`, the paginator
/// yields page A's records and then page B's, keeping the relative order,
/// with nothing dropped and nothing duplicated, and terminates after
/// page B.
pub proof fn lemma_two_page_run<T: Record>(
    start: Seq<char>,
    page_a: RecordPage<T>,
    page_b: RecordPage<T>,
)
    requires
        page_a.offset@.len() > 0,
        page_b.offset@.len() == 0,
    ensures
        stream_yield(
            Some(start),
            Seq::<T>::empty(),
            seq![FetchOutcome::Success(page_a), FetchOutcome::Success(page_b)],
        ) == decoded_records(page_a.records@) + decoded_records(page_b.records@),
{
    let script = seq![FetchOutcome::Success(page_a), FetchOutcome::Success(page_b)];
    let tail = seq![FetchOutcome::Success(page_b)];
    assert(script.skip(1) =~= tail);
    assert(tail.skip(1) =~= Seq::<FetchOutcome<T>>::empty());
    assert(stream_yield(
        cursor_after(page_b.offset@),
        decoded_records(page_b.records@),
        Seq::<FetchOutcome<T>>::empty(),
    ) =~= decoded_records(page_b.records@));
    assert(stream_yield(cursor_after(page_a.offset@), decoded_records(page_a.records@), tail)
        =~= decoded_records(page_a.records@) + decoded_records(page_b.records@));
    assert(stream_yield(Some(start), Seq::<T>::empty(), script) =~= decoded_records(
        page_a.records@,
    ) + decoded_records(page_b.records@));
}

/// An exhausted paginator yields nothing, whatever fetch outcomes are
/// offered to it: exhaustion is permanent.
pub proof fn lemma_exhausted_run<T: Record>(script: Seq<FetchOutcome<T>>)
    ensures
        stream_yield(None, Seq::<T>::empty(), script) == Seq::<T>::empty(),
{
    assert(stream_yield(None, Seq::<T>::empty(), script) =~= Seq::<T>::empty());
}

/// A first page with no records and no further cursor: the paginator
/// yields nothing, and later fetch outcomes change nothing.
pub proof fn lemma_empty_page_run<T: Record>(
    start: Seq<char>,
    page: RecordPage<T>,
    rest: Seq<FetchOutcome<T>>,
)
    requires
        page.records@.len() == 0,
        page.offset@.len() == 0,
    ensures
        stream_yield(Some(start), Seq::<T>::empty(), seq![FetchOutcome::Success(page)] + rest)
            == Seq::<T>::empty(),
{
    let script = seq![FetchOutcome::Success(page)] + rest;
    assert(script[0] == FetchOutcome::Success(page));
    assert(decoded_records(page.records@) =~= Seq::<T>::empty());
    lemma_exhausted_run::<T>(script.skip(1));
    assert(stream_yield(Some(start), Seq::<T>::empty(), script) =~= Seq::<T>::empty());
}

/// A fetch that fails on the first page is masked: the paginator yields
/// nothing and terminates, indistinguishable from an empty listing.
pub proof fn lemma_failure_run<T: Record>(start: Seq<char>, rest: Seq<FetchOutcome<T>>)
    ensures
        stream_yield(Some(start), Seq::<T>::empty(), seq![FetchOutcome::Failure] + rest) == Seq::<
            T,
        >::empty(),
{
    let script = seq![FetchOutcome::Failure] + rest;
    assert(script[0] == FetchOutcome::<T>::Failure);
    assert(stream_yield(Some(start), Seq::<T>::empty(), script) =~= Seq::<T>::empty());
}

} // verus!
