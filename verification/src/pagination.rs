//! The cursor-based pagination engine.
//!
//! A paginated endpoint returns one batch of items per HTTP round-trip,
//! together with a continuation signal.  The upstream API family exposes
//! two incompatible conventions for that signal: an explicit `has_next`
//! flag, and an empty-cursor convention with no flag at all.  Both are
//! kept apart deliberately — unifying them could drop a final page on one
//! endpoint family or loop forever on another.
//!
//! [`Paginator`] is the resumable state machine: it says which cursor the
//! next request must carry and ingests each response's signal.  The
//! caller performs the HTTP exchange between the two.  Replay over a
//! canned list of responses is itself verified ([`paginate_canned`]), and
//! the laws about how many pages a run consumes are proved below it.

use vstd::prelude::*;

use crate::error::CbError;

verus! {

/// Which continuation convention an endpoint uses.
#[derive(Debug, PartialEq, Eq, Structural, Clone, Copy)]
pub enum PageMode {
    /// Continue while the response's explicit `has_next` flag is true.
    ExplicitFlag,
    /// Continue while the response's cursor string is non-empty.
    EmptyCursor,
}

/// The normalized shape of one paginated response: its batch of items and
/// its continuation signal.  Under [`PageMode::EmptyCursor`] the flag is
/// meaningless and the cursor alone decides.
#[derive(Debug, PartialEq)]
pub struct PageData<T> {
    pub items: Vec<T>,
    pub has_next: bool,
    pub cursor: String,
}

/// Whether a response with this signal asks for another request.
pub open spec fn continue_signal(mode: PageMode, has_next: bool, cursor: Seq<char>) -> bool {
    match mode {
        PageMode::ExplicitFlag => has_next,
        PageMode::EmptyCursor => cursor.len() > 0,
    }
}

/// Whether `p` asks for another request under `mode`.
pub open spec fn page_continues<T>(mode: PageMode, p: PageData<T>) -> bool {
    continue_signal(mode, p.has_next, p.cursor@)
}

enum PageState {
    Pending { cursor: Option<String> },
    Done,
}

/// The pagination state machine: either one request is due, with a known
/// cursor, or the sequence is exhausted.  Exhaustion is a normal terminal
/// state, not a failure, and a failed step also ends the sequence.
pub struct Paginator {
    mode: PageMode,
    state: PageState,
}

impl Paginator {
    /// The convention this paginator follows.
    pub closed spec fn spec_mode(&self) -> PageMode {
        self.mode
    }

    /// Whether a request is still due.
    pub closed spec fn is_pending(&self) -> bool {
        self.state is Pending
    }

    /// The cursor the due request must carry; `None` for the initial
    /// request of a fresh sequence started without a cursor.
    pub closed spec fn pending_cursor(&self) -> Option<Seq<char>> {
        match self.state {
            PageState::Pending { cursor: Some(c) } => Some(c@),
            _ => None,
        }
    }

    /// Starts a sequence.  The first request carries `initial`, which is
    /// normally absent.
    pub fn new(mode: PageMode, initial: Option<String>) -> (p: Paginator)
        ensures
            p.spec_mode() == mode,
            p.is_pending(),
            match initial {
                Some(c) => p.pending_cursor() == Some(c@),
                None => p.pending_cursor() is None,
            },
    {
        Paginator { mode, state: PageState::Pending { cursor: initial } }
    }

    /// Whether the sequence is exhausted: no further request may be made.
    pub fn is_done(&self) -> (r: bool)
        ensures
            r == !self.is_pending(),
    {
        match self.state {
            PageState::Done => true,
            _ => false,
        }
    }

    /// The cursor of the due request.
    pub fn current_cursor(&self) -> (r: Option<String>)
        requires
            self.is_pending(),
        ensures
            match r {
                Some(c) => self.pending_cursor() == Some(c@),
                None => self.pending_cursor() is None,
            },
    {
        match &self.state {
            PageState::Pending { cursor: Some(c) } => Some(c.clone()),
            _ => None,
        }
    }

    /// Ingests the continuation signal of the response to the due
    /// request.  While the signal asks for more, the next request carries
    /// the returned cursor; otherwise the sequence ends.
    pub fn feed(&mut self, has_next: bool, cursor: String)
        requires
            old(self).is_pending(),
        ensures
            final(self).spec_mode() == old(self).spec_mode(),
            continue_signal(old(self).spec_mode(), has_next, cursor@) ==> final(self).is_pending()
                && final(self).pending_cursor() == Some(cursor@),
            !continue_signal(old(self).spec_mode(), has_next, cursor@)
                ==> !final(self).is_pending(),
    {
        let wants_more = match self.mode {
            PageMode::ExplicitFlag => has_next,
            PageMode::EmptyCursor => cursor.as_str().unicode_len() > 0,
        };
        if wants_more {
            self.state = PageState::Pending { cursor: Some(cursor) };
        } else {
            self.state = PageState::Done;
        }
    }

    /// Ends the sequence after a failed step.  Batches already produced
    /// remain valid; no further request may be made.
    pub fn fail(&mut self)
        ensures
            final(self).spec_mode() == old(self).spec_mode(),
            !final(self).is_pending(),
    {
        self.state = PageState::Done;
    }
}

/// How many of the canned responses a run consumes: one per step, up to
/// and including the first failed step or the first response whose signal
/// says "stop", and never more than there are responses.
pub open spec fn consumed_count<T>(
    mode: PageMode,
    pages: Seq<Result<PageData<T>, CbError>>,
) -> int
    decreases pages.len(),
{
    if pages.len() == 0 {
        0
    } else {
        match pages[0] {
            Ok(p) => if page_continues(mode, p) {
                1 + consumed_count(mode, pages.drop_first())
            } else {
                1
            },
            Err(_) => 1,
        }
    }
}

/// Replays a pagination sequence against canned responses, one response
/// per request, exactly as a live run would consume them.
///
/// The run is a function of its inputs alone, so replaying the same
/// canned responses yields the same batches: exactly one batch per
/// consumed page, in order, a failed step surfacing as the terminal
/// element, and no page is consumed past the first stop signal.
pub fn paginate_canned<T>(
    mode: PageMode,
    initial: Option<String>,
    pages: Vec<Result<PageData<T>, CbError>>,
) -> (out: (Vec<Result<Vec<T>, CbError>>, Vec<Option<String>>))
    ensures
        out.0@.len() == consumed_count(mode, pages@),
        out.1@.len() == consumed_count(mode, pages@),
        forall|i: int|
            0 <= i < out.0@.len() ==> out.0@[i] == match pages@[i] {
                Ok(p) => Ok::<Vec<T>, CbError>(p.items),
                Err(e) => Err::<Vec<T>, CbError>(e),
            },
        out.1@.len() > 0 ==> match initial {
            Some(c) => out.1@[0] matches Some(d) && d@ == c@,
            None => out.1@[0] is None,
        },
        forall|i: int|
            1 <= i < out.1@.len() ==> (pages@[i - 1] matches Ok(p) && (#[trigger] out.1@[i])
                matches Some(d) && d@ == p.cursor@),
{
    let ghost orig = pages@;
    let total = pages.len();
    proof {
        assert(orig.len() == total);
    }
    let mut pages = pages;
    let mut pag = Paginator::new(mode, initial);
    let mut batches: Vec<Result<Vec<T>, CbError>> = Vec::new();
    let mut requests: Vec<Option<String>> = Vec::new();
    let mut consumed: usize = 0;
    proof {
        assert(orig.skip(0) =~= orig);
    }
    while !pag.is_done() && pages.len() > 0
        invariant
            pag.spec_mode() == mode,
            orig.len() == total,
            consumed <= orig.len(),
            pages@ == orig.skip(consumed as int),
            batches@.len() == consumed,
            requests@.len() == consumed,
            pag.is_pending() ==> consumed_count(mode, orig) == consumed + consumed_count(
                mode,
                pages@,
            ),
            !pag.is_pending() ==> consumed_count(mode, orig) == consumed,
            forall|i: int|
                0 <= i < consumed ==> batches@[i] == match orig[i] {
                    Ok(p) => Ok::<Vec<T>, CbError>(p.items),
                    Err(e) => Err::<Vec<T>, CbError>(e),
                },
            consumed > 0 && pag.is_pending() ==> (orig[consumed - 1] matches Ok(p)
                && pag.pending_cursor() == Some(p.cursor@)),
            consumed == 0 && pag.is_pending() ==> pag.pending_cursor() == match initial {
                Some(c) => Some(c@),
                None => None::<Seq<char>>,
            },
            requests@.len() > 0 ==> match initial {
                Some(c) => requests@[0] matches Some(d) && d@ == c@,
                None => requests@[0] is None,
            },
            forall|i: int|
                1 <= i < requests@.len() ==> (orig[i - 1] matches Ok(p) && (
                #[trigger] requests@[i]) matches Some(d) && d@ == p.cursor@),
        decreases orig.len() - consumed,
    {
        requests.push(pag.current_cursor());
        let page = pages.remove(0);
        proof {
            assert(orig.skip(consumed as int)[0] == orig[consumed as int]);
            assert(orig.skip(consumed as int).drop_first() =~= orig.skip(consumed + 1));
        }
        consumed += 1;
        match page {
            Ok(p) => {
                let PageData { items, has_next, cursor } = p;
                batches.push(Ok(items));
                pag.feed(has_next, cursor);
            },
            Err(e) => {
                batches.push(Err(e));
                pag.fail();
            },
        }
    }
    proof {
        if pag.is_pending() {
            assert(pages@.len() == 0);
            assert(consumed_count(mode, pages@) == 0);
        }
    }
    (batches, requests)
}

/// Under the explicit-flag convention, a run over well-formed responses
/// whose first stop flag sits at position `k - 1` consumes exactly `k`
/// pages — no fewer, and none past the stop signal.  Together with the
/// contract of [`paginate_canned`], the run therefore yields exactly the
/// first `k` batches, in order.
pub proof fn lemma_flag_pagination_consumes<T>(
    pages: Seq<Result<PageData<T>, CbError>>,
    k: int,
)
    requires
        1 <= k <= pages.len(),
        forall|i: int| 0 <= i < k ==> pages[i] is Ok,
        forall|i: int| 0 <= i < k - 1 ==> (#[trigger] pages[i])->Ok_0.has_next,
        !pages[k - 1]->Ok_0.has_next,
    ensures
        consumed_count(PageMode::ExplicitFlag, pages) == k,
    decreases k,
{
    if k > 1 {
        lemma_flag_pagination_consumes::<T>(pages.drop_first(), k - 1);
    }
}

/// Under the empty-cursor convention, a run over well-formed responses
/// whose first empty cursor sits at position `k - 1` consumes exactly `k`
/// pages.  Together with the contract of [`paginate_canned`], the run
/// yields exactly the first `k` batches, terminating when the cursor
/// comes back empty.
pub proof fn lemma_cursor_pagination_consumes<T>(
    pages: Seq<Result<PageData<T>, CbError>>,
    k: int,
)
    requires
        1 <= k <= pages.len(),
        forall|i: int| 0 <= i < k ==> pages[i] is Ok,
        forall|i: int| 0 <= i < k - 1 ==> (#[trigger] pages[i])->Ok_0.cursor@.len() > 0,
        pages[k - 1]->Ok_0.cursor@.len() == 0,
    ensures
        consumed_count(PageMode::EmptyCursor, pages) == k,
    decreases k,
{
    if k > 1 {
        lemma_cursor_pagination_consumes::<T>(pages.drop_first(), k - 1);
    }
}

/// A failed step is terminal: where the first `k - 1` responses continue
/// and the `k`-th is an error, the run consumes exactly `k` pages, so the
/// error is the last element yielded and earlier batches stand.
pub proof fn lemma_error_is_terminal<T>(pages: Seq<Result<PageData<T>, CbError>>, k: int)
    requires
        1 <= k <= pages.len(),
        forall|i: int| 0 <= i < k - 1 ==> pages[i] is Ok,
        forall|i: int|
            0 <= i < k - 1 ==> page_continues(
                PageMode::ExplicitFlag,
                (#[trigger] pages[i])->Ok_0,
            ),
        pages[k - 1] is Err,
    ensures
        consumed_count(PageMode::ExplicitFlag, pages) == k,
    decreases k,
{
    if k > 1 {
        lemma_error_is_terminal::<T>(pages.drop_first(), k - 1);
    }
}

} // verus!
