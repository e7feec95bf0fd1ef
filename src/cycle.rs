//! One scrape cycle as a state machine: read the cursor, fetch that page,
//! submit the body, advance the cursor.
//!
//! The machine never performs a request itself. Each step hands the caller
//! the next request to make, and the caller reports the reply back.
use vstd::prelude::*;
use crate::config::{Config, CycleOutcome, ScrapeError, spec_is_success, is_success};
use crate::proxy::{spec_select_proxy, select_proxy};
use crate::request::{
    decimal,
    spec_page_url,
    spec_cursor_url,
    spec_increment_url,
    spec_submit_url,
    spec_authorization,
    page_url,
    cursor_url,
    increment_url,
    submit_url,
    authorization,
};

verus! {

/// Where a cycle stands: which reply it waits for, or that it is over.
#[derive(Clone, Copy, Debug, PartialEq, Eq, Structural)]
pub enum Phase {
    AwaitCursor,
    AwaitPage,
    AwaitSubmit,
    AwaitIncrement,
    Done,
}

/// A request the caller must make next, or the end of the cycle.
#[derive(Clone, Debug)]
pub enum Request {
    /// GET the cursor endpoint; reply with `Reply::Cursor`.
    ReadCursor { url: String },
    /// GET a page of the photo API, through the proxy of that index when
    /// there is one, with the user-agent and this authorization header;
    /// reply with `Reply::Page`.
    FetchPage { url: String, proxy: Option<usize>, authorization: String },
    /// POST `{"payload": <payload>}` as JSON with the user-agent and this
    /// authorization header; reply with `Reply::Submitted`.
    SubmitScrape { url: String, payload: String, authorization: String },
    /// POST to the increment endpoint; reply with `Reply::Incremented`.
    IncrementCursor { url: String },
    /// The cycle is over.
    Finished(CycleOutcome),
}

/// The mathematical content of a `Request`.
pub enum RequestView {
    ReadCursor { url: Seq<char> },
    FetchPage { url: Seq<char>, proxy: Option<nat>, authorization: Seq<char> },
    SubmitScrape { url: Seq<char>, payload: Seq<char>, authorization: Seq<char> },
    IncrementCursor { url: Seq<char> },
    Finished(CycleOutcome),
}

impl View for Request {
    type V = RequestView;

    open spec fn view(&self) -> RequestView {
        match self {
            Request::ReadCursor { url } => RequestView::ReadCursor { url: url@ },
            Request::FetchPage { url, proxy, authorization } => RequestView::FetchPage {
                url: url@,
                proxy: match proxy {
                    Some(i) => Some(*i as nat),
                    None => None,
                },
                authorization: authorization@,
            },
            Request::SubmitScrape { url, payload, authorization } => RequestView::SubmitScrape {
                url: url@,
                payload: payload@,
                authorization: authorization@,
            },
            Request::IncrementCursor { url } => RequestView::IncrementCursor { url: url@ },
            Request::Finished(o) => RequestView::Finished(*o),
        }
    }
}

/// A successful HTTP response: its status and body text.
#[derive(Clone, Debug)]
pub struct HttpReply {
    pub status: u16,
    pub body: String,
}

/// What came back from the request the machine asked for.
#[derive(Debug)]
pub enum Reply {
    /// The cursor value, or why it could not be read.
    Cursor(Result<u32, ScrapeError>),
    /// The photo API's response, or why none was had.
    Page(Result<HttpReply, ScrapeError>),
    /// The submission's response status, or why none was had.
    Submitted(Result<u16, ScrapeError>),
    /// The increment's response status, or why none was had.
    Incremented(Result<u16, ScrapeError>),
}

/// The state of one cycle.
#[derive(Clone, Copy, Debug)]
pub struct Cycle {
    /// Position of this cycle in the run, counted from zero.
    pub index: u32,
    pub phase: Phase,
    /// The first write-back failure seen so far in this cycle.
    pub failure: Option<ScrapeError>,
}

/// Whether `reply` answers the request that a cycle in `phase` made.
pub open spec fn spec_expects(phase: Phase, reply: Reply) -> bool {
    match phase {
        Phase::AwaitCursor => reply is Cursor,
        Phase::AwaitPage => reply is Page,
        Phase::AwaitSubmit => reply is Submitted,
        Phase::AwaitIncrement => reply is Incremented,
        Phase::Done => false,
    }
}

/// The failure, if any, that a write-back reply (submit or increment) stands for.
pub open spec fn spec_writeback_failure(
    strict: bool,
    res: Result<u16, ScrapeError>,
) -> Option<ScrapeError> {
    match res {
        Err(e) => Some(e),
        Ok(status) => if strict && !spec_is_success(status) {
            Some(ScrapeError::HttpStatus(status))
        } else {
            None
        },
    }
}

/// The first request of cycle `index`.
pub open spec fn spec_start(cfg: Config, index: u32) -> (Cycle, RequestView) {
    (
        Cycle { index, phase: Phase::AwaitCursor, failure: None },
        RequestView::ReadCursor { url: spec_cursor_url(cfg.hosts@) },
    )
}

/// The fetch request for page `page` in cycle `index`.
pub open spec fn spec_fetch_request(cfg: Config, index: u32, page: u32) -> RequestView {
    RequestView::FetchPage {
        url: spec_page_url(cfg.url@, page, cfg.per_page),
        proxy: spec_select_proxy(index, cfg.proxies@.len()),
        authorization: spec_authorization(cfg.access_key@),
    }
}

/// The cycle's next state and request after `reply`.
pub open spec fn spec_step(c: Cycle, cfg: Config, reply: Reply) -> (Cycle, RequestView) {
    let done = Cycle { phase: Phase::Done, ..c };
    match reply {
        Reply::Cursor(Err(e)) => (done, RequestView::Finished(CycleOutcome::Failure(e))),
        Reply::Cursor(Ok(page)) => (
            Cycle { phase: Phase::AwaitPage, ..c },
            spec_fetch_request(cfg, c.index, page),
        ),
        Reply::Page(Err(e)) => (done, RequestView::Finished(CycleOutcome::Failure(e))),
        Reply::Page(Ok(resp)) => if spec_is_success(resp.status) {
            (
                Cycle { phase: Phase::AwaitSubmit, ..c },
                RequestView::SubmitScrape {
                    url: spec_submit_url(cfg.hosts@),
                    payload: resp.body@,
                    authorization: spec_authorization(cfg.access_key@),
                },
            )
        } else {
            (
                done,
                RequestView::Finished(CycleOutcome::Failure(ScrapeError::HttpStatus(resp.status))),
            )
        },
        Reply::Submitted(res) => (
            Cycle {
                phase: Phase::AwaitIncrement,
                failure: spec_writeback_failure(cfg.strict_writeback, res),
                ..c
            },
            RequestView::IncrementCursor { url: spec_increment_url(cfg.hosts@) },
        ),
        Reply::Incremented(res) => {
            let failure = match c.failure {
                Some(e) => Some(e),
                None => spec_writeback_failure(cfg.strict_writeback, res),
            };
            (
                Cycle { phase: Phase::Done, failure, ..c },
                RequestView::Finished(
                    match failure {
                        Some(e) => CycleOutcome::Failure(e),
                        None => CycleOutcome::Success,
                    },
                ),
            )
        },
    }
}

fn writeback_failure(strict: bool, res: Result<u16, ScrapeError>) -> (r: Option<ScrapeError>)
    ensures
        r == spec_writeback_failure(strict, res),
{
    match res {
        Err(e) => Some(e),
        Ok(status) => if strict && !is_success(status) {
            Some(ScrapeError::HttpStatus(status))
        } else {
            None
        },
    }
}

impl Cycle {
    /// Starts cycle `index`: its first request reads the cursor.
    pub fn start(cfg: &Config, index: u32) -> (r: (Cycle, Request))
        ensures
            r.0 == spec_start(*cfg, index).0,
            r.1@ == spec_start(*cfg, index).1,
    {
        let url = cursor_url(cfg.hosts.as_str());
        (Cycle { index, phase: Phase::AwaitCursor, failure: None }, Request::ReadCursor { url })
    }

    /// Tests whether `reply` answers the request this cycle is waiting on.
    pub fn expects(&self, reply: &Reply) -> (r: bool)
        ensures
            r == spec_expects(self.phase, *reply),
    {
        match self.phase {
            Phase::AwaitCursor => matches!(reply, Reply::Cursor(_)),
            Phase::AwaitPage => matches!(reply, Reply::Page(_)),
            Phase::AwaitSubmit => matches!(reply, Reply::Submitted(_)),
            Phase::AwaitIncrement => matches!(reply, Reply::Incremented(_)),
            Phase::Done => false,
        }
    }

    /// Takes the reply to the last request and returns the next one.
    pub fn step(&mut self, cfg: &Config, reply: Reply) -> (r: Request)
        requires
            spec_expects(old(self).phase, reply),
        ensures
            *final(self) == spec_step(*old(self), *cfg, reply).0,
            r@ == spec_step(*old(self), *cfg, reply).1,
    {
        match reply {
            Reply::Cursor(Err(e)) => {
                self.phase = Phase::Done;
                Request::Finished(CycleOutcome::Failure(e))
            },
            Reply::Cursor(Ok(page)) => {
                self.phase = Phase::AwaitPage;
                let url = page_url(cfg.url.as_str(), page, cfg.per_page);
                let proxy = select_proxy(self.index, cfg.proxies.len());
                let authorization = authorization(cfg.access_key.as_str());
                Request::FetchPage { url, proxy, authorization }
            },
            Reply::Page(Err(e)) => {
                self.phase = Phase::Done;
                Request::Finished(CycleOutcome::Failure(e))
            },
            Reply::Page(Ok(resp)) => {
                if is_success(resp.status) {
                    self.phase = Phase::AwaitSubmit;
                    let url = submit_url(cfg.hosts.as_str());
                    let authorization = authorization(cfg.access_key.as_str());
                    Request::SubmitScrape { url, payload: resp.body, authorization }
                } else {
                    self.phase = Phase::Done;
                    Request::Finished(CycleOutcome::Failure(ScrapeError::HttpStatus(resp.status)))
                }
            },
            Reply::Submitted(res) => {
                self.phase = Phase::AwaitIncrement;
                self.failure = writeback_failure(cfg.strict_writeback, res);
                Request::IncrementCursor { url: increment_url(cfg.hosts.as_str()) }
            },
            Reply::Incremented(res) => {
                let failure = match self.failure {
                    Some(e) => Some(e),
                    None => writeback_failure(cfg.strict_writeback, res),
                };
                self.phase = Phase::Done;
                self.failure = failure;
                Request::Finished(
                    match failure {
                        Some(e) => CycleOutcome::Failure(e),
                        None => CycleOutcome::Success,
                    },
                )
            },
        }
    }
}

/// Cycle `index` fetches through proxy `index mod N` of the `N` configured
/// proxies, and directly when none is configured.
pub proof fn lemma_proxy_round_robin(c: Cycle, cfg: Config, page: u32)
    ensures
        spec_step(c, cfg, Reply::Cursor(Ok(page))).1 matches RequestView::FetchPage { proxy, .. }
            && proxy == if cfg.proxies@.len() == 0 {
            None
        } else {
            Some((c.index as nat) % cfg.proxies@.len())
        },
{
}

/// The cursor value read from the coordination service is the page fetched,
/// written verbatim in decimal as the `page` query parameter.
pub proof fn lemma_cursor_is_fetched_page(c: Cycle, cfg: Config, page: u32)
    ensures
        spec_step(c, cfg, Reply::Cursor(Ok(page))).1 matches RequestView::FetchPage { url, .. }
            && url == cfg.url@ + "?page="@ + decimal(page as nat) + "&per_page="@ + decimal(
            cfg.per_page as nat,
        ),
{
}

/// A cycle whose cursor read fails ends there with that error: nothing is
/// fetched, submitted or incremented, since a finished cycle takes no reply.
pub proof fn lemma_cursor_failure_ends_cycle(c: Cycle, cfg: Config, e: ScrapeError)
    ensures
        spec_step(c, cfg, Reply::Cursor(Err(e))).1 == RequestView::Finished(
            CycleOutcome::Failure(e),
        ),
        spec_step(c, cfg, Reply::Cursor(Err(e))).0.phase == Phase::Done,
        forall|r: Reply| !spec_expects(#[trigger] spec_step(c, cfg, Reply::Cursor(Err(e))).0.phase, r),
{
}

/// A cycle whose fetch fails, or answers with a status outside 2xx, ends
/// there with that error: nothing is submitted or incremented.
pub proof fn lemma_fetch_failure_ends_cycle(c: Cycle, cfg: Config, res: Result<HttpReply, ScrapeError>)
    requires
        match res {
            Ok(resp) => !spec_is_success(resp.status),
            Err(_) => true,
        },
    ensures
        spec_step(c, cfg, Reply::Page(res)).1 == RequestView::Finished(
            CycleOutcome::Failure(
                match res {
                    Ok(resp) => ScrapeError::HttpStatus(resp.status),
                    Err(e) => e,
                },
            ),
        ),
        spec_step(c, cfg, Reply::Page(res)).0.phase == Phase::Done,
        forall|r: Reply| !spec_expects(#[trigger] spec_step(c, cfg, Reply::Page(res)).0.phase, r),
{
}

/// A fetched page is always submitted, and the cursor is always asked to
/// advance after the submission, whether or not the submission succeeded.
pub proof fn lemma_fetched_page_is_written_back(
    c: Cycle,
    cfg: Config,
    resp: HttpReply,
    submitted: Result<u16, ScrapeError>,
)
    requires
        spec_is_success(resp.status),
    ensures
        spec_step(c, cfg, Reply::Page(Ok(resp))).1 == (RequestView::SubmitScrape {
            url: spec_submit_url(cfg.hosts@),
            payload: resp.body@,
            authorization: spec_authorization(cfg.access_key@),
        }),
        spec_step(spec_step(c, cfg, Reply::Page(Ok(resp))).0, cfg, Reply::Submitted(submitted)).1
            == (RequestView::IncrementCursor { url: spec_increment_url(cfg.hosts@) }),
{
}

/// A cycle whose cursor read and fetch succeed ends after the increment; it
/// succeeds unless a write-back call failed (in transport, or with a status
/// outside 2xx when write-backs are strict), and then it reports the first
/// such failure.
pub proof fn lemma_complete_cycle(
    cfg: Config,
    index: u32,
    page: u32,
    resp: HttpReply,
    submitted: Result<u16, ScrapeError>,
    incremented: Result<u16, ScrapeError>,
)
    requires
        spec_is_success(resp.status),
    ensures
        ({
            let c0 = spec_start(cfg, index).0;
            let s1 = spec_step(c0, cfg, Reply::Cursor(Ok(page)));
            let s2 = spec_step(s1.0, cfg, Reply::Page(Ok(resp)));
            let s3 = spec_step(s2.0, cfg, Reply::Submitted(submitted));
            let s4 = spec_step(s3.0, cfg, Reply::Incremented(incremented));
            &&& spec_expects(c0.phase, Reply::Cursor(Ok(page)))
            &&& spec_expects(s1.0.phase, Reply::Page(Ok(resp)))
            &&& spec_expects(s2.0.phase, Reply::Submitted(submitted))
            &&& spec_expects(s3.0.phase, Reply::Incremented(incremented))
            &&& s1.1 == spec_fetch_request(cfg, index, page)
            &&& s4.0.phase == Phase::Done
            &&& s4.1 == RequestView::Finished(
                match spec_writeback_failure(cfg.strict_writeback, submitted) {
                    Some(e) => CycleOutcome::Failure(e),
                    None => match spec_writeback_failure(cfg.strict_writeback, incremented) {
                        Some(e) => CycleOutcome::Failure(e),
                        None => CycleOutcome::Success,
                    },
                },
            )
        }),
{
}

} // verus!
