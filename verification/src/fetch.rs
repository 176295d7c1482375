//! The retrying fetch: one GET request, sent again only after a rate-limited
//! answer, and at most `RETRY_ATTEMPTS` times in all.
//!
//! `Fetcher` decides; its caller sends, reads and sleeps. Each `FetchAction`
//! names one thing to do, and the caller reports how it went as a `FetchEvent`.

use vstd::prelude::*;
use crate::error::{ErrorView, OsintError};
use crate::text::{decimal, decimal_text};

verus! {

/// Number of requests one fetch may send before it gives up.
pub const RETRY_ATTEMPTS: u8 = 3;

/// Seconds to wait after a rate-limited answer.
pub const RETRY_DELAY_SECS: u64 = 5;

/// The status code by which a provider says that it is rate limiting.
pub const TOO_MANY_REQUESTS: u16 = 429;

/// Whether a status code reports success: the codes from 200 to 299.
pub open spec fn status_is_success(code: u16) -> bool {
    200 <= code < 300
}

/// Whether a status code reports success.
pub fn is_success(code: u16) -> (r: bool)
    ensures
        r == status_is_success(code),
{
    200 <= code && code < 300
}

/// The characters of an optional text.
pub open spec fn opt_text(text: Option<String>) -> Option<Seq<char>> {
    match text {
        Some(t) => Some(t@),
        None => None,
    }
}

/// A GET request: where to, and under which `User-Agent`, if any.
#[derive(Debug, PartialEq, Eq)]
pub struct Request {
    pub url: String,
    pub user_agent: Option<String>,
}

/// `Request` with each text as a sequence of characters.
pub struct RequestView {
    pub url: Seq<char>,
    pub user_agent: Option<Seq<char>>,
}

impl View for Request {
    type V = RequestView;

    open spec fn view(&self) -> RequestView {
        RequestView { url: self.url@, user_agent: opt_text(self.user_agent) }
    }
}

impl Request {
    /// A second request with the same address and the same header.
    pub fn duplicate(&self) -> (r: Request)
        ensures
            r@ == self@,
    {
        let user_agent: Option<String> = match &self.user_agent {
            Some(agent) => Some(agent.clone()),
            None => None,
        };
        Request { url: self.url.clone(), user_agent }
    }
}

/// What the caller reports back to a `Fetcher`.
#[derive(Debug, PartialEq, Eq)]
pub enum FetchEvent {
    /// A response arrived; the field is its status code.
    Status(u16),
    /// The body of that response, read to its end.
    Body(String),
    /// The request did not get through, or reading the body failed.
    Failed(String),
    /// The wait is over.
    Elapsed,
}

/// `FetchEvent` with each text as a sequence of characters.
pub enum FetchEventView {
    Status(u16),
    Body(Seq<char>),
    Failed(Seq<char>),
    Elapsed,
}

impl View for FetchEvent {
    type V = FetchEventView;

    open spec fn view(&self) -> FetchEventView {
        match self {
            FetchEvent::Status(code) => FetchEventView::Status(*code),
            FetchEvent::Body(text) => FetchEventView::Body(text@),
            FetchEvent::Failed(reason) => FetchEventView::Failed(reason@),
            FetchEvent::Elapsed => FetchEventView::Elapsed,
        }
    }
}

/// What a `Fetcher` asks its caller to do next.
#[derive(Debug, PartialEq, Eq)]
pub enum FetchAction {
    /// Send this request; answer with `Status` or `Failed`.
    Send(Request),
    /// Read the body of the response; answer with `Body` or `Failed`.
    ReadBody,
    /// Sleep for `secs` seconds; answer with `Elapsed`.
    Wait { secs: u64 },
    /// The fetch is over, with the body or with the reason why there is none.
    Finish(Result<String, OsintError>),
}

/// `FetchAction` with each text as a sequence of characters.
pub enum FetchActionView {
    Send(RequestView),
    ReadBody,
    Wait { secs: u64 },
    Finish(Result<Seq<char>, ErrorView>),
}

impl View for FetchAction {
    type V = FetchActionView;

    open spec fn view(&self) -> FetchActionView {
        match self {
            FetchAction::Send(request) => FetchActionView::Send(request@),
            FetchAction::ReadBody => FetchActionView::ReadBody,
            FetchAction::Wait { secs } => FetchActionView::Wait { secs: *secs },
            FetchAction::Finish(Ok(body)) => FetchActionView::Finish(Ok(body@)),
            FetchAction::Finish(Err(error)) => FetchActionView::Finish(Err(error@)),
        }
    }
}

/// The view of an action that may be absent.
pub open spec fn opt_action(action: Option<FetchAction>) -> Option<FetchActionView> {
    match action {
        Some(a) => Some(a@),
        None => None,
    }
}

/// What a fetch is waiting for.
#[derive(Debug, Clone, Copy, PartialEq, Eq)]
pub enum Phase {
    /// A request is out; its status is awaited.
    AwaitingStatus,
    /// A successful response is in; its body is awaited.
    AwaitingBody,
    /// The provider was rate limiting; the end of the wait is awaited.
    Waiting,
    /// The fetch is over.
    Finished,
}

/// The state of one fetch: its request, how many times it went out, and what
/// is awaited now.
#[derive(Debug, PartialEq, Eq)]
pub struct Fetcher {
    request: Request,
    sent: u8,
    phase: Phase,
}

/// The state of a fetch as a mathematical value.
pub struct FetcherView {
    pub request: RequestView,
    pub sent: nat,
    pub phase: Phase,
}

impl View for Fetcher {
    type V = FetcherView;

    closed spec fn view(&self) -> FetcherView {
        FetcherView { request: self.request@, sent: self.sent as nat, phase: self.phase }
    }
}

impl FetcherView {
    /// The state right after the first request went out.
    pub open spec fn started(request: RequestView) -> FetcherView {
        FetcherView { request, sent: 1, phase: Phase::AwaitingStatus }
    }

    /// At least one request went out, and no more than the budget allows.
    pub open spec fn wf(self) -> bool {
        1 <= self.sent <= RETRY_ATTEMPTS
    }

    /// The same fetch in another phase.
    pub open spec fn at(self, phase: Phase) -> FetcherView {
        FetcherView { phase, ..self }
    }

    /// The retry policy. A successful status asks for the body, and the body
    /// ends the fetch. A rate-limited status asks for a wait of
    /// `RETRY_DELAY_SECS`; after it the request goes out again if the budget
    /// allows, and the fetch fails with `AttemptsExceeded` if not. Any other
    /// status and any transport failure end the fetch at once. An event that
    /// the phase does not await changes nothing and yields no action.
    pub open spec fn next(self, event: FetchEventView) -> (FetcherView, Option<FetchActionView>) {
        match (self.phase, event) {
            (Phase::AwaitingStatus, FetchEventView::Status(code)) => {
                if status_is_success(code) {
                    (self.at(Phase::AwaitingBody), Some(FetchActionView::ReadBody))
                } else if code == TOO_MANY_REQUESTS {
                    (
                        self.at(Phase::Waiting),
                        Some(FetchActionView::Wait { secs: RETRY_DELAY_SECS }),
                    )
                } else {
                    (
                        self.at(Phase::Finished),
                        Some(FetchActionView::Finish(Err(ErrorView::HttpStatus(code)))),
                    )
                }
            },
            (Phase::AwaitingStatus, FetchEventView::Failed(reason)) => (
                self.at(Phase::Finished),
                Some(FetchActionView::Finish(Err(ErrorView::Transport(reason)))),
            ),
            (Phase::AwaitingBody, FetchEventView::Body(text)) => (
                self.at(Phase::Finished),
                Some(FetchActionView::Finish(Ok(text))),
            ),
            (Phase::AwaitingBody, FetchEventView::Failed(reason)) => (
                self.at(Phase::Finished),
                Some(FetchActionView::Finish(Err(ErrorView::Transport(reason)))),
            ),
            (Phase::Waiting, FetchEventView::Elapsed) => {
                if self.sent < RETRY_ATTEMPTS {
                    (
                        FetcherView {
                            sent: self.sent + 1,
                            phase: Phase::AwaitingStatus,
                            ..self
                        },
                        Some(FetchActionView::Send(self.request)),
                    )
                } else {
                    (
                        self.at(Phase::Finished),
                        Some(FetchActionView::Finish(Err(ErrorView::AttemptsExceeded))),
                    )
                }
            },
            _ => (self, None),
        }
    }

    /// The state after a whole sequence of events, and the actions that they
    /// brought about, in order.
    pub open spec fn replay(self, events: Seq<FetchEventView>) -> (
        FetcherView,
        Seq<FetchActionView>,
    )
        decreases events.len(),
    {
        if events.len() == 0 {
            (self, Seq::empty())
        } else {
            let (state, action) = self.next(events[0]);
            let (last, actions) = state.replay(events.drop_first());
            match action {
                Some(a) => (last, seq![a] + actions),
                None => (last, actions),
            }
        }
    }

    /// An upper bound on the number of events that this fetch can still accept.
    pub open spec fn events_left(self) -> nat {
        let retries: nat = if self.sent <= RETRY_ATTEMPTS {
            (RETRY_ATTEMPTS - self.sent) as nat
        } else {
            0
        };
        match self.phase {
            Phase::AwaitingStatus => 2 * retries + 2,
            Phase::Waiting => 2 * retries + 1,
            Phase::AwaitingBody => 1,
            Phase::Finished => 0,
        }
    }
}

/// How many of the actions send a request.
pub open spec fn sends(actions: Seq<FetchActionView>) -> nat
    decreases actions.len(),
{
    if actions.len() == 0 {
        0
    } else {
        (if actions[0] is Send { 1nat } else { 0nat }) + sends(actions.drop_first())
    }
}

/// The notice shown before a wait of `secs` seconds.
pub open spec fn rate_limit_notice_text(secs: u64) -> Seq<char> {
    "Rate limited! Retrying in "@ + decimal_text(secs as nat) + " seconds..."@
}

/// The notice shown before a wait of `secs` seconds.
pub fn rate_limit_notice(secs: u64) -> (text: String)
    ensures
        text@ == rate_limit_notice_text(secs),
{
    let numeral: String = decimal(secs);
    String::from_str("Rate limited! Retrying in ").concat(numeral.as_str()).concat(" seconds...")
}

impl Fetcher {
    /// Starts a fetch. The first action is always to send the request.
    pub fn begin(request: Request) -> (r: (Fetcher, FetchAction))
        ensures
            r.0@ == FetcherView::started(request@),
            r.1@ == FetchActionView::Send(request@),
    {
        let first: Request = request.duplicate();
        (Fetcher { request, sent: 1, phase: Phase::AwaitingStatus }, FetchAction::Send(first))
    }

    /// How many times the request has gone out so far.
    pub fn sent(&self) -> (n: u8)
        ensures
            n == self@.sent,
    {
        self.sent
    }

    /// What the fetch is waiting for.
    pub fn phase(&self) -> (p: Phase)
        ensures
            p == self@.phase,
    {
        self.phase
    }

    /// Whether the fetch is over.
    pub fn is_finished(&self) -> (r: bool)
        ensures
            r == (self@.phase is Finished),
    {
        match self.phase {
            Phase::Finished => true,
            _ => false,
        }
    }

    /// Takes one event and says what to do next; see `FetcherView::next`.
    /// The result is `None`, and the state unchanged, exactly when the event
    /// is not one that the phase awaits.
    pub fn step(self, event: FetchEvent) -> (r: (Fetcher, Option<FetchAction>))
        ensures
            (r.0@, opt_action(r.1)) == self@.next(event@),
    {
        let Fetcher { request, sent, phase } = self;
        match (phase, event) {
            (Phase::AwaitingStatus, FetchEvent::Status(code)) => {
                if is_success(code) {
                    (
                        Fetcher { request, sent, phase: Phase::AwaitingBody },
                        Some(FetchAction::ReadBody),
                    )
                } else if code == TOO_MANY_REQUESTS {
                    (
                        Fetcher { request, sent, phase: Phase::Waiting },
                        Some(FetchAction::Wait { secs: RETRY_DELAY_SECS }),
                    )
                } else {
                    (
                        Fetcher { request, sent, phase: Phase::Finished },
                        Some(FetchAction::Finish(Err(OsintError::HttpStatus(code)))),
                    )
                }
            },
            (Phase::AwaitingStatus, FetchEvent::Failed(reason)) => (
                Fetcher { request, sent, phase: Phase::Finished },
                Some(FetchAction::Finish(Err(OsintError::Transport(reason)))),
            ),
            (Phase::AwaitingBody, FetchEvent::Body(text)) => (
                Fetcher { request, sent, phase: Phase::Finished },
                Some(FetchAction::Finish(Ok(text))),
            ),
            (Phase::AwaitingBody, FetchEvent::Failed(reason)) => (
                Fetcher { request, sent, phase: Phase::Finished },
                Some(FetchAction::Finish(Err(OsintError::Transport(reason)))),
            ),
            (Phase::Waiting, FetchEvent::Elapsed) => {
                if sent < RETRY_ATTEMPTS {
                    let again: Request = request.duplicate();
                    (
                        Fetcher { request, sent: sent + 1, phase: Phase::AwaitingStatus },
                        Some(FetchAction::Send(again)),
                    )
                } else {
                    (
                        Fetcher { request, sent, phase: Phase::Finished },
                        Some(FetchAction::Finish(Err(OsintError::AttemptsExceeded))),
                    )
                }
            },
            (phase, _) => (Fetcher { request, sent, phase }, None),
        }
    }
}

/// One step keeps the budget: a fetch that has sent between one and
/// `RETRY_ATTEMPTS` requests still has after any event, and its count grows
/// by one exactly when the step sends the request again.
pub proof fn lemma_step_keeps_budget(fetch: FetcherView, event: FetchEventView)
    requires
        fetch.wf(),
    ensures
        fetch.next(event).0.wf(),
        fetch.next(event).0.request == fetch.request,
        fetch.next(event).1 matches Some(FetchActionView::Send(request)) ==> request
            == fetch.request && fetch.next(event).0.sent == fetch.sent + 1,
        !(fetch.next(event).1 matches Some(FetchActionView::Send(_))) ==> fetch.next(event).0.sent
            == fetch.sent,
{
}

/// However the provider answers, a fetch never sends more than
/// `RETRY_ATTEMPTS` requests: the request that `begin` sends and those that
/// any sequence of events brings about are at most that many.
pub proof fn lemma_send_budget(request: RequestView, events: Seq<FetchEventView>)
    ensures
        1 + sends(FetcherView::started(request).replay(events).1) <= RETRY_ATTEMPTS,
{
    lemma_replay_counts_sends(FetcherView::started(request), events);
}

/// Over any sequence of events the count of a fetch grows by the number of
/// requests that were sent, and stays within the budget.
pub proof fn lemma_replay_counts_sends(fetch: FetcherView, events: Seq<FetchEventView>)
    requires
        fetch.wf(),
    ensures
        fetch.replay(events).0.wf(),
        fetch.replay(events).0.sent == fetch.sent + sends(fetch.replay(events).1),
    decreases events.len(),
{
    if events.len() > 0 {
        let (state, action) = fetch.next(events[0]);
        let (last, actions) = state.replay(events.drop_first());
        lemma_step_keeps_budget(fetch, events[0]);
        lemma_replay_counts_sends(state, events.drop_first());
        match action {
            Some(a) => {
                assert((seq![a] + actions).drop_first() =~= actions);
            },
            None => {},
        }
    }
}

/// Every wait lasts `RETRY_DELAY_SECS` seconds and answers a rate-limited
/// status; every other status outside the success range ends the fetch with
/// that status, whatever was sent before.
pub proof fn lemma_only_rate_limiting_retries(fetch: FetcherView, code: u16)
    requires
        fetch.phase is AwaitingStatus,
        !status_is_success(code),
    ensures
        code == TOO_MANY_REQUESTS ==> fetch.next(FetchEventView::Status(code)) == (
            fetch.at(Phase::Waiting),
            Some(FetchActionView::Wait { secs: RETRY_DELAY_SECS }),
        ),
        code != TOO_MANY_REQUESTS ==> fetch.next(FetchEventView::Status(code)) == (
            fetch.at(Phase::Finished),
            Some(FetchActionView::Finish(Err(ErrorView::HttpStatus(code)))),
        ),
{
}

/// A fetch comes to an end: each event that it accepts lowers `events_left`,
/// an event that it does not accept leaves the state as it was, and a
/// finished fetch accepts none.
pub proof fn lemma_step_makes_progress(fetch: FetcherView, event: FetchEventView)
    requires
        fetch.wf(),
    ensures
        fetch.next(event).1 is Some ==> fetch.next(event).0.events_left() < fetch.events_left(),
        fetch.next(event).1 is None ==> fetch.next(event).0 == fetch,
        fetch.phase is Finished ==> fetch.next(event).1 is None,
        fetch.next(event).1 matches Some(FetchActionView::Finish(_)) <==> !(fetch.phase
            is Finished) && fetch.next(event).0.phase is Finished,
{
}

} // verus!
