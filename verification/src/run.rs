//! The run: one lookup from the command line to the summary.
//!
//! A run has two stages. The first obtains the result or fails; its failure
//! is reported and ends the run without a report and without a summary. The
//! second shows the result, writes the report and asks for the summary; a
//! report that cannot be written is fatal, a summary that cannot be had is
//! only a warning.
//!
//! `Run` decides; its caller acts. Each `Step` holds a line to print, if
//! any, and one `Action`; the caller prints, acts and reports the outcome as
//! an `Event`.

use vstd::prelude::*;
use crate::error::{ErrorView, OsintError};
use crate::fetch::{
    lemma_step_keeps_budget, rate_limit_notice, rate_limit_notice_text, FetchAction,
    FetchActionView, FetchEvent, FetchEventView, Fetcher, FetcherView, Request, RequestView,
    RETRY_ATTEMPTS,
};
use crate::json::{compact_json, interpreted, outcome_view, parse_response, OsintResult};
use crate::lookup::{
    dispatch, kind_named, planned, shodan_key_name, Config, ConfigView, LookupKind,
};
use crate::report::{
    report_name, save_report, saved_notice, saved_notice_text, ReportFile, ReportFileView,
};
use crate::summary::{
    analysis_of, analysis_outcome, analysis_view, chat_about, chat_request, reply_view,
    ChatRequest, ChatRequestView,
};

verus! {

/// Where a line is printed.
#[derive(Debug, Clone, Copy, PartialEq, Eq)]
pub enum Stream {
    Stdout,
    Stderr,
}

/// One line for the user, without its line break.
#[derive(Debug, PartialEq, Eq)]
pub struct Line {
    pub stream: Stream,
    pub text: String,
}

/// `Line` with its text as a sequence of characters.
pub struct LineView {
    pub stream: Stream,
    pub text: Seq<char>,
}

impl View for Line {
    type V = LineView;

    open spec fn view(&self) -> LineView {
        LineView { stream: self.stream, text: self.text@ }
    }
}

/// What a run asks its caller to do.
#[derive(Debug, PartialEq, Eq)]
pub enum Action {
    /// Send this request; answer with `Status` or `Failed`.
    Send(Request),
    /// Read the body of the response; answer with `Body` or `Failed`.
    ReadBody,
    /// Sleep for `secs` seconds; answer with `Elapsed`.
    Wait { secs: u64 },
    /// Create or truncate this file and write all of its contents; answer
    /// with `Written` or `WriteFailed`.
    WriteFile(ReportFile),
    /// Put this conversation to the summarizer; answer with `Reply` or
    /// `ServiceFailed`.
    Summarize(ChatRequest),
    /// The run is over. An error here is fatal to the process; a failure
    /// that was only reported ends the run with `Ok`.
    Stop(Result<(), OsintError>),
}

/// `Action` with each text as a sequence of characters.
pub enum ActionView {
    Send(RequestView),
    ReadBody,
    Wait { secs: u64 },
    WriteFile(ReportFileView),
    Summarize(ChatRequestView),
    Stop(Result<(), ErrorView>),
}

impl View for Action {
    type V = ActionView;

    open spec fn view(&self) -> ActionView {
        match self {
            Action::Send(request) => ActionView::Send(request@),
            Action::ReadBody => ActionView::ReadBody,
            Action::Wait { secs } => ActionView::Wait { secs: *secs },
            Action::WriteFile(file) => ActionView::WriteFile(file@),
            Action::Summarize(chat) => ActionView::Summarize(chat@),
            Action::Stop(Ok(_)) => ActionView::Stop(Ok(())),
            Action::Stop(Err(error)) => ActionView::Stop(Err(error@)),
        }
    }
}

/// What the caller reports back to a run.
#[derive(Debug, PartialEq, Eq)]
pub enum Event {
    /// A response arrived; the field is its status code.
    Status(u16),
    /// The body of that response, read to its end.
    Body(String),
    /// The request did not get through, or reading the body failed.
    Failed(String),
    /// The wait is over.
    Elapsed,
    /// The file is written.
    Written,
    /// The file could not be created or written.
    WriteFailed(String),
    /// The summarizer's answer.
    Reply(String),
    /// The summarizer could not be reached, or answered with a failure.
    ServiceFailed(String),
}

/// `Event` with each text as a sequence of characters.
pub enum EventView {
    Status(u16),
    Body(Seq<char>),
    Failed(Seq<char>),
    Elapsed,
    Written,
    WriteFailed(Seq<char>),
    Reply(Seq<char>),
    ServiceFailed(Seq<char>),
}

impl View for Event {
    type V = EventView;

    open spec fn view(&self) -> EventView {
        match self {
            Event::Status(code) => EventView::Status(*code),
            Event::Body(text) => EventView::Body(text@),
            Event::Failed(reason) => EventView::Failed(reason@),
            Event::Elapsed => EventView::Elapsed,
            Event::Written => EventView::Written,
            Event::WriteFailed(reason) => EventView::WriteFailed(reason@),
            Event::Reply(text) => EventView::Reply(text@),
            Event::ServiceFailed(reason) => EventView::ServiceFailed(reason@),
        }
    }
}

impl EventView {
    /// The event as the fetch sees it, if it is one of the fetch's.
    pub open spec fn for_fetch(self) -> Option<FetchEventView> {
        match self {
            EventView::Status(code) => Some(FetchEventView::Status(code)),
            EventView::Body(text) => Some(FetchEventView::Body(text)),
            EventView::Failed(reason) => Some(FetchEventView::Failed(reason)),
            EventView::Elapsed => Some(FetchEventView::Elapsed),
            _ => None,
        }
    }

    /// The event as the summarizer's answer, if it is one.
    pub open spec fn for_summary(self) -> Option<Result<Seq<char>, Seq<char>>> {
        match self {
            EventView::Reply(text) => Some(Ok(text)),
            EventView::ServiceFailed(reason) => Some(Err(reason)),
            _ => None,
        }
    }
}

/// One move of a run: a line to print first, if any, and what to do then.
#[derive(Debug, PartialEq, Eq)]
pub struct Step {
    pub line: Option<Line>,
    pub action: Action,
}

/// `Step` with each text as a sequence of characters.
pub struct StepView {
    pub line: Option<LineView>,
    pub action: ActionView,
}

impl View for Step {
    type V = StepView;

    open spec fn view(&self) -> StepView {
        StepView {
            line: match self.line {
                Some(line) => Some(line@),
                None => None,
            },
            action: self.action@,
        }
    }
}

/// The view of a step that may be absent.
pub open spec fn opt_step(step: Option<Step>) -> Option<StepView> {
    match step {
        Some(s) => Some(s@),
        None => None,
    }
}

impl StepView {
    /// A step that prints nothing.
    pub open spec fn silent(action: ActionView) -> StepView {
        StepView { line: None, action }
    }

    /// A step that prints on standard output.
    pub open spec fn telling(text: Seq<char>, action: ActionView) -> StepView {
        StepView { line: Some(LineView { stream: Stream::Stdout, text }), action }
    }

    /// A step that prints on standard error.
    pub open spec fn warning(text: Seq<char>, action: ActionView) -> StepView {
        StepView { line: Some(LineView { stream: Stream::Stderr, text }), action }
    }
}

/// Name of the variable that holds the summarizer's key.
pub open spec fn openai_key_name() -> Seq<char> {
    "OPENAI_API_KEY"@
}

/// The line that shows the result.
pub open spec fn raw_data_text(data: Seq<char>) -> Seq<char> {
    "Raw OSINT Data: \n"@ + data
}

/// The line that reports a failed lookup.
pub open spec fn lookup_failure_text(error: ErrorView) -> Seq<char> {
    "Error fetching OSINT data: "@ + error.message()
}

/// The line that shows the summary.
pub open spec fn analysis_text(reply: Seq<char>) -> Seq<char> {
    "ChatGPT Analysis: \n"@ + reply
}

/// The line that reports a failed summary.
pub open spec fn analysis_failure_text(error: ErrorView) -> Seq<char> {
    "Error analyzing data with ChatGPT: "@ + error.message()
}

/// What a fetch's outcome means for the lookup: a body counts only if it is
/// JSON, and a failure stays what it is.
pub open spec fn lookup_outcome(fetched: Result<Seq<char>, ErrorView>) -> Result<
    Seq<char>,
    ErrorView,
> {
    match fetched {
        Ok(body) => interpreted(compact_json(body)),
        Err(error) => Err(error),
    }
}

enum Stage {
    Fetching { fetcher: Fetcher, target: String, api_key: String },
    Writing { name: String, data: OsintResult, api_key: String },
    Analyzing,
    Stopped,
}

/// The state of a run.
pub struct Run {
    stage: Stage,
}

/// The state of a run as a mathematical value.
pub enum RunView {
    /// The lookup is under way.
    Fetching { fetch: FetcherView, target: Seq<char>, api_key: Seq<char> },
    /// The result is there and shown; the report is being written.
    Writing { name: Seq<char>, data: Seq<char>, api_key: Seq<char> },
    /// The report is written; the summary is awaited.
    Analyzing,
    /// The run is over.
    Stopped,
}

impl View for Run {
    type V = RunView;

    closed spec fn view(&self) -> RunView {
        match self.stage {
            Stage::Fetching { fetcher, target, api_key } => RunView::Fetching {
                fetch: fetcher@,
                target: target@,
                api_key: api_key@,
            },
            Stage::Writing { name, data, api_key } => RunView::Writing {
                name: name@,
                data: data@,
                api_key: api_key@,
            },
            Stage::Analyzing => RunView::Analyzing,
            Stage::Stopped => RunView::Stopped,
        }
    }
}

impl RunView {
    /// The fetch of a run is within its budget, where there is one.
    pub open spec fn wf(self) -> bool {
        self matches RunView::Fetching { fetch, .. } ==> fetch.wf()
    }

    /// How a run begins. Without the summarizer's key it ends at once, with
    /// a fatal `MissingApiKey`. A lookup that `planned` refuses is reported
    /// and ends the run. Otherwise the first request goes out.
    pub open spec fn started(config: ConfigView, target: Seq<char>, kind: Seq<char>) -> (
        RunView,
        StepView,
    ) {
        match config.openai_api_key {
            None => (
                RunView::Stopped,
                StepView::silent(
                    ActionView::Stop(Err(ErrorView::MissingApiKey(openai_key_name()))),
                ),
            ),
            Some(api_key) => match planned(kind, target, config.shodan_api_key) {
                Ok(request) => (
                    RunView::Fetching { fetch: FetcherView::started(request), target, api_key },
                    StepView::silent(ActionView::Send(request)),
                ),
                Err(error) => RunView::after_lookup(target, api_key, Err(error)),
            },
        }
    }

    /// What follows the lookup. A result is shown and its report is to be
    /// written; a failure is reported on standard error and ends the run,
    /// which still counts as completed.
    pub open spec fn after_lookup(
        target: Seq<char>,
        api_key: Seq<char>,
        outcome: Result<Seq<char>, ErrorView>,
    ) -> (RunView, StepView) {
        match outcome {
            Ok(data) => (
                RunView::Writing { name: report_name(target), data, api_key },
                StepView::telling(
                    raw_data_text(data),
                    ActionView::WriteFile(
                        ReportFileView { name: report_name(target), contents: data },
                    ),
                ),
            ),
            Err(error) => (
                RunView::Stopped,
                StepView::warning(lookup_failure_text(error), ActionView::Stop(Ok(()))),
            ),
        }
    }

    /// The last step of a run. The summary is shown if it came, and its
    /// failure reported on standard error if not; either way the run stops
    /// as completed.
    pub open spec fn after_summary(analysis: Result<Seq<char>, ErrorView>) -> StepView {
        match analysis {
            Ok(text) => StepView::telling(analysis_text(text), ActionView::Stop(Ok(()))),
            Err(error) => StepView::warning(
                analysis_failure_text(error),
                ActionView::Stop(Ok(())),
            ),
        }
    }

    /// The run's answer to one event. While fetching, the events go to the
    /// fetch, whose actions are handed on, a wait under a notice; the end of
    /// the fetch is the end of the lookup. Once the report is written, its
    /// place is told and the summary is asked for; a report that cannot be
    /// written stops the run with a fatal `FileWrite`. The summary is shown
    /// if it comes, and its failure reported if not; either way the run is
    /// completed. An event that the run does not await changes nothing and
    /// yields no step.
    pub open spec fn next(self, event: EventView) -> (RunView, Option<StepView>) {
        match self {
            RunView::Fetching { fetch, target, api_key } => match event.for_fetch() {
                Some(fetch_event) => match fetch.next(fetch_event).1 {
                    Some(FetchActionView::Send(request)) => (
                        RunView::Fetching { fetch: fetch.next(fetch_event).0, target, api_key },
                        Some(StepView::silent(ActionView::Send(request))),
                    ),
                    Some(FetchActionView::ReadBody) => (
                        RunView::Fetching { fetch: fetch.next(fetch_event).0, target, api_key },
                        Some(StepView::silent(ActionView::ReadBody)),
                    ),
                    Some(FetchActionView::Wait { secs }) => (
                        RunView::Fetching { fetch: fetch.next(fetch_event).0, target, api_key },
                        Some(
                            StepView::warning(
                                rate_limit_notice_text(secs),
                                ActionView::Wait { secs },
                            ),
                        ),
                    ),
                    Some(FetchActionView::Finish(fetched)) => {
                        let (run, step) = RunView::after_lookup(
                            target,
                            api_key,
                            lookup_outcome(fetched),
                        );
                        (run, Some(step))
                    },
                    None => (self, None),
                },
                None => (self, None),
            },
            RunView::Writing { name, data, api_key } => match event {
                EventView::Written => (
                    RunView::Analyzing,
                    Some(
                        StepView::telling(
                            saved_notice_text(name),
                            ActionView::Summarize(chat_about(api_key, data)),
                        ),
                    ),
                ),
                EventView::WriteFailed(reason) => (
                    RunView::Stopped,
                    Some(StepView::silent(ActionView::Stop(Err(ErrorView::FileWrite(reason))))),
                ),
                _ => (self, None),
            },
            RunView::Analyzing => match event.for_summary() {
                Some(reply) => (
                    RunView::Stopped,
                    Some(RunView::after_summary(analysis_of(reply))),
                ),
                None => (self, None),
            },
            RunView::Stopped => (self, None),
        }
    }

    /// The steps that a sequence of events brings about, in order.
    pub open spec fn play(self, events: Seq<EventView>) -> Seq<StepView>
        decreases events.len(),
    {
        if events.len() == 0 {
            Seq::empty()
        } else {
            let (run, step) = self.next(events[0]);
            let rest = run.play(events.drop_first());
            match step {
                Some(s) => seq![s] + rest,
                None => rest,
            }
        }
    }

    /// All the steps of a run: the one it begins with, and those that the
    /// events bring about.
    pub open spec fn whole(
        config: ConfigView,
        target: Seq<char>,
        kind: Seq<char>,
        events: Seq<EventView>,
    ) -> Seq<StepView> {
        seq![RunView::started(config, target, kind).1] + RunView::started(
            config,
            target,
            kind,
        ).0.play(events)
    }
}

fn silent(action: Action) -> (step: Step)
    ensures
        step@ == StepView::silent(action@),
{
    Step { line: None, action }
}

fn telling(text: String, action: Action) -> (step: Step)
    ensures
        step@ == StepView::telling(text@, action@),
{
    Step { line: Some(Line { stream: Stream::Stdout, text }), action }
}

fn warning(text: String, action: Action) -> (step: Step)
    ensures
        step@ == StepView::warning(text@, action@),
{
    Step { line: Some(Line { stream: Stream::Stderr, text }), action }
}

fn for_fetch(event: Event) -> (r: Option<FetchEvent>)
    ensures
        match r {
            Some(fetch_event) => event@.for_fetch() == Some(fetch_event@),
            None => event@.for_fetch() is None,
        },
{
    match event {
        Event::Status(code) => Some(FetchEvent::Status(code)),
        Event::Body(text) => Some(FetchEvent::Body(text)),
        Event::Failed(reason) => Some(FetchEvent::Failed(reason)),
        Event::Elapsed => Some(FetchEvent::Elapsed),
        _ => None,
    }
}

fn for_summary(event: Event) -> (r: Option<Result<String, String>>)
    ensures
        match r {
            Some(reply) => event@.for_summary() == Some(reply_view(reply)),
            None => event@.for_summary() is None,
        },
{
    match event {
        Event::Reply(text) => Some(Ok(text)),
        Event::ServiceFailed(reason) => Some(Err(reason)),
        _ => None,
    }
}

impl Run {
    /// Begins a run on `target` with the lookup kind named `kind`; see
    /// `RunView::started`.
    pub fn start(config: Config, target: String, kind: &str) -> (r: (Run, Step))
        ensures
            (r.0@, r.1@) == RunView::started(config@, target@, kind@),
            r.0@.wf(),
    {
        let Config { shodan_api_key, openai_api_key } = config;
        match openai_api_key {
            None => (
                Run { stage: Stage::Stopped },
                silent(
                    Action::Stop(
                        Err(OsintError::MissingApiKey(String::from_str("OPENAI_API_KEY"))),
                    ),
                ),
            ),
            Some(api_key) => {
                let shodan_key: Option<&str> = match &shodan_api_key {
                    Some(key) => Some(key.as_str()),
                    None => None,
                };
                match dispatch(kind, target.as_str(), shodan_key) {
                    Ok(request) => {
                        let first: Request = request.duplicate();
                        let (fetcher, _) = Fetcher::begin(request);
                        (
                            Run { stage: Stage::Fetching { fetcher, target, api_key } },
                            silent(Action::Send(first)),
                        )
                    },
                    Err(error) => Run::after_lookup(target, api_key, Err(error)),
                }
            },
        }
    }

    /// Goes on after the lookup, with its outcome; see
    /// `RunView::after_lookup`.
    pub fn after_lookup(target: String, api_key: String, outcome: Result<OsintResult, OsintError>)
        -> (r: (Run, Step))
        ensures
            (r.0@, r.1@) == RunView::after_lookup(target@, api_key@, outcome_view(outcome)),
            r.0@.wf(),
    {
        match outcome {
            Ok(data) => {
                let file: ReportFile = save_report(target.as_str(), &data);
                let name: String = file.name.clone();
                let shown: String = String::from_str("Raw OSINT Data: \n").concat(data.as_str());
                (
                    Run { stage: Stage::Writing { name, data, api_key } },
                    telling(shown, Action::WriteFile(file)),
                )
            },
            Err(error) => {
                let message: String = error.message();
                let text: String = String::from_str("Error fetching OSINT data: ").concat(
                    message.as_str(),
                );
                (Run { stage: Stage::Stopped }, warning(text, Action::Stop(Ok(()))))
            },
        }
    }

    /// Makes the last step of a run, with the summary or the reason why
    /// there is none; see `RunView::after_summary`.
    pub fn after_summary(analysis: Result<String, OsintError>) -> (step: Step)
        ensures
            step@ == RunView::after_summary(analysis_view(analysis)),
    {
        match analysis {
            Ok(reply) => {
                let shown: String = String::from_str("ChatGPT Analysis: \n").concat(
                    reply.as_str(),
                );
                telling(shown, Action::Stop(Ok(())))
            },
            Err(error) => {
                let message: String = error.message();
                let text: String = String::from_str(
                    "Error analyzing data with ChatGPT: ",
                ).concat(message.as_str());
                warning(text, Action::Stop(Ok(())))
            },
        }
    }

    /// Whether the run is over.
    pub fn is_stopped(&self) -> (r: bool)
        ensures
            r == (self@ is Stopped),
    {
        match &self.stage {
            Stage::Stopped => true,
            _ => false,
        }
    }

    /// Takes one event and says what to do next; see `RunView::next`. The
    /// result is `None`, and the state unchanged, exactly when the event is
    /// not one that the run awaits.
    pub fn step(self, event: Event) -> (r: (Run, Option<Step>))
        ensures
            (r.0@, opt_step(r.1)) == self@.next(event@),
    {
        match self.stage {
            Stage::Fetching { fetcher, target, api_key } => match for_fetch(event) {
                Some(fetch_event) => {
                    let (fetcher, action) = fetcher.step(fetch_event);
                    match action {
                        Some(FetchAction::Send(request)) => (
                            Run { stage: Stage::Fetching { fetcher, target, api_key } },
                            Some(silent(Action::Send(request))),
                        ),
                        Some(FetchAction::ReadBody) => (
                            Run { stage: Stage::Fetching { fetcher, target, api_key } },
                            Some(silent(Action::ReadBody)),
                        ),
                        Some(FetchAction::Wait { secs }) => (
                            Run { stage: Stage::Fetching { fetcher, target, api_key } },
                            Some(warning(rate_limit_notice(secs), Action::Wait { secs })),
                        ),
                        Some(FetchAction::Finish(Ok(body))) => {
                            let (run, step) = Run::after_lookup(
                                target,
                                api_key,
                                parse_response(body.as_str()),
                            );
                            (run, Some(step))
                        },
                        Some(FetchAction::Finish(Err(error))) => {
                            let (run, step) = Run::after_lookup(target, api_key, Err(error));
                            (run, Some(step))
                        },
                        None => (Run { stage: Stage::Fetching { fetcher, target, api_key } }, None),
                    }
                },
                None => (Run { stage: Stage::Fetching { fetcher, target, api_key } }, None),
            },
            Stage::Writing { name, data, api_key } => match event {
                Event::Written => {
                    let chat: ChatRequest = chat_request(api_key.as_str(), &data);
                    (
                        Run { stage: Stage::Analyzing },
                        Some(telling(saved_notice(name.as_str()), Action::Summarize(chat))),
                    )
                },
                Event::WriteFailed(reason) => (
                    Run { stage: Stage::Stopped },
                    Some(silent(Action::Stop(Err(OsintError::FileWrite(reason))))),
                ),
                _ => (Run { stage: Stage::Writing { name, data, api_key } }, None),
            },
            Stage::Analyzing => match for_summary(event) {
                Some(reply) => (
                    Run { stage: Stage::Stopped },
                    Some(Run::after_summary(analysis_outcome(reply))),
                ),
                None => (Run { stage: Stage::Analyzing }, None),
            },
            Stage::Stopped => (Run { stage: Stage::Stopped }, None),
        }
    }
}

/// How many of the steps send a request.
pub open spec fn requests(steps: Seq<StepView>) -> nat
    decreases steps.len(),
{
    if steps.len() == 0 {
        0
    } else {
        (if steps[0].action is Send { 1nat } else { 0nat }) + requests(steps.drop_first())
    }
}

/// A run that is over stays over: whatever is reported to it, it takes no
/// further step.
pub proof fn lemma_stopped_is_final(events: Seq<EventView>)
    ensures
        RunView::Stopped.play(events) == Seq::<StepView>::empty(),
    decreases events.len(),
{
    if events.len() > 0 {
        lemma_stopped_is_final(events.drop_first());
    }
}

/// A kind's name that stands for no lookup kind is refused as `InvalidType`,
/// and the run consists of the report of that failure alone: no request is
/// sent, no report written and no summary asked for, whatever the target,
/// the keys and the events.
pub proof fn lemma_unknown_kind_reaches_nothing(
    config: ConfigView,
    target: Seq<char>,
    kind: Seq<char>,
    events: Seq<EventView>,
)
    requires
        kind_named(kind) is None,
        config.openai_api_key is Some,
    ensures
        planned(kind, target, config.shodan_api_key) == Err::<RequestView, ErrorView>(
            ErrorView::InvalidType,
        ),
        RunView::whole(config, target, kind, events) == seq![
            StepView::warning(
                lookup_failure_text(ErrorView::InvalidType),
                ActionView::Stop(Ok(())),
            ),
        ],
{
    lemma_stopped_is_final(events);
}

/// A device-intelligence lookup without its key is refused as
/// `MissingApiKey` before anything is sent: the run consists of the report
/// of that failure alone, whatever the target and the events.
pub proof fn lemma_missing_key_reaches_nothing(
    config: ConfigView,
    target: Seq<char>,
    kind: Seq<char>,
    events: Seq<EventView>,
)
    requires
        kind_named(kind) == Some(LookupKind::Shodan),
        config.shodan_api_key is None,
        config.openai_api_key is Some,
    ensures
        planned(kind, target, config.shodan_api_key) == Err::<RequestView, ErrorView>(
            ErrorView::MissingApiKey(shodan_key_name()),
        ),
        RunView::whole(config, target, kind, events) == seq![
            StepView::warning(
                lookup_failure_text(ErrorView::MissingApiKey(shodan_key_name())),
                ActionView::Stop(Ok(())),
            ),
        ],
{
    lemma_stopped_is_final(events);
}

/// Without the summarizer's key a run ends before it begins: its only step
/// stops it with a fatal `MissingApiKey`, whatever the kind and the target.
pub proof fn lemma_summarizer_key_comes_first(
    config: ConfigView,
    target: Seq<char>,
    kind: Seq<char>,
    events: Seq<EventView>,
)
    requires
        config.openai_api_key is None,
    ensures
        RunView::whole(config, target, kind, events) == seq![
            StepView::silent(ActionView::Stop(Err(ErrorView::MissingApiKey(openai_key_name())))),
        ],
{
    lemma_stopped_is_final(events);
}

/// A failure of the summarizer does not fail the run: it is reported on
/// standard error, and the run stops as completed.
pub proof fn lemma_summary_failure_is_a_warning(reason: Seq<char>)
    ensures
        RunView::Analyzing.next(EventView::ServiceFailed(reason)) == (
            RunView::Stopped,
            Some(
                StepView::warning(
                    analysis_failure_text(ErrorView::Analysis(reason)),
                    ActionView::Stop(Ok(())),
                ),
            ),
        ),
{
}

/// The summary is asked for only once the report is written: in the steps
/// that any events bring about, a step that asks for the summary comes
/// right after the step that writes the report, or comes first in a run
/// that was writing already.
pub proof fn lemma_summary_follows_report(run: RunView, events: Seq<EventView>)
    ensures
        forall|i: int|
            0 <= i < run.play(events).len() && (#[trigger] run.play(events)[i]).action
                is Summarize ==> if i == 0 {
                run is Writing
            } else {
                run.play(events)[i - 1].action is WriteFile
            },
    decreases events.len(),
{
    if events.len() > 0 {
        let (next, step) = run.next(events[0]);
        let rest = next.play(events.drop_first());
        let steps = run.play(events);
        lemma_summary_follows_report(next, events.drop_first());
        match step {
            Some(s) => {
                assert(steps == seq![s] + rest);
                assert forall|i: int|
                    0 <= i < steps.len() && (#[trigger] steps[i]).action
                        is Summarize implies if i == 0 {
                    run is Writing
                } else {
                    steps[i - 1].action is WriteFile
                } by {
                    if i > 0 {
                        assert(steps[i] == rest[i - 1]);
                        if i > 1 {
                            assert(steps[i - 1] == rest[i - 2]);
                        }
                    }
                }
            },
            None => {},
        }
    }
}

/// In a whole run the summary is never asked for before the report is
/// written: a step that asks for it is not the first, and the step before it
/// writes the report.
pub proof fn lemma_whole_run_reports_first(
    config: ConfigView,
    target: Seq<char>,
    kind: Seq<char>,
    events: Seq<EventView>,
)
    ensures
        forall|i: int|
            0 <= i < RunView::whole(config, target, kind, events).len() && (#[trigger] RunView::whole(
                config,
                target,
                kind,
                events,
            )[i]).action is Summarize ==> i > 0 && RunView::whole(config, target, kind, events)[i
                - 1].action is WriteFile,
{
    let (run, first) = RunView::started(config, target, kind);
    let steps = RunView::whole(config, target, kind, events);
    let rest = run.play(events);
    lemma_summary_follows_report(run, events);
    assert forall|i: int|
        0 <= i < steps.len() && (#[trigger] steps[i]).action is Summarize implies i > 0 && steps[i
            - 1].action is WriteFile by {
        if i > 0 {
            assert(steps[i] == rest[i - 1]);
            if i > 1 {
                assert(steps[i - 1] == rest[i - 2]);
            }
        }
    }
}

/// One step keeps a run's fetch within its budget.
pub proof fn lemma_next_keeps_wf(run: RunView, event: EventView)
    requires
        run.wf(),
    ensures
        run.next(event).0.wf(),
{
    if let RunView::Fetching { fetch, .. } = run {
        if let Some(fetch_event) = event.for_fetch() {
            lemma_step_keeps_budget(fetch, fetch_event);
        }
    }
}

/// The requests that any events bring about fit the budget that the fetch
/// has left; a run that is past its lookup sends none.
pub proof fn lemma_play_keeps_budget(run: RunView, events: Seq<EventView>)
    requires
        run.wf(),
    ensures
        match run {
            RunView::Fetching { fetch, .. } => fetch.sent + requests(run.play(events))
                <= RETRY_ATTEMPTS,
            _ => requests(run.play(events)) == 0,
        },
    decreases events.len(),
{
    if events.len() > 0 {
        let (next, step) = run.next(events[0]);
        let rest = next.play(events.drop_first());
        lemma_next_keeps_wf(run, events[0]);
        lemma_play_keeps_budget(next, events.drop_first());
        if let RunView::Fetching { fetch, .. } = run {
            if let Some(fetch_event) = events[0].for_fetch() {
                lemma_step_keeps_budget(fetch, fetch_event);
            }
        }
        match step {
            Some(s) => {
                assert((seq![s] + rest).drop_first() =~= rest);
            },
            None => {},
        }
    }
}

/// However the provider answers, a whole run sends at most `RETRY_ATTEMPTS`
/// requests.
pub proof fn lemma_run_send_budget(
    config: ConfigView,
    target: Seq<char>,
    kind: Seq<char>,
    events: Seq<EventView>,
)
    ensures
        requests(RunView::whole(config, target, kind, events)) <= RETRY_ATTEMPTS,
{
    let (run, first) = RunView::started(config, target, kind);
    let rest = run.play(events);
    lemma_play_keeps_budget(run, events);
    assert((seq![first] + rest).drop_first() =~= rest);
}

} // verus!
