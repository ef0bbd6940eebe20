//! The self-poller: wait for the interval, send one trigger to the local
//! endpoint, log what came of it, and wait again, for as long as the process
//! lives.

use vstd::prelude::*;
use vstd::string::*;
use crate::config::{trigger_url_of, ServiceConfig, ServiceConfigView};
use crate::text::{decimal, decimal_u64};

verus! {

/// What one trigger request to the local endpoint came to.
#[derive(Debug, Clone, PartialEq, Eq)]
pub enum SendOutcome {
    /// The HTTP client could not be set up.
    NoClient,
    /// The request could not be delivered, or no response came back.
    Failed {
        /// The transport's description of what went wrong.
        reason: String,
    },
    /// A response came back.
    Answered {
        /// The status code of the response.
        status_code: u16,
        /// The body of the response, as far as it could be read.
        body: String,
    },
}

/// The mathematical content of a [`SendOutcome`].
pub enum SendOutcomeView {
    NoClient,
    Failed { reason: Seq<char> },
    Answered { status_code: nat, body: Seq<char> },
}

impl View for SendOutcome {
    type V = SendOutcomeView;

    open spec fn view(&self) -> SendOutcomeView {
        match self {
            SendOutcome::NoClient => SendOutcomeView::NoClient,
            SendOutcome::Failed { reason } => SendOutcomeView::Failed { reason: reason@ },
            SendOutcome::Answered { status_code, body } => SendOutcomeView::Answered {
                status_code: *status_code as nat,
                body: body@,
            },
        }
    }
}

/// How much a log line matters.
#[derive(Debug, Clone, Copy, PartialEq, Eq)]
pub enum Severity {
    /// Something went as it should.
    Info,
    /// Something failed.
    Error,
}

/// One line for the log.
#[derive(Debug, Clone, PartialEq, Eq)]
pub struct LogLine {
    /// The level to log at.
    pub severity: Severity,
    /// The text to log.
    pub text: String,
}

/// The mathematical content of a [`LogLine`].
pub struct LogLineView {
    pub severity: Severity,
    pub text: Seq<char>,
}

impl View for LogLine {
    type V = LogLineView;

    open spec fn view(&self) -> LogLineView {
        LogLineView { severity: self.severity, text: self.text@ }
    }
}

/// Tells whether a status code reports success: 200 to 299.
pub open spec fn is_success(status_code: nat) -> bool {
    200 <= status_code < 300
}

/// The log line for the outcome of one trigger request: the body of a
/// successful response as information, everything else as an error.
pub open spec fn report_of(outcome: SendOutcomeView) -> LogLineView {
    match outcome {
        SendOutcomeView::NoClient => LogLineView {
            severity: Severity::Error,
            text: "HTTP thread error: Error creating HTTP client"@,
        },
        SendOutcomeView::Failed { reason } => LogLineView {
            severity: Severity::Error,
            text: "HTTP thread error: Client failed to send command: "@ + reason,
        },
        SendOutcomeView::Answered { status_code, body } => if is_success(status_code) {
            LogLineView {
                severity: Severity::Info,
                text: "Client succeeded in sending command, body: "@ + body,
            }
        } else {
            LogLineView {
                severity: Severity::Error,
                text:
                    "HTTP thread error: Client succeeded in sending command, but returned status code: "@
                    + decimal(status_code),
            }
        },
    }
}

/// Writes the log line for the outcome of one trigger request.
pub fn report(outcome: &SendOutcome) -> (line: LogLine)
    ensures
        line@ == report_of(outcome@),
{
    match outcome {
        SendOutcome::NoClient => LogLine {
            severity: Severity::Error,
            text: String::from_str("HTTP thread error: Error creating HTTP client"),
        },
        SendOutcome::Failed { reason } => {
            let mut text = String::from_str("HTTP thread error: Client failed to send command: ");
            text.append(reason.as_str());
            LogLine { severity: Severity::Error, text }
        },
        SendOutcome::Answered { status_code, body } => {
            if 200 <= *status_code && *status_code < 300 {
                let mut text = String::from_str("Client succeeded in sending command, body: ");
                text.append(body.as_str());
                LogLine { severity: Severity::Info, text }
            } else {
                let mut text = String::from_str(
                    "HTTP thread error: Client succeeded in sending command, but returned status code: ",
                );
                let code = decimal_u64(*status_code as u64);
                text.append(code.as_str());
                LogLine { severity: Severity::Error, text }
            }
        },
    }
}

/// Where the self-poller stands in its cycle.
#[derive(Debug, Clone, Copy, PartialEq, Eq)]
pub enum PollerState {
    /// Sleeping until the next trigger is due.
    Waiting,
    /// A trigger request is on its way.
    Sending,
}

/// What the driver of the self-poller reports back.
#[derive(Debug, Clone, PartialEq, Eq)]
pub enum PollerEvent {
    /// The sleep is over.
    Elapsed,
    /// The trigger request is done.
    Sent(SendOutcome),
}

/// What the driver of the self-poller has to do next.
#[derive(Debug, Clone, PartialEq, Eq)]
pub enum PollerAction {
    /// Sleep for this many milliseconds.
    Sleep {
        millis: u64,
    },
    /// Send a `POST` request without a body to this URL.
    Post {
        url: String,
    },
}

/// The mathematical content of a [`PollerAction`].
pub enum PollerActionView {
    Sleep { millis: nat },
    Post { url: Seq<char> },
}

impl View for PollerAction {
    type V = PollerActionView;

    open spec fn view(&self) -> PollerActionView {
        match self {
            PollerAction::Sleep { millis } => PollerActionView::Sleep { millis: *millis as nat },
            PollerAction::Post { url } => PollerActionView::Post { url: url@ },
        }
    }
}

/// One step of the self-poller.
#[derive(Debug, Clone, PartialEq, Eq)]
pub struct PollerStep {
    /// The state after the step.
    pub state: PollerState,
    /// What to do next.
    pub action: PollerAction,
    /// What to log before doing it, if anything.
    pub log: Option<LogLine>,
}

/// The mathematical content of a [`PollerStep`].
pub struct PollerStepView {
    pub state: PollerState,
    pub action: PollerActionView,
    pub log: Option<LogLineView>,
}

impl View for PollerStep {
    type V = PollerStepView;

    open spec fn view(&self) -> PollerStepView {
        PollerStepView {
            state: self.state,
            action: self.action@,
            log: match self.log {
                Some(line) => Some(line@),
                None => None,
            },
        }
    }
}

/// Tells whether `event` can happen in `state`: the sleep ends while
/// waiting, the request is done while sending.
pub open spec fn expected(state: PollerState, event: PollerEvent) -> bool {
    match (state, event) {
        (PollerState::Waiting, PollerEvent::Elapsed) => true,
        (PollerState::Sending, PollerEvent::Sent(_)) => true,
        _ => false,
    }
}

/// The step that the self-poller takes on an event that can happen in its
/// state. When the sleep ends it sends the trigger; when the request is
/// done, however it ended, it logs the outcome and sleeps for the configured
/// interval again.
pub open spec fn step_of(state: PollerState, event: PollerEvent, config: ServiceConfigView) -> PollerStepView
    recommends
        expected(state, event),
{
    match event {
        PollerEvent::Elapsed => PollerStepView {
            state: PollerState::Sending,
            action: PollerActionView::Post { url: trigger_url_of(config.port) },
            log: None,
        },
        PollerEvent::Sent(outcome) => PollerStepView {
            state: PollerState::Waiting,
            action: PollerActionView::Sleep { millis: config.interval },
            log: Some(report_of(outcome@)),
        },
    }
}

/// The self-poller never comes to rest and never hurries. In each state an
/// event can happen; the step on it leads to the other state; after the
/// sleep the trigger is sent to the local endpoint, and after the request,
/// however it ended, the outcome is logged and the next sleep lasts the
/// configured interval.
pub proof fn lemma_poller_keeps_cycling(
    state: PollerState,
    event: PollerEvent,
    config: ServiceConfigView,
)
    requires
        expected(state, event),
    ensures
        expected(PollerState::Waiting, PollerEvent::Elapsed),
        forall|outcome: SendOutcome| #[trigger]
            expected(PollerState::Sending, PollerEvent::Sent(outcome)),
        step_of(state, event, config).state != state,
        state == PollerState::Waiting ==> {
            &&& step_of(state, event, config).action == (PollerActionView::Post {
                url: trigger_url_of(config.port),
            })
            &&& step_of(state, event, config).log is None
        },
        state == PollerState::Sending ==> {
            &&& step_of(state, event, config).action == (PollerActionView::Sleep {
                millis: config.interval,
            })
            &&& step_of(state, event, config).log is Some
        },
{
}

/// How the self-poller begins: waiting, about to sleep for the configured
/// interval.
pub fn poller_start(config: &ServiceConfig) -> (step: PollerStep)
    ensures
        step@ == (PollerStepView {
            state: PollerState::Waiting,
            action: PollerActionView::Sleep { millis: config@.interval },
            log: None,
        }),
{
    PollerStep {
        state: PollerState::Waiting,
        action: PollerAction::Sleep { millis: config.interval_millis() },
        log: None,
    }
}

/// Takes one step of the self-poller. Returns `None` exactly when `event`
/// cannot happen in `state`.
pub fn poller_step(state: PollerState, event: PollerEvent, config: &ServiceConfig) -> (step:
    Option<PollerStep>)
    ensures
        expected(state, event) <==> step is Some,
        step matches Some(taken) ==> taken@ == step_of(state, event, config@),
{
    match (state, event) {
        (PollerState::Waiting, PollerEvent::Elapsed) => Some(
            PollerStep {
                state: PollerState::Sending,
                action: PollerAction::Post { url: config.trigger_url() },
                log: None,
            },
        ),
        (PollerState::Sending, PollerEvent::Sent(outcome)) => Some(
            PollerStep {
                state: PollerState::Waiting,
                action: PollerAction::Sleep { millis: config.interval_millis() },
                log: Some(report(&outcome)),
            },
        ),
        _ => None,
    }
}

} // verus!
