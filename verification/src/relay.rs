//! The polling cycle: fetch from the OCR service, relay to the remote service,
//! flush the report, wait out the period.
//!
//! `RelayLoop` decides; the driver acts. The driver sends `Tick` at the moment
//! it records a cycle's start, carries out each action it gets back, and
//! reports the outcome as the next event.

use crate::cadence::{
    cycle_period, lemma_cadence_degradation, lemma_cadence_lower_bound, pause, period_nanos,
    remaining, NANOS_PER_SECOND,
};
use crate::config::{relay_target_of, Config, ConfigError, ConfigView};
use crate::status::{status_text, HttpStatus};
use crate::text::{decimal, render_decimal};
use vstd::prelude::*;
use vstd::string::*;

verus! {

/// The header that carries the credential of a relayed payload.
pub const API_KEY_HEADER: &'static str = "api-key";

/// Where in a cycle the loop stands.
#[derive(Clone, Copy, Debug, PartialEq, Eq, Structural)]
pub enum Phase {
    /// Between cycles.
    Idle,
    /// The OCR request is out.
    Fetching,
    /// The relay request is out.
    Relaying,
    /// The cycle's report is being flushed.
    Flushing,
    /// The loop has ended on a fault.
    Stopped,
}

/// Why the loop ended.
#[derive(Clone, Copy, Debug, PartialEq, Eq, Structural)]
pub enum Fault {
    /// The OCR response's body was no text.
    BodyUndecodable,
    /// The cycle counter has no next value.
    CounterExhausted,
    /// The driver sent an event that the phase does not await.
    OutOfTurn,
}

/// The state of the polling loop.
#[derive(Clone, Debug)]
pub struct RelayLoop {
    ocr_url: String,
    target: String,
    api_key: String,
    period: u64,
    cycle: u64,
    phase: Phase,
}

/// The state of the polling loop as plain values.
pub ghost struct RelayLoopView {
    /// Where the OCR output is fetched.
    pub ocr_url: Seq<char>,
    /// Where it is relayed to.
    pub target: Seq<char>,
    /// The credential sent with it.
    pub api_key: Seq<char>,
    /// The cycle period in nanoseconds.
    pub period: nat,
    /// The number of the cycle that was started last; zero before the first.
    pub cycle: nat,
    /// Where in the cycle the loop stands.
    pub phase: Phase,
}

impl View for RelayLoop {
    type V = RelayLoopView;

    closed spec fn view(&self) -> RelayLoopView {
        RelayLoopView {
            ocr_url: self.ocr_url@,
            target: self.target@,
            api_key: self.api_key@,
            period: self.period as nat,
            cycle: self.cycle as nat,
            phase: self.phase,
        }
    }
}

/// What the driver reports to the loop.
#[derive(Clone, Debug, PartialEq, Eq)]
pub enum RelayEvent {
    /// A cycle starts now.
    Tick,
    /// The OCR service answered; `body` is `None` where its body was no text.
    Fetched { status: HttpStatus, body: Option<String> },
    /// The OCR request failed in transport.
    FetchFailed { error: String },
    /// The remote service answered the relay.
    Relayed { status: HttpStatus },
    /// The relay request failed in transport.
    RelayFailed { error: String },
    /// The report is flushed, `elapsed` nanoseconds after the cycle's start.
    Flushed { elapsed: u128 },
}

/// An event as plain values.
pub ghost enum RelayEventView {
    Tick,
    Fetched { status: u16, body: Option<Seq<char>> },
    FetchFailed { error: Seq<char> },
    Relayed { status: u16 },
    RelayFailed { error: Seq<char> },
    Flushed { elapsed: nat },
}

impl View for RelayEvent {
    type V = RelayEventView;

    open spec fn view(&self) -> RelayEventView {
        match *self {
            RelayEvent::Tick => RelayEventView::Tick,
            RelayEvent::Fetched { status, body } => RelayEventView::Fetched {
                status: status.code(),
                body: match body {
                    Some(text) => Some(text@),
                    None => None,
                },
            },
            RelayEvent::FetchFailed { error } => RelayEventView::FetchFailed { error: error@ },
            RelayEvent::Relayed { status } => RelayEventView::Relayed { status: status.code() },
            RelayEvent::RelayFailed { error } => RelayEventView::RelayFailed { error: error@ },
            RelayEvent::Flushed { elapsed } => RelayEventView::Flushed { elapsed: elapsed as nat },
        }
    }
}

/// What the driver is to do next.
#[derive(Clone, Debug, PartialEq, Eq)]
pub enum RelayAction {
    /// GET `url`, with no timeout.
    Fetch { url: String },
    /// POST `body` to `url` with `api_key` in the header `API_KEY_HEADER`.
    Relay { url: String, api_key: String, body: String },
    /// Flush the report written so far.
    Flush,
    /// Suspend for `nanos` nanoseconds, then start the next cycle.
    Sleep { nanos: u64 },
    /// Start the next cycle at once.
    Proceed,
    /// End the process with a failure.
    Abort { fault: Fault },
}

/// An action as plain values.
pub ghost enum RelayActionView {
    Fetch { url: Seq<char> },
    Relay { url: Seq<char>, api_key: Seq<char>, body: Seq<char> },
    Flush,
    Sleep { nanos: nat },
    Proceed,
    Abort { fault: Fault },
}

impl View for RelayAction {
    type V = RelayActionView;

    open spec fn view(&self) -> RelayActionView {
        match *self {
            RelayAction::Fetch { url } => RelayActionView::Fetch { url: url@ },
            RelayAction::Relay { url, api_key, body } => RelayActionView::Relay {
                url: url@,
                api_key: api_key@,
                body: body@,
            },
            RelayAction::Flush => RelayActionView::Flush,
            RelayAction::Sleep { nanos } => RelayActionView::Sleep { nanos: nanos as nat },
            RelayAction::Proceed => RelayActionView::Proceed,
            RelayAction::Abort { fault } => RelayActionView::Abort { fault },
        }
    }
}

/// What one event leads to: text for the report, and the next action.
#[derive(Clone, Debug, PartialEq, Eq)]
pub struct RelayStep {
    /// Text to write to the output, before the action is carried out.
    pub report: String,
    /// What to do next.
    pub action: RelayAction,
}

/// A step as plain values.
pub ghost struct RelayStepView {
    pub report: Seq<char>,
    pub action: RelayActionView,
}

impl View for RelayStep {
    type V = RelayStepView;

    open spec fn view(&self) -> RelayStepView {
        RelayStepView { report: self.report@, action: self.action@ }
    }
}

/// The line that opens the report of cycle `cycle`.
pub open spec fn cycle_header(cycle: nat) -> Seq<char> {
    "\n("@ + decimal(cycle) + ")\n"@
}

/// The lines that report an answer of the OCR service.
pub open spec fn fetch_report(status: u16, ocr_url: Seq<char>, target: Seq<char>) -> Seq<char> {
    status_text(status) + " from "@ + ocr_url + "\nSending OCR data to "@ + target + "\n"@
}

/// The line that reports an answer of the remote service.
pub open spec fn relay_report(status: u16, target: Seq<char>) -> Seq<char> {
    status_text(status) + " from "@ + target + "\n"@
}

/// The line that reports a transport failure.
pub open spec fn failure_report(error: Seq<char>) -> Seq<char> {
    error + "\n"@
}

/// The loop after a fault, and the step that reports it.
pub open spec fn halted(pre: RelayLoopView, report: Seq<char>, fault: Fault) -> (
    RelayLoopView,
    RelayStepView,
) {
    (
        RelayLoopView { phase: Phase::Stopped, ..pre },
        RelayStepView { report, action: RelayActionView::Abort { fault } },
    )
}

/// The loop as it starts on a configuration: idle, before its first cycle.
pub open spec fn initial(config: ConfigView) -> RelayLoopView {
    RelayLoopView {
        ocr_url: config.ocr_url,
        target: relay_target_of(config.froggi_url),
        api_key: config.api_key,
        period: period_nanos(config.updates_per_second as nat),
        cycle: 0,
        phase: Phase::Idle,
    }
}

/// The loop's rule: the state and the step that follow from a state and an
/// event.
pub open spec fn transition(pre: RelayLoopView, event: RelayEventView) -> (
    RelayLoopView,
    RelayStepView,
) {
    match (pre.phase, event) {
        (Phase::Idle, RelayEventView::Tick) => if pre.cycle < u64::MAX {
            (
                RelayLoopView { cycle: pre.cycle + 1, phase: Phase::Fetching, ..pre },
                RelayStepView {
                    report: cycle_header(pre.cycle + 1),
                    action: RelayActionView::Fetch { url: pre.ocr_url },
                },
            )
        } else {
            halted(pre, Seq::empty(), Fault::CounterExhausted)
        },
        (Phase::Fetching, RelayEventView::Fetched { status, body: Some(text) }) => (
            RelayLoopView { phase: Phase::Relaying, ..pre },
            RelayStepView {
                report: fetch_report(status, pre.ocr_url, pre.target),
                action: RelayActionView::Relay {
                    url: pre.target,
                    api_key: pre.api_key,
                    body: text,
                },
            },
        ),
        (Phase::Fetching, RelayEventView::Fetched { status, body: None }) => halted(
            pre,
            fetch_report(status, pre.ocr_url, pre.target),
            Fault::BodyUndecodable,
        ),
        (Phase::Fetching, RelayEventView::FetchFailed { error }) => (
            RelayLoopView { phase: Phase::Flushing, ..pre },
            RelayStepView { report: failure_report(error), action: RelayActionView::Flush },
        ),
        (Phase::Relaying, RelayEventView::Relayed { status }) => (
            RelayLoopView { phase: Phase::Flushing, ..pre },
            RelayStepView {
                report: relay_report(status, pre.target),
                action: RelayActionView::Flush,
            },
        ),
        (Phase::Relaying, RelayEventView::RelayFailed { error }) => (
            RelayLoopView { phase: Phase::Flushing, ..pre },
            RelayStepView { report: failure_report(error), action: RelayActionView::Flush },
        ),
        (Phase::Flushing, RelayEventView::Flushed { elapsed }) => (
            RelayLoopView { phase: Phase::Idle, ..pre },
            RelayStepView {
                report: Seq::empty(),
                action: match pause(pre.period, elapsed) {
                    Some(nanos) => RelayActionView::Sleep { nanos },
                    None => RelayActionView::Proceed,
                },
            },
        ),
        _ => halted(pre, Seq::empty(), Fault::OutOfTurn),
    }
}

/// A transport failure of the fetch leads straight to the flush, and the flush
/// to the wait: nothing is relayed in that cycle.
pub proof fn lemma_fetch_failure_skips_relay(pre: RelayLoopView, error: Seq<char>, elapsed: nat)
    requires
        pre.phase == Phase::Fetching,
    ensures
        ({
            let (mid, first) = transition(pre, RelayEventView::FetchFailed { error });
            let (end, second) = transition(mid, RelayEventView::Flushed { elapsed });
            &&& first.action == RelayActionView::Flush
            &&& first.report == failure_report(error)
            &&& mid.phase == Phase::Flushing
            &&& end.phase == Phase::Idle
            &&& end.cycle == pre.cycle
            &&& second.action == match pause(pre.period, elapsed) {
                Some(nanos) => RelayActionView::Sleep { nanos },
                None => RelayActionView::Proceed,
            }
        }),
{
}

/// A payload is relayed only in answer to a fetched body.
pub proof fn lemma_relay_follows_fetch(pre: RelayLoopView, event: RelayEventView)
    ensures
        transition(pre, event).1.action is Relay <==> pre.phase == Phase::Fetching && (
        event matches RelayEventView::Fetched { body: Some(_), .. }),
{
}

/// What is relayed is the fetched body, unchanged, sent to the configured
/// target with the configured key.
pub proof fn lemma_relay_is_verbatim(pre: RelayLoopView, status: u16, text: Seq<char>)
    requires
        pre.phase == Phase::Fetching,
    ensures
        transition(pre, RelayEventView::Fetched { status, body: Some(text) }).1.action == (
        RelayActionView::Relay { url: pre.target, api_key: pre.api_key, body: text }),
{
}

/// A cycle in which both services answer: one fetch, one relay of the fetched
/// body, one flush, then the wait. The loop is idle again with the counter
/// one higher, and the report names the cycle and both statuses.
pub proof fn lemma_full_cycle(
    pre: RelayLoopView,
    fetched: u16,
    text: Seq<char>,
    relayed: u16,
    elapsed: nat,
)
    requires
        pre.phase == Phase::Idle,
        pre.cycle < u64::MAX,
    ensures
        ({
            let (a, first) = transition(pre, RelayEventView::Tick);
            let (b, second) = transition(
                a,
                RelayEventView::Fetched { status: fetched, body: Some(text) },
            );
            let (c, third) = transition(b, RelayEventView::Relayed { status: relayed });
            let (d, fourth) = transition(c, RelayEventView::Flushed { elapsed });
            &&& first.action == RelayActionView::Fetch { url: pre.ocr_url }
            &&& second.action == RelayActionView::Relay {
                url: pre.target,
                api_key: pre.api_key,
                body: text,
            }
            &&& third.action == RelayActionView::Flush
            &&& fourth.action == match pause(pre.period, elapsed) {
                Some(nanos) => RelayActionView::Sleep { nanos },
                None => RelayActionView::Proceed,
            }
            &&& d == RelayLoopView { cycle: pre.cycle + 1, ..pre }
            &&& first.report + second.report + third.report + fourth.report == cycle_header(
                pre.cycle + 1,
            ) + fetch_report(fetched, pre.ocr_url, pre.target) + relay_report(relayed, pre.target)
        }),
{
    let report = cycle_header(pre.cycle + 1) + fetch_report(fetched, pre.ocr_url, pre.target)
        + relay_report(relayed, pre.target);
    assert(report + Seq::<char>::empty() =~= report);
}

/// No event changes what the loop was configured with, and the cycle counter
/// never falls: it rises by one on the tick that starts a cycle.
pub proof fn lemma_configuration_is_fixed(pre: RelayLoopView, event: RelayEventView)
    ensures
        ({
            let post = transition(pre, event).0;
            &&& post.ocr_url == pre.ocr_url
            &&& post.target == pre.target
            &&& post.api_key == pre.api_key
            &&& post.period == pre.period
            &&& post.cycle >= pre.cycle
            &&& post.cycle == pre.cycle + 1 <==> transition(pre, event).1.action is Fetch
            &&& post.cycle == pre.cycle || post.cycle == pre.cycle + 1
        }),
{
}

/// After the flush of a cycle that took less than `1 / rate` seconds the loop
/// sleeps, and cycle and sleep together last at least `1 / rate` seconds;
/// after a longer cycle the next one starts at once.
pub proof fn lemma_cycle_cadence(pre: RelayLoopView, rate: nat, elapsed: nat)
    requires
        rate > 0,
        pre.phase == Phase::Flushing,
        pre.period == period_nanos(rate),
    ensures
        ({
            let action = transition(pre, RelayEventView::Flushed { elapsed }).1.action;
            &&& elapsed * rate < NANOS_PER_SECOND ==> (action matches RelayActionView::Sleep {
                nanos,
            } && (elapsed + nanos) * rate >= NANOS_PER_SECOND)
            &&& elapsed * rate >= NANOS_PER_SECOND ==> action == RelayActionView::Proceed
        }),
{
    if elapsed * rate < NANOS_PER_SECOND {
        lemma_cadence_lower_bound(rate, elapsed);
    } else {
        lemma_cadence_degradation(rate, elapsed);
    }
}

impl RelayLoop {
    /// The loop for a configuration, idle before its first cycle. A
    /// configuration whose rate is zero has no period and is refused.
    pub fn new(config: Config) -> (made: Result<RelayLoop, ConfigError>)
        ensures
            made is Ok <==> config@.well_formed(),
            made matches Ok(relay) ==> relay@ == initial(config@),
            made matches Err(error) ==> error == ConfigError::ZeroRate,
    {
        match cycle_period(config.updates_per_second) {
            Some(period) => {
                let target = config.relay_target();
                Ok(
                    RelayLoop {
                        ocr_url: config.ocr_url,
                        target,
                        api_key: config.api_key,
                        period,
                        cycle: 0,
                        phase: Phase::Idle,
                    },
                )
            },
            None => Err(ConfigError::ZeroRate),
        }
    }

    /// Where in the cycle the loop stands.
    pub fn phase(&self) -> (phase: Phase)
        ensures
            phase == self@.phase,
    {
        self.phase
    }

    /// The number of the cycle that was started last.
    pub fn cycle(&self) -> (cycle: u64)
        ensures
            cycle == self@.cycle,
    {
        self.cycle
    }

    /// The cycle period in nanoseconds.
    pub fn period(&self) -> (period: u64)
        ensures
            period == self@.period,
    {
        self.period
    }

    fn halt(&mut self, report: String, fault: Fault) -> (step: RelayStep)
        ensures
            (final(self)@, step@) == halted(old(self)@, report@, fault),
    {
        self.phase = Phase::Stopped;
        RelayStep { report, action: RelayAction::Abort { fault } }
    }

    fn report_fetch(&self, status: HttpStatus) -> (report: String)
        ensures
            report@ == fetch_report(status.code(), self@.ocr_url, self@.target),
    {
        let mut report = status.text();
        report.append(" from ");
        report.append(self.ocr_url.as_str());
        report.append("\nSending OCR data to ");
        report.append(self.target.as_str());
        report.append("\n");
        report
    }

    fn report_relay(&self, status: HttpStatus) -> (report: String)
        ensures
            report@ == relay_report(status.code(), self@.target),
    {
        let mut report = status.text();
        report.append(" from ");
        report.append(self.target.as_str());
        report.append("\n");
        report
    }

    /// Takes one event: moves the loop on and says what to report and what to
    /// do next, as `transition` rules.
    pub fn step(&mut self, event: RelayEvent) -> (step: RelayStep)
        ensures
            (final(self)@, step@) == transition(old(self)@, event@),
    {
        match (self.phase, event) {
            (Phase::Idle, RelayEvent::Tick) => {
                if self.cycle < u64::MAX {
                    self.cycle = self.cycle + 1;
                    self.phase = Phase::Fetching;
                    let mut report = String::from_str("\n(");
                    report.append(render_decimal(self.cycle).as_str());
                    report.append(")\n");
                    RelayStep { report, action: RelayAction::Fetch { url: self.ocr_url.clone() } }
                } else {
                    self.halt(String::new(), Fault::CounterExhausted)
                }
            },
            (Phase::Fetching, RelayEvent::Fetched { status, body: Some(text) }) => {
                let report = self.report_fetch(status);
                self.phase = Phase::Relaying;
                RelayStep {
                    report,
                    action: RelayAction::Relay {
                        url: self.target.clone(),
                        api_key: self.api_key.clone(),
                        body: text,
                    },
                }
            },
            (Phase::Fetching, RelayEvent::Fetched { status, body: None }) => {
                let report = self.report_fetch(status);
                self.halt(report, Fault::BodyUndecodable)
            },
            (Phase::Fetching, RelayEvent::FetchFailed { error }) => {
                let mut report = error;
                report.append("\n");
                self.phase = Phase::Flushing;
                RelayStep { report, action: RelayAction::Flush }
            },
            (Phase::Relaying, RelayEvent::Relayed { status }) => {
                let report = self.report_relay(status);
                self.phase = Phase::Flushing;
                RelayStep { report, action: RelayAction::Flush }
            },
            (Phase::Relaying, RelayEvent::RelayFailed { error }) => {
                let mut report = error;
                report.append("\n");
                self.phase = Phase::Flushing;
                RelayStep { report, action: RelayAction::Flush }
            },
            (Phase::Flushing, RelayEvent::Flushed { elapsed }) => {
                self.phase = Phase::Idle;
                let action = match remaining(self.period, elapsed) {
                    Some(nanos) => RelayAction::Sleep { nanos },
                    None => RelayAction::Proceed,
                };
                RelayStep { report: String::new(), action }
            },
            _ => self.halt(String::new(), Fault::OutOfTurn),
        }
    }
}

/// The diagnostic for a fault.
pub fn fault_message(fault: Fault) -> (text: &'static str)
    ensures
        text@ == match fault {
            Fault::BodyUndecodable => "Could not cast ocr response body"@,
            Fault::CounterExhausted => "Cycle counter exhausted"@,
            Fault::OutOfTurn => "Event out of turn"@,
        },
{
    match fault {
        Fault::BodyUndecodable => "Could not cast ocr response body",
        Fault::CounterExhausted => "Cycle counter exhausted",
        Fault::OutOfTurn => "Event out of turn",
    }
}

} // verus!
