//! First-run setup: the operator names the remote service and a key, both are
//! checked against the service, and the configuration is handed out to be
//! written.
//!
//! `Bootstrap` decides; the driver reads the lines, sends the requests and
//! writes the file, and reports each outcome as the next event.

use crate::config::{key_check_target, key_check_target_of, Config, ConfigView};
use crate::status::HttpStatus;
use crate::text::{trim, trimmed};
use crate::url::{
    classify, declines, is_decline, lemma_normalized_scheme, normalize, normalized, scheme_of,
    Scheme,
};
use vstd::prelude::*;
use vstd::string::*;

verus! {

/// Seconds after which a probe is given up.
pub const PROBE_TIMEOUT_SECS: u64 = 10;

/// Where the setup stands.
#[derive(Clone, Debug, PartialEq, Eq)]
pub enum Bootstrap {
    /// The operator is to type the remote address.
    AwaitingUrl,
    /// The operator typed the `http://` address `url` and is asked whether to
    /// switch to `https://`.
    AwaitingConsent { url: String },
    /// The probe of `url` is out.
    Probing { url: String },
    /// `url` is accepted; the operator is to type the key.
    AwaitingKey { url: String },
    /// The check of `key` is out.
    CheckingKey { url: String, key: String },
    /// The configuration is handed out to be written.
    Persisting,
    /// The configuration is written.
    Done,
    /// The setup has ended on a fault.
    Failed,
}

/// The setup's state as plain values.
pub ghost enum BootstrapView {
    AwaitingUrl,
    AwaitingConsent { url: Seq<char> },
    Probing { url: Seq<char> },
    AwaitingKey { url: Seq<char> },
    CheckingKey { url: Seq<char>, key: Seq<char> },
    Persisting,
    Done,
    Failed,
}

impl View for Bootstrap {
    type V = BootstrapView;

    open spec fn view(&self) -> BootstrapView {
        match *self {
            Bootstrap::AwaitingUrl => BootstrapView::AwaitingUrl,
            Bootstrap::AwaitingConsent { url } => BootstrapView::AwaitingConsent { url: url@ },
            Bootstrap::Probing { url } => BootstrapView::Probing { url: url@ },
            Bootstrap::AwaitingKey { url } => BootstrapView::AwaitingKey { url: url@ },
            Bootstrap::CheckingKey { url, key } => BootstrapView::CheckingKey {
                url: url@,
                key: key@,
            },
            Bootstrap::Persisting => BootstrapView::Persisting,
            Bootstrap::Done => BootstrapView::Done,
            Bootstrap::Failed => BootstrapView::Failed,
        }
    }
}

/// What the driver reports to the setup.
#[derive(Clone, Debug, PartialEq, Eq)]
pub enum BootstrapEvent {
    /// A line that the operator typed, as it was read.
    Line(String),
    /// The probe's outcome: the status of the answer, or `None` where the
    /// request failed or timed out.
    Probed(Option<HttpStatus>),
    /// The key check's outcome: the status of the answer, or `None` where the
    /// request failed.
    KeyChecked(Option<HttpStatus>),
    /// The configuration is written.
    Persisted,
}

/// An event as plain values.
pub ghost enum BootstrapEventView {
    Line(Seq<char>),
    Probed(Option<u16>),
    KeyChecked(Option<u16>),
    Persisted,
}

/// The code of a status that may be missing.
pub open spec fn code_of(status: Option<HttpStatus>) -> Option<u16> {
    match status {
        Some(status) => Some(status.code()),
        None => None,
    }
}

impl View for BootstrapEvent {
    type V = BootstrapEventView;

    open spec fn view(&self) -> BootstrapEventView {
        match *self {
            BootstrapEvent::Line(line) => BootstrapEventView::Line(line@),
            BootstrapEvent::Probed(status) => BootstrapEventView::Probed(code_of(status)),
            BootstrapEvent::KeyChecked(status) => BootstrapEventView::KeyChecked(code_of(status)),
            BootstrapEvent::Persisted => BootstrapEventView::Persisted,
        }
    }
}

/// Why the setup ended.
#[derive(Clone, Copy, Debug, PartialEq, Eq, Structural)]
pub enum BootstrapFault {
    /// The key check could not be sent or got no answer.
    KeyCheckUnreachable,
    /// The driver sent an event that the state does not await.
    OutOfTurn,
}

/// What the driver is to do next.
#[derive(Clone, Debug, PartialEq, Eq)]
pub enum BootstrapAction {
    /// Read a line from the operator.
    ReadLine,
    /// Send `HEAD url` and give up after `timeout_secs` seconds.
    Probe { url: String, timeout_secs: u64 },
    /// Send `POST target`, with no timeout.
    CheckKey { target: String },
    /// Write `config`.
    Persist { config: Config },
    /// End the process with success.
    Finish,
    /// End the process with a failure.
    Abort { fault: BootstrapFault },
}

/// An action as plain values.
pub ghost enum BootstrapActionView {
    ReadLine,
    Probe { url: Seq<char>, timeout_secs: u64 },
    CheckKey { target: Seq<char> },
    Persist { config: ConfigView },
    Finish,
    Abort { fault: BootstrapFault },
}

impl View for BootstrapAction {
    type V = BootstrapActionView;

    open spec fn view(&self) -> BootstrapActionView {
        match *self {
            BootstrapAction::ReadLine => BootstrapActionView::ReadLine,
            BootstrapAction::Probe { url, timeout_secs } => BootstrapActionView::Probe {
                url: url@,
                timeout_secs,
            },
            BootstrapAction::CheckKey { target } => BootstrapActionView::CheckKey {
                target: target@,
            },
            BootstrapAction::Persist { config } => BootstrapActionView::Persist {
                config: config@,
            },
            BootstrapAction::Finish => BootstrapActionView::Finish,
            BootstrapAction::Abort { fault } => BootstrapActionView::Abort { fault },
        }
    }
}

/// What one event leads to.
#[derive(Clone, Debug, PartialEq, Eq)]
pub struct BootstrapStep {
    /// Where the setup stands now.
    pub state: Bootstrap,
    /// Text to show the operator, before the action is carried out.
    pub notice: String,
    /// What to do next.
    pub action: BootstrapAction,
}

/// A step as plain values.
pub ghost struct BootstrapStepView {
    pub state: BootstrapView,
    pub notice: Seq<char>,
    pub action: BootstrapActionView,
}

impl View for BootstrapStep {
    type V = BootstrapStepView;

    open spec fn view(&self) -> BootstrapStepView {
        BootstrapStepView { state: self.state@, notice: self.notice@, action: self.action@ }
    }
}

/// The only status that accepts an address or a key.
pub const ACCEPTED_STATUS: u16 = 200;

/// What the operator is told first.
pub open spec fn greeting() -> Seq<char> {
    "It looks like froggi-ocr hasn't been set up yet, starting config process now...\nEnsure froggi is LAN or WAN accessible and type in its URL\n\n"@
}

/// Shown when an `https://` address is probed as typed.
pub open spec fn testing_notice() -> Seq<char> {
    "Testing connection with froggi...\n"@
}

/// Shown when the operator typed an `http://` address: the warning and the question whether to switch.
pub open spec fn plain_warning() -> Seq<char> {
    "It looks like the  url uses http (unencrypted) instead of https (encrypted). Sending API keys over http is discouraged and a bad security practice. Unless this is 100% intentional, https should be used.\nSwitch to https? (Y or n)\n\n"@
}

/// Shown when the operator keeps an `http://` address.
pub open spec fn keep_plain_notice() -> Seq<char> {
    "Using http anyway\nTesting connection with froggi...\n"@
}

/// Shown when an `http://` address is upgraded.
pub open spec fn upgrade_notice() -> Seq<char> {
    "Using https\nTesting connection with froggi...\n"@
}

/// Shown when `https://` was put before what the operator typed; `url` is the result.
pub open spec fn prefixed_notice(url: Seq<char>) -> Seq<char> {
    "Using https ("@ + url + ")\nTesting connection with froggi...\n"@
}

/// Shown when the probe was answered with the accepted status: the success, and the question for the key.
pub open spec fn reachable_notice() -> Seq<char> {
    "Connection with froggi successful! Adding to config...\n\nWhat is the API key for froggi?\n\n"@
}

/// Shown when the probe was answered with another status.
pub open spec fn unreachable_notice() -> Seq<char> {
    "Connection with froggi unsuccessful, try again\n\n"@
}

/// Shown when a key is sent to be checked.
pub open spec fn key_testing_notice() -> Seq<char> {
    "Testing API key...\n"@
}

/// Shown when the key was accepted and the configuration is handed out.
pub open spec fn key_valid_notice() -> Seq<char> {
    "API key valid! Adding to config...\n\nWriting config to config.json...\n"@
}

/// Shown when the key was turned down.
pub open spec fn key_invalid_notice() -> Seq<char> {
    "API key invalid, try again\n\n"@
}

/// Shown when the configuration is written.
pub open spec fn written_notice() -> Seq<char> {
    "Config written successfully!\n"@
}

/// The step that opens the setup.
pub open spec fn opening() -> BootstrapStepView {
    BootstrapStepView {
        state: BootstrapView::AwaitingUrl,
        notice: greeting(),
        action: BootstrapActionView::ReadLine,
    }
}

/// The step that ends the setup on a fault.
pub open spec fn failed(fault: BootstrapFault) -> BootstrapStepView {
    BootstrapStepView {
        state: BootstrapView::Failed,
        notice: Seq::empty(),
        action: BootstrapActionView::Abort { fault },
    }
}

/// The step that sends the probe of `url`.
pub open spec fn probing(url: Seq<char>, notice: Seq<char>) -> BootstrapStepView {
    BootstrapStepView {
        state: BootstrapView::Probing { url },
        notice,
        action: BootstrapActionView::Probe { url, timeout_secs: PROBE_TIMEOUT_SECS },
    }
}

/// The step that asks the operator for another line.
pub open spec fn asking(state: BootstrapView, notice: Seq<char>) -> BootstrapStepView {
    BootstrapStepView { state, notice, action: BootstrapActionView::ReadLine }
}

/// The setup's rule: the step that follows from a state and an event.
pub open spec fn advance(pre: BootstrapView, event: BootstrapEventView) -> BootstrapStepView {
    match (pre, event) {
        (BootstrapView::AwaitingUrl, BootstrapEventView::Line(line)) => {
            let url = trimmed(line);
            match scheme_of(url) {
                Scheme::Secure => probing(url, testing_notice()),
                Scheme::Plain => asking(
                    BootstrapView::AwaitingConsent { url },
                    plain_warning(),
                ),
                Scheme::Absent => probing(
                    normalized(url, false),
                    prefixed_notice(normalized(url, false)),
                ),
            }
        },
        (BootstrapView::AwaitingConsent { url }, BootstrapEventView::Line(answer)) => {
            if declines(answer) {
                probing(normalized(url, true), keep_plain_notice())
            } else {
                probing(normalized(url, false), upgrade_notice())
            }
        },
        (BootstrapView::Probing { url }, BootstrapEventView::Probed(Some(code))) => {
            if code == ACCEPTED_STATUS {
                asking(BootstrapView::AwaitingKey { url }, reachable_notice())
            } else {
                asking(BootstrapView::AwaitingUrl, unreachable_notice())
            }
        },
        (BootstrapView::Probing { url }, BootstrapEventView::Probed(None)) => asking(
            BootstrapView::AwaitingUrl,
            Seq::empty(),
        ),
        (BootstrapView::AwaitingKey { url }, BootstrapEventView::Line(line)) => {
            let key = trimmed(line);
            BootstrapStepView {
                state: BootstrapView::CheckingKey { url, key },
                notice: key_testing_notice(),
                action: BootstrapActionView::CheckKey { target: key_check_target_of(url, key) },
            }
        },
        (BootstrapView::CheckingKey { url, key }, BootstrapEventView::KeyChecked(Some(code))) => {
            if code == ACCEPTED_STATUS {
                BootstrapStepView {
                    state: BootstrapView::Persisting,
                    notice: key_valid_notice(),
                    action: BootstrapActionView::Persist {
                        config: ConfigView::with_credentials(url, key),
                    },
                }
            } else {
                asking(BootstrapView::AwaitingKey { url }, key_invalid_notice())
            }
        },
        (BootstrapView::CheckingKey { url, key }, BootstrapEventView::KeyChecked(None)) => failed(
            BootstrapFault::KeyCheckUnreachable,
        ),
        (BootstrapView::Persisting, BootstrapEventView::Persisted) => BootstrapStepView {
            state: BootstrapView::Done,
            notice: written_notice(),
            action: BootstrapActionView::Finish,
        },
        _ => failed(BootstrapFault::OutOfTurn),
    }
}

/// A configuration is handed out only when the remote service has accepted
/// the key under check, and it holds that key and the address it was checked
/// at, beside the defaults.
pub proof fn lemma_persist_needs_accepted_key(pre: BootstrapView, event: BootstrapEventView)
    ensures
        advance(pre, event).action is Persist <==> pre is CheckingKey && event
            == BootstrapEventView::KeyChecked(Some(ACCEPTED_STATUS)),
        advance(pre, event).action is Persist ==> advance(pre, event).action == (
        BootstrapActionView::Persist {
            config: ConfigView::with_credentials(pre->CheckingKey_url, pre->CheckingKey_key),
        }),
{
}

/// A key that the remote service turns down is asked for again, under the
/// same address, however often that happens.
pub proof fn lemma_rejected_key_retries(url: Seq<char>, key: Seq<char>, code: u16)
    requires
        code != ACCEPTED_STATUS,
    ensures
        advance(
            BootstrapView::CheckingKey { url, key },
            BootstrapEventView::KeyChecked(Some(code)),
        ) == asking(BootstrapView::AwaitingKey { url }, key_invalid_notice()),
{
}

/// The key is asked for only under an address whose probe was answered with
/// the accepted status, or again after a key was turned down.
pub proof fn lemma_key_needs_accepted_url(pre: BootstrapView, event: BootstrapEventView)
    ensures
        advance(pre, event).state matches BootstrapView::AwaitingKey { url } ==> (pre
            == BootstrapView::Probing { url } && event == BootstrapEventView::Probed(
            Some(ACCEPTED_STATUS),
        )) || (pre is CheckingKey && pre->CheckingKey_url == url && event is KeyChecked),
{
}

/// Where the setup stands after the keys typed in `attempts` were checked one
/// after the other under the address `url`, each answered with the status
/// beside it.
pub open spec fn after_key_attempts(
    url: Seq<char>,
    attempts: Seq<(Seq<char>, u16)>,
) -> BootstrapView
    decreases attempts.len(),
{
    if attempts.len() == 0 {
        BootstrapView::AwaitingKey { url }
    } else {
        let before = after_key_attempts(url, attempts.drop_last());
        let typed = advance(before, BootstrapEventView::Line(attempts.last().0));
        advance(typed.state, BootstrapEventView::KeyChecked(Some(attempts.last().1))).state
    }
}

/// However many keys are turned down, the setup asks for the next one under
/// the same address, and has handed out no configuration.
pub proof fn lemma_rejected_keys_lead_back(url: Seq<char>, attempts: Seq<(Seq<char>, u16)>)
    requires
        forall|i: int| 0 <= i < attempts.len() ==> (#[trigger] attempts[i]).1 != ACCEPTED_STATUS,
    ensures
        after_key_attempts(url, attempts) == (BootstrapView::AwaitingKey { url }),
    decreases attempts.len(),
{
    if attempts.len() > 0 {
        let earlier = attempts.drop_last();
        assert forall|i: int| 0 <= i < earlier.len() implies (#[trigger] earlier[i]).1
            != ACCEPTED_STATUS by {
            assert(earlier[i] == attempts[i]);
        }
        lemma_rejected_keys_lead_back(url, earlier);
    }
}

/// The configuration that is handed out holds the key of the attempt that the
/// remote service accepted, whatever was typed and turned down before it.
pub proof fn lemma_accepted_key_is_persisted(
    url: Seq<char>,
    attempts: Seq<(Seq<char>, u16)>,
    line: Seq<char>,
)
    requires
        forall|i: int| 0 <= i < attempts.len() ==> (#[trigger] attempts[i]).1 != ACCEPTED_STATUS,
    ensures
        ({
            let typed = advance(after_key_attempts(url, attempts), BootstrapEventView::Line(line));
            let checked = advance(
                typed.state,
                BootstrapEventView::KeyChecked(Some(ACCEPTED_STATUS)),
            );
            &&& typed.action == BootstrapActionView::CheckKey {
                target: key_check_target_of(url, trimmed(line)),
            }
            &&& checked.action == BootstrapActionView::Persist {
                config: ConfigView::with_credentials(url, trimmed(line)),
            }
            &&& checked.state == BootstrapView::Persisting
        }),
{
    lemma_rejected_keys_lead_back(url, attempts);
}

/// A probe that fails, times out or is answered with another status leads
/// back to asking for the address.
pub proof fn lemma_failed_probe_retries(url: Seq<char>, outcome: Option<u16>)
    requires
        outcome != Some(ACCEPTED_STATUS),
    ensures
        advance(BootstrapView::Probing { url }, BootstrapEventView::Probed(outcome)).state
            == BootstrapView::AwaitingUrl,
        advance(BootstrapView::Probing { url }, BootstrapEventView::Probed(outcome)).action
            == BootstrapActionView::ReadLine,
        outcome is None ==> advance(
            BootstrapView::Probing { url },
            BootstrapEventView::Probed(outcome),
        ).notice == Seq::<char>::empty(),
{
}

/// Every address that is probed begins with `https://`, except an `http://`
/// address that the operator chose to keep.
pub proof fn lemma_probe_is_secure(pre: BootstrapView, event: BootstrapEventView)
    ensures
        advance(pre, event).action matches BootstrapActionView::Probe { url, .. } ==> scheme_of(url)
            == Scheme::Secure || (pre == BootstrapView::AwaitingConsent { url } && scheme_of(url)
            == Scheme::Plain && event is Line && declines(event->Line_0)),
{
    match (pre, event) {
        (BootstrapView::AwaitingUrl, BootstrapEventView::Line(line)) => {
            lemma_normalized_scheme(trimmed(line), false);
        },
        (BootstrapView::AwaitingConsent { url }, BootstrapEventView::Line(answer)) => {
            lemma_normalized_scheme(url, declines(answer));
        },
        _ => {},
    }
}

impl Bootstrap {
    /// Opens the setup: greets the operator and asks for the remote address.
    pub fn start() -> (step: BootstrapStep)
        ensures
            step@ == opening(),
    {
        BootstrapStep {
            state: Bootstrap::AwaitingUrl,
            notice: String::from_str(
                "It looks like froggi-ocr hasn't been set up yet, starting config process now...\nEnsure froggi is LAN or WAN accessible and type in its URL\n\n",
            ),
            action: BootstrapAction::ReadLine,
        }
    }

    fn fail(fault: BootstrapFault) -> (step: BootstrapStep)
        ensures
            step@ == failed(fault),
    {
        BootstrapStep {
            state: Bootstrap::Failed,
            notice: String::new(),
            action: BootstrapAction::Abort { fault },
        }
    }

    fn probe(url: String, notice: String) -> (step: BootstrapStep)
        ensures
            step@ == probing(url@, notice@),
    {
        let target = url.clone();
        BootstrapStep {
            state: Bootstrap::Probing { url },
            notice,
            action: BootstrapAction::Probe { url: target, timeout_secs: PROBE_TIMEOUT_SECS },
        }
    }

    fn ask(state: Bootstrap, notice: &str) -> (step: BootstrapStep)
        ensures
            step@ == asking(state@, notice@),
    {
        BootstrapStep {
            state,
            notice: String::from_str(notice),
            action: BootstrapAction::ReadLine,
        }
    }

    fn on_url(line: String) -> (step: BootstrapStep)
        ensures
            step@ == advance(BootstrapView::AwaitingUrl, BootstrapEventView::Line(line@)),
    {
        let url = trim(line.as_str());
        match classify(url) {
            Scheme::Secure => Bootstrap::probe(
                String::from_str(url),
                String::from_str("Testing connection with froggi...\n"),
            ),
            Scheme::Plain => Bootstrap::ask(
                Bootstrap::AwaitingConsent { url: String::from_str(url) },
                "It looks like the  url uses http (unencrypted) instead of https (encrypted). Sending API keys over http is discouraged and a bad security practice. Unless this is 100% intentional, https should be used.\nSwitch to https? (Y or n)\n\n",
            ),
            Scheme::Absent => {
                let probe = normalize(url, false);
                let mut notice = String::from_str("Using https (");
                notice.append(probe.as_str());
                notice.append(")\nTesting connection with froggi...\n");
                Bootstrap::probe(probe, notice)
            },
        }
    }

    fn on_answer(url: String, answer: String) -> (step: BootstrapStep)
        ensures
            step@ == advance(
                BootstrapView::AwaitingConsent { url: url@ },
                BootstrapEventView::Line(answer@),
            ),
    {
        if is_decline(answer.as_str()) {
            Bootstrap::probe(
                normalize(url.as_str(), true),
                String::from_str("Using http anyway\nTesting connection with froggi...\n"),
            )
        } else {
            Bootstrap::probe(
                normalize(url.as_str(), false),
                String::from_str("Using https\nTesting connection with froggi...\n"),
            )
        }
    }

    /// Takes one event: says where the setup stands after it, what to show the
    /// operator and what to do next, as `advance` rules.
    pub fn step(self, event: BootstrapEvent) -> (step: BootstrapStep)
        ensures
            step@ == advance(self@, event@),
    {
        match (self, event) {
            (Bootstrap::AwaitingUrl, BootstrapEvent::Line(line)) => Bootstrap::on_url(line),
            (Bootstrap::AwaitingConsent { url }, BootstrapEvent::Line(answer)) => {
                Bootstrap::on_answer(url, answer)
            },
            (Bootstrap::Probing { url }, BootstrapEvent::Probed(Some(status))) => {
                if status.is_ok() {
                    Bootstrap::ask(
                        Bootstrap::AwaitingKey { url },
                        "Connection with froggi successful! Adding to config...\n\nWhat is the API key for froggi?\n\n",
                    )
                } else {
                    Bootstrap::ask(
                        Bootstrap::AwaitingUrl,
                        "Connection with froggi unsuccessful, try again\n\n",
                    )
                }
            },
            (Bootstrap::Probing { url }, BootstrapEvent::Probed(None)) => {
                let step = Bootstrap::ask(Bootstrap::AwaitingUrl, "");
                proof {
                    reveal_strlit("");
                    assert(step.notice@ =~= Seq::<char>::empty());
                }
                step
            },
            (Bootstrap::AwaitingKey { url }, BootstrapEvent::Line(line)) => {
                let key = trim(line.as_str());
                let target = key_check_target(url.as_str(), key);
                BootstrapStep {
                    state: Bootstrap::CheckingKey { url, key: String::from_str(key) },
                    notice: String::from_str("Testing API key...\n"),
                    action: BootstrapAction::CheckKey { target },
                }
            },
            (Bootstrap::CheckingKey { url, key }, BootstrapEvent::KeyChecked(Some(status))) => {
                if status.is_ok() {
                    BootstrapStep {
                        state: Bootstrap::Persisting,
                        notice: String::from_str(
                            "API key valid! Adding to config...\n\nWriting config to config.json...\n",
                        ),
                        action: BootstrapAction::Persist {
                            config: Config::with_credentials(url, key),
                        },
                    }
                } else {
                    Bootstrap::ask(Bootstrap::AwaitingKey { url }, "API key invalid, try again\n\n")
                }
            },
            (Bootstrap::CheckingKey { url, key }, BootstrapEvent::KeyChecked(None)) => {
                Bootstrap::fail(BootstrapFault::KeyCheckUnreachable)
            },
            (Bootstrap::Persisting, BootstrapEvent::Persisted) => BootstrapStep {
                state: Bootstrap::Done,
                notice: String::from_str("Config written successfully!\n"),
                action: BootstrapAction::Finish,
            },
            _ => Bootstrap::fail(BootstrapFault::OutOfTurn),
        }
    }
}

/// The diagnostic for a fault.
pub fn bootstrap_fault_message(fault: BootstrapFault) -> (text: &'static str)
    ensures
        text@ == match fault {
            BootstrapFault::KeyCheckUnreachable => "Could not check api key with froggi"@,
            BootstrapFault::OutOfTurn => "Event out of turn"@,
        },
{
    match fault {
        BootstrapFault::KeyCheckUnreachable => "Could not check api key with froggi",
        BootstrapFault::OutOfTurn => "Event out of turn",
    }
}

} // verus!
