use froggi_ocr::config::{Config, ConfigError};
use froggi_ocr::relay::{
    fault_message, Fault, Phase, RelayAction, RelayEvent, RelayLoop, RelayStep, API_KEY_HEADER,
};
use froggi_ocr::status::HttpStatus;

fn config(rate: u8) -> Config {
    Config {
        api_key: String::from("key-1"),
        ocr_url: String::from("http://localhost:18099/json?pivot"),
        froggi_url: String::from("https://froggi.example"),
        updates_per_second: rate,
    }
}

fn status(code: u16) -> HttpStatus {
    HttpStatus::new(code).unwrap()
}

fn fetched(code: u16, body: &str) -> RelayEvent {
    RelayEvent::Fetched { status: status(code), body: Some(String::from(body)) }
}

#[test]
fn new_loop_is_idle_before_its_first_cycle() {
    let relay = RelayLoop::new(config(5)).unwrap();
    assert_eq!(relay.phase(), Phase::Idle);
    assert_eq!(relay.cycle(), 0);
    assert_eq!(relay.period(), 200_000_000);
}

#[test]
fn zero_rate_is_refused() {
    assert_eq!(RelayLoop::new(config(0)).err(), Some(ConfigError::ZeroRate));
}

#[test]
fn tick_starts_a_cycle_with_a_fetch() {
    let mut relay = RelayLoop::new(config(5)).unwrap();
    let step = relay.step(RelayEvent::Tick);
    assert_eq!(
        step,
        RelayStep {
            report: String::from("\n(1)\n"),
            action: RelayAction::Fetch { url: String::from("http://localhost:18099/json?pivot") },
        }
    );
    assert_eq!(relay.phase(), Phase::Fetching);
    assert_eq!(relay.cycle(), 1);
}

#[test]
fn fetched_body_is_relayed_verbatim_with_the_key() {
    let mut relay = RelayLoop::new(config(5)).unwrap();
    relay.step(RelayEvent::Tick);
    let step = relay.step(fetched(200, "{\"text\":\"abc\"}"));
    assert_eq!(
        step.report,
        "200 OK from http://localhost:18099/json?pivot\nSending OCR data to https://froggi.example/ocr\n"
    );
    assert_eq!(
        step.action,
        RelayAction::Relay {
            url: String::from("https://froggi.example/ocr"),
            api_key: String::from("key-1"),
            body: String::from("{\"text\":\"abc\"}"),
        }
    );
    assert_eq!(relay.phase(), Phase::Relaying);
}

#[test]
fn body_is_relayed_whatever_the_fetch_status() {
    let mut relay = RelayLoop::new(config(5)).unwrap();
    relay.step(RelayEvent::Tick);
    let step = relay.step(fetched(404, "missing"));
    assert!(step.report.starts_with("404 Not Found from "));
    assert!(matches!(step.action, RelayAction::Relay { .. }));
}

#[test]
fn relay_answer_is_reported_and_flushed() {
    let mut relay = RelayLoop::new(config(5)).unwrap();
    relay.step(RelayEvent::Tick);
    relay.step(fetched(200, "x"));
    let step = relay.step(RelayEvent::Relayed { status: status(200) });
    assert_eq!(step.report, "200 OK from https://froggi.example/ocr\n");
    assert_eq!(step.action, RelayAction::Flush);
    assert_eq!(relay.phase(), Phase::Flushing);
}

#[test]
fn relay_failure_is_reported_and_the_cycle_goes_on() {
    let mut relay = RelayLoop::new(config(5)).unwrap();
    relay.step(RelayEvent::Tick);
    relay.step(fetched(200, "x"));
    let step = relay.step(RelayEvent::RelayFailed { error: String::from("connection reset") });
    assert_eq!(step.report, "connection reset\n");
    assert_eq!(step.action, RelayAction::Flush);
    let step = relay.step(RelayEvent::Flushed { elapsed: 1_000 });
    assert_eq!(step.action, RelayAction::Sleep { nanos: 199_999_000 });
    assert_eq!(relay.phase(), Phase::Idle);
}

#[test]
fn fetch_failure_skips_the_relay() {
    let mut relay = RelayLoop::new(config(5)).unwrap();
    let mut relays = 0;
    let mut actions = vec![relay.step(RelayEvent::Tick).action];
    let step = relay.step(RelayEvent::FetchFailed { error: String::from("connection refused") });
    assert_eq!(step.report, "connection refused\n");
    actions.push(step.action);
    actions.push(relay.step(RelayEvent::Flushed { elapsed: 30_000_000 }).action);
    for action in &actions {
        if matches!(action, RelayAction::Relay { .. }) {
            relays += 1;
        }
    }
    assert_eq!(relays, 0);
    assert_eq!(actions[1], RelayAction::Flush);
    assert_eq!(actions[2], RelayAction::Sleep { nanos: 170_000_000 });
    assert_eq!(relay.phase(), Phase::Idle);
    assert_eq!(relay.cycle(), 1);
}

#[test]
fn undecodable_body_stops_the_loop_after_the_status_line() {
    let mut relay = RelayLoop::new(config(5)).unwrap();
    relay.step(RelayEvent::Tick);
    let step = relay.step(RelayEvent::Fetched { status: status(200), body: None });
    assert!(step.report.starts_with("200 OK from "));
    assert_eq!(step.action, RelayAction::Abort { fault: Fault::BodyUndecodable });
    assert_eq!(relay.phase(), Phase::Stopped);
}

#[test]
fn overrun_starts_the_next_cycle_at_once() {
    let mut relay = RelayLoop::new(config(5)).unwrap();
    relay.step(RelayEvent::Tick);
    relay.step(RelayEvent::FetchFailed { error: String::new() });
    let step = relay.step(RelayEvent::Flushed { elapsed: 200_000_000 });
    assert_eq!(step.action, RelayAction::Proceed);
    assert_eq!(step.report, "");
    assert_eq!(relay.phase(), Phase::Idle);
    let step = relay.step(RelayEvent::Tick);
    assert_eq!(step.report, "\n(2)\n");
}

#[test]
fn event_out_of_turn_stops_the_loop() {
    let mut relay = RelayLoop::new(config(5)).unwrap();
    let step = relay.step(RelayEvent::Flushed { elapsed: 0 });
    assert_eq!(step.action, RelayAction::Abort { fault: Fault::OutOfTurn });
    assert_eq!(relay.phase(), Phase::Stopped);
    let step = relay.step(RelayEvent::Tick);
    assert_eq!(step.action, RelayAction::Abort { fault: Fault::OutOfTurn });
    assert_eq!(relay.cycle(), 0);
}

#[test]
fn relay_outcome_is_out_of_turn_while_fetching() {
    let mut relay = RelayLoop::new(config(5)).unwrap();
    relay.step(RelayEvent::Tick);
    let step = relay.step(RelayEvent::Relayed { status: status(200) });
    assert_eq!(step.action, RelayAction::Abort { fault: Fault::OutOfTurn });
}

#[test]
fn credential_travels_in_the_api_key_header() {
    assert_eq!(API_KEY_HEADER, "api-key");
}

#[test]
fn faults_have_their_messages() {
    assert_eq!(fault_message(Fault::BodyUndecodable), "Could not cast ocr response body");
    assert_eq!(fault_message(Fault::CounterExhausted), "Cycle counter exhausted");
    assert_eq!(fault_message(Fault::OutOfTurn), "Event out of turn");
}

#[test]
fn five_cycles_fit_into_one_second_at_five_per_second() {
    let mut relay = RelayLoop::new(config(5)).unwrap();
    let work: u128 = 12_000_000;
    let mut now: u128 = 0;
    let mut starts: Vec<u128> = Vec::new();
    let mut output = String::new();
    while now < 1_000_000_000 {
        starts.push(now);
        let step = relay.step(RelayEvent::Tick);
        output.push_str(&step.report);
        assert!(matches!(step.action, RelayAction::Fetch { .. }));
        let step = relay.step(fetched(200, "{\"text\":\"abc\"}"));
        output.push_str(&step.report);
        match step.action {
            RelayAction::Relay { body, .. } => assert_eq!(body, "{\"text\":\"abc\"}"),
            other => panic!("no relay: {:?}", other),
        }
        let step = relay.step(RelayEvent::Relayed { status: status(200) });
        output.push_str(&step.report);
        assert_eq!(step.action, RelayAction::Flush);
        let step = relay.step(RelayEvent::Flushed { elapsed: work });
        match step.action {
            RelayAction::Sleep { nanos } => now += work + u128::from(nanos),
            other => panic!("no sleep: {:?}", other),
        }
    }
    assert_eq!(starts, vec![0, 200_000_000, 400_000_000, 600_000_000, 800_000_000]);
    assert_eq!(relay.cycle(), 5);
    assert_eq!(output.matches("200 OK from http://localhost:18099/json?pivot\n").count(), 5);
    assert_eq!(output.matches("200 OK from https://froggi.example/ocr\n").count(), 5);
    assert!(output.starts_with("\n(1)\n200 OK from "));
    assert!(output.contains("\n(5)\n"));
}

#[test]
fn slow_cycles_run_back_to_back_without_skipping() {
    let mut relay = RelayLoop::new(config(10)).unwrap();
    for number in 1..=4u64 {
        let step = relay.step(RelayEvent::Tick);
        assert_eq!(step.report, format!("\n({})\n", number));
        relay.step(RelayEvent::FetchFailed { error: String::from("timeout") });
        let step = relay.step(RelayEvent::Flushed { elapsed: 250_000_000 });
        assert_eq!(step.action, RelayAction::Proceed);
    }
    assert_eq!(relay.cycle(), 4);
}
