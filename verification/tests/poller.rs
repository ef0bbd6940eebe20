use cmd_harness::config::ServiceConfig;
use cmd_harness::endpoint::route;
use cmd_harness::poller::{
    poller_start, poller_step, report, PollerAction, PollerEvent, PollerState, SendOutcome, Severity,
};
use cmd_harness::record::ExecOutput;

fn config() -> ServiceConfig {
    ServiceConfig::new(String::from("echo hello"), 250, 8080, String::from("log.yml"))
}

#[test]
fn config_keeps_what_it_is_given() {
    let config = ServiceConfig::new(String::from("echo hello"), 100, 17385, String::from("log4rs.yml"));
    assert_eq!(config.cmd, "echo hello");
    assert_eq!(config.interval, 100);
    assert_eq!(config.port, 17385);
    assert_eq!(config.log_config_path, "log4rs.yml");
}

#[test]
fn addresses_of_a_port() {
    let config = ServiceConfig::new(String::from("echo hello"), 100, 17385, String::from("log4rs.yml"));
    assert_eq!(config.listen_address(), "0.0.0.0:17385");
    assert_eq!(config.trigger_url(), "http://localhost:17385/execute");
}

#[test]
fn addresses_of_edge_ports() {
    let low = ServiceConfig::new(String::new(), 1, 0, String::new());
    assert_eq!(low.listen_address(), "0.0.0.0:0");
    assert_eq!(low.trigger_url(), "http://localhost:0/execute");
    let high = ServiceConfig::new(String::new(), 1, u16::MAX, String::new());
    assert_eq!(high.listen_address(), "0.0.0.0:65535");
    assert_eq!(high.trigger_url(), "http://localhost:65535/execute");
}

#[test]
fn interval_in_milliseconds() {
    assert_eq!(config().interval_millis(), 250);
    assert_eq!(ServiceConfig::new(String::new(), u32::MAX, 1, String::new()).interval_millis(), 4294967295);
    assert_eq!(ServiceConfig::new(String::new(), 0, 1, String::new()).interval_millis(), 0);
}

#[test]
fn success_is_logged_as_information() {
    let line = report(&SendOutcome::Answered { status_code: 200, body: String::from("{\"index\":0}") });
    assert_eq!(line.severity, Severity::Info);
    assert_eq!(line.text, "Client succeeded in sending command, body: {\"index\":0}");
}

#[test]
fn every_2xx_is_success() {
    for status_code in [200u16, 201, 204, 299] {
        let line = report(&SendOutcome::Answered { status_code, body: String::from("b") });
        assert_eq!(line.severity, Severity::Info);
        assert_eq!(line.text, "Client succeeded in sending command, body: b");
    }
}

#[test]
fn other_statuses_are_logged_as_errors() {
    let line = report(&SendOutcome::Answered { status_code: 400, body: String::from("Error in executing command") });
    assert_eq!(line.severity, Severity::Error);
    assert_eq!(
        line.text,
        "HTTP thread error: Client succeeded in sending command, but returned status code: 400"
    );
    for status_code in [100u16, 199, 300, 404, 500, 599] {
        let line = report(&SendOutcome::Answered { status_code, body: String::new() });
        assert_eq!(line.severity, Severity::Error);
        assert_eq!(
            line.text,
            format!(
                "HTTP thread error: Client succeeded in sending command, but returned status code: {}",
                status_code
            )
        );
    }
}

#[test]
fn transport_failure_is_logged_as_error() {
    let line = report(&SendOutcome::Failed { reason: String::from("connection refused") });
    assert_eq!(line.severity, Severity::Error);
    assert_eq!(line.text, "HTTP thread error: Client failed to send command: connection refused");
}

#[test]
fn missing_client_is_logged_as_error() {
    let line = report(&SendOutcome::NoClient);
    assert_eq!(line.severity, Severity::Error);
    assert_eq!(line.text, "HTTP thread error: Error creating HTTP client");
}

#[test]
fn poller_starts_by_sleeping() {
    let step = poller_start(&config());
    assert_eq!(step.state, PollerState::Waiting);
    assert_eq!(step.action, PollerAction::Sleep { millis: 250 });
    assert_eq!(step.log, None);
}

#[test]
fn after_the_sleep_the_trigger_is_sent() {
    let step = poller_step(PollerState::Waiting, PollerEvent::Elapsed, &config()).unwrap();
    assert_eq!(step.state, PollerState::Sending);
    assert_eq!(step.action, PollerAction::Post { url: String::from("http://localhost:8080/execute") });
    assert_eq!(step.log, None);
}

#[test]
fn after_a_response_the_poller_logs_and_sleeps() {
    let event = PollerEvent::Sent(SendOutcome::Answered { status_code: 200, body: String::from("ok") });
    let step = poller_step(PollerState::Sending, event, &config()).unwrap();
    assert_eq!(step.state, PollerState::Waiting);
    assert_eq!(step.action, PollerAction::Sleep { millis: 250 });
    let line = step.log.unwrap();
    assert_eq!(line.severity, Severity::Info);
    assert_eq!(line.text, "Client succeeded in sending command, body: ok");
}

#[test]
fn after_a_failure_the_poller_waits_the_same_interval() {
    let outcomes = vec![
        SendOutcome::NoClient,
        SendOutcome::Failed { reason: String::from("timed out") },
        SendOutcome::Answered { status_code: 500, body: String::new() },
    ];
    for outcome in outcomes {
        let step = poller_step(PollerState::Sending, PollerEvent::Sent(outcome), &config()).unwrap();
        assert_eq!(step.state, PollerState::Waiting);
        assert_eq!(step.action, PollerAction::Sleep { millis: 250 });
        assert_eq!(step.log.unwrap().severity, Severity::Error);
    }
}

#[test]
fn events_out_of_turn_are_refused() {
    assert_eq!(poller_step(PollerState::Sending, PollerEvent::Elapsed, &config()), None);
    assert_eq!(
        poller_step(PollerState::Waiting, PollerEvent::Sent(SendOutcome::NoClient), &config()),
        None
    );
}

#[test]
fn poller_cycles_forever() {
    let config = config();
    let mut step = poller_start(&config);
    let mut posts = 0;
    let mut sleeps = 0;
    for round in 0..20 {
        let event = match &step.action {
            PollerAction::Sleep { millis } => {
                assert_eq!(*millis, 250);
                sleeps += 1;
                PollerEvent::Elapsed
            },
            PollerAction::Post { url } => {
                assert_eq!(url, "http://localhost:8080/execute");
                posts += 1;
                if round % 4 == 1 {
                    PollerEvent::Sent(SendOutcome::Failed { reason: String::from("refused") })
                } else {
                    PollerEvent::Sent(SendOutcome::Answered { status_code: 200, body: String::new() })
                }
            },
        };
        step = poller_step(step.state, event, &config).unwrap();
    }
    assert_eq!(sleeps, 10);
    assert_eq!(posts, 10);
}

#[test]
fn what_the_poller_sends_triggers_the_endpoint() {
    let url = config().trigger_url();
    let target = url.strip_prefix("http://localhost:8080").unwrap();
    let answer = route("POST", target, || Ok(ExecOutput::new(0, Some(0), String::new(), String::new())));
    assert_eq!(answer.status_code, 200);
}
