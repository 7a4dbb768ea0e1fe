use humanophone::client::flatten;
use humanophone::outcome::{Outcome, ProtocolViolation, SessionError};
use humanophone::supervisor::{
    jittering_retry_duration, retry_duration, supervise, supervise_with, Backoff,
    SupervisorAction, SupervisorEvent, RECONNECT_JITTER,
};
use humanophone::uri::{create_uri, UriError};

#[test]
fn retry_wait_is_delay_and_jitter() {
    assert_eq!(RECONNECT_JITTER, 250);
    assert_eq!(retry_duration(0), 500);
    assert_eq!(retry_duration(1), 501);
    assert_eq!(retry_duration(250), 750);
}

#[test]
fn jittering_wait_stays_in_its_window() {
    let mut seen_low = false;
    let mut seen_high = false;
    for _ in 0..2_000 {
        let wait = jittering_retry_duration();
        assert!((500..=750).contains(&wait));
        if wait < 600 {
            seen_low = true;
        }
        if wait > 650 {
            seen_high = true;
        }
    }
    assert!(seen_low && seen_high);
}

#[test]
fn supervisor_connects_runs_and_waits() {
    assert_eq!(supervise_with(SupervisorEvent::Started, 17), SupervisorAction::Connect);
    assert_eq!(supervise_with(SupervisorEvent::Connected, 17), SupervisorAction::Run);
    assert_eq!(supervise_with(SupervisorEvent::ConnectFailed, 17), SupervisorAction::Wait(517));
    assert_eq!(
        supervise_with(SupervisorEvent::SessionOver(Outcome::Ended), 0),
        SupervisorAction::Wait(500)
    );
    assert_eq!(
        supervise_with(
            SupervisorEvent::SessionOver(Outcome::Failed(SessionError::LivenessTimeout)),
            250
        ),
        SupervisorAction::Wait(750)
    );
    assert_eq!(
        supervise_with(
            SupervisorEvent::SessionOver(Outcome::Failed(SessionError::Protocol(
                ProtocolViolation::PongExpected
            ))),
            3
        ),
        SupervisorAction::Wait(503)
    );
    assert_eq!(supervise_with(SupervisorEvent::Waited, 17), SupervisorAction::Connect);
}

#[test]
fn supervisor_draws_its_jitter() {
    for _ in 0..200 {
        match supervise(SupervisorEvent::ConnectFailed) {
            SupervisorAction::Wait(wait) => assert!((500..=750).contains(&wait)),
            other => panic!("{:?}", other),
        }
    }
    assert_eq!(supervise(SupervisorEvent::Started), SupervisorAction::Connect);
    assert_eq!(supervise(SupervisorEvent::Waited), SupervisorAction::Connect);
    assert_eq!(supervise(SupervisorEvent::Connected), SupervisorAction::Run);
}

#[test]
fn uri_has_scheme_authority_and_root_path() {
    assert_eq!(create_uri("0.0.0.0:8000", false), Ok("ws://0.0.0.0:8000/".to_string()));
    assert_eq!(create_uri("0.0.0.0:8000", true), Ok("wss://0.0.0.0:8000/".to_string()));
    assert_eq!(create_uri("humanoph.one:443", true), Ok("wss://humanoph.one:443/".to_string()));
    assert_eq!(create_uri("localhost", false), Ok("ws://localhost/".to_string()));
}

#[test]
fn uri_of_no_authority_is_refused() {
    assert_eq!(create_uri("", false), Err(UriError::Invalid));
    assert_eq!(create_uri("a b", true), Err(UriError::Invalid));
    assert_eq!(create_uri("host/path", false), Err(UriError::Invalid));
}

#[test]
fn flatten_takes_the_inner_result() {
    assert_eq!(flatten::<u8, &str>(Ok(Ok(3))), Ok(3));
    assert_eq!(flatten::<u8, &str>(Ok(Err("session"))), Err("session"));
    assert_eq!(flatten::<u8, &str>(Err("task")), Err("task"));
}

#[test]
fn backoff_of_ones_own_choice() {
    assert_eq!(Backoff::new(), Backoff { delay: 500, jitter: 250 });
    let backoff = Backoff { delay: 2_000, jitter: 10 };
    assert_eq!(
        backoff.supervise_with(SupervisorEvent::ConnectFailed, 7),
        SupervisorAction::Wait(2_007)
    );
    assert_eq!(backoff.supervise_with(SupervisorEvent::Waited, 7), SupervisorAction::Connect);
    for _ in 0..200 {
        match backoff.supervise(SupervisorEvent::SessionOver(Outcome::Ended)) {
            SupervisorAction::Wait(wait) => assert!((2_000..=2_010).contains(&wait)),
            other => panic!("{:?}", other),
        }
    }
    let fixed = Backoff { delay: 3, jitter: 0 };
    assert_eq!(fixed.supervise(SupervisorEvent::ConnectFailed), SupervisorAction::Wait(3));
}
