use thuai_8_agent_rust::connection::{ConnectStep, Connector, CONNECT_SLEEP_SEC, TRY_TIME};

/// Drives a connector against a server whose attempts succeed as `outcomes`
/// says; returns the last step, the attempts made and the seconds slept each time.
fn drive(mut c: Connector, outcomes: &[bool]) -> (ConnectStep, usize, Vec<u64>) {
    let mut step = c.start();
    let mut attempts = 0;
    let mut sleeps = Vec::new();
    loop {
        match step {
            ConnectStep::Attempt => {
                let ok = outcomes[attempts];
                attempts += 1;
                step = c.on_attempt(ok);
            }
            ConnectStep::Sleep(secs) => {
                sleeps.push(secs);
                step = ConnectStep::Attempt;
            }
            ConnectStep::Connected | ConnectStep::GiveUp => return (step, attempts, sleeps),
        }
    }
}

#[test]
fn connect_succeeds_on_third_attempt() {
    let (step, attempts, sleeps) = drive(Connector::with_defaults(), &[false, false, true]);
    assert_eq!(step, ConnectStep::Connected);
    assert_eq!(attempts, 3);
    assert_eq!(sleeps, vec![CONNECT_SLEEP_SEC, CONNECT_SLEEP_SEC]);
}

#[test]
fn connect_gives_up_after_retry_limit() {
    let (step, attempts, sleeps) = drive(Connector::with_defaults(), &[false; 10]);
    assert_eq!(step, ConnectStep::GiveUp);
    assert_eq!(attempts, TRY_TIME as usize);
    assert_eq!(sleeps.len(), TRY_TIME as usize - 1);
}

#[test]
fn connect_honours_a_custom_policy() {
    let (step, attempts, sleeps) = drive(Connector::new(5, 1), &[false; 10]);
    assert_eq!(step, ConnectStep::GiveUp);
    assert_eq!(attempts, 5);
    assert_eq!(sleeps, vec![1, 1, 1, 1]);
    let (step, attempts, sleeps) = drive(Connector::new(5, 1), &[true]);
    assert_eq!(step, ConnectStep::Connected);
    assert_eq!(attempts, 1);
    assert!(sleeps.is_empty());
}

#[test]
fn connect_with_no_attempts_gives_up_at_once() {
    let (step, attempts, _) = drive(Connector::new(0, 3), &[]);
    assert_eq!(step, ConnectStep::GiveUp);
    assert_eq!(attempts, 0);
}
