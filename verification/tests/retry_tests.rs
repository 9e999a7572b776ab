use retry_fn::Dur;
use retry_fn::NoSleep;
use retry_fn::RetryErr;
use retry_fn::RetryResult;
use retry_fn::RetryState;
use retry_fn::ScriptedOp;
use retry_fn::Step;
use retry_fn::retry;
use retry_fn::retry_immediate;
use retry_fn::strategy::BackoffStrategy;
use retry_fn::strategy::ConstantBackoff;
use retry_fn::strategy::FiniteBackoff;

#[test]
fn lib_fail_on_three() {
    let mut count: i32 = 0;
    let mut strategy = ConstantBackoff::from_millis(100);
    let mut st = RetryState::new();
    let res: Result<&str, RetryErr<&str>> = loop {
        match strategy.next() {
            None => break Err(st.exhausted()),
            Some(d) => {
                let op = st.context();
                let outcome: RetryResult<&str, &str> = if op.retries >= 3 {
                    RetryResult::Fail("timed out")
                } else {
                    count += 1;
                    RetryResult::Retry()
                };
                match st.settle(d, outcome) {
                    Step::Sleep(_) => {}
                    Step::Done(r) => break r,
                }
            }
        }
    };
    assert_eq!(count, 3);
    assert!(res.is_err());
}

#[test]
fn lib_pass_eventually() {
    let mut count: i32 = 0;
    let mut strategy = ConstantBackoff::from_millis(100);
    let mut st = RetryState::new();
    let res: Result<usize, RetryErr<&str>> = loop {
        match strategy.next() {
            None => break Err(st.exhausted()),
            Some(d) => {
                let op = st.context();
                let outcome: RetryResult<usize, &str> = if op.retries >= 3 {
                    RetryResult::Success(5)
                } else {
                    count += 1;
                    RetryResult::Retry()
                };
                match st.settle(d, outcome) {
                    Step::Sleep(_) => {}
                    Step::Done(r) => break r,
                }
            }
        }
    };
    assert_eq!(count, 3);
    assert!(res.is_ok());
    assert_eq!(res.unwrap(), 5);
}

#[test]
fn retry_fails_on_fourth_call() {
    let script: Vec<RetryResult<usize, &str>> = vec![
        RetryResult::Retry(),
        RetryResult::Retry(),
        RetryResult::Retry(),
        RetryResult::Fail("timed out"),
    ];
    let mut op = ScriptedOp::new(script);
    let mut z = NoSleep;
    let res = retry(ConstantBackoff::from_millis(100), &mut op, &mut z);
    match res {
        Err(RetryErr::FailedAttempt { tries, total_delay, err }) => {
            assert_eq!(tries, 3);
            assert_eq!(total_delay, Dur::from_millis(300));
            assert_eq!(err, "timed out");
        }
        _ => panic!("expected a failed attempt"),
    }
    assert_eq!(op.position(), 4);
}

#[test]
fn retry_succeeds_on_fourth_call() {
    let script: Vec<RetryResult<usize, &str>> = vec![
        RetryResult::Retry(),
        RetryResult::Retry(),
        RetryResult::Retry(),
        RetryResult::Success(5),
    ];
    let mut op = ScriptedOp::new(script);
    let mut z = NoSleep;
    let res = retry(ConstantBackoff::from_millis(100), &mut op, &mut z);
    assert!(res.is_ok());
    assert_eq!(res.unwrap(), 5);
    assert_eq!(op.position(), 4);
}

#[test]
fn retry_ends_with_the_delays() {
    let delays = vec![Dur::from_millis(10), Dur::from_millis(20)];
    let script: Vec<RetryResult<usize, &str>> = vec![RetryResult::Retry(), RetryResult::Retry()];
    let mut op = ScriptedOp::new(script);
    let mut z = NoSleep;
    let res = retry(FiniteBackoff::new(delays), &mut op, &mut z);
    match res {
        Err(RetryErr::IteratorEnded { tries, total_delay }) => {
            assert_eq!(tries, 2);
            assert_eq!(total_delay, Dur::from_millis(30));
        }
        _ => panic!("expected the delay sequence to end"),
    }
    assert_eq!(op.position(), 2);
}

#[test]
fn retry_fails_at_once() {
    let script: Vec<RetryResult<usize, &str>> = vec![RetryResult::Fail("nope")];
    let mut op = ScriptedOp::new(script);
    let mut z = NoSleep;
    let res = retry(ConstantBackoff::from_millis(100), &mut op, &mut z);
    match res {
        Err(RetryErr::FailedAttempt { tries, total_delay, err }) => {
            assert_eq!(tries, 0);
            assert_eq!(total_delay, Dur::from_millis(0));
            assert_eq!(err, "nope");
        }
        _ => panic!("expected a failed attempt"),
    }
}

#[test]
fn retry_with_no_delays() {
    let mut op: ScriptedOp<usize, &str> = ScriptedOp::new(Vec::new());
    let mut z = NoSleep;
    let res = retry(FiniteBackoff::new(Vec::new()), &mut op, &mut z);
    match res {
        Err(RetryErr::IteratorEnded { tries, total_delay }) => {
            assert_eq!(tries, 0);
            assert_eq!(total_delay, Dur::from_millis(0));
        }
        _ => panic!("expected the delay sequence to end"),
    }
    assert_eq!(op.position(), 0);
}

#[test]
fn retry_immediate_succeeds() {
    let script: Vec<RetryResult<usize, &str>> = vec![
        RetryResult::Retry(),
        RetryResult::Retry(),
        RetryResult::Success(7),
    ];
    let mut op = ScriptedOp::new(script);
    let res = retry_immediate(&mut op);
    assert!(res.is_ok());
    assert_eq!(res.unwrap(), 7);
    assert_eq!(op.position(), 3);
}
