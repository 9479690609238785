use xds_client::retry::{
    double_backoff, ordinary_end, plan_retry, Code, ConnectionEnd, ConnectionTerminationReason,
    RetryPlan,
};

fn status(code: Code, message: &str) -> ConnectionEnd {
    ConnectionEnd::GrpcStatus { code, message: message.to_string() }
}

#[test]
fn backoff_doubles_up_to_fifteen_seconds() {
    assert_eq!(double_backoff(10), 20);
    assert_eq!(double_backoff(7500), 15000);
    assert_eq!(double_backoff(7501), 15000);
    assert_eq!(double_backoff(15000), 15000);
    assert_eq!(double_backoff(u64::MAX), 15000);
    assert_eq!(double_backoff(0), 0);
}

#[test]
fn connection_errors_in_a_row_back_off() {
    let mut backoff: u64 = 10;
    let mut waits: Vec<u64> = Vec::new();
    for _ in 0..12 {
        let plan = plan_retry(backoff, &ConnectionEnd::Connection);
        assert!(plan.wait);
        assert_eq!(plan.reason, ConnectionTerminationReason::ConnectionError);
        backoff = plan.backoff_millis;
        waits.push(backoff);
    }
    assert_eq!(
        waits,
        vec![20, 40, 80, 160, 320, 640, 1280, 2560, 5120, 10240, 15000, 15000]
    );
}

#[test]
fn other_ends_reset_the_backoff() {
    assert_eq!(
        plan_retry(5120, &ConnectionEnd::Complete),
        RetryPlan {
            reason: ConnectionTerminationReason::Complete,
            wait: false,
            backoff_millis: 10,
        }
    );
    assert_eq!(
        plan_retry(5120, &ConnectionEnd::Other),
        RetryPlan { reason: ConnectionTerminationReason::Error, wait: false, backoff_millis: 10 }
    );
}

#[test]
fn status_tells_reconnects_from_errors() {
    let reconnect = RetryPlan {
        reason: ConnectionTerminationReason::Reconnect,
        wait: true,
        backoff_millis: 20,
    };
    let error =
        RetryPlan { reason: ConnectionTerminationReason::Error, wait: true, backoff_millis: 20 };
    assert_eq!(plan_retry(10, &status(Code::Unknown, "")), reconnect);
    assert_eq!(plan_retry(10, &status(Code::Cancelled, "")), reconnect);
    assert_eq!(plan_retry(10, &status(Code::DeadlineExceeded, "")), reconnect);
    assert_eq!(plan_retry(10, &status(Code::Aborted, "Aborting for test.")), error);
    assert_eq!(plan_retry(10, &status(Code::Success, "")), error);
    assert_eq!(plan_retry(10, &status(Code::Unavailable, "no route")), error);
    assert_eq!(
        plan_retry(10, &status(Code::Unavailable, "error: transport is closing now")),
        reconnect
    );
    assert_eq!(plan_retry(10, &status(Code::Unavailable, "received prior goaway: x")), reconnect);
    assert_eq!(plan_retry(10, &status(Code::Internal, "transport is closing")), error);
}

#[test]
fn ordinary_ends_are_found_in_the_message() {
    assert!(ordinary_end(Code::Unavailable, &"transport is closing".to_string()));
    assert!(!ordinary_end(Code::Unavailable, &"transport is closin".to_string()));
    assert!(!ordinary_end(Code::Unavailable, &"Transport is closing".to_string()));
    assert!(!ordinary_end(Code::Unavailable, &"".to_string()));
}
