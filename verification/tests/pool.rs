use dusty_shelf::dusty_b::{advance, begin, refusal, Attempt, PoolAction, PoolEvent, PoolSettings};
use dusty_shelf::status::Status;

const SETTINGS: PoolSettings = PoolSettings { pool_size: 32, timeout: 5 };

#[test]
fn one_permit_for_each_connection() {
    assert_eq!(SETTINGS.permits(), 32);
    assert_eq!(PoolSettings { pool_size: 1, timeout: 5 }.permits(), 1);
    assert_eq!(SETTINGS.wait_seconds(), 5);
    assert_eq!(PoolSettings { pool_size: 1, timeout: 255 }.wait_seconds(), 255);
}

#[test]
fn without_a_pool_the_service_has_failed() {
    assert_eq!(
        begin(None),
        (Attempt::Refused, PoolAction::Refuse(Status::InternalServerError))
    );
}

#[test]
fn a_request_is_served_after_permit_and_connection() {
    let (attempt, action) = begin(Some(SETTINGS));
    assert_eq!(attempt, Attempt::WaitingForPermit);
    assert_eq!(action, PoolAction::AcquirePermit { seconds: 5 });

    let (attempt, action) = advance(attempt, PoolEvent::PermitGranted, SETTINGS);
    assert_eq!(attempt, Attempt::WaitingForConnection);
    assert_eq!(action, PoolAction::GetConnection { seconds: 5 });

    let (attempt, action) = advance(attempt, PoolEvent::ConnectionReady, SETTINGS);
    assert_eq!(attempt, Attempt::Connected);
    assert_eq!(action, PoolAction::Serve);
}

#[test]
fn no_permit_in_time_is_unavailable() {
    assert_eq!(
        advance(Attempt::WaitingForPermit, PoolEvent::PermitTimedOut, SETTINGS),
        (Attempt::Refused, PoolAction::Refuse(Status::ServiceUnavailable))
    );
}

#[test]
fn no_connection_in_time_is_unavailable() {
    assert_eq!(
        advance(Attempt::WaitingForConnection, PoolEvent::ConnectionFailed, SETTINGS),
        (Attempt::Refused, PoolAction::Refuse(Status::ServiceUnavailable))
    );
}

#[test]
fn an_event_out_of_turn_is_a_failure_of_the_service() {
    let failed = (Attempt::Refused, PoolAction::Refuse(Status::InternalServerError));
    assert_eq!(advance(Attempt::WaitingForPermit, PoolEvent::ConnectionReady, SETTINGS), failed);
    assert_eq!(advance(Attempt::WaitingForPermit, PoolEvent::ConnectionFailed, SETTINGS), failed);
    assert_eq!(advance(Attempt::WaitingForConnection, PoolEvent::PermitGranted, SETTINGS), failed);
    assert_eq!(advance(Attempt::WaitingForConnection, PoolEvent::PermitTimedOut, SETTINGS), failed);
    assert_eq!(advance(Attempt::Connected, PoolEvent::ConnectionReady, SETTINGS), failed);
    assert_eq!(advance(Attempt::Refused, PoolEvent::PermitGranted, SETTINGS), failed);
}

#[test]
fn refusals_carry_their_body() {
    let unavailable = refusal(Status::ServiceUnavailable);
    assert_eq!(unavailable.status, Status::ServiceUnavailable);
    assert_eq!(unavailable.status.code(), 503);
    assert_eq!(unavailable.body.err, "Service Unavailable");
    assert_eq!(unavailable.body.code, 503);

    let failed = refusal(Status::InternalServerError);
    assert_eq!(failed.status, Status::InternalServerError);
    assert_eq!(failed.status.code(), 500);
    assert_eq!(failed.body.err, "Internal Server Error");
    assert_eq!(failed.body.code, 500);
}
