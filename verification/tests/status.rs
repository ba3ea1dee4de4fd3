use solana_relay::response::Response;
use solana_relay::status::{get_solana_status, write_status_object};
use solana_relay::upstream::UpstreamResult;

#[test]
fn status_reports_the_slot_of_a_connected_node() {
    let response = get_solana_status(UpstreamResult::Success(12345));
    assert_eq!(response.status, 200);
    assert_eq!(response.body, br#"{"status":"connected","current_slot":12345}"#.to_vec());
}

#[test]
fn status_at_slot_zero() {
    let response = get_solana_status(UpstreamResult::Success(0));
    assert_eq!(response.status, 200);
    assert_eq!(response.body, br#"{"status":"connected","current_slot":0}"#.to_vec());
}

#[test]
fn status_at_the_last_slot() {
    let response = get_solana_status(UpstreamResult::Success(u64::MAX));
    assert_eq!(response.status, 200);
    assert_eq!(
        response.body,
        br#"{"status":"connected","current_slot":18446744073709551615}"#.to_vec()
    );
}

#[test]
fn status_object_text() {
    assert_eq!(write_status_object(7), r#"{"status":"connected","current_slot":7}"#);
    assert_eq!(write_status_object(1000), r#"{"status":"connected","current_slot":1000}"#);
}

#[test]
fn status_upstream_error_is_a_server_error() {
    let response = get_solana_status(UpstreamResult::UpstreamError("node is behind".to_string()));
    assert_eq!(response.status, 500);
    assert_eq!(response.body, br#"{"error":"Failed to get slot: node is behind"}"#.to_vec());
}

#[test]
fn status_transport_error_is_a_server_error() {
    let response =
        get_solana_status(UpstreamResult::TransportError("connection refused".to_string()));
    assert_eq!(response.status, 500);
    assert_eq!(response.body, br#"{"error":"Failed to get slot: connection refused"}"#.to_vec());
}

#[test]
fn status_scheduling_error_names_the_task() {
    let response =
        get_solana_status(UpstreamResult::SchedulingError("task 7 panicked".to_string()));
    assert_eq!(response.status, 500);
    assert_eq!(response.body, br#"{"error":"Task failed: task 7 panicked"}"#.to_vec());
}

#[test]
fn status_error_message_is_escaped() {
    let response =
        get_solana_status(UpstreamResult::UpstreamError("bad \"slot\"\n\\ \u{1}".to_string()));
    assert_eq!(response.status, 500);
    assert_eq!(
        response.body,
        br#"{"error":"Failed to get slot: bad \"slot\"\n\\ \u0001"}"#.to_vec()
    );
}

#[test]
fn status_twice_gives_the_same_bytes() {
    let first = get_solana_status(UpstreamResult::Success(12345));
    let second = get_solana_status(UpstreamResult::Success(12345));
    assert_eq!(first, second);
    let first = get_solana_status(UpstreamResult::TransportError("timed out".to_string()));
    let second = get_solana_status(UpstreamResult::TransportError("timed out".to_string()));
    assert_eq!(first, second);
}

#[test]
fn every_response_is_json() {
    let response = get_solana_status(UpstreamResult::Success(1));
    assert_eq!(response.content_type(), "application/json");
    let response = Response::error(500, "down");
    assert_eq!(response.content_type(), "application/json");
}
