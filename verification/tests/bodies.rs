use solana_relay::accounts::{Lookup, Step};
use solana_relay::response::Response;
use solana_relay::status::get_solana_status;
use solana_relay::upstream::{AccountSnapshot, UpstreamResult};
use serde_json::Value;

fn object(members: Vec<(&str, Value)>) -> Value {
    let mut map = serde_json::Map::new();
    for (name, value) in members {
        map.insert(name.to_string(), value);
    }
    Value::Object(map)
}

fn read(response: &Response) -> Value {
    serde_json::from_slice(&response.body).unwrap()
}

fn responded(step: Step) -> Response {
    match step {
        Step::Respond(response) => response,
        Step::Fetch { .. } => panic!("the lookup asks for another account"),
    }
}

#[test]
fn status_body_reads_as_its_object() {
    let response = get_solana_status(UpstreamResult::Success(12345));
    let expected = object(vec![
        ("status", Value::from("connected")),
        ("current_slot", Value::from(12345u64)),
    ]);
    assert_eq!(read(&response), expected);
}

#[test]
fn error_body_reads_as_its_object() {
    let cause = "line one\nline \"two\"\t\\ \u{0} \u{7f} \u{2028} \u{e9}";
    let response = get_solana_status(UpstreamResult::UpstreamError(cause.to_string()));
    let expected =
        object(vec![("error", Value::from(format!("Failed to get slot: {}", cause)))]);
    assert_eq!(read(&response), expected);
}

#[test]
fn error_body_is_what_the_json_writer_writes() {
    let mut message = String::new();
    for code in 0u32..0x250 {
        message.push(char::from_u32(code).unwrap());
    }
    let response = Response::error(500, &message);
    let expected = object(vec![("error", Value::from(message))]).to_string();
    assert_eq!(response.body, expected.into_bytes());
}

#[test]
fn pool_body_reads_as_its_object() {
    let lookup = Lookup::Pool { pool_id: "a \"pool\"".to_string() };
    let account = AccountSnapshot { lamports: u64::MAX, data_size: 165 };
    let response = responded(lookup.account_fetched(UpstreamResult::Success(account)));
    assert_eq!(response.status, 200);
    let expected = object(vec![
        ("pool_id", Value::from("a \"pool\"")),
        ("lamports", Value::from(u64::MAX)),
        ("data_size", Value::from(165u64)),
    ]);
    assert_eq!(read(&response), expected);
}

#[test]
fn pair_body_reads_as_its_object() {
    let lookup = Lookup::TokenB {
        token_a: "first\\".to_string(),
        token_b: "second\n".to_string(),
        first: AccountSnapshot { lamports: 1, data_size: 82 },
    };
    let account = AccountSnapshot { lamports: 2, data_size: 0 };
    let response = responded(lookup.account_fetched(UpstreamResult::Success(account)));
    assert_eq!(response.status, 200);
    let expected = object(vec![
        (
            "token_a",
            object(vec![("address", Value::from("first\\")), ("data_size", Value::from(82u64))]),
        ),
        (
            "token_b",
            object(vec![("address", Value::from("second\n")), ("data_size", Value::from(0u64))]),
        ),
    ]);
    assert_eq!(read(&response), expected);
}
