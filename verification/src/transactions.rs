//! The transaction history of a token, relayed from the block explorer.

use vstd::prelude::*;
use crate::json::{decimal, json_syntax_error, push_decimal, syntax_error};
use crate::response::{
    caused, describe, error_reply, Response, ResponseView, INTERNAL_SERVER_ERROR, OK,
};
use crate::upstream::{Outcome, UpstreamResult};

verus! {

/// How many transfers one request asks the explorer for.
pub const TRANSFER_LIMIT: u64 = 50;

/// The address at which the explorer lists the transfers of `token`. The
/// token stands in it as it came, character for character.
pub open spec fn transfers_url(token: Seq<char>) -> Seq<char> {
    "https://public-api.solscan.io/token/transfers?token="@ + token + "&limit="@ + decimal(
        TRANSFER_LIMIT as nat,
    )
}

/// The response to a body that the explorer sent, given the parser's
/// complaint about it, if it has one. A body without complaint goes out as
/// it came in, byte for byte.
pub open spec fn relayed(body: Seq<u8>, complaint: Option<Seq<char>>) -> ResponseView {
    match complaint {
        None => ResponseView { status: OK, body },
        Some(message) => error_reply(
            INTERNAL_SERVER_ERROR,
            caused("Failed to parse response"@, message),
        ),
    }
}

/// The response to a request for the transfers of a token, given what
/// asking the explorer came to.
pub open spec fn token_transactions(outcome: Outcome<Seq<u8>>) -> ResponseView {
    match outcome {
        Outcome::Success(body) => relayed(body, json_syntax_error(body)),
        _ => outcome.failure_reply("Failed to fetch from Solscan"@),
    }
}

/// The address to request for the transfers of `token`: the one upstream
/// call of this endpoint is a GET of it.
pub fn token_transactions_url(token: &str) -> (url: String)
    ensures
        url@ == transfers_url(token@),
{
    let mut url = "https://public-api.solscan.io/token/transfers?token=".to_owned();
    url.append(token);
    url.append("&limit=");
    push_decimal(&mut url, TRANSFER_LIMIT);
    url
}

/// Answers with a body that the explorer sent, once it has been through the
/// parser.
pub fn relay_body(body: Vec<u8>, complaint: Option<String>) -> (r: Response)
    ensures
        r@ == relayed(body@, complaint.deep_view()),
{
    match complaint {
        None => Response { status: OK, body },
        Some(cause) => {
            let message = describe("Failed to parse response", cause.as_str());
            Response::error(INTERNAL_SERVER_ERROR, message.as_str())
        },
    }
}

/// Answers a request for the transfers of a token. The GET has been made;
/// `outcome` holds the body that came back, or why none did.
pub fn get_token_transactions(outcome: UpstreamResult<Vec<u8>>) -> (r: Response)
    ensures
        r@ == token_transactions(outcome@),
{
    match outcome.payload_or("Failed to fetch from Solscan") {
        Ok(body) => {
            let complaint = syntax_error(body.as_slice());
            relay_body(body, complaint)
        },
        Err(response) => response,
    }
}

} // verus!
