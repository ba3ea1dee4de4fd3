//! The status check: is the ledger node reachable, and at which slot is it.

use vstd::prelude::*;
use crate::json::{decimal, push_decimal};
use crate::response::{json_reply, Response, ResponseView, OK};
use crate::upstream::{Outcome, UpstreamResult};

verus! {

/// The body that reports a reachable node: `{"status":"connected","current_slot":<slot>}`.
pub open spec fn status_object(slot: u64) -> Seq<char> {
    "{\"status\":\"connected\",\"current_slot\":"@ + decimal(slot as nat) + "}"@
}

/// The response to a status check, given what asking the node for its
/// current slot came to.
pub open spec fn solana_status(outcome: Outcome<u64>) -> ResponseView {
    match outcome {
        Outcome::Success(slot) => json_reply(OK, status_object(slot)),
        _ => outcome.failure_reply("Failed to get slot"@),
    }
}

/// Writes the body that reports a reachable node at `slot`.
pub fn write_status_object(slot: u64) -> (text: String)
    ensures
        text@ == status_object(slot),
{
    let mut text = "{\"status\":\"connected\",\"current_slot\":".to_owned();
    push_decimal(&mut text, slot);
    text.append("}");
    text
}

/// Answers a status check. The one upstream call of this endpoint, for the
/// node's current slot, has been made; `outcome` is what it came to.
pub fn get_solana_status(outcome: UpstreamResult<u64>) -> (r: Response)
    ensures
        r@ == solana_status(outcome@),
{
    match outcome.payload_or("Failed to get slot") {
        Ok(slot) => {
            let text = write_status_object(slot);
            Response::json(OK, text.as_str())
        },
        Err(response) => response,
    }
}

} // verus!
