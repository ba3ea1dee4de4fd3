//! What holds of the gateway as a whole, whatever is requested and whatever
//! the upstream services answer.

use vstd::prelude::*;
use crate::accounts::{
    completed, invalid, pair_object, pool_lookup, pool_object, resumed, token_pair_lookup,
    LookupView, StepView,
};
use crate::address::pubkey_from_str;
use crate::json::{json_string, json_syntax_error};
use crate::response::{
    caused, error_reply, json_reply, ResponseView, BAD_REQUEST, INTERNAL_SERVER_ERROR, OK,
};
use crate::status::solana_status;
use crate::transactions::{token_transactions, transfers_url};
use crate::upstream::{AccountSnapshot, Outcome};

verus! {

/// A request to the gateway, by endpoint.
pub enum Request {
    Status,
    Pool { pool_id: Seq<char> },
    TokenPair { token_a: Seq<char>, token_b: Seq<char> },
    Transactions { token: Seq<char> },
}

/// The upstream services as one exchange sees them: for each call that the
/// gateway can make, what it comes to.
pub struct Upstream {
    /// What asking the ledger node for its current slot comes to.
    pub slot: Outcome<u64>,
    /// What fetching the account of each key comes to.
    pub ledger: spec_fn(Seq<u8>) -> Outcome<AccountSnapshot>,
    /// What a GET of each address comes to at the block explorer.
    pub explorer: spec_fn(Seq<char>) -> Outcome<Seq<u8>>,
}

/// The response of the gateway to `request` when the upstream services
/// behave as `upstream` says.
pub open spec fn served(request: Request, upstream: Upstream) -> ResponseView {
    match request {
        Request::Status => solana_status(upstream.slot),
        Request::Pool { pool_id } => completed(
            pool_lookup(pool_id, pubkey_from_str(pool_id)),
            upstream.ledger,
        ),
        Request::TokenPair { token_a, token_b } => completed(
            token_pair_lookup(token_a, token_b, pubkey_from_str(token_a), pubkey_from_str(token_b)),
            upstream.ledger,
        ),
        Request::Transactions { token } => token_transactions(
            (upstream.explorer)(transfers_url(token)),
        ),
    }
}

/// Whether `response` reports a failure in the one shape that failures
/// have: an object whose only member, `error`, holds a message.
pub open spec fn is_error_reply(response: ResponseView) -> bool {
    exists|message: Seq<char>| response == #[trigger] error_reply(response.status, message)
}

/// An account lookup whose address does not parse is answered with a client
/// error and fetches nothing: its first step already responds, so the
/// response is the same whatever the ledger holds.
pub proof fn lemma_invalid_pool_id_fetches_nothing(
    pool_id: Seq<char>,
    ledger: spec_fn(Seq<u8>) -> Outcome<AccountSnapshot>,
    other_ledger: spec_fn(Seq<u8>) -> Outcome<AccountSnapshot>,
)
    requires
        pubkey_from_str(pool_id) is Err,
    ensures
        pool_lookup(pool_id, pubkey_from_str(pool_id)) is Respond,
        completed(pool_lookup(pool_id, pubkey_from_str(pool_id)), ledger).status == BAD_REQUEST,
        completed(pool_lookup(pool_id, pubkey_from_str(pool_id)), ledger) == completed(
            pool_lookup(pool_id, pubkey_from_str(pool_id)),
            other_ledger,
        ),
{
    reveal_with_fuel(completed, 2);
}

/// A pair lookup in which either address does not parse is answered with a
/// client error and fetches nothing, not even the account of the address
/// that does parse.
pub proof fn lemma_invalid_token_address_fetches_nothing(
    token_a: Seq<char>,
    token_b: Seq<char>,
    ledger: spec_fn(Seq<u8>) -> Outcome<AccountSnapshot>,
    other_ledger: spec_fn(Seq<u8>) -> Outcome<AccountSnapshot>,
)
    requires
        pubkey_from_str(token_a) is Err || pubkey_from_str(token_b) is Err,
    ensures
        token_pair_lookup(
            token_a,
            token_b,
            pubkey_from_str(token_a),
            pubkey_from_str(token_b),
        ) is Respond,
        completed(
            token_pair_lookup(token_a, token_b, pubkey_from_str(token_a), pubkey_from_str(token_b)),
            ledger,
        ).status == BAD_REQUEST,
        completed(
            token_pair_lookup(token_a, token_b, pubkey_from_str(token_a), pubkey_from_str(token_b)),
            ledger,
        ) == completed(
            token_pair_lookup(token_a, token_b, pubkey_from_str(token_a), pubkey_from_str(token_b)),
            other_ledger,
        ),
{
    reveal_with_fuel(completed, 2);
}

/// An address that parses is not asked to exist: what becomes of the lookup
/// is up to the fetch. Where the upstream does not deliver the account, and
/// a missing account is not told apart from any other failure, the answer is
/// a server error that reports the failure.
pub proof fn lemma_undelivered_account_is_a_server_error(
    pool_id: Seq<char>,
    ledger: spec_fn(Seq<u8>) -> Outcome<AccountSnapshot>,
)
    requires
        pubkey_from_str(pool_id) is Ok,
        !(ledger(pubkey_from_str(pool_id)->Ok_0) is Success),
    ensures
        completed(pool_lookup(pool_id, pubkey_from_str(pool_id)), ledger) == ledger(
            pubkey_from_str(pool_id)->Ok_0,
        ).failure_reply("Failed to get account"@),
        completed(pool_lookup(pool_id, pubkey_from_str(pool_id)), ledger).status
            == INTERNAL_SERVER_ERROR,
{
    reveal_with_fuel(completed, 3);
}

/// Where the first address of a pair does not parse, the second is neither
/// judged nor fetched: the lookup responds at its first step, and with the
/// same response whatever the second address is and whatever the ledger
/// holds.
pub proof fn lemma_first_address_is_judged_first(
    token_a: Seq<char>,
    token_b: Seq<char>,
    other_b: Seq<char>,
    ledger: spec_fn(Seq<u8>) -> Outcome<AccountSnapshot>,
    other_ledger: spec_fn(Seq<u8>) -> Outcome<AccountSnapshot>,
)
    requires
        pubkey_from_str(token_a) is Err,
    ensures
        token_pair_lookup(token_a, token_b, pubkey_from_str(token_a), pubkey_from_str(token_b))
            == StepView::Respond(
            invalid("Invalid token A address"@, pubkey_from_str(token_a)->Err_0),
        ),
        completed(
            token_pair_lookup(token_a, token_b, pubkey_from_str(token_a), pubkey_from_str(token_b)),
            ledger,
        ) == completed(
            token_pair_lookup(token_a, other_b, pubkey_from_str(token_a), pubkey_from_str(other_b)),
            other_ledger,
        ),
{
    reveal_with_fuel(completed, 2);
}

/// A pair lookup reports both accounts or none. Where both addresses parse
/// and the second account cannot be fetched, the answer is a server error
/// that reports a failed fetch, and the first account's data is not in it.
pub proof fn lemma_pair_is_all_or_nothing(
    token_a: Seq<char>,
    token_b: Seq<char>,
    ledger: spec_fn(Seq<u8>) -> Outcome<AccountSnapshot>,
)
    requires
        pubkey_from_str(token_a) is Ok,
        pubkey_from_str(token_b) is Ok,
        !(ledger(pubkey_from_str(token_b)->Ok_0) is Success),
    ensures
        completed(
            token_pair_lookup(token_a, token_b, pubkey_from_str(token_a), pubkey_from_str(token_b)),
            ledger,
        ) == (if ledger(pubkey_from_str(token_a)->Ok_0) is Success {
            ledger(pubkey_from_str(token_b)->Ok_0)
        } else {
            ledger(pubkey_from_str(token_a)->Ok_0)
        }).failure_reply("Failed to get token info"@),
        completed(
            token_pair_lookup(token_a, token_b, pubkey_from_str(token_a), pubkey_from_str(token_b)),
            ledger,
        ).status == INTERNAL_SERVER_ERROR,
{
    reveal_with_fuel(completed, 4);
}

/// A pair lookup whose addresses parse and whose accounts are both
/// delivered reports the two accounts, each under its address as it was
/// given.
pub proof fn lemma_pair_of_delivered_accounts(
    token_a: Seq<char>,
    token_b: Seq<char>,
    ledger: spec_fn(Seq<u8>) -> Outcome<AccountSnapshot>,
)
    requires
        pubkey_from_str(token_a) is Ok,
        pubkey_from_str(token_b) is Ok,
        ledger(pubkey_from_str(token_a)->Ok_0) is Success,
        ledger(pubkey_from_str(token_b)->Ok_0) is Success,
    ensures
        completed(
            token_pair_lookup(token_a, token_b, pubkey_from_str(token_a), pubkey_from_str(token_b)),
            ledger,
        ) == json_reply(
            OK,
            pair_object(
                json_string(token_a),
                ledger(pubkey_from_str(token_a)->Ok_0)->Success_0,
                json_string(token_b),
                ledger(pubkey_from_str(token_b)->Ok_0)->Success_0,
            ),
        ),
{
    reveal_with_fuel(completed, 4);
}

/// A lookup of one account whose address parses and whose account is
/// delivered reports the account under the address as it was given.
pub proof fn lemma_pool_of_delivered_account(
    pool_id: Seq<char>,
    ledger: spec_fn(Seq<u8>) -> Outcome<AccountSnapshot>,
)
    requires
        pubkey_from_str(pool_id) is Ok,
        ledger(pubkey_from_str(pool_id)->Ok_0) is Success,
    ensures
        completed(pool_lookup(pool_id, pubkey_from_str(pool_id)), ledger) == json_reply(
            OK,
            pool_object(json_string(pool_id), ledger(pubkey_from_str(pool_id)->Ok_0)->Success_0),
        ),
{
    reveal_with_fuel(completed, 3);
}

/// Nothing is tried twice. A fetch that fails ends the lookup there and
/// then: the next step responds, with a server error, and asks for no
/// further account.
pub proof fn lemma_failed_fetch_ends_the_lookup(
    lookup: LookupView,
    outcome: Outcome<AccountSnapshot>,
)
    requires
        !(outcome is Success),
    ensures
        resumed(lookup, outcome) is Respond,
        resumed(lookup, outcome)->Respond_0.status == INTERNAL_SERVER_ERROR,
        is_error_reply(resumed(lookup, outcome)->Respond_0),
{
    let what = if lookup is Pool {
        "Failed to get account"@
    } else {
        "Failed to get token info"@
    };
    let response = resumed(lookup, outcome)->Respond_0;
    assert(response == error_reply(response.status, outcome.failure_message(what)));
}

/// No lookup fetches more than two accounts: the single-account lookup asks
/// for one at most, the pair lookup for two, and every fetch leaves fewer to
/// ask for.
pub proof fn lemma_lookups_fetch_at_most_twice(
    pool_id: Seq<char>,
    token_a: Seq<char>,
    token_b: Seq<char>,
    lookup: LookupView,
    outcome: Outcome<AccountSnapshot>,
)
    ensures
        pool_lookup(pool_id, pubkey_from_str(pool_id)).fetches_left() <= 1,
        token_pair_lookup(
            token_a,
            token_b,
            pubkey_from_str(token_a),
            pubkey_from_str(token_b),
        ).fetches_left() <= 2,
        resumed(lookup, outcome).fetches_left() < lookup.fetches_left(),
{
}

/// A body that reads as JSON passes through: the response holds it byte
/// for byte, under the status of success.
pub proof fn lemma_json_body_passes_through(body: Seq<u8>)
    requires
        json_syntax_error(body) is None,
    ensures
        token_transactions(Outcome::Success(body)) == (ResponseView { status: OK, body }),
{
}

/// A body that does not read as JSON is not passed on: the answer is a
/// server error that reports the parser's complaint.
pub proof fn lemma_malformed_body_is_a_server_error(body: Seq<u8>)
    requires
        json_syntax_error(body) is Some,
    ensures
        token_transactions(Outcome::Success(body)) == error_reply(
            INTERNAL_SERVER_ERROR,
            caused("Failed to parse response"@, json_syntax_error(body)->Some_0),
        ),
{
}

/// The gateway keeps nothing between requests: the response is a function
/// of the request and of what the upstream services answer, so the same
/// request against the same upstream is answered with the same bytes.
pub proof fn lemma_same_request_same_response(
    request: Request,
    upstream: Upstream,
    again: Request,
    upstream_again: Upstream,
)
    requires
        request == again,
        upstream == upstream_again,
    ensures
        served(request, upstream) == served(again, upstream_again),
        served(request, upstream).body == served(again, upstream_again).body,
{
}

/// Every response carries one of three statuses, and every response but a
/// success reports its failure in the one shape that failures have.
pub proof fn lemma_failures_share_one_shape(request: Request, upstream: Upstream)
    ensures
        served(request, upstream).status == OK || served(request, upstream).status == BAD_REQUEST
            || served(request, upstream).status == INTERNAL_SERVER_ERROR,
        served(request, upstream).status != OK ==> is_error_reply(served(request, upstream)),
{
    reveal_with_fuel(completed, 4);
    let response = served(request, upstream);
    match request {
        Request::Status => {
            if !(upstream.slot is Success) {
                assert(response == error_reply(
                    response.status,
                    upstream.slot.failure_message("Failed to get slot"@),
                ));
            }
        },
        Request::Pool { pool_id } => {
            match pubkey_from_str(pool_id) {
                Err(reason) => {
                    assert(response == error_reply(
                        response.status,
                        caused("Invalid pool ID"@, reason),
                    ));
                },
                Ok(key) => {
                    let outcome = (upstream.ledger)(key);
                    if !(outcome is Success) {
                        assert(response == error_reply(
                            response.status,
                            outcome.failure_message("Failed to get account"@),
                        ));
                    }
                },
            }
        },
        Request::TokenPair { token_a, token_b } => {
            match pubkey_from_str(token_a) {
                Err(reason) => {
                    assert(response == error_reply(
                        response.status,
                        caused("Invalid token A address"@, reason),
                    ));
                },
                Ok(key_a) => match pubkey_from_str(token_b) {
                    Err(reason) => {
                        assert(response == error_reply(
                            response.status,
                            caused("Invalid token B address"@, reason),
                        ));
                    },
                    Ok(key_b) => {
                        let first = (upstream.ledger)(key_a);
                        let second = (upstream.ledger)(key_b);
                        if !(first is Success) {
                            assert(response == error_reply(
                                response.status,
                                first.failure_message("Failed to get token info"@),
                            ));
                        } else if !(second is Success) {
                            assert(response == error_reply(
                                response.status,
                                second.failure_message("Failed to get token info"@),
                            ));
                        }
                    },
                },
            }
        },
        Request::Transactions { token } => {
            let outcome = (upstream.explorer)(transfers_url(token));
            match outcome {
                Outcome::Success(body) => {
                    if let Some(complaint) = json_syntax_error(body) {
                        assert(response == error_reply(
                            response.status,
                            caused("Failed to parse response"@, complaint),
                        ));
                    }
                },
                _ => {
                    assert(response == error_reply(
                        response.status,
                        outcome.failure_message("Failed to fetch from Solscan"@),
                    ));
                },
            }
        },
    }
}

} // verus!
