//! The two account lookups: one account by its address, and a pair of token
//! accounts by theirs.
//!
//! A lookup alternates between this module and the ledger node. Each step
//! either names the next account to fetch, with the state to come back with,
//! or ends the lookup with the response. The caller fetches the account and
//! reports what came of it with [`Lookup::account_fetched`].

use vstd::prelude::*;
use crate::address::{parsed_view, pubkey_from_str, Address};
use crate::json::{decimal, json_string, push_decimal, quote};
use crate::response::{
    caused, describe, error_reply, json_reply, Response, ResponseView, BAD_REQUEST, OK,
};
use crate::upstream::{AccountSnapshot, Outcome, UpstreamResult};

verus! {

/// A lookup that waits for an account.
#[derive(Debug, PartialEq, Eq)]
pub enum Lookup {
    /// The single-account lookup waits for its account.
    Pool { pool_id: String },
    /// The pair lookup waits for the first account; the second is still to
    /// be fetched.
    TokenA { token_a: String, token_b: String, key_b: Address },
    /// The pair lookup has the first account and waits for the second.
    TokenB { token_a: String, token_b: String, first: AccountSnapshot },
}

/// The mathematical content of a [`Lookup`].
pub enum LookupView {
    Pool { pool_id: Seq<char> },
    TokenA { token_a: Seq<char>, token_b: Seq<char>, key_b: Seq<u8> },
    TokenB { token_a: Seq<char>, token_b: Seq<char>, first: AccountSnapshot },
}

impl View for Lookup {
    type V = LookupView;

    open spec fn view(&self) -> LookupView {
        match *self {
            Lookup::Pool { pool_id } => LookupView::Pool { pool_id: pool_id@ },
            Lookup::TokenA { token_a, token_b, key_b } => LookupView::TokenA {
                token_a: token_a@,
                token_b: token_b@,
                key_b: key_b@,
            },
            Lookup::TokenB { token_a, token_b, first } => LookupView::TokenB {
                token_a: token_a@,
                token_b: token_b@,
                first,
            },
        }
    }
}

/// What a lookup asks of its caller next.
#[derive(Debug, PartialEq, Eq)]
pub enum Step {
    /// Fetch `account` from the ledger node and report to `next`.
    Fetch { account: Address, next: Lookup },
    /// The lookup is over: send this response.
    Respond(Response),
}

/// The mathematical content of a [`Step`].
pub enum StepView {
    Fetch { account: Seq<u8>, next: LookupView },
    Respond(ResponseView),
}

impl View for Step {
    type V = StepView;

    open spec fn view(&self) -> StepView {
        match *self {
            Step::Fetch { account, next } => StepView::Fetch { account: account@, next: next@ },
            Step::Respond(response) => StepView::Respond(response@),
        }
    }
}

impl LookupView {
    /// How many accounts this lookup may still ask for, the one it waits for
    /// included.
    pub open spec fn fetches_left(self) -> nat {
        match self {
            LookupView::Pool { .. } => 1,
            LookupView::TokenA { .. } => 2,
            LookupView::TokenB { .. } => 1,
        }
    }
}

impl StepView {
    /// How many accounts the lookup may still ask for from this step on.
    pub open spec fn fetches_left(self) -> nat {
        match self {
            StepView::Fetch { next, .. } => next.fetches_left(),
            StepView::Respond(_) => 0,
        }
    }
}

/// The response to an address that does not parse. `what` names the
/// parameter, `reason` is the parser's complaint.
pub open spec fn invalid(what: Seq<char>, reason: Seq<char>) -> ResponseView {
    error_reply(BAD_REQUEST, caused(what, reason))
}

/// The body that reports one account, around its address quoted already:
/// `{"pool_id":<quoted>,"lamports":<balance>,"data_size":<length>}`.
pub open spec fn pool_object(quoted_id: Seq<char>, account: AccountSnapshot) -> Seq<char> {
    "{\"pool_id\":"@ + quoted_id + ",\"lamports\":"@ + decimal(account.lamports as nat)
        + ",\"data_size\":"@ + decimal(account.data_size as nat) + "}"@
}

/// One half of the body that reports a token pair:
/// `{"address":<quoted>,"data_size":<length>}`.
pub open spec fn token_object(quoted_address: Seq<char>, data_size: usize) -> Seq<char> {
    "{\"address\":"@ + quoted_address + ",\"data_size\":"@ + decimal(data_size as nat) + "}"@
}

/// The body that reports a token pair, around the two addresses quoted
/// already: `{"token_a":<first half>,"token_b":<second half>}`.
pub open spec fn pair_object(
    quoted_a: Seq<char>,
    first: AccountSnapshot,
    quoted_b: Seq<char>,
    second: AccountSnapshot,
) -> Seq<char> {
    "{\"token_a\":"@ + token_object(quoted_a, first.data_size) + ",\"token_b\":"@ + token_object(
        quoted_b,
        second.data_size,
    ) + "}"@
}

/// The first step of the single-account lookup, given what parsing the
/// address came to: an address that does not parse ends the lookup.
pub open spec fn pool_lookup(pool_id: Seq<char>, parsed: Result<Seq<u8>, Seq<char>>) -> StepView {
    match parsed {
        Ok(key) => StepView::Fetch { account: key, next: LookupView::Pool { pool_id } },
        Err(reason) => StepView::Respond(invalid("Invalid pool ID"@, reason)),
    }
}

/// The first step of the pair lookup, given what parsing the two addresses
/// came to. The first address is judged first: where it does not parse, the
/// second plays no part.
pub open spec fn token_pair_lookup(
    token_a: Seq<char>,
    token_b: Seq<char>,
    parsed_a: Result<Seq<u8>, Seq<char>>,
    parsed_b: Result<Seq<u8>, Seq<char>>,
) -> StepView {
    match parsed_a {
        Err(reason) => StepView::Respond(invalid("Invalid token A address"@, reason)),
        Ok(key_a) => match parsed_b {
            Err(reason) => StepView::Respond(invalid("Invalid token B address"@, reason)),
            Ok(key_b) => StepView::Fetch {
                account: key_a,
                next: LookupView::TokenA { token_a, token_b, key_b },
            },
        },
    }
}

/// The step that follows a fetch. A failed fetch ends the lookup with a
/// server error, whatever was fetched before it.
pub open spec fn resumed(lookup: LookupView, outcome: Outcome<AccountSnapshot>) -> StepView {
    match lookup {
        LookupView::Pool { pool_id } => match outcome {
            Outcome::Success(account) => StepView::Respond(
                json_reply(OK, pool_object(json_string(pool_id), account)),
            ),
            _ => StepView::Respond(outcome.failure_reply("Failed to get account"@)),
        },
        LookupView::TokenA { token_a, token_b, key_b } => match outcome {
            Outcome::Success(account) => StepView::Fetch {
                account: key_b,
                next: LookupView::TokenB { token_a, token_b, first: account },
            },
            _ => StepView::Respond(outcome.failure_reply("Failed to get token info"@)),
        },
        LookupView::TokenB { token_a, token_b, first } => match outcome {
            Outcome::Success(account) => StepView::Respond(
                json_reply(
                    OK,
                    pair_object(json_string(token_a), first, json_string(token_b), account),
                ),
            ),
            _ => StepView::Respond(outcome.failure_reply("Failed to get token info"@)),
        },
    }
}

/// The response that a lookup ends with when `ledger` says what fetching
/// each account comes to: the steps are followed until one responds.
pub open spec fn completed(
    step: StepView,
    ledger: spec_fn(Seq<u8>) -> Outcome<AccountSnapshot>,
) -> ResponseView
    decreases step.fetches_left(),
{
    match step {
        StepView::Respond(response) => response,
        StepView::Fetch { account, next } => completed(resumed(next, ledger(account)), ledger),
    }
}

/// The response to an address that does not parse.
pub fn invalid_address(what: &str, reason: &str) -> (r: Response)
    ensures
        r@ == invalid(what@, reason@),
{
    let message = describe(what, reason);
    Response::error(BAD_REQUEST, message.as_str())
}

/// Writes the body that reports one account.
pub fn write_pool_object(quoted_id: &str, account: AccountSnapshot) -> (text: String)
    ensures
        text@ == pool_object(quoted_id@, account),
{
    let mut text = "{\"pool_id\":".to_owned();
    text.append(quoted_id);
    text.append(",\"lamports\":");
    push_decimal(&mut text, account.lamports);
    text.append(",\"data_size\":");
    push_decimal(&mut text, account.data_size as u64);
    text.append("}");
    text
}

/// Appends one half of the body that reports a token pair.
pub fn push_token_object(out: &mut String, quoted_address: &str, data_size: usize)
    ensures
        final(out)@ == old(out)@ + token_object(quoted_address@, data_size),
{
    out.append("{\"address\":");
    out.append(quoted_address);
    out.append(",\"data_size\":");
    push_decimal(out, data_size as u64);
    out.append("}");
}

/// Writes the body that reports a token pair.
pub fn write_pair_object(
    quoted_a: &str,
    first: AccountSnapshot,
    quoted_b: &str,
    second: AccountSnapshot,
) -> (text: String)
    ensures
        text@ == pair_object(quoted_a@, first, quoted_b@, second),
{
    let mut text = "{\"token_a\":".to_owned();
    push_token_object(&mut text, quoted_a, first.data_size);
    text.append(",\"token_b\":");
    push_token_object(&mut text, quoted_b, second.data_size);
    text.append("}");
    text
}

/// The first step of the single-account lookup, once the address has been
/// through the parser.
pub fn pool_lookup_parsed(pool_id: &str, parsed: Result<Address, String>) -> (step: Step)
    ensures
        step@ == pool_lookup(pool_id@, parsed_view(parsed)),
{
    match parsed {
        Ok(account) => Step::Fetch { account, next: Lookup::Pool { pool_id: pool_id.to_owned() } },
        Err(reason) => Step::Respond(invalid_address("Invalid pool ID", reason.as_str())),
    }
}

/// Begins the lookup of one account. The address is parsed before anything
/// is fetched: one that does not parse is answered at once with a client
/// error, and no upstream call is asked for.
pub fn get_pool_info(pool_id: &str) -> (step: Step)
    ensures
        step@ == pool_lookup(pool_id@, pubkey_from_str(pool_id@)),
{
    pool_lookup_parsed(pool_id, Address::parse(pool_id))
}

/// The first step of the pair lookup, once the first address has parsed and
/// the second has been through the parser.
pub fn token_pair_lookup_parsed(
    token_a: &str,
    token_b: &str,
    key_a: Address,
    parsed_b: Result<Address, String>,
) -> (step: Step)
    ensures
        step@ == token_pair_lookup(token_a@, token_b@, Ok(key_a@), parsed_view(parsed_b)),
{
    match parsed_b {
        Ok(key_b) => Step::Fetch {
            account: key_a,
            next: Lookup::TokenA {
                token_a: token_a.to_owned(),
                token_b: token_b.to_owned(),
                key_b,
            },
        },
        Err(reason) => Step::Respond(invalid_address("Invalid token B address", reason.as_str())),
    }
}

/// Begins the lookup of a token pair. Both addresses are parsed before
/// anything is fetched, the first one first: where it does not parse, the
/// second is not looked at.
pub fn get_token_pair_info(token_a: &str, token_b: &str) -> (step: Step)
    ensures
        step@ == token_pair_lookup(
            token_a@,
            token_b@,
            pubkey_from_str(token_a@),
            pubkey_from_str(token_b@),
        ),
{
    match Address::parse(token_a) {
        Err(reason) => Step::Respond(invalid_address("Invalid token A address", reason.as_str())),
        Ok(key_a) => token_pair_lookup_parsed(token_a, token_b, key_a, Address::parse(token_b)),
    }
}

impl Lookup {
    /// Goes on with the lookup once the account it waited for has been
    /// fetched, or could not be. Each fetch leaves fewer accounts to ask
    /// for, so a caller's loop ends.
    pub fn account_fetched(self, outcome: UpstreamResult<AccountSnapshot>) -> (step: Step)
        ensures
            step@ == resumed(self@, outcome@),
            step@.fetches_left() < self@.fetches_left(),
    {
        match self {
            Lookup::Pool { pool_id } => match outcome.payload_or("Failed to get account") {
                Ok(account) => {
                    let quoted = quote(pool_id.as_str());
                    let text = write_pool_object(quoted.as_str(), account);
                    Step::Respond(Response::json(OK, text.as_str()))
                },
                Err(response) => Step::Respond(response),
            },
            Lookup::TokenA { token_a, token_b, key_b } => match outcome.payload_or(
                "Failed to get token info",
            ) {
                Ok(account) => Step::Fetch {
                    account: key_b,
                    next: Lookup::TokenB { token_a, token_b, first: account },
                },
                Err(response) => Step::Respond(response),
            },
            Lookup::TokenB { token_a, token_b, first } => match outcome.payload_or(
                "Failed to get token info",
            ) {
                Ok(account) => {
                    let quoted_a = quote(token_a.as_str());
                    let quoted_b = quote(token_b.as_str());
                    let text = write_pair_object(
                        quoted_a.as_str(),
                        first,
                        quoted_b.as_str(),
                        account,
                    );
                    Step::Respond(Response::json(OK, text.as_str()))
                },
                Err(response) => Step::Respond(response),
            },
        }
    }
}

} // verus!
