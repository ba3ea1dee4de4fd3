//! JSON text as the gateway writes and reads it: decimal numbers, string
//! literals, and the check that an upstream body is one JSON document.

use vstd::prelude::*;

verus! {

/// The ten decimal digits, in order.
pub open spec fn digits() -> Seq<char> {
    "0123456789"@
}

/// The decimal numeral of `n`, without sign and without leading zeros.
pub open spec fn decimal(n: nat) -> Seq<char>
    decreases n,
{
    if n < 10 {
        seq![digits()[n as int]]
    } else {
        decimal(n / 10).push(digits()[(n % 10) as int])
    }
}

/// Whether `c` is one of the ten decimal digits.
pub open spec fn is_digit(c: char) -> bool {
    '0' <= c <= '9'
}

/// The number that a string of decimal digits denotes.
pub open spec fn numeral_value(text: Seq<char>) -> nat
    decreases text.len(),
{
    if text.len() == 0 {
        0
    } else {
        (numeral_value(text.drop_last()) * 10 + (text.last() as nat - '0' as nat)) as nat
    }
}

/// The numeral of `n` is made of digits, denotes `n`, and begins with a zero
/// only where `n` is zero.
pub proof fn lemma_decimal_denotes(n: nat)
    ensures
        decimal(n).len() >= 1,
        forall|i: int| 0 <= i < decimal(n).len() ==> is_digit(#[trigger] decimal(n)[i]),
        numeral_value(decimal(n)) == n,
        decimal(n)[0] == '0' ==> n == 0,
    decreases n,
{
    reveal_strlit("0123456789");
    if n < 10 {
        assert(decimal(n).drop_last() =~= Seq::<char>::empty());
        reveal_with_fuel(numeral_value, 2);
    } else {
        lemma_decimal_denotes(n / 10);
        assert(decimal(n).drop_last() =~= decimal(n / 10));
    }
}

/// Appends the decimal numeral of `n` to `out`.
pub fn push_decimal(out: &mut String, n: u64)
    ensures
        final(out)@ == old(out)@ + decimal(n as nat),
    decreases n,
{
    if n >= 10 {
        push_decimal(out, n / 10);
    }
    let d: usize = (n % 10) as usize;
    let table = "0123456789";
    proof {
        reveal_strlit("0123456789");
    }
    let digit = table.substring_ascii(d, d + 1);
    out.append(digit);
}

/// The JSON string literal that `serde_json` writes for `text`, with its
/// quotes and escapes.
pub uninterp spec fn json_string(text: Seq<char>) -> Seq<char>;

/// Formats `text` as a `serde_json::Value` string through the value's
/// `Display` impl, which writes compact JSON. Trusted: the result is what
/// `json_string` names, a function of the characters of `text` alone.
#[verifier::external_body]
pub(crate) fn quote(text: &str) -> (r: String)
    ensures
        r@ == json_string(text@),
{
    serde_json::Value::from(text).to_string()
}

/// What `serde_json` objects to in `body`, read as one JSON document: `None`
/// where it is one, otherwise the text of the parser's error.
pub uninterp spec fn json_syntax_error(body: Seq<u8>) -> Option<Seq<char>>;

/// Parses `body` with `serde_json::from_slice` into a `serde_json::Value` and
/// keeps only the error, as the text of its `Display` impl. Trusted: whether
/// there is an error, and its text, are what `json_syntax_error` names, a
/// function of the bytes of `body` alone.
#[verifier::external_body]
pub(crate) fn syntax_error(body: &[u8]) -> (r: Option<String>)
    ensures
        r is None ==> json_syntax_error(body@) is None,
        r matches Some(e) ==> json_syntax_error(body@) == Some(e@),
{
    match serde_json::from_slice::<serde_json::Value>(body) {
        Ok(_) => None,
        Err(e) => Some(e.to_string()),
    }
}

} // verus!
