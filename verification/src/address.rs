//! Account addresses: the 32-byte keys that name accounts on the ledger.

use vstd::prelude::*;

verus! {

/// What `solana_sdk::pubkey::Pubkey` makes of the string `text`: the 32 bytes
/// of the key, or the text of the parse error.
pub uninterp spec fn pubkey_from_str(text: Seq<char>) -> Result<Seq<u8>, Seq<char>>;

/// Parses `text` with `<Pubkey as FromStr>::from_str` and hands out the key's
/// bytes, or the `Display` text of the `ParsePubkeyError`. Trusted: the
/// outcome is what `pubkey_from_str` names, a function of the characters of
/// `text` alone.
#[verifier::external_body]
fn decode(text: &str) -> (r: Result<[u8; 32], String>)
    ensures
        r matches Ok(key) ==> pubkey_from_str(text@) matches Ok(k) && k == key@,
        r matches Err(reason) ==> pubkey_from_str(text@) matches Err(e) && e == reason@,
{
    match <solana_sdk::pubkey::Pubkey as std::str::FromStr>::from_str(text) {
        Ok(key) => Ok(key.to_bytes()),
        Err(e) => Err(e.to_string()),
    }
}

/// The key of one account. [`Address::parse`] is the one way to make one.
#[derive(Clone, Copy, Debug, PartialEq, Eq)]
pub struct Address {
    bytes: [u8; 32],
}

impl View for Address {
    type V = Seq<u8>;

    closed spec fn view(&self) -> Seq<u8> {
        self.bytes@
    }
}

/// The mathematical content of a parse: the key's bytes, or why there is
/// no key.
pub open spec fn parsed_view(parsed: Result<Address, String>) -> Result<Seq<u8>, Seq<char>> {
    match parsed {
        Ok(address) => Ok(address@),
        Err(reason) => Err(reason@),
    }
}

impl Address {
    /// Reads an address from its string form. The check is one of form
    /// alone: whether an account with this key exists is not asked.
    pub fn parse(text: &str) -> (r: Result<Address, String>)
        ensures
            parsed_view(r) == pubkey_from_str(text@),
            r matches Ok(address) ==> address@.len() == 32,
    {
        match decode(text) {
            Ok(bytes) => Ok(Address { bytes }),
            Err(reason) => Err(reason),
        }
    }

    /// The 32 bytes of the key.
    pub fn to_bytes(&self) -> (r: [u8; 32])
        ensures
            r@ == self@,
    {
        self.bytes
    }
}

} // verus!
