//! What the faucet needs to know of an address text, as `bitcoin` reads it.

use std::str::FromStr;
use vstd::prelude::*;

verus! {

/// An address text that parsed: whether it is valid on signet, and how the
/// address is written out again.
#[derive(Debug, Clone, PartialEq, Eq)]
pub struct ParsedAddress {
    pub on_signet: bool,
    pub text: String,
}

impl View for ParsedAddress {
    type V = (bool, Seq<char>);

    /// Whether the address is valid on signet, and the address written out.
    open spec fn view(&self) -> (bool, Seq<char>) {
        (self.on_signet, self.text@)
    }
}

/// What parsing gave, as the contracts speak of it.
pub open spec fn parsed_view(parsed: Option<ParsedAddress>) -> Option<(bool, Seq<char>)> {
    match parsed {
        Some(address) => Some(address@),
        None => None,
    }
}

/// What `bitcoin` makes of `text`: `None` where it is no address, else
/// whether the address is valid on signet, and the address written out.
pub uninterp spec fn parsed_address(text: Seq<char>) -> Option<(bool, Seq<char>)>;

/// `text` is an address that is valid on signet.
pub open spec fn is_signet_address(text: Seq<char>) -> bool {
    parsed_address(text) matches Some(parsed) && parsed.0
}

/// Parses `text` with `bitcoin::Address::from_str`. For an address, asks
/// `Address::is_valid_for_network` about `Network::Signet` (the test that
/// `Address::require_network` makes) and writes the address out through its
/// `Display`. The contract only names the outcome: the same text always
/// gives the same one.
#[verifier::external_body]
pub(crate) fn parse_address(text: &str) -> (parsed: Option<ParsedAddress>)
    ensures
        parsed_view(parsed) == parsed_address(text@),
{
    match bitcoin::Address::from_str(text) {
        Ok(address) => Some(
            ParsedAddress {
                on_signet: address.is_valid_for_network(bitcoin::Network::Signet),
                text: address.assume_checked().to_string(),
            },
        ),
        Err(_) => None,
    }
}

} // verus!
