//! The checks a send request passes before any wallet call is made.

use crate::address::{
    is_signet_address, parse_address, parsed_address, parsed_view, ParsedAddress,
};
use crate::config::DispatchConfig;
use crate::error::Error;
use vstd::prelude::*;

verus! {

/// The body of a send request: pay `amount` satoshis to `address`.
#[derive(Debug, Clone, PartialEq, Eq)]
pub struct SendMoney {
    pub address: String,
    pub amount: u64,
}

/// Why a request is turned down, if it is. The rules apply in this order:
/// the address has to parse, it has to be valid on signet, an amount above
/// `max_sendable` is too large, and an amount above `min_sendable` is dust.
pub open spec fn rejection(
    parsed: Option<(bool, Seq<char>)>,
    amount: u64,
    min_sendable: u64,
    max_sendable: u64,
) -> Option<Error> {
    match parsed {
        None => Some(Error::InvalidAddress),
        Some(address) => if !address.0 {
            Some(Error::InvalidAddress)
        } else if amount > max_sendable {
            Some(Error::AmountTooLarge)
        } else if amount > min_sendable {
            Some(Error::Dust)
        } else {
            None
        },
    }
}

/// Each reason with the requests it is given for, and the requests that pass.
pub proof fn lemma_rejection_reasons(
    parsed: Option<(bool, Seq<char>)>,
    amount: u64,
    min_sendable: u64,
    max_sendable: u64,
)
    ensures
        ({
            let found = rejection(parsed, amount, min_sendable, max_sendable);
            let on_signet = parsed matches Some(address) && address.0;
            &&& found == Some(Error::InvalidAddress) <==> !on_signet
            &&& found == Some(Error::AmountTooLarge) <==> on_signet && amount > max_sendable
            &&& found == Some(Error::Dust) <==> on_signet && min_sendable < amount <= max_sendable
            &&& found is None <==> on_signet && amount <= max_sendable && amount <= min_sendable
        }),
{
}

/// Applies the rules to an amount and to what parsing the address gave.
pub fn validate_parsed(parsed: &Option<ParsedAddress>, amount: u64, config: &DispatchConfig) -> (result:
    Result<(), Error>)
    ensures
        result == match rejection(
            parsed_view(*parsed),
            amount,
            config.min_sendable,
            config.max_sendable,
        ) {
            Some(error) => Err::<(), Error>(error),
            None => Ok(()),
        },
{
    match parsed {
        None => Err(Error::InvalidAddress),
        Some(address) => {
            if !address.on_signet {
                Err(Error::InvalidAddress)
            } else if amount > config.max_sendable {
                Err(Error::AmountTooLarge)
            } else if amount > config.min_sendable {
                Err(Error::Dust)
            } else {
                Ok(())
            }
        },
    }
}

/// Validates a send request. An accepted request is handed back as the
/// destination, written as the client wrote it, and the amount in satoshis.
pub fn validate(request: SendMoney, config: &DispatchConfig) -> (result: Result<(String, u64), Error>)
    ensures
        match rejection(
            parsed_address(request.address@),
            request.amount,
            config.min_sendable,
            config.max_sendable,
        ) {
            Some(error) => result == Err::<(String, u64), Error>(error),
            None => result == Ok::<(String, u64), Error>((request.address, request.amount)),
        },
        !is_signet_address(request.address@) ==> result == Err::<(String, u64), Error>(
            Error::InvalidAddress,
        ),
        is_signet_address(request.address@) && request.amount > config.max_sendable ==> result
            == Err::<(String, u64), Error>(Error::AmountTooLarge),
{
    let parsed = parse_address(request.address.as_str());
    match validate_parsed(&parsed, request.amount, config) {
        Ok(()) => Ok((request.address, request.amount)),
        Err(error) => Err(error),
    }
}

} // verus!
