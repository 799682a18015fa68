//! The typed failures a dispatch can end in, and how each is reported.

use vstd::prelude::*;
use vstd::string::*;

verus! {

/// Every client-visible failure of a dispatch.
#[derive(Debug, Clone, PartialEq, Eq)]
pub enum Error {
    /// The wallet or funding daemon is unreachable or gave an unusable answer.
    JsonRpcNotWorking,
    /// The wallet's spendable outputs do not cover the amount plus the fee.
    OutOfMoney,
    /// The destination address does not parse or is on another network.
    InvalidAddress,
    /// The requested amount exceeds the configured maximum.
    AmountTooLarge,
    /// The requested amount fails the configured minimum check.
    Dust,
    /// The funding daemon rejected the channel request; the text is its message.
    ChannelError(String),
}

/// The HTTP status that reports `error`.
pub open spec fn status_of(error: Error) -> u16 {
    match error {
        Error::JsonRpcNotWorking => 500,
        Error::OutOfMoney => 500,
        Error::InvalidAddress => 400,
        Error::AmountTooLarge => 400,
        Error::Dust => 400,
        Error::ChannelError(_) => 400,
    }
}

/// The one-line description of `error`.
pub open spec fn message_of(error: Error) -> Seq<char> {
    match error {
        Error::JsonRpcNotWorking => "our bitcoin core isn't working"@,
        Error::OutOfMoney => "we ran out of money, sorry :/"@,
        Error::InvalidAddress => "the provided address is invalid"@,
        Error::AmountTooLarge => "the request amount is too large"@,
        Error::Dust => "the requested amount is too little"@,
        Error::ChannelError(detail) => "some cln error: "@ + detail@,
    }
}

/// The plain-text body of the response that reports `error`.
pub open spec fn body_of(error: Error) -> Seq<char> {
    match error {
        Error::JsonRpcNotWorking => "Our bitcoin core isn't working\n"@,
        Error::OutOfMoney => "We don't have enough money to handle this request right now\n"@,
        Error::InvalidAddress => "The informed address is not a valid bitcoin address\n"@,
        Error::AmountTooLarge => "The requested amount is too big\n"@,
        Error::Dust => "The requested amount is too little\n"@,
        Error::ChannelError(detail) => "Some problem with cln "@ + detail@,
    }
}

impl Error {
    /// The HTTP status code under which this failure is reported: 500 where
    /// the fault is on the faucet's side, 400 where it is in the request.
    pub fn status_code(&self) -> (code: u16)
        ensures
            code == status_of(*self),
            code == 500 || code == 400,
            code == 500 <==> *self == Error::JsonRpcNotWorking || *self == Error::OutOfMoney,
    {
        match self {
            Error::JsonRpcNotWorking => 500,
            Error::OutOfMoney => 500,
            Error::InvalidAddress => 400,
            Error::AmountTooLarge => 400,
            Error::Dust => 400,
            Error::ChannelError(_) => 400,
        }
    }

    /// A one-line description of this failure.
    pub fn message(&self) -> (text: String)
        ensures
            text@ == message_of(*self),
    {
        match self {
            Error::JsonRpcNotWorking => "our bitcoin core isn't working".to_owned(),
            Error::OutOfMoney => "we ran out of money, sorry :/".to_owned(),
            Error::InvalidAddress => "the provided address is invalid".to_owned(),
            Error::AmountTooLarge => "the request amount is too large".to_owned(),
            Error::Dust => "the requested amount is too little".to_owned(),
            Error::ChannelError(detail) => "some cln error: ".to_owned().concat(detail.as_str()),
        }
    }

    /// The plain-text body of the response that reports this failure, sent
    /// under `status_code`. No failure is reported without a text.
    pub fn error_response(&self) -> (body: String)
        ensures
            body@ == body_of(*self),
            body@.len() > 0,
    {
        proof {
            reveal_strlit("Our bitcoin core isn't working\n");
            reveal_strlit("We don't have enough money to handle this request right now\n");
            reveal_strlit("The informed address is not a valid bitcoin address\n");
            reveal_strlit("The requested amount is too big\n");
            reveal_strlit("The requested amount is too little\n");
            reveal_strlit("Some problem with cln ");
        }
        match self {
            Error::JsonRpcNotWorking => "Our bitcoin core isn't working\n".to_owned(),
            Error::OutOfMoney => "We don't have enough money to handle this request right now\n".to_owned(),
            Error::InvalidAddress => "The informed address is not a valid bitcoin address\n".to_owned(),
            Error::AmountTooLarge => "The requested amount is too big\n".to_owned(),
            Error::Dust => "The requested amount is too little\n".to_owned(),
            Error::ChannelError(detail) => "Some problem with cln ".to_owned().concat(
                detail.as_str(),
            ),
        }
    }
}

} // verus!
