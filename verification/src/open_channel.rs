//! Channel funding: the one request that opens a channel to a peer, and
//! what the funding daemon's answer means to the client.

use crate::error::Error;
use vstd::prelude::*;

verus! {

/// The channel size and the pushed amount where the operator names none,
/// in satoshis.
pub const DEFAULT_LEASE_SATS: u64 = 1_000_000;

/// The channel-lease settings. Set once at startup and only read afterwards.
#[derive(Debug, Clone, Copy, PartialEq, Eq)]
pub struct CLNDaemon {
    /// The size of every channel, in millisatoshis.
    pub channel_lease_value_msat: u64,
    /// What is pushed to the peer when a channel opens, in millisatoshis.
    pub channel_lease_push_msat: u64,
}

/// The request that funds a channel to peer `id`. Every option of the
/// funding call that has no field here is left unset: fee rate, close-to
/// address, requested lease, outputs to spend and depth.
#[derive(Debug, Clone, Copy, PartialEq, Eq)]
pub struct FundingRequest<P> {
    pub id: P,
    pub amount_msat: u64,
    pub push_msat: u64,
    /// Whether the channel is announced to the network.
    pub announce: bool,
    /// How many confirmations the outputs that fund the channel need.
    pub minconf: u32,
    /// The reserve asked of the peer in place of the node's own rule.
    pub reserve_msat: Option<u64>,
}

/// `c` is one of the digits `0` to `9`.
pub open spec fn is_decimal_digit(c: char) -> bool {
    '0' <= c <= '9'
}

/// The number that `digits` write in base ten.
pub open spec fn decimal_value(digits: Seq<char>) -> nat
    decreases digits.len(),
{
    if digits.len() == 0 {
        0
    } else {
        decimal_value(digits.drop_last()) * 10 + (digits.last() as u32 - '0' as u32) as nat
    }
}

/// `digits` holds one or more of the digits `0` to `9` and nothing else.
pub open spec fn is_decimal(digits: Seq<char>) -> bool {
    &&& digits.len() > 0
    &&& forall|i: int| 0 <= i < digits.len() ==> is_decimal_digit(#[trigger] digits[i])
}

/// `text` without the `+` that it may begin with.
pub open spec fn without_plus(text: Seq<char>) -> Seq<char> {
    if text.len() > 0 && text[0] == '+' {
        text.skip(1)
    } else {
        text
    }
}

/// The number that `text` is in decimal: after an optional `+`, one or more
/// of the digits `0` to `9` and nothing else, with a value that fits in 64
/// bits. Any other text is no number.
pub open spec fn decimal_u64(text: Seq<char>) -> Option<u64> {
    let digits = without_plus(text);
    if is_decimal(digits) && decimal_value(digits) <= u64::MAX {
        Some(decimal_value(digits) as u64)
    } else {
        None
    }
}

/// Parses `text` with `str::parse::<u64>`, which reads an optional `+`
/// followed by decimal digits only, and fails on an empty text, on any
/// other character and on a value beyond 64 bits.
#[verifier::external_body]
pub(crate) fn parse_decimal(text: &str) -> (number: Option<u64>)
    ensures
        number == decimal_u64(text@),
{
    match text.parse::<u64>() {
        Ok(number) => Some(number),
        Err(_) => None,
    }
}

/// A lease amount in satoshis from its setting: the number that was set,
/// and the default where nothing was set or what was set is no number. The
/// outer `None` is a setting that is absent, the inner one a setting that
/// did not parse.
pub open spec fn lease_amount(setting: Option<Option<u64>>) -> u64 {
    match setting {
        Some(Some(sats)) => sats,
        _ => DEFAULT_LEASE_SATS,
    }
}

/// The setting as `lease_amount` takes it, for a text that may be absent.
pub open spec fn number_setting(text: Option<&str>) -> Option<Option<u64>> {
    match text {
        Some(text) => Some(decimal_u64(text@)),
        None => None,
    }
}

/// Computes a lease amount in satoshis from its setting.
pub fn lease_sats(setting: Option<Option<u64>>) -> (sats: u64)
    ensures
        sats == lease_amount(setting),
{
    match setting {
        Some(Some(sats)) => sats,
        _ => DEFAULT_LEASE_SATS,
    }
}

impl CLNDaemon {
    /// The settings for a channel of `value_sats` with `push_sats` pushed to
    /// the peer. `None` where an amount, in millisatoshis, does not fit in
    /// 64 bits.
    pub fn from_sats(value_sats: u64, push_sats: u64) -> (daemon: Option<CLNDaemon>)
        ensures
            daemon is Some <==> value_sats * 1_000 <= u64::MAX && push_sats * 1_000 <= u64::MAX,
            daemon matches Some(settings) ==> {
                &&& settings.channel_lease_value_msat == value_sats * 1_000
                &&& settings.channel_lease_push_msat == push_sats * 1_000
            },
    {
        match (value_sats.checked_mul(1_000), push_sats.checked_mul(1_000)) {
            (Some(value_msat), Some(push_msat)) => Some(
                CLNDaemon {
                    channel_lease_value_msat: value_msat,
                    channel_lease_push_msat: push_msat,
                },
            ),
            _ => None,
        }
    }

    /// The settings from the texts that the operator set for the channel
    /// size and for the pushed amount, each `None` where nothing was set.
    pub fn new(channel_value: Option<&str>, push_value: Option<&str>) -> (daemon: Option<CLNDaemon>)
        ensures
            ({
                let value_sats = lease_amount(number_setting(channel_value));
                let push_sats = lease_amount(number_setting(push_value));
                &&& daemon is Some <==> value_sats * 1_000 <= u64::MAX && push_sats * 1_000
                    <= u64::MAX
                &&& daemon matches Some(settings) ==> {
                    &&& settings.channel_lease_value_msat == value_sats * 1_000
                    &&& settings.channel_lease_push_msat == push_sats * 1_000
                }
            }),
    {
        let value = match channel_value {
            Some(text) => Some(parse_decimal(text)),
            None => None,
        };
        let push = match push_value {
            Some(text) => Some(parse_decimal(text)),
            None => None,
        };
        CLNDaemon::from_sats(lease_sats(value), lease_sats(push))
    }

    /// The one funding request for a channel to peer `id`: the configured
    /// size and push, announced publicly, spending outputs of any depth,
    /// with no reserve of its own.
    pub fn open_channel<P>(&self, id: P) -> (request: FundingRequest<P>)
        ensures
            request == (FundingRequest {
                id,
                amount_msat: self.channel_lease_value_msat,
                push_msat: self.channel_lease_push_msat,
                announce: true,
                minconf: 0,
                reserve_msat: None,
            }),
    {
        FundingRequest {
            id,
            amount_msat: self.channel_lease_value_msat,
            push_msat: self.channel_lease_push_msat,
            announce: true,
            minconf: 0,
            reserve_msat: None,
        }
    }
}

/// What came back from a funding call.
#[derive(Debug, Clone, PartialEq, Eq)]
pub enum FundingReply {
    /// The daemon funded the channel with this id.
    Funded { channel_id: String },
    /// The daemon answered with something that is no answer to a funding
    /// request.
    Unexpected,
    /// The daemon turned the request down, or could not be reached; the
    /// text is its error.
    Failed { detail: String },
}

/// What the client is answered for a funding call: the id of the channel
/// that was funded; `Error::ChannelError` with the daemon's error text,
/// unchanged, where the call failed; `Error::JsonRpcNotWorking` where the
/// daemon's answer is of another kind.
pub fn channel_outcome(reply: FundingReply) -> (answer: Result<String, Error>)
    ensures
        answer == match reply {
            FundingReply::Funded { channel_id } => Ok::<String, Error>(channel_id),
            FundingReply::Unexpected => Err::<String, Error>(Error::JsonRpcNotWorking),
            FundingReply::Failed { detail } => Err::<String, Error>(Error::ChannelError(detail)),
        },
{
    match reply {
        FundingReply::Funded { channel_id } => Ok(channel_id),
        FundingReply::Unexpected => Err(Error::JsonRpcNotWorking),
        FundingReply::Failed { detail } => Err(Error::ChannelError(detail)),
    }
}

} // verus!
