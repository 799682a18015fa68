//! The process-wide settings of the faucet, and how they come out of the
//! texts that the operator sets.

use crate::address::{parse_address, parsed_address, parsed_view, ParsedAddress};
use std::str::FromStr;
use vstd::prelude::*;

verus! {

/// The largest amount sent where the operator names none, in satoshis.
pub const DEFAULT_MAX_SENDABLE_SATS: u64 = 1_000_000;

/// The sendable minimum where the operator names none, in satoshis.
pub const DEFAULT_MIN_SENDABLE_SATS: u64 = 420;

/// What every send request is held against. Set once at startup and only
/// read afterwards.
#[derive(Debug, Clone, PartialEq, Eq)]
pub struct DispatchConfig {
    /// The address that receives the change, as it is written in a
    /// transaction request.
    pub change_address: String,
    pub min_sendable: u64,
    pub max_sendable: u64,
}

/// The satoshis that `text` states as an amount with its denomination,
/// `None` where `bitcoin` does not read it as one.
pub uninterp spec fn amount_sats_of(text: Seq<char>) -> Option<u64>;

/// Parses `text` with `bitcoin::Amount::from_str`, which expects a number
/// and a denomination, and gives the amount in satoshis as
/// `Amount::to_sat` returns it. The contract only names the outcome: the
/// same text always gives the same one.
#[verifier::external_body]
pub(crate) fn parse_amount(text: &str) -> (sats: Option<u64>)
    ensures
        sats == amount_sats_of(text@),
{
    match bitcoin::Amount::from_str(text) {
        Ok(amount) => Some(amount.to_sat()),
        Err(_) => None,
    }
}

/// A sendable limit from its setting: the amount that was set, and
/// `default_sats` where nothing was set or what was set is no amount.
/// The outer `None` is a setting that is absent, the inner one a setting
/// that did not parse.
pub open spec fn sendable_limit(setting: Option<Option<u64>>, default_sats: u64) -> u64 {
    match setting {
        Some(Some(sats)) => sats,
        _ => default_sats,
    }
}

/// The setting as `sendable_limit` takes it, for a text that may be absent.
pub open spec fn amount_setting(text: Option<&str>) -> Option<Option<u64>> {
    match text {
        Some(text) => Some(amount_sats_of(text@)),
        None => None,
    }
}

/// The configuration that the settings give, if they give one: the change
/// address has to be set and has to be an address.
pub open spec fn config_from(
    change_address: Option<(bool, Seq<char>)>,
    max_sendable: Option<Option<u64>>,
    min_sendable: Option<Option<u64>>,
) -> Option<(Seq<char>, u64, u64)> {
    match change_address {
        Some(address) => Some(
            (
                address.1,
                sendable_limit(min_sendable, DEFAULT_MIN_SENDABLE_SATS),
                sendable_limit(max_sendable, DEFAULT_MAX_SENDABLE_SATS),
            ),
        ),
        None => None,
    }
}

impl View for DispatchConfig {
    type V = (Seq<char>, u64, u64);

    /// The change address, the minimum and the maximum.
    open spec fn view(&self) -> (Seq<char>, u64, u64) {
        (self.change_address@, self.min_sendable, self.max_sendable)
    }
}

/// Computes a sendable limit from its setting.
pub fn sendable_sats(setting: Option<Option<u64>>, default_sats: u64) -> (sats: u64)
    ensures
        sats == sendable_limit(setting, default_sats),
{
    match setting {
        Some(Some(sats)) => sats,
        _ => default_sats,
    }
}

impl DispatchConfig {
    /// The configuration from what the settings parsed to. The change
    /// address is kept as `bitcoin` writes it out, on whatever network it is.
    pub fn from_parsed(
        change_address: Option<ParsedAddress>,
        max_sendable: Option<Option<u64>>,
        min_sendable: Option<Option<u64>>,
    ) -> (config: Option<DispatchConfig>)
        ensures
            match config {
                Some(config) => config_from(parsed_view(change_address), max_sendable, min_sendable)
                    == Some(config@),
                None => change_address is None,
            },
    {
        match change_address {
            Some(address) => Some(
                DispatchConfig {
                    change_address: address.text,
                    min_sendable: sendable_sats(min_sendable, DEFAULT_MIN_SENDABLE_SATS),
                    max_sendable: sendable_sats(max_sendable, DEFAULT_MAX_SENDABLE_SATS),
                },
            ),
            None => None,
        }
    }

    /// The configuration from the texts that the operator set, each `None`
    /// where nothing was set. There is none without a change address that
    /// parses. A limit that is not set, or is no amount, takes its default.
    pub fn from_settings(
        change_address: Option<&str>,
        max_sendable: Option<&str>,
        min_sendable: Option<&str>,
    ) -> (config: Option<DispatchConfig>)
        ensures
            match config {
                Some(config) => change_address matches Some(text) && config_from(
                    parsed_address(text@),
                    amount_setting(max_sendable),
                    amount_setting(min_sendable),
                ) == Some(config@),
                None => !(change_address matches Some(text) && parsed_address(text@) is Some),
            },
    {
        let change = match change_address {
            Some(text) => parse_address(text),
            None => None,
        };
        let max = match max_sendable {
            Some(text) => Some(parse_amount(text)),
            None => None,
        };
        let min = match min_sendable {
            Some(text) => Some(parse_amount(text)),
            None => None,
        };
        DispatchConfig::from_parsed(change, max, min)
    }
}

} // verus!
