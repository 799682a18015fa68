use signet_faucet::address::ParsedAddress;
use signet_faucet::config::DispatchConfig;
use signet_faucet::dispatch::{send_to_address, SendState, WalletCall};
use signet_faucet::error::Error;
use signet_faucet::validate::{validate, validate_parsed, SendMoney};

const SIGNET_SEGWIT: &str = "tb1qw508d6qejxtdg4y5r3zarvary0c5xw7kxpjzsx";
const SIGNET_LEGACY: &str = "2N83imGV3gPwBzKJQvWJ7cRUY2SpUyU6A5e";
const MAINNET_SEGWIT: &str = "bc1qw508d6qejxtdg4y5r3zarvary0c5xw7kv8f3t4";
const MAINNET_LEGACY: &str = "32iVBEu4dxkUQk9dJbZUiBiQdmypcEyJRf";

fn limits(min_sendable: u64, max_sendable: u64) -> DispatchConfig {
    DispatchConfig { change_address: SIGNET_LEGACY.to_string(), min_sendable, max_sendable }
}

fn asking(address: &str, amount: u64) -> SendMoney {
    SendMoney { address: address.to_string(), amount }
}

#[test]
fn address_on_another_network_is_invalid() {
    let config = limits(10_000, 1_000_000);
    assert_eq!(validate(asking(MAINNET_SEGWIT, 1_000), &config), Err(Error::InvalidAddress));
    assert_eq!(validate(asking(MAINNET_LEGACY, 1_000), &config), Err(Error::InvalidAddress));
}

#[test]
fn wrong_network_request_makes_no_wallet_call() {
    let config = limits(10_000, 1_000_000);
    let (state, call) = send_to_address(asking(MAINNET_SEGWIT, 1_000), &config);
    assert_eq!(state, SendState::Failed { error: Error::InvalidAddress });
    assert_eq!(call, None);
}

#[test]
fn text_that_is_no_address_is_invalid() {
    let config = limits(10_000, 1_000_000);
    for text in ["", "not an address", "tb1qw508d6qejxtdg4y5r3zarvary0c5xw7kxpjzsy", " tb1qw508d6qejxtdg4y5r3zarvary0c5xw7kxpjzsx"] {
        assert_eq!(validate(asking(text, 1_000), &config), Err(Error::InvalidAddress));
        let (state, call) = send_to_address(asking(text, 1_000), &config);
        assert_eq!(state, SendState::Failed { error: Error::InvalidAddress });
        assert_eq!(call, None);
    }
}

#[test]
fn amount_above_the_maximum_is_too_large() {
    let config = limits(5_000_000, 1_000_000);
    assert_eq!(validate(asking(SIGNET_SEGWIT, 2_000_000), &config), Err(Error::AmountTooLarge));
    let (state, call) = send_to_address(asking(SIGNET_SEGWIT, 2_000_000), &config);
    assert_eq!(state, SendState::Failed { error: Error::AmountTooLarge });
    assert_eq!(call, None);
}

#[test]
fn amount_at_the_maximum_is_not_too_large() {
    let config = limits(1_000_000, 1_000_000);
    assert_eq!(
        validate(asking(SIGNET_SEGWIT, 1_000_000), &config),
        Ok((SIGNET_SEGWIT.to_string(), 1_000_000))
    );
    assert_eq!(validate(asking(SIGNET_SEGWIT, 1_000_001), &config), Err(Error::AmountTooLarge));
}

#[test]
fn amount_above_the_minimum_is_dust() {
    let config = limits(420, 1_000_000);
    assert_eq!(validate(asking(SIGNET_SEGWIT, 421), &config), Err(Error::Dust));
    assert_eq!(validate(asking(SIGNET_SEGWIT, 1_000_000), &config), Err(Error::Dust));
    assert_eq!(validate(asking(SIGNET_SEGWIT, 420), &config), Ok((SIGNET_SEGWIT.to_string(), 420)));
    assert_eq!(validate(asking(SIGNET_SEGWIT, 0), &config), Ok((SIGNET_SEGWIT.to_string(), 0)));
}

#[test]
fn invalid_address_is_reported_before_the_amount() {
    let config = limits(420, 1_000_000);
    assert_eq!(validate(asking(MAINNET_SEGWIT, 2_000_000), &config), Err(Error::InvalidAddress));
    assert_eq!(validate(asking("", u64::MAX), &config), Err(Error::InvalidAddress));
}

#[test]
fn too_large_is_reported_before_dust() {
    let config = limits(420, 1_000_000);
    assert_eq!(validate(asking(SIGNET_SEGWIT, 1_000_001), &config), Err(Error::AmountTooLarge));
    let config = limits(1_000_000, 420);
    assert_eq!(validate(asking(SIGNET_SEGWIT, 421), &config), Err(Error::AmountTooLarge));
}

#[test]
fn legacy_test_network_address_is_accepted() {
    let config = limits(10_000, 1_000_000);
    assert_eq!(
        validate(asking(SIGNET_LEGACY, 10_000), &config),
        Ok((SIGNET_LEGACY.to_string(), 10_000))
    );
}

#[test]
fn accepted_destination_is_kept_as_the_client_wrote_it() {
    let config = limits(10_000, 1_000_000);
    let shouted = SIGNET_SEGWIT.to_uppercase();
    assert_eq!(validate(asking(&shouted, 5), &config), Ok((shouted.clone(), 5)));
    let (state, call) = send_to_address(asking(&shouted, 5), &config);
    assert_eq!(state, SendState::AwaitingUnspent { destination: shouted, amount_sats: 5 });
    assert_eq!(call, Some(WalletCall::ListUnspent));
}

#[test]
fn rules_apply_to_what_parsing_gave() {
    let config = limits(420, 1_000_000);
    let on_signet = Some(ParsedAddress { on_signet: true, text: SIGNET_SEGWIT.to_string() });
    let elsewhere = Some(ParsedAddress { on_signet: false, text: MAINNET_SEGWIT.to_string() });
    assert_eq!(validate_parsed(&None, 1, &config), Err(Error::InvalidAddress));
    assert_eq!(validate_parsed(&elsewhere, 1, &config), Err(Error::InvalidAddress));
    assert_eq!(validate_parsed(&on_signet, 2_000_000, &config), Err(Error::AmountTooLarge));
    assert_eq!(validate_parsed(&on_signet, 421, &config), Err(Error::Dust));
    assert_eq!(validate_parsed(&on_signet, 420, &config), Ok(()));
}
