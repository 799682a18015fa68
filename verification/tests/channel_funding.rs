use signet_faucet::error::Error;
use signet_faucet::open_channel::{
    channel_outcome, lease_sats, CLNDaemon, FundingReply, FundingRequest, DEFAULT_LEASE_SATS,
};

#[test]
fn lease_defaults_to_a_million_satoshis() {
    assert_eq!(DEFAULT_LEASE_SATS, 1_000_000);
    assert_eq!(
        CLNDaemon::new(None, None),
        Some(CLNDaemon {
            channel_lease_value_msat: 1_000_000_000,
            channel_lease_push_msat: 1_000_000_000,
        })
    );
}

#[test]
fn lease_is_what_the_operator_set() {
    assert_eq!(
        CLNDaemon::new(Some("250000"), Some("0")),
        Some(CLNDaemon { channel_lease_value_msat: 250_000_000, channel_lease_push_msat: 0 })
    );
    assert_eq!(
        CLNDaemon::new(None, Some("12")),
        Some(CLNDaemon { channel_lease_value_msat: 1_000_000_000, channel_lease_push_msat: 12_000 })
    );
}

#[test]
fn setting_that_is_no_number_takes_the_default() {
    let defaults = Some(CLNDaemon {
        channel_lease_value_msat: 1_000_000_000,
        channel_lease_push_msat: 1_000_000_000,
    });
    for text in [
        "", "+", "lots", "abc", "-5", "-0", "1.5", " 7", "7 ", "1_000", "0x10", "++1", "1+",
        "\u{663}", "18446744073709551616", "99999999999999999999999",
    ] {
        assert_eq!(CLNDaemon::new(Some(text), Some(text)), defaults);
        assert_eq!(
            CLNDaemon::new(Some(text), Some("3")),
            Some(CLNDaemon { channel_lease_value_msat: 1_000_000_000, channel_lease_push_msat: 3_000 })
        );
    }
}

#[test]
fn number_is_read_in_decimal_with_an_optional_plus() {
    for (text, sats) in [
        ("0", 0u64),
        ("7", 7),
        ("+5", 5),
        ("007", 7),
        ("+000", 0),
        ("250000", 250_000),
        ("00000000000000000000000000012", 12),
        ("18446744073709551", 18_446_744_073_709_551),
    ] {
        assert_eq!(
            CLNDaemon::new(Some(text), None),
            Some(CLNDaemon {
                channel_lease_value_msat: sats * 1_000,
                channel_lease_push_msat: 1_000_000_000,
            })
        );
    }
}

#[test]
fn lease_setting_is_the_number_or_the_default() {
    assert_eq!(lease_sats(None), 1_000_000);
    assert_eq!(lease_sats(Some(None)), 1_000_000);
    assert_eq!(lease_sats(Some(Some(0))), 0);
    assert_eq!(lease_sats(Some(Some(77))), 77);
    assert_eq!(lease_sats(Some(Some(u64::MAX))), u64::MAX);
}

#[test]
fn lease_beyond_64_bits_of_millisatoshis_is_refused() {
    let largest = u64::MAX / 1_000;
    assert_eq!(
        CLNDaemon::from_sats(largest, 1),
        Some(CLNDaemon { channel_lease_value_msat: largest * 1_000, channel_lease_push_msat: 1_000 })
    );
    assert_eq!(CLNDaemon::from_sats(largest + 1, 1), None);
    assert_eq!(CLNDaemon::from_sats(1, largest + 1), None);
    assert_eq!(CLNDaemon::new(Some("18446744073709551615"), None), None);
    assert_eq!(CLNDaemon::new(None, Some("18446744073709552")), None);
}

#[test]
fn funding_request_is_fixed_but_for_the_peer() {
    let daemon = CLNDaemon::from_sats(1_000_000, 20_000).unwrap();
    let peer = "02eec7245d6b7d2ccb30380bfbe2a3648cd7a942653f5aa340edcea1f283686619";
    assert_eq!(
        daemon.open_channel(peer),
        FundingRequest {
            id: peer,
            amount_msat: 1_000_000_000,
            push_msat: 20_000_000,
            announce: true,
            minconf: 0,
            reserve_msat: None,
        }
    );
    let other = daemon.open_channel(7u8);
    assert_eq!(other.id, 7u8);
    assert_eq!(other.amount_msat, 1_000_000_000);
    assert_eq!(other.push_msat, 20_000_000);
    assert!(other.announce);
    assert_eq!(other.minconf, 0);
    assert_eq!(other.reserve_msat, None);
}

#[test]
fn channel_id_is_handed_on() {
    assert_eq!(
        channel_outcome(FundingReply::Funded { channel_id: "c0ffee".to_string() }),
        Ok("c0ffee".to_string())
    );
    assert_eq!(
        channel_outcome(FundingReply::Funded { channel_id: String::new() }),
        Ok(String::new())
    );
}

#[test]
fn daemon_error_text_is_kept_word_for_word() {
    let detail = "Error code 300: Amount exceeded 0.16777215btc";
    assert_eq!(
        channel_outcome(FundingReply::Failed { detail: detail.to_string() }),
        Err(Error::ChannelError(detail.to_string()))
    );
    assert_eq!(
        channel_outcome(FundingReply::Failed { detail: String::new() }),
        Err(Error::ChannelError(String::new()))
    );
}

#[test]
fn answer_of_another_kind_is_a_daemon_that_is_not_working() {
    assert_eq!(channel_outcome(FundingReply::Unexpected), Err(Error::JsonRpcNotWorking));
    assert_eq!(channel_outcome(FundingReply::Unexpected).unwrap_err().status_code(), 500);
}
