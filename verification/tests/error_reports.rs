use signet_faucet::error::Error;

fn every_error() -> Vec<Error> {
    vec![
        Error::JsonRpcNotWorking,
        Error::OutOfMoney,
        Error::InvalidAddress,
        Error::AmountTooLarge,
        Error::Dust,
        Error::ChannelError("peer unreachable".to_string()),
    ]
}

#[test]
fn faults_of_the_faucet_are_reported_as_500() {
    assert_eq!(Error::JsonRpcNotWorking.status_code(), 500);
    assert_eq!(Error::OutOfMoney.status_code(), 500);
}

#[test]
fn faults_of_the_request_are_reported_as_400() {
    assert_eq!(Error::InvalidAddress.status_code(), 400);
    assert_eq!(Error::AmountTooLarge.status_code(), 400);
    assert_eq!(Error::Dust.status_code(), 400);
    assert_eq!(Error::ChannelError(String::new()).status_code(), 400);
    assert_eq!(Error::ChannelError("anything".to_string()).status_code(), 400);
}

#[test]
fn every_error_has_its_description() {
    let expected = [
        "our bitcoin core isn't working",
        "we ran out of money, sorry :/",
        "the provided address is invalid",
        "the request amount is too large",
        "the requested amount is too little",
        "some cln error: peer unreachable",
    ];
    for (error, text) in every_error().iter().zip(expected) {
        assert_eq!(error.message(), text);
    }
}

#[test]
fn every_error_has_its_response_body() {
    let expected = [
        "Our bitcoin core isn't working\n",
        "We don't have enough money to handle this request right now\n",
        "The informed address is not a valid bitcoin address\n",
        "The requested amount is too big\n",
        "The requested amount is too little\n",
        "Some problem with cln peer unreachable",
    ];
    for (error, text) in every_error().iter().zip(expected) {
        assert_eq!(error.error_response(), text);
    }
}

#[test]
fn no_error_is_reported_without_a_text() {
    for error in every_error() {
        assert!(!error.error_response().is_empty());
        assert!(!error.message().is_empty());
    }
    assert!(!Error::ChannelError(String::new()).error_response().is_empty());
    assert_eq!(Error::JsonRpcNotWorking.error_response(), "Our bitcoin core isn't working\n");
}

#[test]
fn channel_error_text_is_reported_unchanged() {
    let error = Error::ChannelError("Error code 205: Unknown peer\n".to_string());
    assert_eq!(error.message(), "some cln error: Error code 205: Unknown peer\n");
    assert_eq!(error.error_response(), "Some problem with cln Error code 205: Unknown peer\n");
    let empty = Error::ChannelError(String::new());
    assert_eq!(empty.message(), "some cln error: ");
    assert_eq!(empty.error_response(), "Some problem with cln ");
}
