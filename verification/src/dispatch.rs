//! The on-chain send as a state machine.
//!
//! The machine decides; its driver talks to the wallet. `send_to_address`
//! validates a request and names the first wallet call. The driver makes the
//! call and hands the wallet's reply to `advance`, which names the next call,
//! until the machine ends in `Sent` or `Failed`. No call is made twice, and
//! the first failure ends the request.

use crate::address::{is_signet_address, parsed_address};
use crate::coins::UnspentOutput;
use crate::config::DispatchConfig;
use crate::error::Error;
use crate::raw_transaction::{canonical_transaction, reencode_transaction};
use crate::transaction::{build_failure, build_transaction, is_request_for, TransactionRequest};
use crate::validate::{rejection, validate, SendMoney};
use vstd::prelude::*;
use vstd::string::*;

verus! {

/// How far a send has come.
#[derive(Debug, Clone, PartialEq, Eq)]
pub enum SendState {
    /// The request is valid; the wallet's unspent outputs are awaited.
    AwaitingUnspent { destination: String, amount_sats: u64 },
    /// The wallet has been asked to create the raw transaction.
    AwaitingRawTransaction,
    /// The wallet has been asked to sign the raw transaction.
    AwaitingSignature,
    /// The wallet has been asked to broadcast the signed transaction.
    AwaitingBroadcast,
    /// The transaction was broadcast under this id.
    Sent { txid: String },
    /// The request failed.
    Failed { error: Error },
}

/// A call that the driver makes on the wallet.
#[derive(Debug, Clone, PartialEq, Eq)]
pub enum WalletCall {
    /// List every unspent output, with no filter.
    ListUnspent,
    /// Create a raw transaction from the request.
    CreateRawTransaction { request: TransactionRequest },
    /// Sign the raw transaction with the wallet's own keys.
    SignRawTransaction { transaction: Vec<u8> },
    /// Broadcast the signed transaction.
    SendRawTransaction { transaction: Vec<u8> },
}

/// What the wallet answered to a call.
#[derive(Debug, Clone, PartialEq, Eq)]
pub enum WalletReply {
    /// The unspent outputs, in the wallet's order.
    Unspent { outputs: Vec<UnspentOutput> },
    /// The raw transaction that was created, consensus-encoded.
    RawTransaction { transaction: Vec<u8> },
    /// The bytes that signing returned.
    Signed { hex: Vec<u8> },
    /// The id under which the transaction was broadcast.
    Broadcast { txid: String },
    /// The call failed.
    Failure,
}

impl SendState {
    /// The send is over: nothing more is asked of the wallet.
    pub open spec fn is_final(self) -> bool {
        self is Sent || self is Failed
    }

    /// How many wallet calls have been answered before this state is
    /// reached, for a state that awaits a reply.
    pub open spec fn replies_seen(self) -> nat {
        match self {
            SendState::AwaitingUnspent { .. } => 0,
            SendState::AwaitingRawTransaction => 1,
            SendState::AwaitingSignature => 2,
            SendState::AwaitingBroadcast => 3,
            SendState::Sent { .. } => 4,
            SendState::Failed { .. } => 4,
        }
    }
}

/// `call` is what state `next` is entered with: the one wallet call whose
/// reply the state awaits, and none for a final state.
pub open spec fn call_fits(next: SendState, call: Option<WalletCall>) -> bool {
    match next {
        SendState::AwaitingUnspent { .. } => call == Some(WalletCall::ListUnspent),
        SendState::AwaitingRawTransaction => call matches Some(
            WalletCall::CreateRawTransaction { .. },
        ),
        SendState::AwaitingSignature => call matches Some(WalletCall::SignRawTransaction { .. }),
        SendState::AwaitingBroadcast => call matches Some(WalletCall::SendRawTransaction { .. }),
        SendState::Sent { .. } => call is None,
        SendState::Failed { .. } => call is None,
    }
}

/// The request ends with `error`, and no call is made.
pub open spec fn fails_with(error: Error, next: SendState, call: Option<WalletCall>) -> bool {
    next == (SendState::Failed { error }) && call is None
}

/// What follows the wallet's answer to signing, given the signed
/// transaction encoded anew, if the answer held one.
pub open spec fn signed_step(
    encoded: Option<Seq<u8>>,
    next: SendState,
    call: Option<WalletCall>,
) -> bool {
    match encoded {
        Some(bytes) => {
            &&& next == SendState::AwaitingBroadcast
            &&& call matches Some(WalletCall::SendRawTransaction { transaction })
            &&& transaction@ == bytes
        },
        None => fails_with(Error::JsonRpcNotWorking, next, call),
    }
}

/// How a send begins: a request that is turned down ends at once with the
/// reason and without a call; any other awaits the wallet's unspent outputs,
/// which are asked for anew.
pub open spec fn begin_spec(
    request: SendMoney,
    config: DispatchConfig,
    next: SendState,
    call: Option<WalletCall>,
) -> bool {
    match rejection(
        parsed_address(request.address@),
        request.amount,
        config.min_sendable,
        config.max_sendable,
    ) {
        Some(error) => fails_with(error, next, call),
        None => {
            &&& next == SendState::AwaitingUnspent {
                destination: request.address,
                amount_sats: request.amount,
            }
            &&& call == Some(WalletCall::ListUnspent)
        },
    }
}

/// What the client is answered in `state`: the transaction id and a line
/// end, or the failure; nothing while the send is under way.
pub open spec fn answer_of(state: SendState) -> Option<Result<Seq<char>, Error>> {
    match state {
        SendState::Sent { txid } => Some(Ok(txid@.push('\n'))),
        SendState::Failed { error } => Some(Err(error)),
        _ => None,
    }
}

/// The transition of the send: from `state`, on `reply`, to `next` with `call`.
///
/// A final state stays as it is. A state that awaits a reply moves on with
/// the reply it awaits, and fails with `Error::JsonRpcNotWorking` on any
/// other, a failed call among them.
pub open spec fn advance_spec(
    state: SendState,
    reply: WalletReply,
    change_address: Seq<char>,
    next: SendState,
    call: Option<WalletCall>,
) -> bool {
    match state {
        SendState::AwaitingUnspent { destination, amount_sats } => match reply {
            WalletReply::Unspent { outputs } => match build_failure(
                outputs@,
                amount_sats,
                destination@,
                change_address,
            ) {
                Some(error) => fails_with(error, next, call),
                None => {
                    &&& next == SendState::AwaitingRawTransaction
                    &&& call matches Some(WalletCall::CreateRawTransaction { request })
                    &&& is_request_for(request, outputs@, amount_sats, destination@, change_address)
                    &&& request.well_formed()
                },
            },
            _ => fails_with(Error::JsonRpcNotWorking, next, call),
        },
        SendState::AwaitingRawTransaction => match reply {
            WalletReply::RawTransaction { transaction } => {
                &&& next == SendState::AwaitingSignature
                &&& call == Some(WalletCall::SignRawTransaction { transaction })
            },
            _ => fails_with(Error::JsonRpcNotWorking, next, call),
        },
        SendState::AwaitingSignature => match reply {
            WalletReply::Signed { hex } => signed_step(canonical_transaction(hex@), next, call),
            _ => fails_with(Error::JsonRpcNotWorking, next, call),
        },
        SendState::AwaitingBroadcast => match reply {
            WalletReply::Broadcast { txid } => next == (SendState::Sent { txid }) && call is None,
            _ => fails_with(Error::JsonRpcNotWorking, next, call),
        },
        SendState::Sent { .. } => next == state && call is None,
        SendState::Failed { .. } => next == state && call is None,
    }
}

/// The order of a send. Every transition ends in a state with the one call
/// that the state awaits, and a call is made exactly where the send goes on.
/// A final state never changes. A state that awaits a reply either fails or
/// moves to the state after it: unspent outputs, raw transaction, signature,
/// broadcast, sent. No transition leads back to the listing. So a send
/// makes at most four calls, each at most once.
pub proof fn lemma_send_order(
    state: SendState,
    reply: WalletReply,
    change_address: Seq<char>,
    next: SendState,
    call: Option<WalletCall>,
)
    requires
        advance_spec(state, reply, change_address, next, call),
    ensures
        call_fits(next, call),
        call is Some <==> !next.is_final(),
        state.is_final() ==> next == state,
        !state.is_final() ==> next is Failed || next.replies_seen() == state.replies_seen() + 1,
        !(next is AwaitingUnspent),
{
}

/// A send as it went: it began in `states[0]` with `calls[0]`, and reply
/// `i` moved it from `states[i]` to `states[i + 1]` with `calls[i + 1]`.
pub open spec fn is_send(
    request: SendMoney,
    config: DispatchConfig,
    replies: Seq<WalletReply>,
    states: Seq<SendState>,
    calls: Seq<Option<WalletCall>>,
) -> bool {
    &&& states.len() == replies.len() + 1
    &&& calls.len() == states.len()
    &&& begin_spec(request, config, states[0], calls[0])
    &&& forall|i: int|
        0 <= i < replies.len() ==> advance_spec(
            states[i],
            #[trigger] replies[i],
            config.change_address@,
            states[i + 1],
            calls[i + 1],
        )
}

/// The replies of a wallet that serves every call of a send.
pub open spec fn served_replies(
    unspent: Vec<UnspentOutput>,
    raw: Vec<u8>,
    signed: Vec<u8>,
    txid: String,
) -> Seq<WalletReply> {
    seq![
        WalletReply::Unspent { outputs: unspent },
        WalletReply::RawTransaction { transaction: raw },
        WalletReply::Signed { hex: signed },
        WalletReply::Broadcast { txid },
    ]
}

/// The listing serves the request: it covers amount and fee, and the
/// outputs of the payment can be written down.
pub open spec fn listing_serves(
    request: SendMoney,
    config: DispatchConfig,
    unspent: Vec<UnspentOutput>,
) -> bool {
    build_failure(unspent@, request.amount, request.address@, config.change_address@) is None
}

/// A send that the wallet serves. For a request that passes validation, a
/// listing that serves it and signed bytes that hold a transaction, the
/// four calls are made in their order: the wallet is listed, the
/// transaction for this listing is created, what was created is signed,
/// what was signed is broadcast. The send ends in `Sent`, and the client is
/// answered the id under which the transaction was broadcast and a line end.
pub proof fn lemma_served_send(
    request: SendMoney,
    config: DispatchConfig,
    unspent: Vec<UnspentOutput>,
    raw: Vec<u8>,
    signed: Vec<u8>,
    txid: String,
    states: Seq<SendState>,
    calls: Seq<Option<WalletCall>>,
)
    requires
        is_send(request, config, served_replies(unspent, raw, signed, txid), states, calls),
        rejection(
            parsed_address(request.address@),
            request.amount,
            config.min_sendable,
            config.max_sendable,
        ) is None,
        listing_serves(request, config, unspent),
        canonical_transaction(signed@) is Some,
    ensures
        calls[0] == Some(WalletCall::ListUnspent),
        calls[1] matches Some(WalletCall::CreateRawTransaction { request: built })
            && is_request_for(
            built,
            unspent@,
            request.amount,
            request.address@,
            config.change_address@,
        ),
        calls[2] == Some(WalletCall::SignRawTransaction { transaction: raw }),
        calls[3] matches Some(WalletCall::SendRawTransaction { transaction }) && Some(
            transaction@,
        ) == canonical_transaction(signed@),
        calls[4] is None,
        states[4] == (SendState::Sent { txid }),
        answer_of(states[4]) == Some(Ok::<Seq<char>, Error>(txid@.push('\n'))),
{
    let replies = served_replies(unspent, raw, signed, txid);
    assert(replies[0] == WalletReply::Unspent { outputs: unspent });
    assert(replies[1] == WalletReply::RawTransaction { transaction: raw });
    assert(replies[2] == WalletReply::Signed { hex: signed });
    assert(replies[3] == WalletReply::Broadcast { txid });
}

/// A replay is a new send. Where one request is sent twice and the wallet
/// serves both sends, each send lists the wallet for itself, builds its
/// transaction from its own listing alone, has it signed and broadcast, and
/// answers the id of its own transaction: nothing of the first send is
/// kept for the second, and the second is not held back.
pub proof fn lemma_replay_is_a_new_send(
    request: SendMoney,
    config: DispatchConfig,
    first_unspent: Vec<UnspentOutput>,
    first_raw: Vec<u8>,
    first_signed: Vec<u8>,
    first_txid: String,
    first_states: Seq<SendState>,
    first_calls: Seq<Option<WalletCall>>,
    second_unspent: Vec<UnspentOutput>,
    second_raw: Vec<u8>,
    second_signed: Vec<u8>,
    second_txid: String,
    second_states: Seq<SendState>,
    second_calls: Seq<Option<WalletCall>>,
)
    requires
        rejection(
            parsed_address(request.address@),
            request.amount,
            config.min_sendable,
            config.max_sendable,
        ) is None,
        is_send(
            request,
            config,
            served_replies(first_unspent, first_raw, first_signed, first_txid),
            first_states,
            first_calls,
        ),
        listing_serves(request, config, first_unspent),
        canonical_transaction(first_signed@) is Some,
        is_send(
            request,
            config,
            served_replies(second_unspent, second_raw, second_signed, second_txid),
            second_states,
            second_calls,
        ),
        listing_serves(request, config, second_unspent),
        canonical_transaction(second_signed@) is Some,
    ensures
        first_calls[0] == Some(WalletCall::ListUnspent),
        second_calls[0] == Some(WalletCall::ListUnspent),
        first_calls[1] matches Some(WalletCall::CreateRawTransaction { request: built })
            && is_request_for(
            built,
            first_unspent@,
            request.amount,
            request.address@,
            config.change_address@,
        ),
        second_calls[1] matches Some(WalletCall::CreateRawTransaction { request: built })
            && is_request_for(
            built,
            second_unspent@,
            request.amount,
            request.address@,
            config.change_address@,
        ),
        first_calls[2] == Some(WalletCall::SignRawTransaction { transaction: first_raw }),
        second_calls[2] == Some(WalletCall::SignRawTransaction { transaction: second_raw }),
        first_calls[3] matches Some(WalletCall::SendRawTransaction { transaction }) && Some(
            transaction@,
        ) == canonical_transaction(first_signed@),
        second_calls[3] matches Some(WalletCall::SendRawTransaction { transaction }) && Some(
            transaction@,
        ) == canonical_transaction(second_signed@),
        answer_of(first_states[4]) == Some(Ok::<Seq<char>, Error>(first_txid@.push('\n'))),
        answer_of(second_states[4]) == Some(Ok::<Seq<char>, Error>(second_txid@.push('\n'))),
{
    lemma_served_send(
        request,
        config,
        first_unspent,
        first_raw,
        first_signed,
        first_txid,
        first_states,
        first_calls,
    );
    lemma_served_send(
        request,
        config,
        second_unspent,
        second_raw,
        second_signed,
        second_txid,
        second_states,
        second_calls,
    );
}

/// Begins a send: validates the request and, where it is valid, asks for
/// the wallet's unspent outputs. A request that is turned down ends at once,
/// and no wallet call is made for it.
pub fn send_to_address(request: SendMoney, config: &DispatchConfig) -> (begun: (
    SendState,
    Option<WalletCall>,
))
    ensures
        begin_spec(request, *config, begun.0, begun.1),
        !is_signet_address(request.address@) ==> fails_with(
            Error::InvalidAddress,
            begun.0,
            begun.1,
        ),
        is_signet_address(request.address@) && request.amount > config.max_sendable ==> fails_with(
            Error::AmountTooLarge,
            begun.0,
            begun.1,
        ),
        call_fits(begun.0, begun.1),
{
    match validate(request, config) {
        Ok((destination, amount_sats)) => (
            SendState::AwaitingUnspent { destination, amount_sats },
            Some(WalletCall::ListUnspent),
        ),
        Err(error) => (SendState::Failed { error }, None),
    }
}

/// The step after signing, from the signed transaction encoded anew: it is
/// broadcast; where the wallet's answer held no transaction, the request
/// fails with `Error::JsonRpcNotWorking`.
pub fn advance_signed(encoded: Option<Vec<u8>>) -> (stepped: (SendState, Option<WalletCall>))
    ensures
        match encoded {
            Some(transaction) => stepped == (
                SendState::AwaitingBroadcast,
                Some(WalletCall::SendRawTransaction { transaction }),
            ),
            None => fails_with(Error::JsonRpcNotWorking, stepped.0, stepped.1),
        },
{
    match encoded {
        Some(transaction) => (
            SendState::AwaitingBroadcast,
            Some(WalletCall::SendRawTransaction { transaction }),
        ),
        None => (SendState::Failed { error: Error::JsonRpcNotWorking }, None),
    }
}

/// Moves the send on by the wallet's reply to the last call.
pub fn advance(state: SendState, reply: WalletReply, config: &DispatchConfig) -> (stepped: (
    SendState,
    Option<WalletCall>,
))
    ensures
        advance_spec(state, reply, config.change_address@, stepped.0, stepped.1),
        call_fits(stepped.0, stepped.1),
        stepped.1 is Some <==> !stepped.0.is_final(),
        state.is_final() ==> stepped.0 == state,
        !state.is_final() ==> stepped.0 is Failed || stepped.0.replies_seen() == state.replies_seen()
            + 1,
{
    match state {
        SendState::AwaitingUnspent { destination, amount_sats } => match reply {
            WalletReply::Unspent { outputs } => {
                let mut unspent = outputs;
                match build_transaction(
                    &mut unspent,
                    amount_sats,
                    destination,
                    config.change_address.clone(),
                ) {
                    Ok(request) => (
                        SendState::AwaitingRawTransaction,
                        Some(WalletCall::CreateRawTransaction { request }),
                    ),
                    Err(error) => (SendState::Failed { error }, None),
                }
            },
            _ => (SendState::Failed { error: Error::JsonRpcNotWorking }, None),
        },
        SendState::AwaitingRawTransaction => match reply {
            WalletReply::RawTransaction { transaction } => (
                SendState::AwaitingSignature,
                Some(WalletCall::SignRawTransaction { transaction }),
            ),
            _ => (SendState::Failed { error: Error::JsonRpcNotWorking }, None),
        },
        SendState::AwaitingSignature => match reply {
            WalletReply::Signed { hex } => advance_signed(reencode_transaction(&hex)),
            _ => (SendState::Failed { error: Error::JsonRpcNotWorking }, None),
        },
        SendState::AwaitingBroadcast => match reply {
            WalletReply::Broadcast { txid } => (SendState::Sent { txid }, None),
            _ => (SendState::Failed { error: Error::JsonRpcNotWorking }, None),
        },
        SendState::Sent { txid } => (SendState::Sent { txid }, None),
        SendState::Failed { error } => (SendState::Failed { error }, None),
    }
}

/// What the client is answered once the send is over: the transaction id
/// and a line end, or the failure. `None` while the send is under way.
pub fn outcome(state: SendState) -> (answer: Option<Result<String, Error>>)
    ensures
        match answer {
            Some(Ok(body)) => answer_of(state) == Some(Ok::<Seq<char>, Error>(body@)),
            Some(Err(error)) => answer_of(state) == Some(Err::<Seq<char>, Error>(error)),
            None => answer_of(state) is None,
        },
{
    match state {
        SendState::Sent { txid } => {
            proof {
                reveal_strlit("\n");
            }
            let body = txid.concat("\n");
            assert(body@ =~= txid@.push('\n'));
            Some(Ok(body))
        },
        SendState::Failed { error } => Some(Err(error)),
        _ => None,
    }
}

} // verus!
