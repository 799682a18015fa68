//! Assembly of the transaction request that is handed to the wallet.

use crate::coins::{
    change_sats_for, covering_count, input_for, inputs_for, lemma_covering_exists, last_outputs,
    select_coins, target_sats, total_sats, Selection, TransactionInput, UnspentOutput,
    FIXED_FEE_SATS,
};
use crate::error::Error;
use vstd::prelude::*;

verus! {

/// One entry of the outputs of a transaction request.
#[derive(Debug, Clone, PartialEq, Eq)]
pub struct TransactionOutput {
    pub address: String,
    pub amount_sats: u64,
}

impl View for TransactionOutput {
    type V = (Seq<char>, nat);

    open spec fn view(&self) -> (Seq<char>, nat) {
        (self.address@, self.amount_sats as nat)
    }
}

/// What the wallet is asked to turn into a raw transaction. No lock time is
/// asked for.
#[derive(Debug, Clone, PartialEq, Eq)]
pub struct TransactionRequest {
    pub inputs: Vec<TransactionInput>,
    /// The outputs by address; no address occurs twice.
    pub outputs: Vec<TransactionOutput>,
    /// Whether the transaction may be replaced by one that pays a higher fee.
    pub replaceable: bool,
}

impl TransactionRequest {
    /// There is an input to spend, and no address occurs twice among the
    /// outputs.
    pub open spec fn well_formed(&self) -> bool {
        &&& self.inputs@.len() >= 1
        &&& distinct_addresses(output_views(self.outputs@))
    }
}

/// The entries of `outputs` as pairs of address and amount.
pub open spec fn output_views(outputs: Seq<TransactionOutput>) -> Seq<(Seq<char>, nat)> {
    Seq::new(outputs.len(), |i: int| outputs[i]@)
}

/// The outputs of a payment of `amount` to `destination` that leaves
/// `change`: the payment, then the change. Where the change goes to the
/// destination itself, one output holds both.
pub open spec fn payment_outputs(
    destination: Seq<char>,
    amount: nat,
    change_address: Seq<char>,
    change: nat,
) -> Seq<(Seq<char>, nat)> {
    if destination == change_address {
        seq![(destination, amount + change)]
    } else {
        seq![(destination, amount), (change_address, change)]
    }
}

/// No address occurs twice among `outputs`.
pub open spec fn distinct_addresses(outputs: Seq<(Seq<char>, nat)>) -> bool {
    forall|i: int, j: int| 0 <= i < j < outputs.len() ==> outputs[i].0 != outputs[j].0
}

/// The single amount that one address receives where payment and change meet
/// does not fit in 64 bits.
pub open spec fn merged_amount_overflows(
    destination: Seq<char>,
    amount: nat,
    change_address: Seq<char>,
    change: nat,
) -> bool {
    destination == change_address && amount + change > u64::MAX
}

/// Builds the outputs of a payment, or `None` where the one amount of a
/// merged output does not fit in 64 bits.
pub fn build_outputs(
    destination: String,
    amount_sats: u64,
    change_address: String,
    change_sats: u64,
) -> (outputs: Option<Vec<TransactionOutput>>)
    ensures
        outputs is None <==> merged_amount_overflows(
            destination@,
            amount_sats as nat,
            change_address@,
            change_sats as nat,
        ),
        outputs matches Some(built) ==> {
            &&& output_views(built@) == payment_outputs(
                destination@,
                amount_sats as nat,
                change_address@,
                change_sats as nat,
            )
            &&& distinct_addresses(output_views(built@))
        },
{
    let mut built: Vec<TransactionOutput> = Vec::new();
    if destination == change_address {
        match amount_sats.checked_add(change_sats) {
            None => {
                return None;
            },
            Some(merged) => {
                built.push(TransactionOutput { address: destination, amount_sats: merged });
            },
        }
    } else {
        built.push(TransactionOutput { address: destination, amount_sats });
        built.push(TransactionOutput { address: change_address, amount_sats: change_sats });
    }
    assert(output_views(built@) =~= payment_outputs(
        destination@,
        amount_sats as nat,
        change_address@,
        change_sats as nat,
    ));
    Some(built)
}

/// Why no transaction request comes about, if none does.
pub open spec fn build_failure(
    unspent: Seq<UnspentOutput>,
    amount_sats: u64,
    destination: Seq<char>,
    change_address: Seq<char>,
) -> Option<Error> {
    if total_sats(unspent) < target_sats(amount_sats) {
        Some(Error::OutOfMoney)
    } else if merged_amount_overflows(
        destination,
        amount_sats as nat,
        change_address,
        change_sats_for(unspent, amount_sats),
    ) {
        Some(Error::JsonRpcNotWorking)
    } else {
        None
    }
}

/// `request` is the transaction request for a payment of `amount_sats` to
/// `destination` out of `unspent`: it spends the fewest outputs from the end
/// of the listing that cover amount and fee, the last output first, pays the
/// amount to the destination and the rest, less the fee, to `change_address`,
/// and is marked replaceable.
pub open spec fn is_request_for(
    request: TransactionRequest,
    unspent: Seq<UnspentOutput>,
    amount_sats: u64,
    destination: Seq<char>,
    change_address: Seq<char>,
) -> bool {
    &&& request.inputs@ == inputs_for(unspent, covering_count(unspent, target_sats(amount_sats)))
    &&& output_views(request.outputs@) == payment_outputs(
        destination,
        amount_sats as nat,
        change_address,
        change_sats_for(unspent, amount_sats),
    )
    &&& request.replaceable
}

/// Sum of the amounts of `outputs`.
pub open spec fn outputs_total(outputs: Seq<(Seq<char>, nat)>) -> nat
    decreases outputs.len(),
{
    if outputs.len() == 0 {
        0
    } else {
        outputs[0].1 + outputs_total(outputs.skip(1))
    }
}

/// Nothing is lost between inputs and outputs: where the listing covers a
/// payment, what its outputs receive and the fee add up to what the selected
/// inputs hold, and the destination is among the outputs.
pub proof fn lemma_value_conserved(
    unspent: Seq<UnspentOutput>,
    amount_sats: u64,
    destination: Seq<char>,
    change_address: Seq<char>,
)
    requires
        total_sats(unspent) >= target_sats(amount_sats),
    ensures
        ({
            let count = covering_count(unspent, target_sats(amount_sats));
            let outputs = payment_outputs(
                destination,
                amount_sats as nat,
                change_address,
                change_sats_for(unspent, amount_sats),
            );
            &&& 1 <= count <= unspent.len()
            &&& outputs_total(outputs) + FIXED_FEE_SATS == total_sats(last_outputs(unspent, count))
            &&& outputs[0].0 == destination
            &&& distinct_addresses(outputs)
        }),
{
    lemma_covering_exists(unspent, target_sats(amount_sats));
    let outputs = payment_outputs(
        destination,
        amount_sats as nat,
        change_address,
        change_sats_for(unspent, amount_sats),
    );
    let rest = outputs.skip(1);
    if destination != change_address {
        assert(outputs_total(rest.skip(1)) == 0);
    }
    assert(outputs_total(outputs) == outputs[0].1 + outputs_total(rest));
}

/// A replay is a new send: the request built for a payment follows the
/// listing it is built from. Two listings that cover the payment and end in
/// different outputs give requests with different inputs.
pub proof fn lemma_replay_follows_listing(
    first: Seq<UnspentOutput>,
    second: Seq<UnspentOutput>,
    amount_sats: u64,
)
    requires
        total_sats(first) >= target_sats(amount_sats),
        total_sats(second) >= target_sats(amount_sats),
        input_for(first.last()) != input_for(second.last()),
    ensures
        inputs_for(first, covering_count(first, target_sats(amount_sats))) != inputs_for(
            second,
            covering_count(second, target_sats(amount_sats)),
        ),
{
    lemma_covering_exists(first, target_sats(amount_sats));
    lemma_covering_exists(second, target_sats(amount_sats));
    let first_inputs = inputs_for(first, covering_count(first, target_sats(amount_sats)));
    let second_inputs = inputs_for(second, covering_count(second, target_sats(amount_sats)));
    assert(first_inputs[0] == input_for(first.last()));
    assert(second_inputs[0] == input_for(second.last()));
}

/// Selects coins for a payment of `amount_sats` to `destination` and
/// assembles the transaction request.
///
/// Fails with `Error::OutOfMoney` where the whole listing does not cover
/// amount and fee; `unspent` is then left empty. Fails with
/// `Error::JsonRpcNotWorking` where the outputs cannot be written down:
/// payment and change go to one address and their sum does not fit in 64
/// bits, which no wallet's listing brings about. Otherwise `unspent` keeps
/// the outputs that were not needed.
pub fn build_transaction(
    unspent: &mut Vec<UnspentOutput>,
    amount_sats: u64,
    destination: String,
    change_address: String,
) -> (result: Result<TransactionRequest, Error>)
    ensures
        match result {
            Ok(request) => {
                &&& build_failure(old(unspent)@, amount_sats, destination@, change_address@) is None
                &&& is_request_for(
                    request,
                    old(unspent)@,
                    amount_sats,
                    destination@,
                    change_address@,
                )
                &&& request.well_formed()
            },
            Err(error) => build_failure(old(unspent)@, amount_sats, destination@, change_address@)
                == Some(error),
        },
        total_sats(old(unspent)@) < target_sats(amount_sats) ==> final(unspent)@.len() == 0,
        total_sats(old(unspent)@) >= target_sats(amount_sats) ==> final(unspent)@ == old(
            unspent,
        )@.take(
            old(unspent)@.len() - covering_count(old(unspent)@, target_sats(amount_sats)),
        ),
{
    match select_coins(unspent, amount_sats) {
        Err(error) => Err(error),
        Ok(selection) => {
            let Selection { inputs, change_sats } = selection;
            match build_outputs(destination, amount_sats, change_address, change_sats) {
                None => Err(Error::JsonRpcNotWorking),
                Some(outputs) => Ok(TransactionRequest { inputs, outputs, replaceable: true }),
            }
        },
    }
}

} // verus!
