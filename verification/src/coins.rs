//! Coin selection over the wallet's unspent outputs.
//!
//! Outputs are spent last listed first: the selector takes them from the
//! end of the wallet's listing, one by one, until the requested amount and
//! the fixed fee are covered. What the inputs hold beyond that is the change.

use crate::error::Error;
use vstd::prelude::*;

verus! {

/// `bitcoin::Txid`, carried through unread.
#[verifier::external_type_specification]
#[verifier::external_body]
pub struct ExTxid(bitcoin::Txid);

/// The fee, in satoshis, that every transaction leaves to the miners.
pub const FIXED_FEE_SATS: u64 = 1_000;

/// A spendable output of the wallet, as listed at the time of one request.
#[derive(Debug, Clone, Copy, PartialEq, Eq)]
pub struct UnspentOutput {
    pub txid: bitcoin::Txid,
    pub vout: u32,
    pub amount_sats: u64,
}

/// An input of the transaction to create: the outpoint it spends.
#[derive(Debug, Clone, Copy, PartialEq, Eq)]
pub struct TransactionInput {
    pub txid: bitcoin::Txid,
    pub vout: u32,
    /// Never set by the selector: the wallet picks the sequence number.
    pub sequence: Option<u32>,
}

/// The inputs chosen for one transaction and what they leave over.
#[derive(Debug, Clone, PartialEq, Eq)]
pub struct Selection {
    /// The chosen inputs, in the order in which they were taken.
    pub inputs: Vec<TransactionInput>,
    /// What the inputs hold beyond the amount and the fee.
    pub change_sats: u64,
}

/// Sum of the amounts of `outputs`, in satoshis.
pub open spec fn total_sats(outputs: Seq<UnspentOutput>) -> nat
    decreases outputs.len(),
{
    if outputs.len() == 0 {
        0
    } else {
        outputs[0].amount_sats as nat + total_sats(outputs.skip(1))
    }
}

/// The last `count` outputs of `unspent`.
pub open spec fn last_outputs(unspent: Seq<UnspentOutput>, count: int) -> Seq<UnspentOutput> {
    unspent.skip(unspent.len() - count)
}

/// What a request for `amount_sats` has to cover: the amount and the fee.
pub open spec fn target_sats(amount_sats: u64) -> nat {
    (amount_sats + FIXED_FEE_SATS) as nat
}

/// The last `count` outputs of `unspent` cover `target`, and one fewer would not.
pub open spec fn fewest_covering(unspent: Seq<UnspentOutput>, target: nat, count: int) -> bool {
    &&& 1 <= count <= unspent.len()
    &&& total_sats(last_outputs(unspent, count)) >= target
    &&& total_sats(last_outputs(unspent, count - 1)) < target
}

/// How many outputs, taken from the end of `unspent`, are the fewest that
/// cover `target`. It means something only where the listing covers `target`.
pub open spec fn covering_count(unspent: Seq<UnspentOutput>, target: nat) -> int {
    choose|count: int| fewest_covering(unspent, target, count)
}

/// What the selected outputs hold beyond `amount_sats` and the fee.
pub open spec fn change_sats_for(unspent: Seq<UnspentOutput>, amount_sats: u64) -> nat {
    (total_sats(last_outputs(unspent, covering_count(unspent, target_sats(amount_sats)))) - target_sats(
        amount_sats,
    )) as nat
}

/// The input that spends `output`.
pub open spec fn input_for(output: UnspentOutput) -> TransactionInput {
    TransactionInput { txid: output.txid, vout: output.vout, sequence: None }
}

/// The inputs that spend the last `count` outputs of `unspent`, the last output first.
pub open spec fn inputs_for(unspent: Seq<UnspentOutput>, count: int) -> Seq<TransactionInput> {
    Seq::new(count as nat, |i: int| input_for(unspent[unspent.len() - 1 - i]))
}

/// Taking one more output from the end adds its amount to the total taken.
pub proof fn lemma_one_more_output(unspent: Seq<UnspentOutput>, count: int)
    requires
        0 <= count < unspent.len(),
    ensures
        total_sats(last_outputs(unspent, count + 1)) == total_sats(last_outputs(unspent, count))
            + unspent[unspent.len() - 1 - count].amount_sats,
{
    assert(last_outputs(unspent, count + 1).skip(1) =~= last_outputs(unspent, count));
}

/// Selects inputs for a payment of `amount_sats`.
///
/// Outputs are removed from the end of `unspent` until they cover the amount
/// and the fee; each becomes an input, in the order taken. When the listing
/// runs out first, the request fails with `Error::OutOfMoney` and `unspent`
/// is left empty. Otherwise `unspent` keeps the outputs that were not needed.
pub fn select_coins(unspent: &mut Vec<UnspentOutput>, amount_sats: u64) -> (result: Result<
    Selection,
    Error,
>)
    ensures
        result is Ok <==> total_sats(old(unspent)@) >= target_sats(amount_sats),
        match result {
            Ok(selection) => {
                let count = selection.inputs@.len() as int;
                &&& fewest_covering(old(unspent)@, target_sats(amount_sats), count)
                &&& count == covering_count(old(unspent)@, target_sats(amount_sats))
                &&& selection.inputs@ == inputs_for(old(unspent)@, count)
                &&& selection.change_sats == total_sats(last_outputs(old(unspent)@, count))
                    - target_sats(amount_sats)
                &&& final(unspent)@ == old(unspent)@.take(old(unspent)@.len() - count)
            },
            Err(error) => error == Error::OutOfMoney && final(unspent)@.len() == 0,
        },
{
    let ghost listed = unspent@;
    let target: u128 = amount_sats as u128 + FIXED_FEE_SATS as u128;
    let mut available: u128 = 0;
    let mut inputs: Vec<TransactionInput> = Vec::new();
    while available < target
        invariant
            listed == old(unspent)@,
            target == target_sats(amount_sats),
            inputs@.len() <= listed.len(),
            unspent@ == listed.take(listed.len() - inputs@.len()),
            inputs@ == inputs_for(listed, inputs@.len() as int),
            available == total_sats(last_outputs(listed, inputs@.len() as int)),
            inputs@.len() > 0 ==> total_sats(last_outputs(listed, inputs@.len() - 1)) < target,
            available >= target ==> available - target <= u64::MAX,
        decreases unspent@.len(),
    {
        let ghost taken = inputs@.len() as int;
        match unspent.pop() {
            None => {
                assert(last_outputs(listed, taken) =~= listed);
                return Err(Error::OutOfMoney);
            },
            Some(output) => {
                proof {
                    lemma_one_more_output(listed, taken);
                }
                inputs.push(TransactionInput { txid: output.txid, vout: output.vout, sequence: None });
                available = available + output.amount_sats as u128;
            },
        }
    }
    proof {
        lemma_more_outputs_hold_more(listed, inputs@.len() as int, listed.len() as int);
        assert(last_outputs(listed, listed.len() as int) =~= listed);
        lemma_covering_count(listed, target as nat, inputs@.len() as int);
    }
    let change_sats = (available - target) as u64;
    Ok(Selection { inputs, change_sats })
}

/// Taking more outputs from the end never lowers the total taken.
pub proof fn lemma_more_outputs_hold_more(unspent: Seq<UnspentOutput>, fewer: int, more: int)
    requires
        0 <= fewer <= more <= unspent.len(),
    ensures
        total_sats(last_outputs(unspent, fewer)) <= total_sats(last_outputs(unspent, more)),
    decreases more - fewer,
{
    if fewer < more {
        lemma_one_more_output(unspent, fewer);
        lemma_more_outputs_hold_more(unspent, fewer + 1, more);
    }
}

/// At most one count is the fewest that covers a target.
pub proof fn lemma_fewest_covering_unique(
    unspent: Seq<UnspentOutput>,
    target: nat,
    first: int,
    second: int,
)
    requires
        fewest_covering(unspent, target, first),
        fewest_covering(unspent, target, second),
    ensures
        first == second,
{
    if first < second {
        lemma_more_outputs_hold_more(unspent, first, second - 1);
    } else if second < first {
        lemma_more_outputs_hold_more(unspent, second, first - 1);
    }
}

/// A count that is the fewest to cover `target` is the covering count.
pub proof fn lemma_covering_count(unspent: Seq<UnspentOutput>, target: nat, count: int)
    requires
        fewest_covering(unspent, target, count),
    ensures
        covering_count(unspent, target) == count,
{
    lemma_fewest_covering_unique(unspent, target, count, covering_count(unspent, target));
}

/// Where the outputs taken so far fall short of a target that the listing
/// covers, some larger count is the fewest that covers it.
proof fn lemma_covering_found(unspent: Seq<UnspentOutput>, target: nat, taken: int)
    requires
        0 <= taken <= unspent.len(),
        total_sats(last_outputs(unspent, taken)) < target,
        total_sats(unspent) >= target,
    ensures
        fewest_covering(unspent, target, covering_count(unspent, target)),
    decreases unspent.len() - taken,
{
    if taken == unspent.len() {
        assert(last_outputs(unspent, taken) =~= unspent);
    } else if total_sats(last_outputs(unspent, taken + 1)) >= target {
        assert(fewest_covering(unspent, target, taken + 1));
    } else {
        lemma_covering_found(unspent, target, taken + 1);
    }
}

/// A listing that covers a target has a fewest covering count: at least one
/// output is taken, their total reaches the target, and without the last of
/// them it would not.
pub proof fn lemma_covering_exists(unspent: Seq<UnspentOutput>, target: nat)
    requires
        target > 0,
        total_sats(unspent) >= target,
    ensures
        fewest_covering(unspent, target, covering_count(unspent, target)),
{
    lemma_covering_found(unspent, target, 0);
}

} // verus!
