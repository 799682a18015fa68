//! Raw transactions as the wallet hands them over: consensus-encoded bytes.

use vstd::prelude::*;

verus! {

/// The transaction that `bytes` encode, encoded anew; `None` where `bytes`
/// are not the whole encoding of one transaction.
pub uninterp spec fn canonical_transaction(bytes: Seq<u8>) -> Option<Seq<u8>>;

/// Decodes `bytes` with `bitcoin::consensus::encode::deserialize` into a
/// `bitcoin::Transaction`, which fails unless the bytes are one transaction
/// and nothing more, and encodes the transaction again with
/// `bitcoin::consensus::encode::serialize`. The contract only names the
/// outcome: the same bytes always give the same one.
#[verifier::external_body]
pub(crate) fn reencode_transaction(bytes: &Vec<u8>) -> (encoded: Option<Vec<u8>>)
    ensures
        match encoded {
            Some(transaction) => canonical_transaction(bytes@) == Some(transaction@),
            None => canonical_transaction(bytes@) is None,
        },
{
    match bitcoin::consensus::encode::deserialize::<bitcoin::Transaction>(bytes.as_slice()) {
        Ok(transaction) => Some(bitcoin::consensus::encode::serialize(&transaction)),
        Err(_) => None,
    }
}

} // verus!
