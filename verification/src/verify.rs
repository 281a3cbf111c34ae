//! Root verification: the pass/fail verdict for one fetched block.
//!
//! The verifier walks the transactions in block order. Each raw payload is
//! decoded (malformed bytes abort the pass), its canonical re-encoding is fed
//! to the block-level accumulator whatever the status, and, when the decoded
//! body embeds a receipts-root and the status yields receipts, a fresh
//! transaction-scoped accumulator recomputes that root and compares it
//! byte-exact against the claim, failing fast on the first mismatch. After the
//! walk, the block-level root is compared against the header's claimed
//! transactions-root.

use vstd::prelude::*;

use crate::block::Block;
use crate::block::Receipt;
use crate::block::Transaction;
use crate::block::TxStatus;
use crate::block::receipt_leaves;
use crate::block::status_receipt_leaves;
use crate::codec::DecodedTx;
use crate::codec::TxModel;
use crate::codec::decode_payload;
use crate::codec::tx_decode;
use crate::digest::Digest;
use crate::merkle::MAX_LEAVES;
use crate::merkle::MerkleAccumulator;
use crate::merkle::merkle_root_of;
use vstd::slice::slice_to_vec;

verus! {

/// Why verification of a block did not succeed.
#[derive(Debug)]
pub enum VerifyError {
    /// The payload of the transaction at `index` does not decode. Fatal: the
    /// input is malformed, so no verdict about the roots is reached.
    Decode { index: usize, tx_id: String, message: String },
    /// The recomputed receipts-root of the transaction at `index` differs
    /// from the root its decoded body claims. Verification stops at the first
    /// such transaction.
    ReceiptRootMismatch {
        index: usize,
        tx_id: String,
        block_id: String,
        expected: Digest,
        actual: Digest,
    },
    /// Every transaction passed its receipt check, but the recomputed
    /// block-level root differs from the transactions-root the header claims.
    TransactionRootMismatch { expected: Digest, actual: Digest },
}

/// The decoded model of a transaction's raw payload, if it decodes.
pub open spec fn tx_model(t: Transaction) -> Option<TxModel> {
    tx_decode(t.raw_payload@)
}

/// Whether a transaction's raw payload is malformed.
pub open spec fn tx_decode_fails(t: Transaction) -> bool {
    tx_model(t) is None
}

/// Whether a transaction is receipt-checked: it decodes, its decoded body
/// embeds a receipts-root, and its status yields receipts.
pub open spec fn tx_receipt_checked(t: Transaction) -> bool {
    &&& tx_model(t) is Some
    &&& tx_model(t)->0.receipts_root is Some
    &&& status_receipt_leaves(t.status) is Some
}

/// Whether a receipt-checked transaction's recomputed receipts-root differs
/// from the one its decoded body claims.
pub open spec fn tx_receipt_mismatch(t: Transaction) -> bool {
    &&& tx_receipt_checked(t)
    &&& merkle_root_of(status_receipt_leaves(t.status)->0) != tx_model(t)->0.receipts_root->0
}

/// Whether a transaction stops the pass: its payload is malformed or its
/// receipts-root check fails.
pub open spec fn tx_faulty(t: Transaction) -> bool {
    tx_decode_fails(t) || tx_receipt_mismatch(t)
}

/// The first `n` transactions neither fail to decode nor fail their
/// receipts-root check.
pub open spec fn clean_prefix(txs: Seq<Transaction>, n: int) -> bool {
    forall|j: int| 0 <= j < n ==> !tx_faulty(#[trigger] txs[j])
}

/// The leaves of the block-level tree: each transaction's canonical
/// re-encoding, in block order. Meaningful where every payload decodes.
pub open spec fn block_leaves(txs: Seq<Transaction>) -> Seq<Seq<u8>> {
    txs.map_values(|t: Transaction| tx_model(t)->0.canonical)
}

/// The one condition under which verification succeeds: every transaction
/// decodes and passes its receipts-root check, and the Merkle root over the
/// canonical re-encodings equals the transactions-root the header claims.
pub open spec fn block_valid(b: Block) -> bool {
    &&& clean_prefix(b.transactions@, b.transactions@.len() as int)
    &&& merkle_root_of(block_leaves(b.transactions@)) == b.transactions_root@
}

/// The machine limit on one transaction's receipt count: its receipts, as
/// tree leaves, must stay within the accumulator's addressable size.
pub open spec fn tx_within_tree_limits(t: Transaction) -> bool {
    match status_receipt_leaves(t.status) {
        Some(rs) => rs.len() <= MAX_LEAVES,
        None => true,
    }
}

/// The machine limit on a block: transaction count and every receipt count
/// stay within the accumulator's addressable size. Any block that fits in
/// memory is far below these bounds.
pub open spec fn within_tree_limits(b: Block) -> bool {
    &&& b.transactions@.len() <= MAX_LEAVES
    &&& forall|j: int|
        0 <= j < b.transactions@.len() ==> tx_within_tree_limits(#[trigger] b.transactions@[j])
}

/// The receipts a status yields: Success and Failure carry their receipts, in
/// status order; any other status yields none, so the transaction cannot be
/// receipt-checked.
pub fn status_receipts(status: &TxStatus) -> (r: Option<&Vec<Receipt>>)
    ensures
        match r {
            Some(rs) => status_receipt_leaves(*status) == Some(receipt_leaves(rs@)),
            None => status_receipt_leaves(*status) is None,
        },
{
    match status {
        TxStatus::Success { receipts } => Some(receipts),
        TxStatus::Failure { receipts, reason: _ } => Some(receipts),
        TxStatus::Other => None,
    }
}

/// The Merkle root over a sequence of receipts, each as its canonical
/// encoding, in order.
pub fn receipts_merkle_root(receipts: &Vec<Receipt>) -> (r: Digest)
    requires
        receipts@.len() <= MAX_LEAVES,
    ensures
        r@ == merkle_root_of(receipt_leaves(receipts@)),
{
    let mut acc = MerkleAccumulator::new();
    let n = receipts.len();
    let mut k: usize = 0;
    while k < n
        invariant
            0 <= k <= n == receipts@.len(),
            n <= MAX_LEAVES,
            acc@ == receipt_leaves(receipts@.take(k as int)),
        decreases n - k,
    {
        acc.push(slice_to_vec(receipts[k].canonical.as_slice()));
        proof {
            assert(receipt_leaves(receipts@.take(k as int)).push(receipts@[k as int].canonical@)
                =~= receipt_leaves(receipts@.take(k + 1 as int)));
        }
        k += 1;
    }
    proof {
        assert(receipts@.take(n as int) =~= receipts@);
    }
    acc.root()
}

/// Verifies one block: recomputes the receipts-root of every transaction that
/// carries one and the block-level transactions-root, and compares each
/// byte-exact against the claimed value. Succeeds exactly on valid blocks;
/// otherwise the error names the first inconsistency found, in block order,
/// with the identifiers and the expected and recomputed digests.
pub fn verify_block(block: &Block) -> (r: Result<(), VerifyError>)
    requires
        within_tree_limits(*block),
    ensures
        (r is Ok) <==> block_valid(*block),
        match r {
            Ok(_) => true,
            Err(VerifyError::Decode { index, tx_id, .. }) => {
                &&& index < block.transactions@.len()
                &&& clean_prefix(block.transactions@, index as int)
                &&& tx_decode_fails(block.transactions@[index as int])
                &&& tx_id@ == block.transactions@[index as int].id@
            },
            Err(VerifyError::ReceiptRootMismatch { index, tx_id, block_id, expected, actual }) => {
                &&& index < block.transactions@.len()
                &&& clean_prefix(block.transactions@, index as int)
                &&& tx_receipt_mismatch(block.transactions@[index as int])
                &&& tx_id@ == block.transactions@[index as int].id@
                &&& block_id@ == block.id@
                &&& expected@ == tx_model(block.transactions@[index as int])->0.receipts_root->0
                &&& actual@ == merkle_root_of(
                    status_receipt_leaves(block.transactions@[index as int].status)->0,
                )
            },
            Err(VerifyError::TransactionRootMismatch { expected, actual }) => {
                &&& clean_prefix(block.transactions@, block.transactions@.len() as int)
                &&& expected@ == block.transactions_root@
                &&& actual@ == merkle_root_of(block_leaves(block.transactions@))
                &&& expected@ != actual@
            },
        },
{
    let ghost txs = block.transactions@;
    let mut acc = MerkleAccumulator::new();
    let n = block.transactions.len();
    let mut i: usize = 0;
    proof {
        assert(block_leaves(txs.take(0)) =~= Seq::<Seq<u8>>::empty());
    }
    while i < n
        invariant
            0 <= i <= n,
            n == txs.len(),
            txs == block.transactions@,
            within_tree_limits(*block),
            acc@ == block_leaves(txs.take(i as int)),
            clean_prefix(txs, i as int),
        decreases n - i,
    {
        let tx = &block.transactions[i];
        let decoded = match decode_payload(&tx.raw_payload) {
            Ok(d) => d,
            Err(message) => {
                proof {
                    assert(tx_faulty(txs[i as int]));
                    assert(!clean_prefix(txs, txs.len() as int));
                }
                return Err(VerifyError::Decode { index: i, tx_id: tx.id.clone(), message });
            },
        };
        let DecodedTx { receipts_root, canonical } = decoded;
        proof {
            assert(tx_model(txs[i as int]) is Some);
            assert(tx_model(txs[i as int])->0.canonical == canonical@);
        }
        acc.push(canonical);
        proof {
            assert(block_leaves(txs.take(i as int)).push(tx_model(txs[i as int])->0.canonical)
                =~= block_leaves(txs.take(i + 1 as int)));
        }
        if let Some(claimed) = receipts_root {
            if let Some(receipts) = status_receipts(&tx.status) {
                let actual = receipts_merkle_root(receipts);
                if !actual.eq(&claimed) {
                    proof {
                        assert(tx_receipt_mismatch(txs[i as int]));
                        assert(!clean_prefix(txs, txs.len() as int));
                    }
                    return Err(VerifyError::ReceiptRootMismatch {
                        index: i,
                        tx_id: tx.id.clone(),
                        block_id: block.id.clone(),
                        expected: claimed,
                        actual,
                    });
                }
            }
        }
        proof {
            assert(!tx_faulty(txs[i as int]));
        }
        i += 1;
    }
    proof {
        assert(txs.take(n as int) =~= txs);
    }
    let actual = acc.root();
    if !actual.eq(&block.transactions_root) {
        return Err(VerifyError::TransactionRootMismatch {
            expected: block.transactions_root,
            actual,
        });
    }
    Ok(())
}

/// A transaction whose decoded body carries no receipts-root (a non-script
/// kind) is never receipt-checked, yet still contributes its canonical
/// re-encoding as its leaf of the block-level tree.
pub proof fn lemma_non_script_excluded(txs: Seq<Transaction>, i: int)
    requires
        0 <= i < txs.len(),
        tx_model(txs[i]) is Some,
        tx_model(txs[i])->0.receipts_root is None,
    ensures
        !tx_receipt_mismatch(txs[i]),
        block_leaves(txs)[i] == tx_model(txs[i])->0.canonical,
{
}

} // verus!
