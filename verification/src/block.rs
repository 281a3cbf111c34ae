//! The block snapshot that one verification pass works on.
//!
//! A block is fetched once, held immutably, and discarded after the pass. Its
//! transactions are kept in block order: that order is the leaf order of the
//! transactions-root. Each transaction carries its raw canonical payload and a
//! status; a Success or Failure status carries the transaction's execution
//! receipts, in the order that is the leaf order of its receipts-root.

use vstd::prelude::*;

use crate::digest::Digest;

verus! {

/// One execution receipt, held as its canonical byte encoding. The encoder is
/// the ledger's fixed external codec; one logical receipt has one encoding.
pub struct Receipt {
    pub canonical: Vec<u8>,
}

impl View for Receipt {
    type V = Seq<u8>;

    open spec fn view(&self) -> Seq<u8> {
        self.canonical@
    }
}

/// The status a ledger reports for a transaction. A closed set: extending it
/// forces every consumer that extracts receipts to decide the new case.
pub enum TxStatus {
    /// Executed successfully; carries the execution receipts in order.
    Success { receipts: Vec<Receipt> },
    /// Executed and failed; still committed on-chain, so it is checked like a
    /// success. Carries the receipts and the reported failure reason.
    Failure { receipts: Vec<Receipt>, reason: String },
    /// Any other status: no receipts are retrievable.
    Other,
}

/// One transaction of the fetched block: its identifier as reported by the
/// ledger, its raw canonical payload, and its status.
pub struct Transaction {
    pub id: String,
    pub raw_payload: Vec<u8>,
    pub status: TxStatus,
}

/// One fetched block: its identifier, the transactions-root its header
/// claims, and its transactions in block order.
pub struct Block {
    pub id: String,
    pub transactions_root: Digest,
    pub transactions: Vec<Transaction>,
}

/// The receipt leaves of a receipt sequence: each receipt's canonical
/// encoding, in order.
pub open spec fn receipt_leaves(receipts: Seq<Receipt>) -> Seq<Seq<u8>> {
    receipts.map_values(|r: Receipt| r.canonical@)
}

/// The receipt leaves a status yields: Success and Failure yield their
/// receipts, in order; any other status yields none, so no receipts-root can
/// be checked for the transaction.
pub open spec fn status_receipt_leaves(status: TxStatus) -> Option<Seq<Seq<u8>>> {
    match status {
        TxStatus::Success { receipts } => Some(receipt_leaves(receipts@)),
        TxStatus::Failure { receipts, reason } => Some(receipt_leaves(receipts@)),
        TxStatus::Other => None,
    }
}

/// A Failure status yields exactly the receipt leaves that a Success status
/// with the same receipts yields: failed transactions are committed on-chain
/// and their receipts are checked the same way, whatever the failure reason.
pub proof fn lemma_failure_receipts_like_success(receipts: Vec<Receipt>, reason: String)
    ensures
        status_receipt_leaves(TxStatus::Failure { receipts, reason }) == status_receipt_leaves(
            TxStatus::Success { receipts },
        ),
{
}

} // verus!
