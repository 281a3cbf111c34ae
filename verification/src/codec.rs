//! Decoding raw transaction payloads into what root verification reads.
//!
//! A transaction arrives as its canonical byte encoding. Verification needs
//! three things from it: whether the bytes decode at all (malformed bytes are
//! fatal), the canonical re-encoding of the decoded value (the leaf fed to the
//! block-level tree), and, for the script kind only, the claimed receipts-root
//! embedded in the decoded body. The decoder itself is the ledger's fixed
//! external codec; everything it yields is a pure function of the payload
//! bytes.

use vstd::prelude::*;

use crate::digest::Digest;
use fuel_tx::field::ReceiptsRoot;
use fuel_types::canonical::Deserialize;
use fuel_types::canonical::Serialize;

verus! {

/// What verification reads out of one decoded transaction.
pub struct DecodedTx {
    /// The claimed receipts-root embedded in the decoded body; present exactly
    /// for the script kind, the one kind that carries such a field.
    pub receipts_root: Option<Digest>,
    /// The canonical encoding of the decoded transaction: the leaf that the
    /// block-level tree commits to.
    pub canonical: Vec<u8>,
}

/// The mathematical content of a `DecodedTx`.
pub struct TxModel {
    pub receipts_root: Option<Seq<u8>>,
    pub canonical: Seq<u8>,
}

impl View for DecodedTx {
    type V = TxModel;

    open spec fn view(&self) -> TxModel {
        TxModel {
            receipts_root: match self.receipts_root {
                Some(d) => Some(d@),
                None => None,
            },
            canonical: self.canonical@,
        }
    }
}

/// What the ledger's canonical transaction codec makes of a byte string:
/// `None` when the bytes are malformed, otherwise the decoded transaction's
/// model. A pure function of the bytes alone.
pub uninterp spec fn tx_decode(payload: Seq<u8>) -> Option<TxModel>;

/// Relies on `fuel_tx::Transaction::from_bytes` (the canonical decoder, which
/// fails exactly on malformed bytes), `fuel_tx::Transaction::to_bytes` (the
/// canonical encoder, total on decoded values) and
/// `fuel_tx::field::ReceiptsRoot::receipts_root` (the claimed receipts-root
/// field, present on the script variant only). All three are deterministic in
/// the payload bytes, so the model returned is a pure function of them.
#[verifier::external_body]
pub(crate) fn decode_payload(payload: &Vec<u8>) -> (r: Result<DecodedTx, String>)
    ensures
        r matches Ok(d) ==> tx_decode(payload@) == Some(d@),
        r matches Err(_) ==> tx_decode(payload@) is None,
{
    match fuel_tx::Transaction::from_bytes(payload.as_slice()) {
        Err(e) => Err(format!("{e}")),
        Ok(tx) => {
            let canonical = tx.to_bytes();
            let receipts_root = match &tx {
                fuel_tx::Transaction::Script(s) => Some(Digest { bytes: (*s.receipts_root()).into() }),
                _ => None,
            };
            Ok(DecodedTx { receipts_root, canonical })
        },
    }
}

} // verus!
