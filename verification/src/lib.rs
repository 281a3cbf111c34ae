//! Verification of a ledger block's Merkle commitments.
//!
//! A block header claims a transactions-root: the binary Merkle root over the
//! canonical encodings of the block's transactions, in block order. Each
//! script transaction additionally embeds a receipts-root: the Merkle root
//! over the canonical encodings of its execution receipts, in status order.
//! This crate recomputes both commitments from the raw data and compares them
//! byte for byte against the claimed values.

pub mod block;
pub mod codec;
pub mod digest;
pub mod merkle;
pub mod verify;

pub use crate::block::Block;
pub use crate::block::Receipt;
pub use crate::block::Transaction;
pub use crate::block::TxStatus;
pub use crate::digest::Digest;
pub use crate::merkle::MerkleAccumulator;
pub use crate::verify::VerifyError;
pub use crate::verify::receipts_merkle_root;
pub use crate::verify::status_receipts;
pub use crate::verify::verify_block;
