//! Confidential token balances kept as ciphertexts, with every change of a
//! balance admitted only behind a zero-knowledge proof.
//!
//! The crate holds the account state machine and its transition rules. The
//! encryption scheme and the proof system stay outside: they are reached
//! through the two interfaces of [`interfaces`], and every contract here
//! speaks of their answers as of values it was handed.

pub mod account;
pub mod amount;
pub mod coordinator;
pub mod error;
pub mod interfaces;
pub mod laws;
pub mod mint;
pub mod pubkey;
pub mod record;
pub mod slot;
pub mod statement;

pub use account::{AccountView, ConfidentialTransferAccount};
pub use coordinator::TransitionCoordinator;
pub use error::ErrorCode;
pub use interfaces::{CiphertextAlgebra, ProofKind, ProofVerifier, TransferProof};
pub use mint::{initialize, ConfidentialTransferMint, Initialize, MintUpdate};
pub use pubkey::Pubkey;
pub use slot::{AccountSlot, Lifecycle, SlotView};
