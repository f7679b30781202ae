//! What the library asks of the encryption scheme and of the proof system.
//!
//! Neither interface promises anything here. A transition that calls one
//! states what it handed over and what it did with each possible answer.

use vstd::prelude::*;
use crate::pubkey::Pubkey;

verus! {

/// What a proof is about.
#[derive(Clone, Copy, Debug, PartialEq, Eq, Structural)]
pub enum ProofKind {
    /// An amount leaves one account's available balance and enters
    /// another's pending balance.
    Transfer,
    /// A disclosed amount leaves an account's available balance.
    Withdraw,
    /// An account's balances are zero.
    CloseCheck,
}

/// The homomorphic operations on ciphertexts. A ciphertext is a byte
/// string, and the empty string is the encoding of zero: an implementation
/// takes it wherever it takes a ciphertext.
pub trait CiphertextAlgebra {
    /// A ciphertext of `plaintext` under `public_key`.
    fn encrypt(&self, plaintext: u64, public_key: &Pubkey) -> Vec<u8>;

    /// A ciphertext of the sum of what `a` and `b` encrypt.
    fn add(&self, a: &Vec<u8>, b: &Vec<u8>) -> Vec<u8>;

    /// A ciphertext of what `a` encrypts less what `b` encrypts.
    fn sub(&self, a: &Vec<u8>, b: &Vec<u8>) -> Vec<u8>;
}

/// The proof system: whether `proof` shows `statement`, for a statement of
/// the given kind.
pub trait ProofVerifier {
    fn verify(&self, kind: ProofKind, proof: &Vec<u8>, statement: &Vec<u8>) -> bool;
}

/// What the sender of a confidential transfer submits: the amount in the
/// forms in which it is taken out, put in and audited, and the proof that
/// the forms agree.
#[derive(Clone, Debug, PartialEq, Eq)]
pub struct TransferProof {
    /// The amount under the source's key: what leaves the source's
    /// available balance.
    pub debit: Vec<u8>,
    /// The low sixteen bits of the amount under the destination's key.
    pub credit_lo: Vec<u8>,
    /// The high forty-eight bits of the amount under the destination's key.
    pub credit_hi: Vec<u8>,
    /// The amount under the auditor's key; empty where the sender gives
    /// none.
    pub auditor_ciphertext: Vec<u8>,
    /// The proof itself.
    pub proof: Vec<u8>,
}

/// The encoding of zero.
pub fn zero_ciphertext() -> (zero: Vec<u8>)
    ensures
        zero@ == Seq::<u8>::empty(),
{
    Vec::new()
}

/// Whether `ciphertext` is the encoding of zero.
pub fn is_zero_ciphertext(ciphertext: &Vec<u8>) -> (zero: bool)
    ensures
        zero == (ciphertext@.len() == 0),
{
    ciphertext.is_empty()
}

} // verus!
