//! Ledger addresses as plain values.
use vstd::prelude::*;

verus! {

/// Thirty-two raw bytes, held as two big-endian halves.
#[derive(Clone, Copy, Debug, PartialEq, Eq, Hash, Structural)]
pub struct Bytes32 {
    pub hi: u128,
    pub lo: u128,
}

/// Whether an address names an account (an ed25519 public key) or a
/// contract (the hash of a contract instance).
#[derive(Clone, Copy, Debug, PartialEq, Eq, Hash, Structural)]
pub enum AddressKind {
    Account,
    Contract,
}

/// A ledger address: its kind and its 32-byte key.
#[derive(Clone, Copy, Debug, PartialEq, Eq, Hash, Structural)]
pub struct Address {
    pub kind: AddressKind,
    pub key: Bytes32,
}

impl Address {
    /// The account address whose key is `id`.
    pub fn account(id: u128) -> (a: Address)
        ensures
            a.kind == AddressKind::Account,
            a.key == (Bytes32 { hi: 0, lo: id }),
    {
        Address { kind: AddressKind::Account, key: Bytes32 { hi: 0, lo: id } }
    }

    /// The contract address whose key is `id`.
    pub fn contract(id: u128) -> (a: Address)
        ensures
            a.kind == AddressKind::Contract,
            a.key == (Bytes32 { hi: 0, lo: id }),
    {
        Address { kind: AddressKind::Contract, key: Bytes32 { hi: 0, lo: id } }
    }
}

} // verus!
