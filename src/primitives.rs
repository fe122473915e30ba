//! Scalar identities and fixed-size values shared by every part of the model.
use vstd::prelude::*;

verus! {

/// Dense account number, assigned once per layer-1 address.
pub type AccountId = u32;

/// Dense token number; the native asset has id 0.
pub type TokenId = u32;

/// Rollup block number.
pub type BlockNumber = u32;

/// Point in time, in microseconds since the Unix epoch (the precision that
/// storage keeps).
pub type Timestamp = i64;

/// A 32-byte value (layer-1 transaction hash, state root, content hash), as
/// four big-endian 64-bit words, the most significant first.
#[derive(Clone, Copy, Debug, PartialEq, Eq, Structural)]
pub struct H256(pub u64, pub u64, pub u64, pub u64);

impl H256 {
    /// The all-zero value.
    pub fn zero() -> (r: H256)
        ensures
            r == H256(0, 0, 0, 0),
    {
        H256(0, 0, 0, 0)
    }

    /// The value whose lowest 64 bits are `x` and whose other bits are zero.
    pub fn from_low_u64(x: u64) -> (r: H256)
        ensures
            r == H256(0, 0, 0, x),
    {
        H256(0, 0, 0, x)
    }
}

/// A 20-byte layer-1 address: the top four bytes, then the low sixteen.
#[derive(Clone, Copy, Debug, PartialEq, Eq, Structural)]
pub struct Address {
    pub hi: u32,
    pub lo: u128,
}

impl Address {
    /// The zero address, which stands for the native asset's contract.
    pub fn zero() -> (r: Address)
        ensures
            r == (Address { hi: 0, lo: 0 }),
    {
        Address { hi: 0, lo: 0 }
    }

    pub fn is_zero(&self) -> (r: bool)
        ensures
            r == (self.hi == 0 && self.lo == 0),
    {
        self.hi == 0 && self.lo == 0
    }
}

/// Whether a token is fungible or a non-fungible token.
#[derive(Clone, Copy, Debug, PartialEq, Eq, Structural)]
pub enum TokenKind {
    Fungible,
    NonFungible,
}

/// An asset that the ledger recognises. Immutable once assigned.
#[derive(Clone, Debug)]
pub struct Token {
    pub id: TokenId,
    pub address: Address,
    pub symbol: String,
    pub decimals: u8,
    pub kind: TokenKind,
}

impl Token {
    pub fn new(id: TokenId, address: Address, symbol: &str, decimals: u8, kind: TokenKind) -> (r:
        Token)
        ensures
            r.id == id,
            r.address == address,
            r.symbol@ == symbol@,
            r.decimals == decimals,
            r.kind == kind,
    {
        Token { id, address, symbol: symbol.to_string(), decimals, kind }
    }

    /// A non-fungible token: zero address and no decimals.
    pub fn new_nft(id: TokenId, symbol: &str) -> (r: Token)
        ensures
            r.id == id,
            r.address == (Address { hi: 0, lo: 0 }),
            r.symbol@ == symbol@,
            r.decimals == 0,
            r.kind == TokenKind::NonFungible,
    {
        Token { id, address: Address::zero(), symbol: symbol.to_string(), decimals: 0, kind: TokenKind::NonFungible }
    }
}

} // verus!
