//! The operation taxonomy: the signed layer-2 transactions, the layer-1
//! priority requests, and the ten operation variants built on them.
use vstd::prelude::*;
use crate::encoding::{
    address_bytes, be_u128, be_u32, h256_bytes, push_address, push_h256, push_u128, push_u32,
    push_u8,
};
use crate::hashing::{sha256, sha256_of};
use crate::primitives::{AccountId, Address, TokenId, H256};

verus! {

pub const TX_TAG_WITHDRAW: u8 = 3;
pub const TX_TAG_CLOSE: u8 = 4;
pub const TX_TAG_TRANSFER: u8 = 5;
pub const TX_TAG_CHANGE_PUBKEY: u8 = 7;
pub const TX_TAG_MINT_NFT: u8 = 9;
pub const TX_TAG_WITHDRAW_NFT: u8 = 10;
pub const TX_TAG_SWAP: u8 = 11;
pub const ORDER_TAG: u8 = 111;

/// The signature that authorises a signed transaction: the signer's public
/// key and the two halves of the signature. Not part of the hashed payload.
#[derive(Clone, Copy, Debug, PartialEq, Eq, Structural)]
pub struct TxSignature {
    pub pub_key: H256,
    pub r: H256,
    pub s: H256,
}

#[derive(Clone, Copy, Debug, PartialEq, Eq, Structural)]
pub struct Transfer {
    pub account_id: AccountId,
    pub from: Address,
    pub to: Address,
    pub token: TokenId,
    pub amount: u128,
    pub fee: u128,
    pub nonce: u32,
    pub signature: TxSignature,
}

#[derive(Clone, Copy, Debug, PartialEq, Eq, Structural)]
pub struct Withdraw {
    pub account_id: AccountId,
    pub from: Address,
    pub to: Address,
    pub token: TokenId,
    pub amount: u128,
    pub fee: u128,
    pub nonce: u32,
    pub signature: TxSignature,
}

#[derive(Clone, Copy, Debug, PartialEq, Eq, Structural)]
pub struct MintNFT {
    pub creator_id: AccountId,
    pub creator_address: Address,
    pub content_hash: H256,
    pub recipient: Address,
    pub fee_token: TokenId,
    pub fee: u128,
    pub nonce: u32,
    pub signature: TxSignature,
}

#[derive(Clone, Copy, Debug, PartialEq, Eq, Structural)]
pub struct WithdrawNFT {
    pub account_id: AccountId,
    pub from: Address,
    pub to: Address,
    pub token: TokenId,
    pub fee_token: TokenId,
    pub fee: u128,
    pub nonce: u32,
    pub signature: TxSignature,
}

/// One side of a swap, signed by the account that trades.
#[derive(Clone, Copy, Debug, PartialEq, Eq, Structural)]
pub struct Order {
    pub account_id: AccountId,
    pub recipient: Address,
    pub nonce: u32,
    pub token_sell: TokenId,
    pub token_buy: TokenId,
    pub price_sell: u128,
    pub price_buy: u128,
    pub amount: u128,
    pub signature: TxSignature,
}

#[derive(Clone, Copy, Debug, PartialEq, Eq, Structural)]
pub struct Swap {
    pub submitter_id: AccountId,
    pub submitter_address: Address,
    pub nonce: u32,
    pub first_order: Order,
    pub second_order: Order,
    pub first_amount: u128,
    pub second_amount: u128,
    pub fee_token: TokenId,
    pub fee: u128,
    pub signature: TxSignature,
}

#[derive(Clone, Copy, Debug, PartialEq, Eq, Structural)]
pub struct Close {
    pub account: Address,
    pub nonce: u32,
    pub signature: TxSignature,
}

#[derive(Clone, Copy, Debug, PartialEq, Eq, Structural)]
pub struct ChangePubKey {
    pub account_id: AccountId,
    pub account: Address,
    /// Hash of the new signing key.
    pub new_pk_hash: H256,
    pub fee_token: TokenId,
    pub fee: u128,
    pub nonce: u32,
    pub signature: TxSignature,
}

/// The signed layer-2 form of an operation.
#[derive(Clone, Copy, Debug, PartialEq, Eq, Structural)]
pub enum SignedTx {
    Transfer(Transfer),
    Withdraw(Withdraw),
    MintNFT(MintNFT),
    WithdrawNFT(WithdrawNFT),
    Swap(Swap),
    Close(Close),
    ChangePubKey(ChangePubKey),
}

pub open spec fn transfer_bytes(t: Transfer) -> Seq<u8> {
    seq![TX_TAG_TRANSFER] + be_u32(t.account_id) + address_bytes(t.from) + address_bytes(t.to)
        + be_u32(t.token) + be_u128(t.amount) + be_u128(t.fee) + be_u32(t.nonce)
}

pub open spec fn withdraw_bytes(t: Withdraw) -> Seq<u8> {
    seq![TX_TAG_WITHDRAW] + be_u32(t.account_id) + address_bytes(t.from) + address_bytes(t.to)
        + be_u32(t.token) + be_u128(t.amount) + be_u128(t.fee) + be_u32(t.nonce)
}

pub open spec fn mint_nft_bytes(t: MintNFT) -> Seq<u8> {
    seq![TX_TAG_MINT_NFT] + be_u32(t.creator_id) + address_bytes(t.creator_address) + h256_bytes(
        t.content_hash,
    ) + address_bytes(t.recipient) + be_u32(t.fee_token) + be_u128(t.fee) + be_u32(t.nonce)
}

pub open spec fn withdraw_nft_bytes(t: WithdrawNFT) -> Seq<u8> {
    seq![TX_TAG_WITHDRAW_NFT] + be_u32(t.account_id) + address_bytes(t.from) + address_bytes(t.to)
        + be_u32(t.token) + be_u32(t.fee_token) + be_u128(t.fee) + be_u32(t.nonce)
}

pub open spec fn order_bytes(o: Order) -> Seq<u8> {
    seq![ORDER_TAG] + be_u32(o.account_id) + address_bytes(o.recipient) + be_u32(o.nonce) + be_u32(
        o.token_sell,
    ) + be_u32(o.token_buy) + be_u128(o.price_sell) + be_u128(o.price_buy) + be_u128(o.amount)
}

pub open spec fn swap_bytes(t: Swap) -> Seq<u8> {
    seq![TX_TAG_SWAP] + be_u32(t.submitter_id) + address_bytes(t.submitter_address) + be_u32(
        t.nonce,
    ) + order_bytes(t.first_order) + order_bytes(t.second_order) + be_u32(t.fee_token) + be_u128(t.fee)
        + be_u128(t.first_amount) + be_u128(t.second_amount)
}

pub open spec fn close_bytes(t: Close) -> Seq<u8> {
    seq![TX_TAG_CLOSE] + address_bytes(t.account) + be_u32(t.nonce)
}

pub open spec fn change_pubkey_bytes(t: ChangePubKey) -> Seq<u8> {
    seq![TX_TAG_CHANGE_PUBKEY] + be_u32(t.account_id) + address_bytes(t.account) + h256_bytes(
        t.new_pk_hash,
    ) + be_u32(t.fee_token) + be_u128(t.fee) + be_u32(t.nonce)
}

fn tagged(tag: u8) -> (r: Vec<u8>)
    ensures
        r@ == seq![tag],
{
    let mut out: Vec<u8> = Vec::new();
    out.push(tag);
    assert(out@ =~= seq![tag]);
    out
}

fn push_order(out: &mut Vec<u8>, o: &Order)
    ensures
        final(out)@ == old(out)@ + order_bytes(*o),
{
    push_u8(out, ORDER_TAG);
    push_u32(out, o.account_id);
    push_address(out, o.recipient);
    push_u32(out, o.nonce);
    push_u32(out, o.token_sell);
    push_u32(out, o.token_buy);
    push_u128(out, o.price_sell);
    push_u128(out, o.price_buy);
    push_u128(out, o.amount);
    assert(out@ =~= old(out)@ + order_bytes(*o));
}

impl SignedTx {
    /// The bytes that the signer signed and that the transaction hash is
    /// computed over: a type tag, then the fields in big-endian order.
    pub open spec fn payload_spec(self) -> Seq<u8> {
        match self {
            SignedTx::Transfer(t) => transfer_bytes(t),
            SignedTx::Withdraw(t) => withdraw_bytes(t),
            SignedTx::MintNFT(t) => mint_nft_bytes(t),
            SignedTx::WithdrawNFT(t) => withdraw_nft_bytes(t),
            SignedTx::Swap(t) => swap_bytes(t),
            SignedTx::Close(t) => close_bytes(t),
            SignedTx::ChangePubKey(t) => change_pubkey_bytes(t),
        }
    }

    pub fn payload_bytes(&self) -> (r: Vec<u8>)
        ensures
            r@ == self.payload_spec(),
    {
        match self {
            SignedTx::Transfer(t) => {
                let mut out = tagged(TX_TAG_TRANSFER);
                push_u32(&mut out, t.account_id);
                push_address(&mut out, t.from);
                push_address(&mut out, t.to);
                push_u32(&mut out, t.token);
                push_u128(&mut out, t.amount);
                push_u128(&mut out, t.fee);
                push_u32(&mut out, t.nonce);
                out
            },
            SignedTx::Withdraw(t) => {
                let mut out = tagged(TX_TAG_WITHDRAW);
                push_u32(&mut out, t.account_id);
                push_address(&mut out, t.from);
                push_address(&mut out, t.to);
                push_u32(&mut out, t.token);
                push_u128(&mut out, t.amount);
                push_u128(&mut out, t.fee);
                push_u32(&mut out, t.nonce);
                out
            },
            SignedTx::MintNFT(t) => {
                let mut out = tagged(TX_TAG_MINT_NFT);
                push_u32(&mut out, t.creator_id);
                push_address(&mut out, t.creator_address);
                push_h256(&mut out, t.content_hash);
                push_address(&mut out, t.recipient);
                push_u32(&mut out, t.fee_token);
                push_u128(&mut out, t.fee);
                push_u32(&mut out, t.nonce);
                out
            },
            SignedTx::WithdrawNFT(t) => {
                let mut out = tagged(TX_TAG_WITHDRAW_NFT);
                push_u32(&mut out, t.account_id);
                push_address(&mut out, t.from);
                push_address(&mut out, t.to);
                push_u32(&mut out, t.token);
                push_u32(&mut out, t.fee_token);
                push_u128(&mut out, t.fee);
                push_u32(&mut out, t.nonce);
                out
            },
            SignedTx::Swap(t) => {
                let mut out = tagged(TX_TAG_SWAP);
                push_u32(&mut out, t.submitter_id);
                push_address(&mut out, t.submitter_address);
                push_u32(&mut out, t.nonce);
                push_order(&mut out, &t.first_order);
                push_order(&mut out, &t.second_order);
                push_u32(&mut out, t.fee_token);
                push_u128(&mut out, t.fee);
                push_u128(&mut out, t.first_amount);
                push_u128(&mut out, t.second_amount);
                out
            },
            SignedTx::Close(t) => {
                let mut out = tagged(TX_TAG_CLOSE);
                push_address(&mut out, t.account);
                push_u32(&mut out, t.nonce);
                out
            },
            SignedTx::ChangePubKey(t) => {
                let mut out = tagged(TX_TAG_CHANGE_PUBKEY);
                push_u32(&mut out, t.account_id);
                push_address(&mut out, t.account);
                push_h256(&mut out, t.new_pk_hash);
                push_u32(&mut out, t.fee_token);
                push_u128(&mut out, t.fee);
                push_u32(&mut out, t.nonce);
                out
            },
        }
    }

    /// The content-addressed transaction hash: the digest of the signed
    /// payload, so the same logical transaction always has the same hash.
    pub fn hash(&self) -> (r: Vec<u8>)
        ensures
            r@ == sha256_of(self.payload_spec()),
            r@.len() == 32,
    {
        let bytes = self.payload_bytes();
        sha256(&bytes)
    }
}

/// A deposit requested on layer 1: an amount of a token moves from a layer-1
/// address to the layer-2 account of `to`.
#[derive(Clone, Copy, Debug, PartialEq, Eq, Structural)]
pub struct Deposit {
    pub from: Address,
    pub to: Address,
    pub token: TokenId,
    pub amount: u128,
}

/// A forced exit requested on layer 1: the whole balance of one token leaves
/// the account.
#[derive(Clone, Copy, Debug, PartialEq, Eq, Structural)]
pub struct FullExit {
    pub account_id: AccountId,
    pub eth_address: Address,
    pub token: TokenId,
}

/// The layer-1 form of a priority-sourced operation.
#[derive(Clone, Copy, Debug, PartialEq, Eq, Structural)]
pub enum PriorityPayload {
    Deposit(Deposit),
    FullExit(FullExit),
}

/// Provenance of a non-fungible token: who minted it, and what it holds.
/// `nft_serial_id` numbers the mints of one creator; it is no priority serial id.
#[derive(Clone, Copy, Debug, PartialEq, Eq, Structural)]
pub struct NftProvenance {
    pub creator_account_id: AccountId,
    pub creator_address: Address,
    pub nft_serial_id: u32,
    pub content_hash: H256,
}

#[derive(Clone, Copy, Debug, PartialEq, Eq, Structural)]
pub struct DepositOp {
    pub priority_op: Deposit,
    /// The account credited, resolved or about to be created.
    pub account_id: AccountId,
}

#[derive(Clone, Copy, Debug, PartialEq, Eq, Structural)]
pub struct FullExitOp {
    pub priority_op: FullExit,
    /// The amount withdrawn; absent when the exit could not withdraw anything.
    pub withdraw_amount: Option<u128>,
    /// Set when the exited token is a non-fungible token.
    pub nft: Option<NftProvenance>,
}

#[derive(Clone, Copy, Debug, PartialEq, Eq, Structural)]
pub struct TransferOp {
    pub tx: Transfer,
    pub from: AccountId,
    pub to: AccountId,
}

#[derive(Clone, Copy, Debug, PartialEq, Eq, Structural)]
pub struct TransferToNewOp {
    pub tx: Transfer,
    pub from: AccountId,
    pub to: AccountId,
}

#[derive(Clone, Copy, Debug, PartialEq, Eq, Structural)]
pub struct WithdrawOp {
    pub tx: Withdraw,
    pub account_id: AccountId,
}

#[derive(Clone, Copy, Debug, PartialEq, Eq, Structural)]
pub struct MintNFTOp {
    pub tx: MintNFT,
    pub creator_account_id: AccountId,
    pub recipient_account_id: AccountId,
}

#[derive(Clone, Copy, Debug, PartialEq, Eq, Structural)]
pub struct WithdrawNFTOp {
    pub tx: WithdrawNFT,
    pub creator_id: AccountId,
    pub creator_address: Address,
    /// Distinguishes withdrawals of the same content; no priority serial id.
    pub nft_serial_id: u32,
    pub content_hash: H256,
}

/// A swap between two trading accounts, submitted by one of them or by a third
/// party; the recipients may differ from the trading accounts.
#[derive(Clone, Copy, Debug, PartialEq, Eq, Structural)]
pub struct SwapOp {
    pub tx: Swap,
    pub submitter: AccountId,
    pub first_account: AccountId,
    pub second_account: AccountId,
    pub first_recipient: AccountId,
    pub second_recipient: AccountId,
}

#[derive(Clone, Copy, Debug, PartialEq, Eq, Structural)]
pub struct CloseOp {
    pub tx: Close,
    pub account_id: AccountId,
}

#[derive(Clone, Copy, Debug, PartialEq, Eq, Structural)]
pub struct ChangePubKeyOp {
    pub tx: ChangePubKey,
    pub account_id: AccountId,
}

/// Every kind of state-changing action of the rollup.
#[derive(Clone, Copy, Debug, PartialEq, Eq, Structural)]
pub enum ZkSyncOp {
    Deposit(DepositOp),
    FullExit(FullExitOp),
    Transfer(TransferOp),
    TransferToNew(TransferToNewOp),
    Withdraw(WithdrawOp),
    MintNFT(MintNFTOp),
    WithdrawNFT(WithdrawNFTOp),
    Swap(SwapOp),
    Close(CloseOp),
    ChangePubKey(ChangePubKeyOp),
}

/// Why an operation was refused before it could enter the pending set.
#[derive(Clone, Copy, Debug, PartialEq, Eq, Structural)]
pub enum ValidationError {
    /// The account named by the operation is not the one that signed it.
    SignerMismatch,
    /// The two trading accounts of a swap are the same account.
    SwapAccountsNotDistinct,
    /// A priority operation was expected and the operation is a signed one.
    NotPriorityOperation,
    /// A signed transaction was expected and the operation is a priority one.
    NotSignedTransaction,
    /// The operation does not carry the layer-1 request it was paired with.
    PayloadMismatch,
}

impl ZkSyncOp {
    pub open spec fn priority_payload_spec(self) -> Option<PriorityPayload> {
        match self {
            ZkSyncOp::Deposit(op) => Some(PriorityPayload::Deposit(op.priority_op)),
            ZkSyncOp::FullExit(op) => Some(PriorityPayload::FullExit(op.priority_op)),
            _ => None,
        }
    }

    pub open spec fn signed_tx_spec(self) -> Option<SignedTx> {
        match self {
            ZkSyncOp::Deposit(_) => None,
            ZkSyncOp::FullExit(_) => None,
            ZkSyncOp::Transfer(op) => Some(SignedTx::Transfer(op.tx)),
            ZkSyncOp::TransferToNew(op) => Some(SignedTx::Transfer(op.tx)),
            ZkSyncOp::Withdraw(op) => Some(SignedTx::Withdraw(op.tx)),
            ZkSyncOp::MintNFT(op) => Some(SignedTx::MintNFT(op.tx)),
            ZkSyncOp::WithdrawNFT(op) => Some(SignedTx::WithdrawNFT(op.tx)),
            ZkSyncOp::Swap(op) => Some(SignedTx::Swap(op.tx)),
            ZkSyncOp::Close(op) => Some(SignedTx::Close(op.tx)),
            ZkSyncOp::ChangePubKey(op) => Some(SignedTx::ChangePubKey(op.tx)),
        }
    }

    /// Whether the fields of the operation agree with one another: the signer
    /// of a signed payload is the account that the operation names, and the
    /// two sides of a swap are distinct accounts.
    pub open spec fn validity(self) -> Result<(), ValidationError> {
        match self {
            ZkSyncOp::Transfer(op) => if op.tx.account_id != op.from {
                Err(ValidationError::SignerMismatch)
            } else {
                Ok(())
            },
            ZkSyncOp::TransferToNew(op) => if op.tx.account_id != op.from {
                Err(ValidationError::SignerMismatch)
            } else {
                Ok(())
            },
            ZkSyncOp::Withdraw(op) => if op.tx.account_id != op.account_id {
                Err(ValidationError::SignerMismatch)
            } else {
                Ok(())
            },
            ZkSyncOp::MintNFT(op) => if op.tx.creator_id != op.creator_account_id {
                Err(ValidationError::SignerMismatch)
            } else {
                Ok(())
            },
            ZkSyncOp::Swap(op) => if op.first_account == op.second_account {
                Err(ValidationError::SwapAccountsNotDistinct)
            } else if op.tx.first_order.account_id != op.first_account
                || op.tx.second_order.account_id != op.second_account || op.tx.submitter_id
                != op.submitter {
                Err(ValidationError::SignerMismatch)
            } else {
                Ok(())
            },
            ZkSyncOp::ChangePubKey(op) => if op.tx.account_id != op.account_id {
                Err(ValidationError::SignerMismatch)
            } else {
                Ok(())
            },
            _ => Ok(()),
        }
    }

    /// The layer-1 request this operation corresponds to, for the two
    /// priority-sourced variants.
    pub fn try_get_priority_op(&self) -> (r: Option<PriorityPayload>)
        ensures
            r == self.priority_payload_spec(),
    {
        match self {
            ZkSyncOp::Deposit(op) => Some(PriorityPayload::Deposit(op.priority_op)),
            ZkSyncOp::FullExit(op) => Some(PriorityPayload::FullExit(op.priority_op)),
            _ => None,
        }
    }

    /// The signed transaction this operation corresponds to, for every variant
    /// that is not priority-sourced.
    pub fn try_get_tx(&self) -> (r: Option<SignedTx>)
        ensures
            r == self.signed_tx_spec(),
    {
        match self {
            ZkSyncOp::Deposit(_) => None,
            ZkSyncOp::FullExit(_) => None,
            ZkSyncOp::Transfer(op) => Some(SignedTx::Transfer(op.tx)),
            ZkSyncOp::TransferToNew(op) => Some(SignedTx::Transfer(op.tx)),
            ZkSyncOp::Withdraw(op) => Some(SignedTx::Withdraw(op.tx)),
            ZkSyncOp::MintNFT(op) => Some(SignedTx::MintNFT(op.tx)),
            ZkSyncOp::WithdrawNFT(op) => Some(SignedTx::WithdrawNFT(op.tx)),
            ZkSyncOp::Swap(op) => Some(SignedTx::Swap(op.tx)),
            ZkSyncOp::Close(op) => Some(SignedTx::Close(op.tx)),
            ZkSyncOp::ChangePubKey(op) => Some(SignedTx::ChangePubKey(op.tx)),
        }
    }

    pub fn is_priority_op(&self) -> (r: bool)
        ensures
            r == self.priority_payload_spec().is_some(),
    {
        match self {
            ZkSyncOp::Deposit(_) => true,
            ZkSyncOp::FullExit(_) => true,
            _ => false,
        }
    }

    pub fn validate(&self) -> (r: Result<(), ValidationError>)
        ensures
            r == self.validity(),
    {
        match self {
            ZkSyncOp::Transfer(op) => if op.tx.account_id != op.from {
                Err(ValidationError::SignerMismatch)
            } else {
                Ok(())
            },
            ZkSyncOp::TransferToNew(op) => if op.tx.account_id != op.from {
                Err(ValidationError::SignerMismatch)
            } else {
                Ok(())
            },
            ZkSyncOp::Withdraw(op) => if op.tx.account_id != op.account_id {
                Err(ValidationError::SignerMismatch)
            } else {
                Ok(())
            },
            ZkSyncOp::MintNFT(op) => if op.tx.creator_id != op.creator_account_id {
                Err(ValidationError::SignerMismatch)
            } else {
                Ok(())
            },
            ZkSyncOp::Swap(op) => if op.first_account == op.second_account {
                Err(ValidationError::SwapAccountsNotDistinct)
            } else if op.tx.first_order.account_id != op.first_account
                || op.tx.second_order.account_id != op.second_account || op.tx.submitter_id
                != op.submitter {
                Err(ValidationError::SignerMismatch)
            } else {
                Ok(())
            },
            ZkSyncOp::ChangePubKey(op) => if op.tx.account_id != op.account_id {
                Err(ValidationError::SignerMismatch)
            } else {
                Ok(())
            },
            _ => Ok(()),
        }
    }

    /// Builds a signed operation, refusing it when its fields disagree or when
    /// it is a priority-sourced variant.
    pub fn new_signed(op: ZkSyncOp) -> (r: Result<ZkSyncOp, ValidationError>)
        ensures
            op.signed_tx_spec().is_none() ==> r == Err::<ZkSyncOp, ValidationError>(
                ValidationError::NotSignedTransaction,
            ),
            op.signed_tx_spec().is_some() ==> r == match op.validity() {
                Ok(_) => Ok(op),
                Err(e) => Err(e),
            },
    {
        if op.is_priority_op() {
            proof {
                op.lemma_exactly_one_form();
            }
            return Err(ValidationError::NotSignedTransaction);
        }
        proof {
            op.lemma_exactly_one_form();
        }
        match op.validate() {
            Ok(()) => Ok(op),
            Err(e) => Err(e),
        }
    }

    /// Every operation has exactly one of the two forms: the layer-1 request
    /// it corresponds to, or the signed transaction it corresponds to.
    pub proof fn lemma_exactly_one_form(self)
        ensures
            self.priority_payload_spec().is_some() != self.signed_tx_spec().is_some(),
    {
    }
}

} // verus!
