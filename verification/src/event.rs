//! Raw events and the typed events that the two token standards declare.

use vstd::prelude::*;
use crate::decimal::U256;
use crate::felt::FieldElement;

verus! {

/// A field element that names a contract.
#[derive(Clone, Copy, Debug, PartialEq, Eq)]
pub struct ContractAddress(pub FieldElement);

/// An event as a receipt carries it, its fields decoded into field elements.
/// The first key is the selector of the event.
#[derive(Clone, Debug, PartialEq, Eq)]
pub struct RawEvent {
    pub from_address: FieldElement,
    pub keys: Vec<FieldElement>,
    pub data: Vec<FieldElement>,
}

/// The two token standards whose events are recognised, in order of priority.
#[derive(Clone, Copy, Debug, PartialEq, Eq, Structural)]
pub enum Standard {
    /// Non-fungible tokens: one owner for each token id.
    Erc721,
    /// Multi-tokens: balances for each token id.
    Erc1155,
}

/// Why the fields of an event could not be decoded.
#[derive(Clone, Copy, Debug, PartialEq, Eq, Structural)]
pub enum DecodeError {
    /// The event has no key, so no selector.
    NoKeys,
    /// The selector is none of the table's.
    UnknownSelector,
    /// The keys or the data end before the last field of the event.
    Truncated,
    /// A word of a byte array does not fit in 31 bytes.
    OutOfRange,
}

/// The shapes of event that the tables know. Keyed fields follow the selector
/// in the keys of an event, in the order given; the other fields fill its
/// data.
#[derive(Clone, Copy, Debug, PartialEq, Eq, Structural)]
pub enum EventKind {
    /// Keys: `from`, `to`, `token_id`.
    Transfer,
    /// Keys: `owner`, `approved`, `token_id`.
    Approval,
    /// Keys: `owner`, `operator`. Data: `approved`.
    ApprovalForAll,
    /// Keys: `operator`, `from`, `to`. Data: `id`, `value`.
    TransferSingle,
    /// Keys: `operator`, `from`, `to`. Data: `ids`, `values`.
    TransferBatch,
    /// Keys: `id`. Data: `value`, which is read first.
    Uri,
    /// Data: `role`, `account`, `sender`.
    RoleGranted,
    /// Data: `role`, `account`, `sender`.
    RoleRevoked,
    /// Data: `role`, `previous_admin_role`, `new_admin_role`.
    RoleAdminChanged,
}

/// A token changed owner.
#[derive(Clone, Copy, Debug, PartialEq, Eq)]
pub struct Transfer {
    pub from: ContractAddress,
    pub to: ContractAddress,
    pub token_id: U256,
}

/// An account was approved to move one token.
#[derive(Clone, Copy, Debug, PartialEq, Eq)]
pub struct Approval {
    pub owner: ContractAddress,
    pub approved: ContractAddress,
    pub token_id: U256,
}

/// An operator was approved, or no longer is, for all tokens of an owner.
#[derive(Clone, Copy, Debug, PartialEq, Eq)]
pub struct ApprovalForAll {
    pub owner: ContractAddress,
    pub operator: ContractAddress,
    pub approved: bool,
}

/// An amount of one token id moved between two accounts.
#[derive(Clone, Copy, Debug, PartialEq, Eq)]
pub struct TransferSingle {
    pub operator: ContractAddress,
    pub from: ContractAddress,
    pub to: ContractAddress,
    pub id: U256,
    pub value: U256,
}

/// Amounts of several token ids moved between two accounts.
#[derive(Clone, Debug, PartialEq, Eq)]
pub struct TransferBatch {
    pub operator: ContractAddress,
    pub from: ContractAddress,
    pub to: ContractAddress,
    pub ids: Vec<U256>,
    pub values: Vec<U256>,
}

/// Text packed into words of 31 bytes, with a shorter last word.
#[derive(Clone, Debug, PartialEq, Eq)]
pub struct ByteArray {
    pub data: Vec<FieldElement>,
    pub pending_word: FieldElement,
    pub pending_word_len: u32,
}

/// The metadata address of a token id changed.
#[derive(Clone, Debug, PartialEq, Eq)]
pub struct Uri {
    pub value: ByteArray,
    pub id: U256,
}

/// A role was granted to, or revoked from, an account.
#[derive(Clone, Copy, Debug, PartialEq, Eq)]
pub struct RoleChange {
    pub role: FieldElement,
    pub account: ContractAddress,
    pub sender: ContractAddress,
}

/// The role that administers a role changed.
#[derive(Clone, Copy, Debug, PartialEq, Eq)]
pub struct RoleAdminChange {
    pub role: FieldElement,
    pub previous_admin_role: FieldElement,
    pub new_admin_role: FieldElement,
}

/// An event with its fields decoded by type.
#[derive(Clone, Debug, PartialEq, Eq)]
pub enum DecodedEvent {
    Transfer(Transfer),
    Approval(Approval),
    ApprovalForAll(ApprovalForAll),
    TransferSingle(TransferSingle),
    TransferBatch(TransferBatch),
    Uri(Uri),
    RoleGranted(RoleChange),
    RoleRevoked(RoleChange),
    RoleAdminChanged(RoleAdminChange),
}

/// What a `TransferBatch` holds, its lists as sequences.
pub struct TransferBatchModel {
    pub operator: ContractAddress,
    pub from: ContractAddress,
    pub to: ContractAddress,
    pub ids: Seq<U256>,
    pub values: Seq<U256>,
}

/// What a `ByteArray` holds, its words as a sequence.
pub struct ByteArrayModel {
    pub data: Seq<FieldElement>,
    pub pending_word: FieldElement,
    pub pending_word_len: u32,
}

/// What a `Uri` holds.
pub struct UriModel {
    pub value: ByteArrayModel,
    pub id: U256,
}

/// What a `DecodedEvent` holds.
pub enum EventModel {
    Transfer(Transfer),
    Approval(Approval),
    ApprovalForAll(ApprovalForAll),
    TransferSingle(TransferSingle),
    TransferBatch(TransferBatchModel),
    Uri(UriModel),
    RoleGranted(RoleChange),
    RoleRevoked(RoleChange),
    RoleAdminChanged(RoleAdminChange),
}

impl View for TransferBatch {
    type V = TransferBatchModel;

    open spec fn view(&self) -> TransferBatchModel {
        TransferBatchModel {
            operator: self.operator,
            from: self.from,
            to: self.to,
            ids: self.ids@,
            values: self.values@,
        }
    }
}

impl View for ByteArray {
    type V = ByteArrayModel;

    open spec fn view(&self) -> ByteArrayModel {
        ByteArrayModel {
            data: self.data@,
            pending_word: self.pending_word,
            pending_word_len: self.pending_word_len,
        }
    }
}

impl View for Uri {
    type V = UriModel;

    open spec fn view(&self) -> UriModel {
        UriModel { value: self.value@, id: self.id }
    }
}

impl View for DecodedEvent {
    type V = EventModel;

    open spec fn view(&self) -> EventModel {
        match *self {
            DecodedEvent::Transfer(e) => EventModel::Transfer(e),
            DecodedEvent::Approval(e) => EventModel::Approval(e),
            DecodedEvent::ApprovalForAll(e) => EventModel::ApprovalForAll(e),
            DecodedEvent::TransferSingle(e) => EventModel::TransferSingle(e),
            DecodedEvent::TransferBatch(e) => EventModel::TransferBatch(e@),
            DecodedEvent::Uri(e) => EventModel::Uri(e@),
            DecodedEvent::RoleGranted(e) => EventModel::RoleGranted(e),
            DecodedEvent::RoleRevoked(e) => EventModel::RoleRevoked(e),
            DecodedEvent::RoleAdminChanged(e) => EventModel::RoleAdminChanged(e),
        }
    }
}

impl EventModel {
    /// The shape of the event.
    pub open spec fn kind(self) -> EventKind {
        match self {
            EventModel::Transfer(_) => EventKind::Transfer,
            EventModel::Approval(_) => EventKind::Approval,
            EventModel::ApprovalForAll(_) => EventKind::ApprovalForAll,
            EventModel::TransferSingle(_) => EventKind::TransferSingle,
            EventModel::TransferBatch(_) => EventKind::TransferBatch,
            EventModel::Uri(_) => EventKind::Uri,
            EventModel::RoleGranted(_) => EventKind::RoleGranted,
            EventModel::RoleRevoked(_) => EventKind::RoleRevoked,
            EventModel::RoleAdminChanged(_) => EventKind::RoleAdminChanged,
        }
    }
}

} // verus!
