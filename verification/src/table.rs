//! The event tables of the two standards: from selector to shape of event,
//! and from shape to typed fields.

use vstd::prelude::*;
use vstd::pervasive::unreached;
use vstd::utf8::is_ascii_chars;
use crate::cairo::{
    byte_array_at, byte_array_field, read_address, read_bool, read_felt, read_u256,
    u256_array_at, u256_array_field, u256_at, u256_of,
};
use crate::decimal::U256;
use crate::event::{
    Approval, ApprovalForAll, ContractAddress, DecodeError, DecodedEvent, EventKind, EventModel, RoleAdminChange,
    RoleChange, Standard, Transfer, TransferBatch, TransferBatchModel, TransferSingle, Uri,
    UriModel,
};
use crate::felt::FieldElement;
use crate::selector::{selector_from_name, selector_of};

verus! {

/// One line of an event table: a selector and the shape that it announces.
#[derive(Clone, Copy, Debug, PartialEq, Eq)]
pub struct Descriptor {
    pub selector: FieldElement,
    pub kind: EventKind,
}

/// The event table of one standard. Where a selector occurs twice, the first
/// line counts.
#[derive(Clone, Debug, PartialEq, Eq)]
pub struct DescriptorTable {
    pub standard: Standard,
    pub entries: Vec<Descriptor>,
}

/// The lines of a table as pairs of selector bytes and shape.
pub open spec fn entries_model(entries: Seq<Descriptor>) -> Seq<(Seq<u8>, EventKind)> {
    Seq::new(entries.len(), |i: int| (entries[i].selector@, entries[i].kind))
}

/// The lines that a list of event names stands for.
pub open spec fn named_entries(names: Seq<(Seq<char>, EventKind)>) -> Seq<(Seq<u8>, EventKind)> {
    Seq::new(names.len(), |i: int| (selector_of(names[i].0), names[i].1))
}

/// The events of the non-fungible token standard, with those of its access
/// control.
pub open spec fn erc721_names() -> Seq<(Seq<char>, EventKind)> {
    seq![
        ("Transfer"@, EventKind::Transfer),
        ("Approval"@, EventKind::Approval),
        ("ApprovalForAll"@, EventKind::ApprovalForAll),
        ("RoleGranted"@, EventKind::RoleGranted),
        ("RoleRevoked"@, EventKind::RoleRevoked),
        ("RoleAdminChanged"@, EventKind::RoleAdminChanged),
    ]
}

/// The events of the multi-token standard, with those of its access control.
pub open spec fn erc1155_names() -> Seq<(Seq<char>, EventKind)> {
    seq![
        ("TransferSingle"@, EventKind::TransferSingle),
        ("TransferBatch"@, EventKind::TransferBatch),
        ("ApprovalForAll"@, EventKind::ApprovalForAll),
        ("URI"@, EventKind::Uri),
        ("RoleGranted"@, EventKind::RoleGranted),
        ("RoleRevoked"@, EventKind::RoleRevoked),
        ("RoleAdminChanged"@, EventKind::RoleAdminChanged),
    ]
}

/// The shape of the first line with the given selector.
pub open spec fn lookup(entries: Seq<(Seq<u8>, EventKind)>, selector: Seq<u8>) -> Option<EventKind>
    decreases entries.len(),
{
    if entries.len() == 0 {
        None
    } else if entries[0].0 == selector {
        Some(entries[0].1)
    } else {
        lookup(entries.drop_first(), selector)
    }
}

/// The typed fields of an event of the given shape. Keyed fields follow the
/// selector in `keys`; the others fill `data` from its start. Elements after
/// the last field are ignored.
pub open spec fn decode_fields(
    kind: EventKind,
    keys: Seq<FieldElement>,
    data: Seq<FieldElement>,
) -> Result<EventModel, DecodeError> {
    match kind {
        EventKind::Transfer => if keys.len() >= 5 {
            Ok(
                EventModel::Transfer(
                    Transfer {
                        from: ContractAddress(keys[1]),
                        to: ContractAddress(keys[2]),
                        token_id: u256_of(keys[3], keys[4]),
                    },
                ),
            )
        } else {
            Err(DecodeError::Truncated)
        },
        EventKind::Approval => if keys.len() >= 5 {
            Ok(
                EventModel::Approval(
                    Approval {
                        owner: ContractAddress(keys[1]),
                        approved: ContractAddress(keys[2]),
                        token_id: u256_of(keys[3], keys[4]),
                    },
                ),
            )
        } else {
            Err(DecodeError::Truncated)
        },
        EventKind::ApprovalForAll => if keys.len() >= 3 && data.len() >= 1 {
            Ok(
                EventModel::ApprovalForAll(
                    ApprovalForAll {
                        owner: ContractAddress(keys[1]),
                        operator: ContractAddress(keys[2]),
                        approved: data[0].value() == 1,
                    },
                ),
            )
        } else {
            Err(DecodeError::Truncated)
        },
        EventKind::TransferSingle => if keys.len() >= 4 && data.len() >= 4 {
            Ok(
                EventModel::TransferSingle(
                    TransferSingle {
                        operator: ContractAddress(keys[1]),
                        from: ContractAddress(keys[2]),
                        to: ContractAddress(keys[3]),
                        id: u256_of(data[0], data[1]),
                        value: u256_of(data[2], data[3]),
                    },
                ),
            )
        } else {
            Err(DecodeError::Truncated)
        },
        EventKind::TransferBatch => if keys.len() < 4 {
            Err(DecodeError::Truncated)
        } else {
            match u256_array_at(data, 0) {
                Err(e) => Err(e),
                Ok(ids) => match u256_array_at(data, 1 + 2 * (ids.len() as int)) {
                    Err(e) => Err(e),
                    Ok(values) => Ok(
                        EventModel::TransferBatch(
                            TransferBatchModel {
                                operator: ContractAddress(keys[1]),
                                from: ContractAddress(keys[2]),
                                to: ContractAddress(keys[3]),
                                ids,
                                values,
                            },
                        ),
                    ),
                },
            }
        },
        EventKind::Uri => match byte_array_at(data, 0) {
            Err(e) => Err(e),
            Ok(value) => match u256_at(keys, 1) {
                Err(e) => Err(e),
                Ok(id) => Ok(EventModel::Uri(UriModel { value, id })),
            },
        },
        EventKind::RoleGranted => if data.len() >= 3 {
            Ok(
                EventModel::RoleGranted(
                    RoleChange {
                        role: data[0],
                        account: ContractAddress(data[1]),
                        sender: ContractAddress(data[2]),
                    },
                ),
            )
        } else {
            Err(DecodeError::Truncated)
        },
        EventKind::RoleRevoked => if data.len() >= 3 {
            Ok(
                EventModel::RoleRevoked(
                    RoleChange {
                        role: data[0],
                        account: ContractAddress(data[1]),
                        sender: ContractAddress(data[2]),
                    },
                ),
            )
        } else {
            Err(DecodeError::Truncated)
        },
        EventKind::RoleAdminChanged => if data.len() >= 3 {
            Ok(
                EventModel::RoleAdminChanged(
                    RoleAdminChange {
                        role: data[0],
                        previous_admin_role: data[1],
                        new_admin_role: data[2],
                    },
                ),
            )
        } else {
            Err(DecodeError::Truncated)
        },
    }
}

/// What a table makes of an event: the fields of the shape that the first key
/// selects.
pub open spec fn table_decode(
    entries: Seq<(Seq<u8>, EventKind)>,
    keys: Seq<FieldElement>,
    data: Seq<FieldElement>,
) -> Result<EventModel, DecodeError> {
    if keys.len() == 0 {
        Err(DecodeError::NoKeys)
    } else {
        match lookup(entries, keys[0]@) {
            None => Err(DecodeError::UnknownSelector),
            Some(kind) => decode_fields(kind, keys, data),
        }
    }
}

/// The model of what a decoder returned.
pub open spec fn decoded_model(r: Result<DecodedEvent, DecodeError>) -> Result<
    EventModel,
    DecodeError,
> {
    match r {
        Ok(event) => Ok(event@),
        Err(e) => Err(e),
    }
}

/// Decodes the fields of an event of the given shape.
pub fn decode_kind(kind: EventKind, keys: &Vec<FieldElement>, data: &Vec<FieldElement>) -> (r:
    Result<DecodedEvent, DecodeError>)
    ensures
        decoded_model(r) == decode_fields(kind, keys@, data@),
{
    match kind {
        EventKind::Transfer => {
            let from = read_address(keys, 1)?;
            let to = read_address(keys, 2)?;
            let token_id = read_u256(keys, 3)?;
            Ok(DecodedEvent::Transfer(Transfer { from, to, token_id }))
        },
        EventKind::Approval => {
            let owner = read_address(keys, 1)?;
            let approved = read_address(keys, 2)?;
            let token_id = read_u256(keys, 3)?;
            Ok(DecodedEvent::Approval(Approval { owner, approved, token_id }))
        },
        EventKind::ApprovalForAll => {
            let owner = read_address(keys, 1)?;
            let operator = read_address(keys, 2)?;
            let approved = read_bool(data, 0)?;
            Ok(DecodedEvent::ApprovalForAll(ApprovalForAll { owner, operator, approved }))
        },
        EventKind::TransferSingle => {
            let operator = read_address(keys, 1)?;
            let from = read_address(keys, 2)?;
            let to = read_address(keys, 3)?;
            let id = read_u256(data, 0)?;
            let value = read_u256(data, 2)?;
            Ok(DecodedEvent::TransferSingle(TransferSingle { operator, from, to, id, value }))
        },
        EventKind::TransferBatch => {
            let operator = read_address(keys, 1)?;
            let from = read_address(keys, 2)?;
            let to = read_address(keys, 3)?;
            let ids = u256_array_field(data, 0)?;
            assert(ids@.len() == data@[0].value() && 2 * ids.len() < data.len() <= usize::MAX) by {
                assert(u256_array_at(data@, 0) == Ok::<Seq<U256>, DecodeError>(ids@));
            }
            let values = u256_array_field(data, 1 + 2 * ids.len())?;
            Ok(DecodedEvent::TransferBatch(TransferBatch { operator, from, to, ids, values }))
        },
        EventKind::Uri => {
            let value = byte_array_field(data, 0)?;
            let id = read_u256(keys, 1)?;
            Ok(DecodedEvent::Uri(Uri { value, id }))
        },
        EventKind::RoleGranted => {
            let role = read_felt(data, 0)?;
            let account = read_address(data, 1)?;
            let sender = read_address(data, 2)?;
            Ok(DecodedEvent::RoleGranted(RoleChange { role, account, sender }))
        },
        EventKind::RoleRevoked => {
            let role = read_felt(data, 0)?;
            let account = read_address(data, 1)?;
            let sender = read_address(data, 2)?;
            Ok(DecodedEvent::RoleRevoked(RoleChange { role, account, sender }))
        },
        EventKind::RoleAdminChanged => {
            let role = read_felt(data, 0)?;
            let previous_admin_role = read_felt(data, 1)?;
            let new_admin_role = read_felt(data, 2)?;
            Ok(
                DecodedEvent::RoleAdminChanged(
                    RoleAdminChange { role, previous_admin_role, new_admin_role },
                ),
            )
        },
    }
}

/// One line of a table: the selector of an event name, and the shape.
fn descriptor(name: &str, kind: EventKind) -> (line: Descriptor)
    requires
        is_ascii_chars(name@),
    ensures
        line.selector@ == selector_of(name@),
        line.kind == kind,
{
    match selector_from_name(name) {
        Some(selector) => Descriptor { selector, kind },
        None => unreached(),
    }
}

impl View for DescriptorTable {
    type V = Seq<(Seq<u8>, EventKind)>;

    open spec fn view(&self) -> Seq<(Seq<u8>, EventKind)> {
        entries_model(self.entries@)
    }
}

impl DescriptorTable {
    /// The table of the non-fungible token standard.
    pub fn erc721() -> (table: DescriptorTable)
        ensures
            table.standard == Standard::Erc721,
            table@ == named_entries(erc721_names()),
    {
        proof {
            reveal_strlit("Transfer");
            reveal_strlit("Approval");
            reveal_strlit("ApprovalForAll");
            reveal_strlit("RoleGranted");
            reveal_strlit("RoleRevoked");
            reveal_strlit("RoleAdminChanged");
        }
        let mut entries: Vec<Descriptor> = Vec::new();
        entries.push(descriptor("Transfer", EventKind::Transfer));
        entries.push(descriptor("Approval", EventKind::Approval));
        entries.push(descriptor("ApprovalForAll", EventKind::ApprovalForAll));
        entries.push(descriptor("RoleGranted", EventKind::RoleGranted));
        entries.push(descriptor("RoleRevoked", EventKind::RoleRevoked));
        entries.push(descriptor("RoleAdminChanged", EventKind::RoleAdminChanged));
        assert(entries_model(entries@) =~= named_entries(erc721_names()));
        DescriptorTable { standard: Standard::Erc721, entries }
    }

    /// The table of the multi-token standard.
    pub fn erc1155() -> (table: DescriptorTable)
        ensures
            table.standard == Standard::Erc1155,
            table@ == named_entries(erc1155_names()),
    {
        proof {
            reveal_strlit("TransferSingle");
            reveal_strlit("TransferBatch");
            reveal_strlit("ApprovalForAll");
            reveal_strlit("URI");
            reveal_strlit("RoleGranted");
            reveal_strlit("RoleRevoked");
            reveal_strlit("RoleAdminChanged");
        }
        let mut entries: Vec<Descriptor> = Vec::new();
        entries.push(descriptor("TransferSingle", EventKind::TransferSingle));
        entries.push(descriptor("TransferBatch", EventKind::TransferBatch));
        entries.push(descriptor("ApprovalForAll", EventKind::ApprovalForAll));
        entries.push(descriptor("URI", EventKind::Uri));
        entries.push(descriptor("RoleGranted", EventKind::RoleGranted));
        entries.push(descriptor("RoleRevoked", EventKind::RoleRevoked));
        entries.push(descriptor("RoleAdminChanged", EventKind::RoleAdminChanged));
        assert(entries_model(entries@) =~= named_entries(erc1155_names()));
        DescriptorTable { standard: Standard::Erc1155, entries }
    }

    /// The shape that the table gives for a selector, if it has a line for it.
    pub fn find(&self, selector: &FieldElement) -> (kind: Option<EventKind>)
        ensures
            kind == lookup(self@, selector@),
    {
        let mut i: usize = 0;
        assert(self@.skip(0) =~= self@);
        while i < self.entries.len()
            invariant
                i <= self.entries.len(),
                lookup(self@, selector@) == lookup(self@.skip(i as int), selector@),
            decreases self.entries.len() - i,
        {
            let ghost rest = self@.skip(i as int);
            assert(rest[0] == self@[i as int]);
            assert(rest.drop_first() =~= self@.skip(i + 1));
            if self.entries[i].selector.same(selector) {
                return Some(self.entries[i].kind);
            }
            i += 1;
        }
        assert(self@.skip(i as int).len() == 0);
        None
    }

    /// Decodes an event against the table: the first key selects the shape,
    /// and only that shape is tried.
    pub fn decode(&self, keys: &Vec<FieldElement>, data: &Vec<FieldElement>) -> (r: Result<
        DecodedEvent,
        DecodeError,
    >)
        ensures
            decoded_model(r) == table_decode(self@, keys@, data@),
    {
        if keys.len() == 0 {
            return Err(DecodeError::NoKeys);
        }
        match self.find(&keys[0]) {
            None => Err(DecodeError::UnknownSelector),
            Some(kind) => decode_kind(kind, keys, data),
        }
    }
}

} // verus!
