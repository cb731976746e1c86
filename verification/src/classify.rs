//! Classifying a raw event: the first table that decodes it wins.

use vstd::prelude::*;
use crate::cairo::u256_of;
use crate::event::{
    ContractAddress, DecodedEvent, EventKind, EventModel, RawEvent, Standard, Transfer,
};
use crate::felt::FieldElement;
use crate::selector::selector_of;
use crate::table::{
    erc1155_names, erc721_names, lookup, named_entries, table_decode, DescriptorTable,
};

verus! {

/// What two tables make of an event, the first table before the second: the
/// standard and the fields of the first successful decoding, or no match.
pub open spec fn classify_model(
    first_standard: Standard,
    first: Seq<(Seq<u8>, EventKind)>,
    second_standard: Standard,
    second: Seq<(Seq<u8>, EventKind)>,
    keys: Seq<FieldElement>,
    data: Seq<FieldElement>,
) -> Option<(Standard, EventModel)> {
    match table_decode(first, keys, data) {
        Ok(event) => Some((first_standard, event)),
        Err(_) => match table_decode(second, keys, data) {
            Ok(event) => Some((second_standard, event)),
            Err(_) => None,
        },
    }
}

/// What the two standards make of an event: the non-fungible standard is
/// tried first, the multi-token standard second.
pub open spec fn classify_spec(keys: Seq<FieldElement>, data: Seq<FieldElement>) -> Option<
    (Standard, EventModel),
> {
    classify_model(
        Standard::Erc721,
        named_entries(erc721_names()),
        Standard::Erc1155,
        named_entries(erc1155_names()),
        keys,
        data,
    )
}

/// The model of what a classification returned.
pub open spec fn classified_model(r: Option<(Standard, DecodedEvent)>) -> Option<
    (Standard, EventModel),
> {
    match r {
        Some((standard, event)) => Some((standard, event@)),
        None => None,
    }
}

/// Classifies an event against two tables in order. An event that neither
/// table decodes is no match; that is no error.
pub fn classify_with(first: &DescriptorTable, second: &DescriptorTable, event: &RawEvent) -> (r:
    Option<(Standard, DecodedEvent)>)
    ensures
        classified_model(r) == classify_model(
            first.standard,
            first@,
            second.standard,
            second@,
            event.keys@,
            event.data@,
        ),
{
    match first.decode(&event.keys, &event.data) {
        Ok(decoded) => Some((first.standard, decoded)),
        Err(_) => match second.decode(&event.keys, &event.data) {
            Ok(decoded) => Some((second.standard, decoded)),
            Err(_) => None,
        },
    }
}

/// The tables of the two standards, built once and used for every event.
#[derive(Debug)]
pub struct Classifier {
    erc721: DescriptorTable,
    erc1155: DescriptorTable,
}

impl View for Classifier {
    type V = (Seq<(Seq<u8>, EventKind)>, Seq<(Seq<u8>, EventKind)>);

    closed spec fn view(&self) -> (Seq<(Seq<u8>, EventKind)>, Seq<(Seq<u8>, EventKind)>) {
        (self.erc721@, self.erc1155@)
    }
}

impl Classifier {
    #[verifier::type_invariant]
    spec fn holds_standard_tables(self) -> bool {
        &&& self.erc721.standard == Standard::Erc721
        &&& self.erc721@ == named_entries(erc721_names())
        &&& self.erc1155.standard == Standard::Erc1155
        &&& self.erc1155@ == named_entries(erc1155_names())
    }

    /// Builds the tables of the two standards.
    pub fn new() -> (classifier: Classifier)
        ensures
            classifier@ == (named_entries(erc721_names()), named_entries(erc1155_names())),
    {
        Classifier { erc721: DescriptorTable::erc721(), erc1155: DescriptorTable::erc1155() }
    }

    /// Classifies an event against the tables of the two standards.
    pub fn classify(&self, event: &RawEvent) -> (r: Option<(Standard, DecodedEvent)>)
        ensures
            classified_model(r) == classify_spec(event.keys@, event.data@),
            event.keys@.len() == 0 ==> r is None,
    {
        proof {
            use_type_invariant(self);
        }
        classify_with(&self.erc721, &self.erc1155, event)
    }
}

/// Classifies an event against the tables of the two standards.
pub fn classify(event: &RawEvent) -> (r: Option<(Standard, DecodedEvent)>)
    ensures
        classified_model(r) == classify_spec(event.keys@, event.data@),
        event.keys@.len() == 0 ==> r is None,
{
    Classifier::new().classify(event)
}

/// An event without keys matches nothing, whatever the tables hold.
pub proof fn law_no_keys_no_match(
    first_standard: Standard,
    first: Seq<(Seq<u8>, EventKind)>,
    second_standard: Standard,
    second: Seq<(Seq<u8>, EventKind)>,
    keys: Seq<FieldElement>,
    data: Seq<FieldElement>,
)
    requires
        keys.len() == 0,
    ensures
        classify_model(first_standard, first, second_standard, second, keys, data) is None,
        classify_spec(keys, data) is None,
{
}

/// An event whose first key is the selector of `Transfer`, followed by the two
/// addresses and the two limbs of the token id, is a `Transfer` of the
/// non-fungible standard with exactly those fields, whatever the second table
/// holds and whatever follows in keys and data.
pub proof fn law_transfer_first(
    second_standard: Standard,
    second: Seq<(Seq<u8>, EventKind)>,
    keys: Seq<FieldElement>,
    data: Seq<FieldElement>,
)
    requires
        keys.len() >= 5,
        keys[0]@ == selector_of("Transfer"@),
    ensures
        classify_model(
            Standard::Erc721,
            named_entries(erc721_names()),
            second_standard,
            second,
            keys,
            data,
        ) == Some(
            (
                Standard::Erc721,
                EventModel::Transfer(
                    Transfer {
                        from: ContractAddress(keys[1]),
                        to: ContractAddress(keys[2]),
                        token_id: u256_of(keys[3], keys[4]),
                    },
                ),
            ),
        ),
{
    let table = named_entries(erc721_names());
    assert(table[0] == (selector_of("Transfer"@), EventKind::Transfer));
    assert(lookup(table, keys[0]@) == Some(EventKind::Transfer));
}

/// Where both tables decode an event, the reading of the first table is the
/// one returned.
pub proof fn law_first_table_wins(
    first_standard: Standard,
    first: Seq<(Seq<u8>, EventKind)>,
    second_standard: Standard,
    second: Seq<(Seq<u8>, EventKind)>,
    keys: Seq<FieldElement>,
    data: Seq<FieldElement>,
)
    requires
        table_decode(first, keys, data) is Ok,
    ensures
        classify_model(first_standard, first, second_standard, second, keys, data) == Some(
            (first_standard, table_decode(first, keys, data)->Ok_0),
        ),
{
}

} // verus!
