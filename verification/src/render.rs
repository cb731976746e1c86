//! Rendering a decoded event into its output record.
//!
//! Only the three transfer events give a record. Addresses are rendered in
//! hexadecimal, token ids and amounts in decimal.

use vstd::prelude::*;
use vstd::string::StringExecFns;
use crate::decimal::{
    decimal_string, decimal_text, lemma_decimal_text_digits, lemma_decimal_text_injective,
    render_decimal, U256,
};
use crate::event::{DecodedEvent, EventModel, Transfer, TransferBatch, TransferBatchModel, TransferSingle};
use crate::felt::FieldElement;
use crate::hex::{
    hex_text, lemma_lower_hex_chars, lemma_lower_hex_injective, lower_hex, render_address,
    render_hex, render_transaction_hash,
};
use crate::json::{
    members_model, object_text, object_to_string, texts_model, well_formed_members, FieldValue,
    ValueModel,
};
use crate::text::{differ_at, is_plain, text_less};

verus! {

/// Where an event was found: the contract that emitted it, the hash of its
/// transaction, and its position among the events of the receipt, from zero.
#[derive(Clone, Copy, Debug, PartialEq, Eq)]
pub struct RenderContext {
    pub collection_address: FieldElement,
    pub transaction_hash: [u8; 32],
    pub event_index: usize,
}

/// What a `RenderContext` holds.
pub struct ContextModel {
    pub collection_address: FieldElement,
    pub transaction_hash: Seq<u8>,
    pub event_index: nat,
}

impl View for RenderContext {
    type V = ContextModel;

    open spec fn view(&self) -> ContextModel {
        ContextModel {
            collection_address: self.collection_address,
            transaction_hash: self.transaction_hash@,
            event_index: self.event_index as nat,
        }
    }
}

/// The id of a record: the hash of the transaction in hexadecimal, an
/// underscore, and the position of the event in decimal.
pub open spec fn id_text(hash: Seq<u8>, index: nat) -> Seq<char> {
    hex_text(hash) + seq!['_'] + decimal_text(index)
}

/// A member that holds one text.
pub open spec fn text_member(name: Seq<char>, text: Seq<char>) -> (Seq<char>, ValueModel) {
    (name, ValueModel::Text(text))
}

/// The decimal texts of a list of 256-bit integers.
pub open spec fn decimal_texts(items: Seq<U256>) -> Seq<Seq<char>> {
    Seq::new(items.len(), |i: int| decimal_text(items[i].value()))
}

/// The record of a `Transfer`.
pub open spec fn transfer_record(event: Transfer, context: ContextModel) -> Seq<
    (Seq<char>, ValueModel),
> {
    seq![
        text_member("collection_address"@, hex_text(context.collection_address@)),
        text_member("from"@, hex_text(event.from.0@)),
        text_member("id"@, id_text(context.transaction_hash, context.event_index)),
        text_member("to"@, hex_text(event.to.0@)),
        text_member("token_id"@, decimal_text(event.token_id.value())),
        text_member("transaction_hash"@, hex_text(context.transaction_hash)),
        text_member("type"@, "Transfer"@),
    ]
}

/// The record of a `TransferSingle`.
pub open spec fn transfer_single_record(event: TransferSingle, context: ContextModel) -> Seq<
    (Seq<char>, ValueModel),
> {
    seq![
        text_member("collection_address"@, hex_text(context.collection_address@)),
        text_member("from"@, hex_text(event.from.0@)),
        text_member("id"@, id_text(context.transaction_hash, context.event_index)),
        text_member("operator"@, hex_text(event.operator.0@)),
        text_member("to"@, hex_text(event.to.0@)),
        text_member("token_id"@, decimal_text(event.id.value())),
        text_member("transaction_hash"@, hex_text(context.transaction_hash)),
        text_member("type"@, "TransferSingle"@),
        text_member("value"@, decimal_text(event.value.value())),
    ]
}

/// The record of a `TransferBatch`.
pub open spec fn transfer_batch_record(event: TransferBatchModel, context: ContextModel) -> Seq<
    (Seq<char>, ValueModel),
> {
    seq![
        text_member("collection_address"@, hex_text(context.collection_address@)),
        text_member("from"@, hex_text(event.from.0@)),
        text_member("id"@, id_text(context.transaction_hash, context.event_index)),
        text_member("operator"@, hex_text(event.operator.0@)),
        text_member("to"@, hex_text(event.to.0@)),
        ("token_ids"@, ValueModel::List(decimal_texts(event.ids))),
        text_member("transaction_hash"@, hex_text(context.transaction_hash)),
        text_member("type"@, "TransferBatch"@),
        ("values"@, ValueModel::List(decimal_texts(event.values))),
    ]
}

/// The record that an event gives, if it gives one: a `Transfer`, a
/// `TransferSingle`, or a `TransferBatch` with as many amounts as token ids.
/// A batch whose two lists differ in length gives none, and so does every
/// other event.
pub open spec fn render_spec(event: EventModel, context: ContextModel) -> Option<
    Seq<(Seq<char>, ValueModel)>,
> {
    match event {
        EventModel::Transfer(e) => Some(transfer_record(e, context)),
        EventModel::TransferSingle(e) => Some(transfer_single_record(e, context)),
        EventModel::TransferBatch(e) => if e.ids.len() == e.values.len() {
            Some(transfer_batch_record(e, context))
        } else {
            None
        },
        _ => None,
    }
}

/// A normalised record: named members in ascending order of their names.
#[derive(Debug, PartialEq, Eq)]
pub struct OutputRecord {
    members: Vec<(String, FieldValue)>,
}

impl View for OutputRecord {
    type V = Seq<(Seq<char>, ValueModel)>;

    closed spec fn view(&self) -> Seq<(Seq<char>, ValueModel)> {
        members_model(self.members@)
    }
}

impl OutputRecord {
    #[verifier::type_invariant]
    spec fn well_formed(self) -> bool {
        well_formed_members(members_model(self.members@))
    }

    /// The members of the record, in order.
    pub fn members(&self) -> (members: &Vec<(String, FieldValue)>)
        ensures
            members_model(members@) == self@,
    {
        &self.members
    }

    /// The record as one JSON object without white space.
    pub fn to_json(&self) -> (text: String)
        ensures
            text@ == object_text(self@),
    {
        proof {
            use_type_invariant(self);
        }
        object_to_string(&self.members)
    }
}

impl RenderContext {
    /// The id of the record of the event.
    pub fn synthetic_id(&self) -> (id: String)
        ensures
            id@ == id_text(self.transaction_hash@, self.event_index as nat),
    {
        let mut id = render_transaction_hash(&self.transaction_hash);
        id.push('_');
        let index = decimal_string(0, self.event_index as u128);
        id.append(index.as_str());
        assert(id@ =~= id_text(self.transaction_hash@, self.event_index as nat));
        id
    }
}

/// `a` comes before `b` where they agree before position `k` and `a` ends
/// there or has the smaller character.
proof fn lemma_text_less(a: Seq<char>, b: Seq<char>, k: int)
    requires
        0 <= k <= a.len(),
        k < b.len(),
        forall|j: int| 0 <= j < k ==> a[j] == b[j],
        k < a.len() ==> (a[k] as u32) < (b[k] as u32),
    ensures
        text_less(a, b),
{
    assert(a.take(k) =~= b.take(k));
    assert(differ_at(a, b, k));
}

/// The names of the members are plain and stand in ascending order.
proof fn lemma_member_names()
    ensures
        is_plain("collection_address"@),
        is_plain("from"@),
        is_plain("id"@),
        is_plain("operator"@),
        is_plain("to"@),
        is_plain("token_id"@),
        is_plain("token_ids"@),
        is_plain("transaction_hash"@),
        is_plain("type"@),
        is_plain("value"@),
        is_plain("values"@),
        is_plain("Transfer"@),
        is_plain("TransferSingle"@),
        is_plain("TransferBatch"@),
        text_less("collection_address"@, "from"@),
        text_less("from"@, "id"@),
        text_less("id"@, "to"@),
        text_less("id"@, "operator"@),
        text_less("operator"@, "to"@),
        text_less("to"@, "token_id"@),
        text_less("to"@, "token_ids"@),
        text_less("token_id"@, "transaction_hash"@),
        text_less("token_ids"@, "transaction_hash"@),
        text_less("transaction_hash"@, "type"@),
        text_less("type"@, "value"@),
        text_less("type"@, "values"@),
{
    reveal_strlit("collection_address");
    reveal_strlit("from");
    reveal_strlit("id");
    reveal_strlit("operator");
    reveal_strlit("to");
    reveal_strlit("token_id");
    reveal_strlit("token_ids");
    reveal_strlit("transaction_hash");
    reveal_strlit("type");
    reveal_strlit("value");
    reveal_strlit("values");
    reveal_strlit("Transfer");
    reveal_strlit("TransferSingle");
    reveal_strlit("TransferBatch");
    lemma_text_less("collection_address"@, "from"@, 0);
    lemma_text_less("from"@, "id"@, 0);
    lemma_text_less("id"@, "to"@, 0);
    lemma_text_less("id"@, "operator"@, 0);
    lemma_text_less("operator"@, "to"@, 0);
    lemma_text_less("to"@, "token_id"@, 2);
    lemma_text_less("to"@, "token_ids"@, 2);
    lemma_text_less("token_id"@, "transaction_hash"@, 1);
    lemma_text_less("token_ids"@, "transaction_hash"@, 1);
    lemma_text_less("transaction_hash"@, "type"@, 1);
    lemma_text_less("type"@, "value"@, 0);
    lemma_text_less("type"@, "values"@, 0);
}

/// The id of a record is plain text.
proof fn lemma_id_text_plain(hash: Seq<u8>, index: nat)
    ensures
        is_plain(id_text(hash, index)),
{
    lemma_lower_hex_chars(hash);
    lemma_decimal_text_digits(index);
    let head = hex_text(hash);
    let tail = decimal_text(index);
    let id = id_text(hash, index);
    assert forall|i: int| 0 <= i < id.len() implies crate::text::is_plain_char(#[trigger] id[i]) by {
        if i < head.len() {
            assert(id[i] == head[i]);
        } else if i == head.len() {
            assert(id[i] == '_');
        } else {
            assert(id[i] == tail[i - head.len() - 1]);
        }
    }
}

/// The decimal texts of a list are plain.
proof fn lemma_decimal_texts_plain(items: Seq<U256>)
    ensures
        forall|i: int|
            0 <= i < decimal_texts(items).len() ==> is_plain(#[trigger] decimal_texts(items)[i]),
{
    assert forall|i: int| 0 <= i < decimal_texts(items).len() implies is_plain(
        #[trigger] decimal_texts(items)[i],
    ) by {
        lemma_decimal_text_digits(items[i].value());
    }
}

/// Every record that an event gives has plain members in ascending order of
/// their names.
pub proof fn lemma_records_well_formed(event: EventModel, context: ContextModel)
    ensures
        render_spec(event, context) matches Some(record) ==> well_formed_members(record),
{
    lemma_member_names();
    lemma_lower_hex_chars(context.collection_address@);
    lemma_lower_hex_chars(context.transaction_hash);
    lemma_id_text_plain(context.transaction_hash, context.event_index);
    match event {
        EventModel::Transfer(e) => {
            lemma_lower_hex_chars(e.from.0@);
            lemma_lower_hex_chars(e.to.0@);
            lemma_decimal_text_digits(e.token_id.value());
        },
        EventModel::TransferSingle(e) => {
            lemma_lower_hex_chars(e.operator.0@);
            lemma_lower_hex_chars(e.from.0@);
            lemma_lower_hex_chars(e.to.0@);
            lemma_decimal_text_digits(e.id.value());
            lemma_decimal_text_digits(e.value.value());
        },
        EventModel::TransferBatch(e) => {
            lemma_lower_hex_chars(e.operator.0@);
            lemma_lower_hex_chars(e.from.0@);
            lemma_lower_hex_chars(e.to.0@);
            lemma_decimal_texts_plain(e.ids);
            lemma_decimal_texts_plain(e.values);
        },
        _ => {},
    }
}

/// A member that holds one text.
fn text_field(name: &str, text: String) -> (member: (String, FieldValue))
    ensures
        (member.0@, member.1@) == text_member(name@, text@),
{
    (name.to_owned(), FieldValue::Text(text))
}

/// A member that holds the decimal texts of a list.
fn decimal_list_field(name: &str, items: &Vec<U256>) -> (member: (String, FieldValue))
    ensures
        (member.0@, member.1@) == (name@, ValueModel::List(decimal_texts(items@))),
{
    let mut texts: Vec<String> = Vec::new();
    let mut i: usize = 0;
    while i < items.len()
        invariant
            i <= items.len(),
            texts.len() == i,
            forall|j: int| 0 <= j < i ==> (#[trigger] texts@[j])@ == decimal_text(items@[j].value()),
        decreases items.len() - i,
    {
        texts.push(render_decimal(&items[i]));
        i += 1;
    }
    assert(texts_model(texts@) =~= decimal_texts(items@));
    (name.to_owned(), FieldValue::List(texts))
}

/// Makes the record of the given members.
fn record_of(members: Vec<(String, FieldValue)>) -> (record: OutputRecord)
    requires
        well_formed_members(members_model(members@)),
    ensures
        record@ == members_model(members@),
{
    OutputRecord { members }
}

/// Renders a `Transfer`.
fn render_transfer(event: &Transfer, context: &RenderContext) -> (record: OutputRecord)
    ensures
        record@ == transfer_record(*event, context@),
{
    let mut members: Vec<(String, FieldValue)> = Vec::new();
    members.push(text_field("collection_address", render_hex(&context.collection_address)));
    members.push(text_field("from", render_address(&event.from)));
    members.push(text_field("id", context.synthetic_id()));
    members.push(text_field("to", render_address(&event.to)));
    members.push(text_field("token_id", render_decimal(&event.token_id)));
    members.push(
        text_field("transaction_hash", render_transaction_hash(&context.transaction_hash)),
    );
    members.push(text_field("type", "Transfer".to_owned()));
    proof {
        assert(members_model(members@) =~= transfer_record(*event, context@));
        lemma_records_well_formed(EventModel::Transfer(*event), context@);
    }
    record_of(members)
}

/// Renders a `TransferSingle`.
fn render_transfer_single(event: &TransferSingle, context: &RenderContext) -> (record:
    OutputRecord)
    ensures
        record@ == transfer_single_record(*event, context@),
{
    let mut members: Vec<(String, FieldValue)> = Vec::new();
    members.push(text_field("collection_address", render_hex(&context.collection_address)));
    members.push(text_field("from", render_address(&event.from)));
    members.push(text_field("id", context.synthetic_id()));
    members.push(text_field("operator", render_address(&event.operator)));
    members.push(text_field("to", render_address(&event.to)));
    members.push(text_field("token_id", render_decimal(&event.id)));
    members.push(
        text_field("transaction_hash", render_transaction_hash(&context.transaction_hash)),
    );
    members.push(text_field("type", "TransferSingle".to_owned()));
    members.push(text_field("value", render_decimal(&event.value)));
    proof {
        assert(members_model(members@) =~= transfer_single_record(*event, context@));
        lemma_records_well_formed(EventModel::TransferSingle(*event), context@);
    }
    record_of(members)
}

/// Renders a `TransferBatch` that has as many amounts as token ids.
fn render_transfer_batch(event: &TransferBatch, context: &RenderContext) -> (record:
    OutputRecord)
    requires
        event.ids@.len() == event.values@.len(),
    ensures
        record@ == transfer_batch_record(event@, context@),
{
    let mut members: Vec<(String, FieldValue)> = Vec::new();
    members.push(text_field("collection_address", render_hex(&context.collection_address)));
    members.push(text_field("from", render_address(&event.from)));
    members.push(text_field("id", context.synthetic_id()));
    members.push(text_field("operator", render_address(&event.operator)));
    members.push(text_field("to", render_address(&event.to)));
    members.push(decimal_list_field("token_ids", &event.ids));
    members.push(
        text_field("transaction_hash", render_transaction_hash(&context.transaction_hash)),
    );
    members.push(text_field("type", "TransferBatch".to_owned()));
    members.push(decimal_list_field("values", &event.values));
    proof {
        assert(members_model(members@) =~= transfer_batch_record(event@, context@));
        lemma_records_well_formed(EventModel::TransferBatch(event@), context@);
    }
    record_of(members)
}

/// Renders a decoded event. Only a `Transfer`, a `TransferSingle` and a
/// `TransferBatch` give a record; a batch whose lists of token ids and of
/// amounts differ in length is skipped, as every other event is.
pub fn render(event: &DecodedEvent, context: &RenderContext) -> (r: Option<OutputRecord>)
    ensures
        match r {
            Some(record) => render_spec(event@, context@) == Some(record@),
            None => render_spec(event@, context@) is None,
        },
{
    match event {
        DecodedEvent::Transfer(e) => Some(render_transfer(e, context)),
        DecodedEvent::TransferSingle(e) => Some(render_transfer_single(e, context)),
        DecodedEvent::TransferBatch(e) => {
            if e.ids.len() == e.values.len() {
                Some(render_transfer_batch(e, context))
            } else {
                None
            }
        },
        _ => None,
    }
}

/// An event that is no transfer gives no record.
pub proof fn law_other_events_filtered(event: EventModel, context: ContextModel)
    requires
        !(event is Transfer),
        !(event is TransferSingle),
        !(event is TransferBatch),
    ensures
        render_spec(event, context) is None,
{
}

/// Two events have the same id only where they have the same transaction
/// hash and the same position in the receipt: within a batch of transactions
/// with different hashes no id occurs twice.
pub proof fn law_ids_distinct(hash_a: Seq<u8>, index_a: nat, hash_b: Seq<u8>, index_b: nat)
    requires
        hash_a.len() == hash_b.len(),
        id_text(hash_a, index_a) == id_text(hash_b, index_b),
    ensures
        hash_a == hash_b,
        index_a == index_b,
{
    let id_a = id_text(hash_a, index_a);
    let id_b = id_text(hash_b, index_b);
    let width: int = 2 + 2 * (hash_a.len() as int);
    assert(hex_text(hash_a).len() == width && hex_text(hash_b).len() == width);
    assert(lower_hex(hash_a) =~= id_a.subrange(2, width));
    assert(lower_hex(hash_b) =~= id_b.subrange(2, width));
    lemma_lower_hex_injective(hash_a, hash_b);
    assert(decimal_text(index_a) =~= id_a.skip(width + 1));
    assert(decimal_text(index_b) =~= id_b.skip(width + 1));
    lemma_decimal_text_injective(index_a, index_b);
}

} // verus!
