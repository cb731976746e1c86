//! The batch driver: from the transactions of a block to the JSON records of
//! their transfer events.

use vstd::prelude::*;
use crate::classify::{classify_spec, Classifier};
use crate::event::RawEvent;
use crate::felt::{be_value, decode_field_element, felt_of, field_prime, FieldElement};
use crate::json::{object_text, texts_model};
use crate::render::{render, render_spec, ContextModel, RenderContext};

verus! {

/// An event as it arrives: every field element as bytes.
#[derive(Clone, Debug, PartialEq, Eq)]
pub struct EventBytes {
    pub from_address: Vec<u8>,
    pub keys: Vec<Vec<u8>>,
    pub data: Vec<Vec<u8>>,
}

/// The receipt of a transaction: its hash and the events that it emitted.
#[derive(Clone, Debug, PartialEq, Eq)]
pub struct Receipt {
    pub transaction_hash: Vec<u8>,
    pub events: Vec<EventBytes>,
}

/// A transaction of the batch, with its receipt if it has one.
#[derive(Clone, Debug, PartialEq, Eq)]
pub struct Transaction {
    pub receipt: Option<Receipt>,
}

/// Why a batch was refused as a whole.
#[derive(Clone, Copy, Debug, PartialEq, Eq, Structural)]
pub enum BatchError {
    /// The hash of a transaction has not 32 bytes.
    TransactionHash,
    /// The address, a key or a data word of an event has not 32 bytes.
    EventField,
}

/// Copies 32 bytes into an array; no other length is accepted.
fn fixed_width(bytes: &Vec<u8>) -> (word: Option<[u8; 32]>)
    ensures
        word is Some <==> bytes@.len() == 32,
        word matches Some(w) ==> w@ == bytes@,
{
    if bytes.len() != 32 {
        return None;
    }
    let mut out: [u8; 32] = [0u8; 32];
    let mut i: usize = 0;
    while i < 32
        invariant
            i <= 32,
            bytes@.len() == 32,
            forall|j: int| 0 <= j < i ==> out@[j] == bytes@[j],
        decreases 32 - i,
    {
        out[i] = bytes[i];
        i += 1;
    }
    assert(out@ =~= bytes@);
    Some(out)
}

/// The field element that 32 bytes decode to.
pub open spec fn felt_of_bytes(bytes: Seq<u8>) -> FieldElement {
    felt_of(be_value(bytes) % field_prime())
}

/// The field elements that a list of words decodes to.
pub open spec fn felts_of(words: Seq<Vec<u8>>) -> Seq<FieldElement> {
    Seq::new(words.len(), |i: int| felt_of_bytes(words[i]@))
}

/// Whether every word of a list has 32 bytes.
pub open spec fn words_fit(words: Seq<Vec<u8>>) -> bool {
    forall|i: int| 0 <= i < words.len() ==> (#[trigger] words[i])@.len() == 32
}

/// Whether the address, every key and every data word of an event has 32
/// bytes.
pub open spec fn event_fits(event: EventBytes) -> bool {
    &&& event.from_address@.len() == 32
    &&& words_fit(event.keys@)
    &&& words_fit(event.data@)
}

/// What became of one event.
#[derive(Clone, Debug, PartialEq, Eq)]
pub enum EventOutcome {
    /// Neither standard decodes the event.
    NoMatch,
    /// The event was decoded and is no transfer that gives a record.
    Filtered,
    /// The JSON record of the event.
    Record(String),
}

/// What an `EventOutcome` holds.
pub enum OutcomeModel {
    NoMatch,
    Filtered,
    Record(Seq<char>),
}

impl View for EventOutcome {
    type V = OutcomeModel;

    open spec fn view(&self) -> OutcomeModel {
        match *self {
            EventOutcome::NoMatch => OutcomeModel::NoMatch,
            EventOutcome::Filtered => OutcomeModel::Filtered,
            EventOutcome::Record(text) => OutcomeModel::Record(text@),
        }
    }
}

/// What becomes of one event whose fields have 32 bytes each: it is
/// classified against the two standards, and what was decoded is rendered
/// with the emitting contract, the hash and the position of the event.
pub open spec fn event_outcome(hash: Seq<u8>, index: nat, event: EventBytes) -> OutcomeModel {
    let context = ContextModel {
        collection_address: felt_of_bytes(event.from_address@),
        transaction_hash: hash,
        event_index: index,
    };
    match classify_spec(felts_of(event.keys@), felts_of(event.data@)) {
        None => OutcomeModel::NoMatch,
        Some((_, decoded)) => match render_spec(decoded, context) {
            None => OutcomeModel::Filtered,
            Some(record) => OutcomeModel::Record(object_text(record)),
        },
    }
}

/// The JSON record of one event, if the event gives one.
pub open spec fn event_output(hash: Seq<u8>, index: nat, event: EventBytes) -> Option<Seq<char>> {
    match event_outcome(hash, index, event) {
        OutcomeModel::Record(text) => Some(text),
        _ => None,
    }
}

/// The records of the first `n` events of a receipt, in order. Each record
/// carries the position of its event among all events of the receipt.
pub open spec fn events_output(hash: Seq<u8>, events: Seq<EventBytes>, n: nat) -> Result<
    Seq<Seq<char>>,
    BatchError,
>
    decreases n,
{
    if n == 0 {
        Ok(Seq::empty())
    } else {
        let index = (n - 1) as nat;
        match events_output(hash, events, index) {
            Err(e) => Err(e),
            Ok(before) => if !event_fits(events[index as int]) {
                Err(BatchError::EventField)
            } else {
                match event_output(hash, index, events[index as int]) {
                    None => Ok(before),
                    Some(text) => Ok(before.push(text)),
                }
            },
        }
    }
}

/// The records of a receipt.
pub open spec fn receipt_output(receipt: Receipt) -> Result<Seq<Seq<char>>, BatchError> {
    if receipt.transaction_hash@.len() != 32 {
        Err(BatchError::TransactionHash)
    } else {
        events_output(receipt.transaction_hash@, receipt.events@, receipt.events@.len())
    }
}

/// The records of the first `n` transactions of a batch, in order. A
/// transaction without receipt adds nothing. The first malformed hash or
/// event, in the order of the batch, fails the whole.
pub open spec fn batch_output(transactions: Seq<Transaction>, n: nat) -> Result<
    Seq<Seq<char>>,
    BatchError,
>
    decreases n,
{
    if n == 0 {
        Ok(Seq::empty())
    } else {
        match batch_output(transactions, (n - 1) as nat) {
            Err(e) => Err(e),
            Ok(before) => match transactions[n - 1].receipt {
                None => Ok(before),
                Some(receipt) => match receipt_output(receipt) {
                    Err(e) => Err(e),
                    Ok(records) => Ok(before + records),
                },
            },
        }
    }
}

/// Decodes a list of words into field elements, if each has 32 bytes.
fn decode_words(words: &Vec<Vec<u8>>) -> (felts: Option<Vec<FieldElement>>)
    ensures
        felts is Some <==> words_fit(words@),
        felts matches Some(v) ==> v@ == felts_of(words@),
{
    let mut out: Vec<FieldElement> = Vec::new();
    let mut i: usize = 0;
    while i < words.len()
        invariant
            i <= words.len(),
            out.len() == i,
            forall|j: int| 0 <= j < i ==> (#[trigger] words@[j])@.len() == 32,
            forall|j: int| 0 <= j < i ==> out@[j] == felt_of_bytes(words@[j]@),
        decreases words.len() - i,
    {
        match fixed_width(&words[i]) {
            None => {
                return None;
            },
            Some(word) => {
                out.push(decode_field_element(&word));
            },
        }
        i += 1;
    }
    assert(out@ =~= felts_of(words@));
    Some(out)
}

/// Decodes the fields of an event as it arrives. Each field has to have 32
/// bytes.
pub fn decode_event(event: &EventBytes) -> (r: Result<RawEvent, BatchError>)
    ensures
        r is Ok <==> event_fits(*event),
        r matches Ok(raw) ==> {
            &&& raw.from_address == felt_of_bytes(event.from_address@)
            &&& raw.keys@ == felts_of(event.keys@)
            &&& raw.data@ == felts_of(event.data@)
        },
        r matches Err(e) ==> e == BatchError::EventField,
{
    let address = match fixed_width(&event.from_address) {
        Some(word) => decode_field_element(&word),
        None => {
            return Err(BatchError::EventField);
        },
    };
    let keys = match decode_words(&event.keys) {
        Some(felts) => felts,
        None => {
            return Err(BatchError::EventField);
        },
    };
    let data = match decode_words(&event.data) {
        Some(felts) => felts,
        None => {
            return Err(BatchError::EventField);
        },
    };
    Ok(RawEvent { from_address: address, keys, data })
}

/// The model of what the driver returned.
pub open spec fn output_model(r: Result<Vec<String>, BatchError>) -> Result<
    Seq<Seq<char>>,
    BatchError,
> {
    match r {
        Ok(records) => Ok(texts_model(records@)),
        Err(e) => Err(e),
    }
}

/// Turns one event of a receipt into its JSON record, if it gives one.
/// `index` is the position of the event in the receipt. An event that matches
/// no standard and an event that is filtered are told apart; neither is an
/// error.
pub fn map_event(classifier: &Classifier, hash: &[u8; 32], index: usize, event: &EventBytes) -> (r:
    Result<EventOutcome, BatchError>)
    ensures
        r is Ok <==> event_fits(*event),
        r matches Ok(outcome) ==> outcome@ == event_outcome(hash@, index as nat, *event),
        r matches Err(e) ==> e == BatchError::EventField,
{
    let raw = decode_event(event)?;
    let context = RenderContext {
        collection_address: raw.from_address,
        transaction_hash: *hash,
        event_index: index,
    };
    match classifier.classify(&raw) {
        None => Ok(EventOutcome::NoMatch),
        Some((_, decoded)) => match render(&decoded, &context) {
            None => Ok(EventOutcome::Filtered),
            Some(record) => Ok(EventOutcome::Record(record.to_json())),
        },
    }
}

/// Appends the records of a receipt to `out`.
fn map_receipt(classifier: &Classifier, receipt: &Receipt, out: &mut Vec<String>) -> (r: Result<
    (),
    BatchError,
>)
    ensures
        match r {
            Ok(_) => receipt_output(*receipt) == Ok::<Seq<Seq<char>>, BatchError>(
                texts_model(final(out)@).skip(old(out)@.len() as int),
            ) && texts_model(final(out)@).take(old(out)@.len() as int) == texts_model(old(out)@)
                && old(out)@.len() <= final(out)@.len(),
            Err(e) => receipt_output(*receipt) == Err::<Seq<Seq<char>>, BatchError>(e),
        },
{
    let hash = match fixed_width(&receipt.transaction_hash) {
        Some(word) => word,
        None => {
            return Err(BatchError::TransactionHash);
        },
    };
    let ghost start = out@;
    let ghost mut added: Seq<Seq<char>> = Seq::empty();
    assert(texts_model(out@) =~= texts_model(start) + added);
    let mut i: usize = 0;
    while i < receipt.events.len()
        invariant
            i <= receipt.events.len(),
            hash@ == receipt.transaction_hash@,
            events_output(hash@, receipt.events@, i as nat) == Ok::<Seq<Seq<char>>, BatchError>(
                added,
            ),
            texts_model(out@) == texts_model(start) + added,
            out@.len() == start.len() + added.len(),
            start == old(out)@,
        decreases receipt.events.len() - i,
    {
        let ghost before = texts_model(out@);
        match map_event(classifier, &hash, i, &receipt.events[i]) {
            Err(e) => {
                proof {
                    assert(events_output(hash@, receipt.events@, (i + 1) as nat) == Err::<
                        Seq<Seq<char>>,
                        BatchError,
                    >(e));
                    lemma_events_error_stays(
                        hash@,
                        receipt.events@,
                        (i + 1) as nat,
                        receipt.events@.len(),
                    );
                }
                return Err(e);
            },
            Ok(EventOutcome::NoMatch) => {},
            Ok(EventOutcome::Filtered) => {},
            Ok(EventOutcome::Record(text)) => {
                proof {
                    added = added.push(text@);
                }
                out.push(text);
                assert(texts_model(out@) =~= before.push(text@));
            },
        }
        assert(texts_model(out@) =~= texts_model(start) + added);
        i += 1;
    }
    proof {
        let all = texts_model(out@);
        assert(all.skip(start.len() as int) =~= added);
        assert(all.take(start.len() as int) =~= texts_model(start));
    }
    Ok(())
}

/// Once the first `n` events fail, every longer run of events fails alike.
proof fn lemma_events_error_stays(hash: Seq<u8>, events: Seq<EventBytes>, n: nat, m: nat)
    requires
        n <= m,
        events_output(hash, events, n) is Err,
    ensures
        events_output(hash, events, m) == events_output(hash, events, n),
    decreases m,
{
    if n < m {
        lemma_events_error_stays(hash, events, n, (m - 1) as nat);
    }
}

/// Once the first `n` transactions fail, every longer run fails alike.
proof fn lemma_batch_error_stays(transactions: Seq<Transaction>, n: nat, m: nat)
    requires
        n <= m,
        batch_output(transactions, n) is Err,
    ensures
        batch_output(transactions, m) == batch_output(transactions, n),
    decreases m,
{
    if n < m {
        lemma_batch_error_stays(transactions, n, (m - 1) as nat);
    }
}

/// Turns the transactions of a batch into the JSON records of their transfer
/// events: transaction by transaction, and within a receipt event by event.
/// Events that match neither standard, and events that are no transfers, are
/// left out without error. A hash or a field that has not 32 bytes fails the
/// whole batch.
pub fn map_nft_events(transactions: &Vec<Transaction>) -> (r: Result<Vec<String>, BatchError>)
    ensures
        output_model(r) == batch_output(transactions@, transactions@.len()),
{
    let classifier = Classifier::new();
    let mut out: Vec<String> = Vec::new();
    assert(texts_model(out@) =~= Seq::empty());
    let mut i: usize = 0;
    while i < transactions.len()
        invariant
            i <= transactions.len(),
            batch_output(transactions@, i as nat) == Ok::<Seq<Seq<char>>, BatchError>(
                texts_model(out@),
            ),
        decreases transactions.len() - i,
    {
        let ghost before = texts_model(out@);
        match &transactions[i].receipt {
            None => {},
            Some(receipt) => {
                match map_receipt(&classifier, receipt, &mut out) {
                    Ok(_) => {
                        let ghost all = texts_model(out@);
                        assert(all =~= all.take(before.len() as int) + all.skip(
                            before.len() as int,
                        ));
                    },
                    Err(e) => {
                        proof {
                            lemma_batch_error_stays(
                                transactions@,
                                (i + 1) as nat,
                                transactions@.len(),
                            );
                        }
                        return Err(e);
                    },
                }
            },
        }
        i += 1;
    }
    Ok(out)
}

/// A batch without transactions, and a batch in which no transaction has a
/// receipt, give no record and no error.
pub proof fn law_no_receipts_no_records(transactions: Seq<Transaction>, n: nat)
    requires
        n <= transactions.len(),
        forall|i: int| 0 <= i < n ==> (#[trigger] transactions[i]).receipt is None,
    ensures
        batch_output(transactions, n) == Ok::<Seq<Seq<char>>, BatchError>(Seq::empty()),
    decreases n,
{
    if n > 0 {
        law_no_receipts_no_records(transactions, (n - 1) as nat);
    }
}

} // verus!
