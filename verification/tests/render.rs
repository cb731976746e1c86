use starknet_nft_events::decimal::U256;
use starknet_nft_events::event::{
    Approval, ApprovalForAll, ByteArray, ContractAddress, DecodedEvent, RoleAdminChange,
    RoleChange, Transfer, TransferBatch, TransferSingle, Uri,
};
use starknet_nft_events::felt::{decode_field_element, FieldElement};
use starknet_nft_events::json::FieldValue;
use starknet_nft_events::render::{render, OutputRecord, RenderContext};

fn felt(n: u128) -> FieldElement {
    let mut bytes = [0u8; 32];
    bytes[16..].copy_from_slice(&n.to_be_bytes());
    decode_field_element(&bytes)
}

fn address(n: u128) -> ContractAddress {
    ContractAddress(felt(n))
}

fn padded(tail: &str) -> String {
    format!("0x{}{}", "0".repeat(64 - tail.len()), tail)
}

fn context(index: usize) -> RenderContext {
    RenderContext {
        collection_address: felt(0x1234),
        transaction_hash: [0xaau8; 32],
        event_index: index,
    }
}

fn text_of(record: &OutputRecord, name: &str) -> String {
    for (key, value) in record.members().iter() {
        if key == name {
            match value {
                FieldValue::Text(text) => return text.clone(),
                FieldValue::List(_) => panic!("{} is a list", name),
            }
        }
    }
    panic!("no member {}", name)
}

fn list_of(record: &OutputRecord, name: &str) -> Vec<String> {
    for (key, value) in record.members().iter() {
        if key == name {
            match value {
                FieldValue::List(items) => return items.clone(),
                FieldValue::Text(_) => panic!("{} is a text", name),
            }
        }
    }
    panic!("no member {}", name)
}

#[test]
fn synthetic_id_joins_hash_and_index() {
    assert_eq!(context(0).synthetic_id(), format!("0x{}_0", "aa".repeat(32)));
    assert_eq!(context(17).synthetic_id(), format!("0x{}_17", "aa".repeat(32)));
    assert_eq!(
        context(usize::MAX).synthetic_id(),
        format!("0x{}_{}", "aa".repeat(32), usize::MAX)
    );
}

#[test]
fn transfer_record_has_the_fixed_members() {
    let event = DecodedEvent::Transfer(Transfer {
        from: address(1),
        to: address(2),
        token_id: U256 { low: 5, high: 0 },
    });
    let record = render(&event, &context(0)).unwrap();
    let names: Vec<&str> = record.members().iter().map(|m| m.0.as_str()).collect();
    assert_eq!(
        names,
        vec!["collection_address", "from", "id", "to", "token_id", "transaction_hash", "type"]
    );
    assert_eq!(text_of(&record, "type"), "Transfer");
    assert_eq!(text_of(&record, "id"), format!("0x{}_0", "aa".repeat(32)));
    assert_eq!(text_of(&record, "from"), padded("01"));
    assert_eq!(text_of(&record, "to"), padded("02"));
    assert_eq!(text_of(&record, "token_id"), "5");
    assert_eq!(text_of(&record, "collection_address"), padded("1234"));
    assert_eq!(text_of(&record, "transaction_hash"), format!("0x{}", "aa".repeat(32)));
}

#[test]
fn transfer_record_as_json() {
    let event = DecodedEvent::Transfer(Transfer {
        from: address(1),
        to: address(2),
        token_id: U256 { low: 5, high: 0 },
    });
    let text = render(&event, &context(3)).unwrap().to_json();
    let hash = format!("0x{}", "aa".repeat(32));
    let expected = format!(
        "{{\"collection_address\":\"{}\",\"from\":\"{}\",\"id\":\"{}_3\",\"to\":\"{}\",\"token_id\":\"5\",\"transaction_hash\":\"{}\",\"type\":\"Transfer\"}}",
        padded("1234"),
        padded("01"),
        hash,
        padded("02"),
        hash
    );
    assert_eq!(text, expected);
}

#[test]
fn transfer_single_record_as_json() {
    let event = DecodedEvent::TransferSingle(TransferSingle {
        operator: address(9),
        from: address(1),
        to: address(2),
        id: U256 { low: 5, high: 0 },
        value: U256 { low: 0, high: 1 },
    });
    let record = render(&event, &context(1)).unwrap();
    assert_eq!(text_of(&record, "type"), "TransferSingle");
    assert_eq!(text_of(&record, "operator"), padded("09"));
    assert_eq!(text_of(&record, "token_id"), "5");
    assert_eq!(text_of(&record, "value"), "340282366920938463463374607431768211456");
    let hash = format!("0x{}", "aa".repeat(32));
    let expected = format!(
        "{{\"collection_address\":\"{}\",\"from\":\"{}\",\"id\":\"{}_1\",\"operator\":\"{}\",\"to\":\"{}\",\"token_id\":\"5\",\"transaction_hash\":\"{}\",\"type\":\"TransferSingle\",\"value\":\"340282366920938463463374607431768211456\"}}",
        padded("1234"),
        padded("01"),
        hash,
        padded("09"),
        padded("02"),
        hash
    );
    assert_eq!(record.to_json(), expected);
}

#[test]
fn transfer_batch_record_as_json() {
    let event = DecodedEvent::TransferBatch(TransferBatch {
        operator: address(9),
        from: address(1),
        to: address(2),
        ids: vec![U256 { low: 5, high: 0 }, U256 { low: 6, high: 0 }],
        values: vec![U256 { low: 10, high: 0 }, U256 { low: 1, high: 1 }],
    });
    let record = render(&event, &context(2)).unwrap();
    assert_eq!(text_of(&record, "type"), "TransferBatch");
    assert_eq!(list_of(&record, "token_ids"), vec!["5", "6"]);
    assert_eq!(
        list_of(&record, "values"),
        vec!["10", "340282366920938463463374607431768211457"]
    );
    let hash = format!("0x{}", "aa".repeat(32));
    let expected = format!(
        "{{\"collection_address\":\"{}\",\"from\":\"{}\",\"id\":\"{}_2\",\"operator\":\"{}\",\"to\":\"{}\",\"token_ids\":[\"5\",\"6\"],\"transaction_hash\":\"{}\",\"type\":\"TransferBatch\",\"values\":[\"10\",\"340282366920938463463374607431768211457\"]}}",
        padded("1234"),
        padded("01"),
        hash,
        padded("09"),
        padded("02"),
        hash
    );
    assert_eq!(record.to_json(), expected);
}

#[test]
fn empty_batch_has_empty_lists() {
    let event = DecodedEvent::TransferBatch(TransferBatch {
        operator: address(9),
        from: address(1),
        to: address(2),
        ids: vec![],
        values: vec![],
    });
    let text = render(&event, &context(0)).unwrap().to_json();
    assert!(text.contains("\"token_ids\":[],"));
    assert!(text.ends_with("\"values\":[]}"));
}

#[test]
fn batch_with_lists_of_different_lengths_is_skipped() {
    let event = DecodedEvent::TransferBatch(TransferBatch {
        operator: address(9),
        from: address(1),
        to: address(2),
        ids: vec![U256 { low: 5, high: 0 }, U256 { low: 6, high: 0 }],
        values: vec![U256 { low: 10, high: 0 }],
    });
    assert_eq!(render(&event, &context(0)), None);
    let event = DecodedEvent::TransferBatch(TransferBatch {
        operator: address(9),
        from: address(1),
        to: address(2),
        ids: vec![],
        values: vec![U256 { low: 10, high: 0 }],
    });
    assert_eq!(render(&event, &context(0)), None);
}

#[test]
fn other_events_give_no_record() {
    let change = RoleChange { role: felt(7), account: address(1), sender: address(2) };
    let others = vec![
        DecodedEvent::RoleGranted(change),
        DecodedEvent::RoleRevoked(change),
        DecodedEvent::RoleAdminChanged(RoleAdminChange {
            role: felt(7),
            previous_admin_role: felt(1),
            new_admin_role: felt(2),
        }),
        DecodedEvent::Approval(Approval {
            owner: address(1),
            approved: address(2),
            token_id: U256 { low: 5, high: 0 },
        }),
        DecodedEvent::ApprovalForAll(ApprovalForAll {
            owner: address(1),
            operator: address(2),
            approved: true,
        }),
        DecodedEvent::Uri(Uri {
            value: ByteArray { data: vec![], pending_word: felt(0x61), pending_word_len: 1 },
            id: U256 { low: 5, high: 0 },
        }),
    ];
    for event in others.iter() {
        assert_eq!(render(event, &context(0)), None);
    }
}

#[test]
fn json_text_parses_back() {
    let event = DecodedEvent::TransferBatch(TransferBatch {
        operator: address(9),
        from: address(1),
        to: address(2),
        ids: vec![U256 { low: 5, high: 0 }],
        values: vec![U256 { low: u128::MAX, high: u128::MAX }],
    });
    let text = render(&event, &context(4)).unwrap().to_json();
    let parsed: serde_json::Value = serde_json::from_str(&text).unwrap();
    let object = parsed.as_object().unwrap();
    assert_eq!(object.len(), 9);
    assert_eq!(object["type"].as_str(), Some("TransferBatch"));
    assert_eq!(object["from"].as_str(), Some(padded("01").as_str()));
    assert_eq!(object["token_ids"].as_array().unwrap().len(), 1);
    assert_eq!(
        object["values"][0].as_str(),
        Some("115792089237316195423570985008687907853269984665640564039457584007913129639935")
    );
    assert_eq!(parsed.to_string(), text);
}

#[test]
fn ids_differ_with_hash_or_index() {
    let mut other = context(1);
    other.transaction_hash[31] = 0xab;
    let ids = vec![
        context(0).synthetic_id(),
        context(1).synthetic_id(),
        context(10).synthetic_id(),
        other.synthetic_id(),
    ];
    for i in 0..ids.len() {
        for j in 0..ids.len() {
            assert_eq!(ids[i] == ids[j], i == j);
        }
    }
}
