use starknet_nft_events::batch::{
    decode_event, map_event, map_nft_events, BatchError, EventBytes, EventOutcome, Receipt,
    Transaction,
};
use starknet_nft_events::classify::Classifier;
use starknet_nft_events::felt::decode_field_element;

fn word(n: u128) -> Vec<u8> {
    let mut bytes = vec![0u8; 32];
    bytes[16..].copy_from_slice(&n.to_be_bytes());
    bytes
}

fn selector(name: &str) -> Vec<u8> {
    starknet::core::utils::get_selector_from_name(name).unwrap().to_bytes_be().to_vec()
}

fn padded(tail: &str) -> String {
    format!("0x{}{}", "0".repeat(64 - tail.len()), tail)
}

fn transfer_event() -> EventBytes {
    EventBytes {
        from_address: word(0x1234),
        keys: vec![selector("Transfer"), word(1), word(2), word(5), word(0)],
        data: vec![],
    }
}

fn transfer_single_event() -> EventBytes {
    EventBytes {
        from_address: word(0x77),
        keys: vec![selector("TransferSingle"), word(9), word(1), word(2)],
        data: vec![word(5), word(0), word(100), word(0)],
    }
}

fn unrelated_event() -> EventBytes {
    EventBytes { from_address: word(0x55), keys: vec![word(42)], data: vec![word(1)] }
}

fn with_receipt(hash: Vec<u8>, events: Vec<EventBytes>) -> Transaction {
    Transaction { receipt: Some(Receipt { transaction_hash: hash, events }) }
}

#[test]
fn one_transfer_gives_one_record() {
    let batch = vec![with_receipt(vec![0xaa; 32], vec![transfer_event()])];
    let records = map_nft_events(&batch).unwrap();
    assert_eq!(records.len(), 1);
    let parsed: serde_json::Value = serde_json::from_str(&records[0]).unwrap();
    let hash = format!("0x{}", "aa".repeat(32));
    assert_eq!(parsed["type"].as_str(), Some("Transfer"));
    assert_eq!(parsed["id"].as_str(), Some(format!("{}_0", hash).as_str()));
    assert_eq!(parsed["from"].as_str(), Some(padded("01").as_str()));
    assert_eq!(parsed["to"].as_str(), Some(padded("02").as_str()));
    assert_eq!(parsed["token_id"].as_str(), Some("5"));
    assert_eq!(parsed["collection_address"].as_str(), Some(padded("1234").as_str()));
    assert_eq!(parsed["transaction_hash"].as_str(), Some(hash.as_str()));
    assert_eq!(parsed.as_object().unwrap().len(), 7);
    let expected = format!(
        "{{\"collection_address\":\"{}\",\"from\":\"{}\",\"id\":\"{}_0\",\"to\":\"{}\",\"token_id\":\"5\",\"transaction_hash\":\"{}\",\"type\":\"Transfer\"}}",
        padded("1234"),
        padded("01"),
        hash,
        padded("02"),
        hash
    );
    assert_eq!(records[0], expected);
}

#[test]
fn record_keeps_the_index_of_its_event() {
    let batch =
        vec![with_receipt(vec![0x01; 32], vec![unrelated_event(), transfer_single_event()])];
    let records = map_nft_events(&batch).unwrap();
    assert_eq!(records.len(), 1);
    let parsed: serde_json::Value = serde_json::from_str(&records[0]).unwrap();
    assert_eq!(parsed["type"].as_str(), Some("TransferSingle"));
    assert!(parsed["id"].as_str().unwrap().ends_with("_1"));
    assert_eq!(parsed["id"].as_str(), Some(format!("0x{}_1", "01".repeat(32)).as_str()));
    assert_eq!(parsed["value"].as_str(), Some("100"));
    assert_eq!(parsed["collection_address"].as_str(), Some(padded("77").as_str()));
}

#[test]
fn empty_batch_gives_no_record() {
    assert_eq!(map_nft_events(&vec![]), Ok(vec![]));
}

#[test]
fn transactions_without_receipt_give_no_record() {
    let batch = vec![Transaction { receipt: None }, Transaction { receipt: None }];
    assert_eq!(map_nft_events(&batch), Ok(vec![]));
    let batch = vec![with_receipt(vec![0x01; 32], vec![])];
    assert_eq!(map_nft_events(&batch), Ok(vec![]));
}

#[test]
fn records_follow_the_order_of_the_batch() {
    let batch = vec![
        with_receipt(vec![0x01; 32], vec![transfer_event(), unrelated_event(), transfer_event()]),
        Transaction { receipt: None },
        with_receipt(vec![0x02; 32], vec![transfer_single_event()]),
    ];
    let records = map_nft_events(&batch).unwrap();
    let ids: Vec<String> = records
        .iter()
        .map(|r| {
            let parsed: serde_json::Value = serde_json::from_str(r).unwrap();
            parsed["id"].as_str().unwrap().to_string()
        })
        .collect();
    assert_eq!(
        ids,
        vec![
            format!("0x{}_0", "01".repeat(32)),
            format!("0x{}_2", "01".repeat(32)),
            format!("0x{}_0", "02".repeat(32)),
        ]
    );
}

#[test]
fn events_that_are_no_transfers_are_left_out() {
    let role = EventBytes {
        from_address: word(1),
        keys: vec![selector("RoleGranted")],
        data: vec![word(7), word(1), word(2)],
    };
    let truncated = EventBytes {
        from_address: word(1),
        keys: vec![selector("Transfer"), word(1)],
        data: vec![],
    };
    let no_keys = EventBytes { from_address: word(1), keys: vec![], data: vec![] };
    let batch = vec![with_receipt(vec![0x01; 32], vec![role, truncated, no_keys])];
    assert_eq!(map_nft_events(&batch), Ok(vec![]));
}

#[test]
fn short_hash_fails_the_batch() {
    let batch = vec![
        with_receipt(vec![0x01; 32], vec![transfer_event()]),
        with_receipt(vec![0x01; 31], vec![transfer_event()]),
    ];
    assert_eq!(map_nft_events(&batch), Err(BatchError::TransactionHash));
    let batch = vec![with_receipt(vec![], vec![])];
    assert_eq!(map_nft_events(&batch), Err(BatchError::TransactionHash));
    let batch = vec![with_receipt(vec![0x01; 33], vec![])];
    assert_eq!(map_nft_events(&batch), Err(BatchError::TransactionHash));
}

#[test]
fn short_field_fails_the_batch() {
    let mut short_key = transfer_event();
    short_key.keys[2] = vec![0x01; 31];
    let mut short_data = unrelated_event();
    short_data.data[0] = vec![];
    let mut short_address = transfer_event();
    short_address.from_address = vec![0x12, 0x34];
    for bad in [short_key, short_data, short_address] {
        assert_eq!(decode_event(&bad), Err(BatchError::EventField));
        let batch = vec![with_receipt(vec![0x01; 32], vec![transfer_event(), bad])];
        assert_eq!(map_nft_events(&batch), Err(BatchError::EventField));
    }
}

#[test]
fn first_malformed_part_decides_the_error() {
    let mut bad = transfer_event();
    bad.keys[0] = vec![1, 2, 3];
    let batch = vec![
        with_receipt(vec![0x01; 32], vec![bad]),
        with_receipt(vec![0x01; 5], vec![]),
    ];
    assert_eq!(map_nft_events(&batch), Err(BatchError::EventField));
}

#[test]
fn decode_event_decodes_every_field() {
    let raw = decode_event(&transfer_single_event()).unwrap();
    let mut address = [0u8; 32];
    address[31] = 0x77;
    assert_eq!(raw.from_address, decode_field_element(&address));
    assert_eq!(raw.keys.len(), 4);
    assert_eq!(raw.data.len(), 4);
    assert_eq!(raw.data[2].bytes().to_vec(), word(100));
}

#[test]
fn map_event_gives_the_record_of_one_event() {
    let classifier = Classifier::new();
    let hash = [0xaau8; 32];
    match map_event(&classifier, &hash, 7, &transfer_event()) {
        Ok(EventOutcome::Record(text)) => {
            assert!(text.contains(&format!("\"id\":\"0x{}_7\"", "aa".repeat(32))))
        }
        other => panic!("{:?}", other),
    }
    assert_eq!(map_event(&classifier, &hash, 0, &unrelated_event()), Ok(EventOutcome::NoMatch));
    let role = EventBytes {
        from_address: word(1),
        keys: vec![selector("RoleGranted")],
        data: vec![word(7), word(1), word(2)],
    };
    assert_eq!(map_event(&classifier, &hash, 0, &role), Ok(EventOutcome::Filtered));
    let mut bad = transfer_event();
    bad.data.push(vec![0]);
    assert_eq!(map_event(&classifier, &hash, 0, &bad), Err(BatchError::EventField));
}
