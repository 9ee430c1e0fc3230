use ethwatch::json::{parse_text, print_text, Json};
use ethwatch::records::{
    decode_tx_frame, serialize_tx_message, DecodeOutcome, MinedTransactions, Transaction,
    TransactionCommon, WebSocketParams, WebsocketMessage,
};

fn legacy_common() -> TransactionCommon {
    TransactionCommon {
        block_hash: "0xbeef".to_string(),
        block_number: "0x10".to_string(),
        from: "0xaaaa".to_string(),
        gas: "0x5208".to_string(),
        gas_price: "0x3b9aca00".to_string(),
        hash: "0xcafe".to_string(),
        input: "0x".to_string(),
        nonce: "0x1".to_string(),
        to: Some("0xbbbb".to_string()),
        transaction_index: "0x0".to_string(),
        value: "0xde0b6b3a7640000".to_string(),
        v: "0x1b".to_string(),
        r: "0x1".to_string(),
        s: "0x2".to_string(),
        chain_id: "0x1".to_string(),
    }
}

fn envelope(tx: Transaction) -> WebsocketMessage<MinedTransactions> {
    WebsocketMessage {
        jsonrpc: "2.0".to_string(),
        method: "eth_subscription".to_string(),
        params: WebSocketParams {
            result: MinedTransactions { removed: false, transaction: tx },
            subscription: "0xbf525752be994fd9d0992b49ca8662cc".to_string(),
        },
    }
}

#[test]
fn serialize_legacy_exact_text() {
    let msg = envelope(Transaction::Legacy { common: legacy_common() });
    let text = serialize_tx_message(&msg);
    let expected = "{\"jsonrpc\":\"2.0\",\"method\":\"eth_subscription\",\"params\":{\"result\":{\"removed\":false,\"transaction\":{\"blockHash\":\"0xbeef\",\"blockNumber\":\"0x10\",\"from\":\"0xaaaa\",\"gas\":\"0x5208\",\"gasPrice\":\"0x3b9aca00\",\"hash\":\"0xcafe\",\"input\":\"0x\",\"nonce\":\"0x1\",\"to\":\"0xbbbb\",\"transactionIndex\":\"0x0\",\"value\":\"0xde0b6b3a7640000\",\"type\":\"0x0\",\"v\":\"0x1b\",\"r\":\"0x1\",\"s\":\"0x2\",\"chainId\":\"0x1\"}},\"subscription\":\"0xbf525752be994fd9d0992b49ca8662cc\"}}";
    assert_eq!(text, expected);
}

#[test]
fn round_trip_legacy() {
    let msg = envelope(Transaction::Legacy { common: legacy_common() });
    let text = serialize_tx_message(&msg);
    match decode_tx_frame(&text) {
        DecodeOutcome::Decoded(m) => {
            assert_eq!(m.jsonrpc, "2.0");
            assert_eq!(m.method, "eth_subscription");
            assert_eq!(m.params.subscription, "0xbf525752be994fd9d0992b49ca8662cc");
            assert!(!m.params.result.removed);
            match m.params.result.transaction {
                Transaction::Legacy { common } => {
                    assert_eq!(common.gas, "0x5208");
                    assert_eq!(common.to.as_deref(), Some("0xbbbb"));
                    assert_eq!(common.value, "0xde0b6b3a7640000");
                }
                _ => panic!("wrong transaction kind"),
            }
        }
        DecodeOutcome::Raw(_) => panic!("frame did not decode"),
    }
}

#[test]
fn round_trip_fee_market_hex_untouched() {
    let mut common = legacy_common();
    common.to = Some("0xbbbb".to_string());
    let tx = Transaction::FeeMarket {
        common,
        max_fee_per_gas: "0x77359400".to_string(),
        max_priority_fee_per_gas: "0x3b9aca00".to_string(),
        access_list: Vec::new(),
        y_parity: "0x1".to_string(),
    };
    let msg = envelope(tx);
    let text = serialize_tx_message(&msg);
    match decode_tx_frame(&text) {
        DecodeOutcome::Decoded(m) => match m.params.result.transaction {
            Transaction::FeeMarket {
                common,
                max_fee_per_gas,
                max_priority_fee_per_gas,
                access_list,
                y_parity,
            } => {
                // hex strings come back as the literal strings, never as numbers
                assert_eq!(max_fee_per_gas, "0x77359400");
                assert_eq!(max_priority_fee_per_gas, "0x3b9aca00");
                assert_eq!(y_parity, "0x1");
                assert!(access_list.is_empty());
                assert_eq!(common.gas_price, "0x3b9aca00");
            }
            _ => panic!("wrong transaction kind"),
        },
        DecodeOutcome::Raw(_) => panic!("frame did not decode"),
    }
}

#[test]
fn round_trip_access_list_kind() {
    let entry = Json::Obj(vec![
        ("address".to_string(), Json::Str("0xdead".to_string())),
        (
            "storageKeys".to_string(),
            Json::Arr(vec![Json::Str("0x01".to_string()), Json::Str("0x02".to_string())]),
        ),
    ]);
    let tx = Transaction::AccessList {
        common: legacy_common(),
        access_list: vec![entry],
        y_parity: "0x0".to_string(),
    };
    let msg = envelope(tx);
    let text = serialize_tx_message(&msg);
    assert!(text.contains("\"type\":\"0x1\""));
    match decode_tx_frame(&text) {
        DecodeOutcome::Decoded(m) => match m.params.result.transaction {
            Transaction::AccessList { access_list, y_parity, .. } => {
                assert_eq!(y_parity, "0x0");
                assert_eq!(access_list.len(), 1);
                match &access_list[0] {
                    Json::Obj(ms) => {
                        assert_eq!(ms[0].0, "address");
                        match &ms[0].1 {
                            Json::Str(s) => assert_eq!(s, "0xdead"),
                            _ => panic!("address must stay a string"),
                        }
                    }
                    _ => panic!("access list entry must stay an object"),
                }
            }
            _ => panic!("wrong transaction kind"),
        },
        DecodeOutcome::Raw(_) => panic!("frame did not decode"),
    }
}

#[test]
fn unknown_kind_tag_goes_raw() {
    let msg = envelope(Transaction::Legacy { common: legacy_common() });
    let text = serialize_tx_message(&msg).replace("\"type\":\"0x0\"", "\"type\":\"0x7\"");
    match decode_tx_frame(&text) {
        DecodeOutcome::Raw(s) => assert_eq!(s, text),
        DecodeOutcome::Decoded(_) => panic!("unknown transaction kind must not decode"),
    }
}

#[test]
fn null_to_field_is_absent() {
    let mut common = legacy_common();
    common.to = None;
    let msg = envelope(Transaction::Legacy { common });
    let text = serialize_tx_message(&msg);
    assert!(text.contains("\"to\":null"));
    match decode_tx_frame(&text) {
        DecodeOutcome::Decoded(m) => match m.params.result.transaction {
            Transaction::Legacy { common } => assert!(common.to.is_none()),
            _ => panic!("wrong transaction kind"),
        },
        DecodeOutcome::Raw(_) => panic!("frame did not decode"),
    }
}

#[test]
fn acknowledgement_frame_goes_raw() {
    let ack = "{\"id\":1,\"result\":\"0xbf525752be994fd9d0992b49ca8662cc\",\"jsonrpc\":\"2.0\"}";
    match decode_tx_frame(ack) {
        DecodeOutcome::Raw(s) => assert_eq!(s, ack),
        DecodeOutcome::Decoded(_) => panic!("acknowledgement must not decode"),
    }
}

#[test]
fn truncated_json_goes_raw() {
    let bad = "{\"jsonrpc\":\"2.0\",\"method\":\"eth_subscri";
    match decode_tx_frame(bad) {
        DecodeOutcome::Raw(s) => assert_eq!(s, bad),
        DecodeOutcome::Decoded(_) => panic!("malformed frame must not decode"),
    }
}

#[test]
fn wrong_shape_goes_raw_with_original() {
    let odd = "{\"jsonrpc\":\"2.0\",\"method\":\"eth_subscription\",\"params\":[\"not-an-object\"]}";
    match decode_tx_frame(odd) {
        DecodeOutcome::Raw(s) => assert_eq!(s, odd),
        DecodeOutcome::Decoded(_) => panic!("mismatching frame must not decode"),
    }
}

#[test]
fn json_text_round_trip() {
    let text = "{\"a\":[\"x\",null,true,false],\"b\":{\"c\":\"d\"}}";
    let parsed = parse_text(text).expect("grammar value");
    assert_eq!(print_text(&parsed), text);
}

#[test]
fn json_rejects_blanks_and_numbers() {
    assert!(parse_text("{\"a\": \"b\"}").is_none());
    assert!(parse_text("[1,2]").is_none());
    assert!(parse_text("\"a\\nb\"").is_none());
    assert!(parse_text("").is_none());
    match parse_text("[]") {
        Some(Json::Arr(v)) => assert!(v.is_empty()),
        _ => panic!("empty array is a grammar value"),
    }
}
