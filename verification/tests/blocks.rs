use ethwatch::blocks::{decode_block_frame, parse_ethereum_block, serialize_block_message, BlockParseError};
use ethwatch::records::DecodeOutcome;

fn block_text() -> String {
    "{\"baseFeePerGas\":\"0x7\",\"blobGasUsed\":\"0x0\",\"difficulty\":\"0x0\",\"excessBlobGas\":\"0x0\",\"extraData\":\"0xd883\",\"gasLimit\":\"0x1c9c380\",\"gasUsed\":\"0xa2f1b3\",\"hash\":\"0xheadhash\",\"logsBloom\":\"0x00\",\"miner\":\"0x4838b1\",\"mixHash\":\"0xmix\",\"nonce\":\"0x0000000000000000\",\"number\":\"0x12d687\",\"parentBeaconBlockRoot\":\"0xpbbr\",\"parentHash\":\"0xparent\",\"receiptsRoot\":\"0xrr\",\"sha3Uncles\":\"0x1dcc4d\",\"size\":\"0x2af\",\"stateRoot\":\"0xsr\",\"timestamp\":\"0x66f2\",\"transactionsRoot\":\"0xtr\",\"withdrawals\":[{\"address\":\"0xw1\",\"amount\":\"0x3d\",\"index\":\"0x4e\",\"validatorIndex\":\"0x5f\"}],\"withdrawalsRoot\":\"0xwr\"}"
    .to_string()
}

#[test]
fn parse_block_reads_all_fields() {
    let b = parse_ethereum_block(&block_text()).expect("block must parse");
    assert_eq!(b.base_fee_per_gas, "0x7");
    assert_eq!(b.gas_limit, "0x1c9c380");
    assert_eq!(b.number, "0x12d687");
    assert_eq!(b.timestamp, "0x66f2");
    assert_eq!(b.withdrawals.len(), 1);
    assert_eq!(b.withdrawals[0].address, "0xw1");
    assert_eq!(b.withdrawals[0].amount, "0x3d");
    assert_eq!(b.withdrawals[0].index, "0x4e");
    assert_eq!(b.withdrawals[0].validator_index, "0x5f");
}

#[test]
fn parse_block_classifies_failures() {
    match parse_ethereum_block("{\"baseFeePerGas\":") {
        Err(BlockParseError::NotJson) => {}
        _ => panic!("truncated text is not a grammar value"),
    }
    match parse_ethereum_block("{\"baseFeePerGas\":\"0x7\"}") {
        Err(BlockParseError::SchemaMismatch) => {}
        _ => panic!("an incomplete object is not a block header"),
    }
}

#[test]
fn block_envelope_decodes() {
    let frame = format!(
        "{{\"jsonrpc\":\"2.0\",\"method\":\"eth_subscription\",\"params\":{{\"result\":{},\"subscription\":\"0xsub\"}}}}",
        block_text()
    );
    match decode_block_frame(&frame) {
        DecodeOutcome::Decoded(m) => {
            assert_eq!(m.params.subscription, "0xsub");
            assert_eq!(m.params.result.hash, "0xheadhash");
            assert_eq!(m.params.result.withdrawals.len(), 1);
        }
        DecodeOutcome::Raw(_) => panic!("block envelope must decode"),
    }
}

#[test]
fn block_envelope_missing_field_goes_raw() {
    // a block without a withdrawals array does not match the schema
    let frame = "{\"jsonrpc\":\"2.0\",\"method\":\"eth_subscription\",\"params\":{\"result\":{\"hash\":\"0xh\"},\"subscription\":\"0xsub\"}}";
    match decode_block_frame(frame) {
        DecodeOutcome::Raw(s) => assert_eq!(s, frame),
        DecodeOutcome::Decoded(_) => panic!("incomplete block must not decode"),
    }
}

#[test]
fn block_envelope_round_trip() {
    let frame = format!(
        "{{\"jsonrpc\":\"2.0\",\"method\":\"eth_subscription\",\"params\":{{\"result\":{},\"subscription\":\"0xsub\"}}}}",
        block_text()
    );
    match decode_block_frame(&frame) {
        DecodeOutcome::Decoded(m) => {
            // re-serialising the decoded envelope gives the frame back
            assert_eq!(serialize_block_message(&m), frame);
        }
        DecodeOutcome::Raw(_) => panic!("block envelope must decode"),
    }
}
