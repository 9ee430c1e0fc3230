//! The block-header notification payload and its codec.
//!
//! Mirrors the transaction path: a strict structural decode from the
//! frame grammar, a canonical encoding, and a proof that decoding
//! what was encoded gives the record back unchanged.

use vstd::prelude::*;
use crate::json::{
    Json, JsonV, arr_v, lookup, lemma_lookup_at, str_ok, wf_json, parse_document, print_json,
    parse_text,
};
use crate::records::{
    EnvelopeV, ParamsV, DecodeOutcomeV, WebsocketMessage, WebSocketParams, DecodeOutcome,
    BlockV, WithdrawalV, get_str, get_arr, get_obj, obj_get, get_str_field,
    lemma_envelope_key_facts,
};

verus! {

pub open spec fn wf_withdrawal(w: WithdrawalV) -> bool {
    str_ok(w.address) && str_ok(w.amount) && str_ok(w.index) && str_ok(w.validator_index)
}

pub open spec fn wf_block(b: BlockV) -> bool {
    &&& str_ok(b.base_fee_per_gas)
    &&& str_ok(b.blob_gas_used)
    &&& str_ok(b.difficulty)
    &&& str_ok(b.excess_blob_gas)
    &&& str_ok(b.extra_data)
    &&& str_ok(b.gas_limit)
    &&& str_ok(b.gas_used)
    &&& str_ok(b.hash)
    &&& str_ok(b.logs_bloom)
    &&& str_ok(b.miner)
    &&& str_ok(b.mix_hash)
    &&& str_ok(b.nonce)
    &&& str_ok(b.number)
    &&& str_ok(b.parent_beacon_block_root)
    &&& str_ok(b.parent_hash)
    &&& str_ok(b.receipts_root)
    &&& str_ok(b.sha3_uncles)
    &&& str_ok(b.size)
    &&& str_ok(b.state_root)
    &&& str_ok(b.timestamp)
    &&& str_ok(b.transactions_root)
    &&& str_ok(b.withdrawals_root)
    &&& (forall|i: int| 0 <= i < b.withdrawals.len() ==> wf_withdrawal(#[trigger] b.withdrawals[i]))
}

pub open spec fn wf_block_envelope(e: EnvelopeV<BlockV>) -> bool {
    str_ok(e.jsonrpc) && str_ok(e.method) && str_ok(e.params.subscription) && wf_block(
        e.params.result,
    )
}

pub open spec fn withdrawal_fields(w: WithdrawalV) -> Seq<(Seq<char>, JsonV)> {
    seq![
        ("address"@, JsonV::Str(w.address)),
        ("amount"@, JsonV::Str(w.amount)),
        ("index"@, JsonV::Str(w.index)),
        ("validatorIndex"@, JsonV::Str(w.validator_index)),
    ]
}

pub open spec fn encode_withdrawal(w: WithdrawalV) -> JsonV {
    JsonV::Obj(withdrawal_fields(w))
}

pub open spec fn encode_withdrawals(ws: Seq<WithdrawalV>) -> Seq<JsonV>
    decreases ws.len(),
{
    if ws.len() == 0 {
        Seq::empty()
    } else {
        seq![encode_withdrawal(ws[0])] + encode_withdrawals(ws.drop_first())
    }
}

pub open spec fn block_fields(b: BlockV) -> Seq<(Seq<char>, JsonV)> {
    seq![
        ("baseFeePerGas"@, JsonV::Str(b.base_fee_per_gas)),
        ("blobGasUsed"@, JsonV::Str(b.blob_gas_used)),
        ("difficulty"@, JsonV::Str(b.difficulty)),
        ("excessBlobGas"@, JsonV::Str(b.excess_blob_gas)),
        ("extraData"@, JsonV::Str(b.extra_data)),
        ("gasLimit"@, JsonV::Str(b.gas_limit)),
        ("gasUsed"@, JsonV::Str(b.gas_used)),
        ("hash"@, JsonV::Str(b.hash)),
        ("logsBloom"@, JsonV::Str(b.logs_bloom)),
        ("miner"@, JsonV::Str(b.miner)),
        ("mixHash"@, JsonV::Str(b.mix_hash)),
        ("nonce"@, JsonV::Str(b.nonce)),
        ("number"@, JsonV::Str(b.number)),
        ("parentBeaconBlockRoot"@, JsonV::Str(b.parent_beacon_block_root)),
        ("parentHash"@, JsonV::Str(b.parent_hash)),
        ("receiptsRoot"@, JsonV::Str(b.receipts_root)),
        ("sha3Uncles"@, JsonV::Str(b.sha3_uncles)),
        ("size"@, JsonV::Str(b.size)),
        ("stateRoot"@, JsonV::Str(b.state_root)),
        ("timestamp"@, JsonV::Str(b.timestamp)),
        ("transactionsRoot"@, JsonV::Str(b.transactions_root)),
        ("withdrawals"@, JsonV::Arr(encode_withdrawals(b.withdrawals))),
        ("withdrawalsRoot"@, JsonV::Str(b.withdrawals_root)),
    ]
}

pub open spec fn encode_block(b: BlockV) -> JsonV {
    JsonV::Obj(block_fields(b))
}

pub open spec fn encode_block_envelope(e: EnvelopeV<BlockV>) -> JsonV {
    crate::records::encode_envelope(e.jsonrpc, e.method, e.params.subscription, encode_block(e.params.result))
}

pub open spec fn decode_withdrawal(j: JsonV) -> Option<WithdrawalV> {
    match j {
        JsonV::Obj(ms) => {
            if get_str(ms, "address"@) is Some && get_str(ms, "amount"@) is Some && get_str(ms, "index"@) is Some && get_str(ms, "validatorIndex"@) is Some {
                Some(WithdrawalV {
                    address: get_str(ms, "address"@).unwrap(),
                    amount: get_str(ms, "amount"@).unwrap(),
                    index: get_str(ms, "index"@).unwrap(),
                    validator_index: get_str(ms, "validatorIndex"@).unwrap(),
                })
            } else {
                None
            }
        },
        _ => None,
    }
}

pub open spec fn decode_withdrawals(a: Seq<JsonV>) -> Option<Seq<WithdrawalV>>
    decreases a.len(),
{
    if a.len() == 0 {
        Some(Seq::empty())
    } else {
        match (decode_withdrawal(a[0]), decode_withdrawals(a.drop_first())) {
            (Some(w), Some(rest)) => Some(seq![w] + rest),
            _ => None,
        }
    }
}

pub open spec fn decode_block(j: JsonV) -> Option<BlockV> {
    match j {
        JsonV::Obj(ms) => {
            if get_str(ms, "baseFeePerGas"@) is Some && get_str(ms, "blobGasUsed"@) is Some && get_str(ms, "difficulty"@) is Some && get_str(ms, "excessBlobGas"@) is Some && get_str(ms, "extraData"@) is Some && get_str(ms, "gasLimit"@) is Some && get_str(ms, "gasUsed"@) is Some && get_str(ms, "hash"@) is Some && get_str(ms, "logsBloom"@) is Some && get_str(ms, "miner"@) is Some && get_str(ms, "mixHash"@) is Some && get_str(ms, "nonce"@) is Some && get_str(ms, "number"@) is Some && get_str(ms, "parentBeaconBlockRoot"@) is Some && get_str(ms, "parentHash"@) is Some && get_str(ms, "receiptsRoot"@) is Some && get_str(ms, "sha3Uncles"@) is Some && get_str(ms, "size"@) is Some && get_str(ms, "stateRoot"@) is Some && get_str(ms, "timestamp"@) is Some && get_str(ms, "transactionsRoot"@) is Some && get_str(ms, "withdrawalsRoot"@) is Some && get_arr(ms, "withdrawals"@) is Some {
                match decode_withdrawals(get_arr(ms, "withdrawals"@).unwrap()) {
                    Some(ws) => Some(BlockV {
                        base_fee_per_gas: get_str(ms, "baseFeePerGas"@).unwrap(),
                        blob_gas_used: get_str(ms, "blobGasUsed"@).unwrap(),
                        difficulty: get_str(ms, "difficulty"@).unwrap(),
                        excess_blob_gas: get_str(ms, "excessBlobGas"@).unwrap(),
                        extra_data: get_str(ms, "extraData"@).unwrap(),
                        gas_limit: get_str(ms, "gasLimit"@).unwrap(),
                        gas_used: get_str(ms, "gasUsed"@).unwrap(),
                        hash: get_str(ms, "hash"@).unwrap(),
                        logs_bloom: get_str(ms, "logsBloom"@).unwrap(),
                        miner: get_str(ms, "miner"@).unwrap(),
                        mix_hash: get_str(ms, "mixHash"@).unwrap(),
                        nonce: get_str(ms, "nonce"@).unwrap(),
                        number: get_str(ms, "number"@).unwrap(),
                        parent_beacon_block_root: get_str(ms, "parentBeaconBlockRoot"@).unwrap(),
                        parent_hash: get_str(ms, "parentHash"@).unwrap(),
                        receipts_root: get_str(ms, "receiptsRoot"@).unwrap(),
                        sha3_uncles: get_str(ms, "sha3Uncles"@).unwrap(),
                        size: get_str(ms, "size"@).unwrap(),
                        state_root: get_str(ms, "stateRoot"@).unwrap(),
                        timestamp: get_str(ms, "timestamp"@).unwrap(),
                        transactions_root: get_str(ms, "transactionsRoot"@).unwrap(),
                        withdrawals: ws,
                        withdrawals_root: get_str(ms, "withdrawalsRoot"@).unwrap(),
                    }),
                    None => None,
                }
            } else {
                None
            }
        },
        _ => None,
    }
}

pub open spec fn decode_block_envelope(j: JsonV) -> Option<EnvelopeV<BlockV>> {
    match j {
        JsonV::Obj(ms) => match (
            get_str(ms, "jsonrpc"@),
            get_str(ms, "method"@),
            get_obj(ms, "params"@),
        ) {
            (Some(jsonrpc), Some(method), Some(ps)) => match (
                lookup(ps, "result"@),
                get_str(ps, "subscription"@),
            ) {
                (Some(rj), Some(subscription)) => match decode_block(rj) {
                    Some(result) => Some(
                        EnvelopeV { jsonrpc, method, params: ParamsV { result, subscription } },
                    ),
                    None => None,
                },
                _ => None,
            },
            _ => None,
        },
        _ => None,
    }
}

/// Lengths and first characters of the block and withdrawal keys.
proof fn lemma_block_key_facts()
    ensures
        "baseFeePerGas"@.len() == 13 && "baseFeePerGas"@[0] == 'b' && str_ok("baseFeePerGas"@),
        "blobGasUsed"@.len() == 11 && "blobGasUsed"@[0] == 'b' && str_ok("blobGasUsed"@),
        "difficulty"@.len() == 10 && "difficulty"@[0] == 'd' && str_ok("difficulty"@),
        "excessBlobGas"@.len() == 13 && "excessBlobGas"@[0] == 'e' && str_ok("excessBlobGas"@),
        "extraData"@.len() == 9 && "extraData"@[0] == 'e' && str_ok("extraData"@),
        "gasLimit"@.len() == 8 && "gasLimit"@[0] == 'g' && str_ok("gasLimit"@),
        "gasUsed"@.len() == 7 && "gasUsed"@[0] == 'g' && str_ok("gasUsed"@),
        "hash"@.len() == 4 && "hash"@[0] == 'h' && str_ok("hash"@),
        "logsBloom"@.len() == 9 && "logsBloom"@[0] == 'l' && str_ok("logsBloom"@),
        "miner"@.len() == 5 && "miner"@[0] == 'm' && str_ok("miner"@),
        "mixHash"@.len() == 7 && "mixHash"@[0] == 'm' && str_ok("mixHash"@),
        "nonce"@.len() == 5 && "nonce"@[0] == 'n' && str_ok("nonce"@),
        "number"@.len() == 6 && "number"@[0] == 'n' && str_ok("number"@),
        "parentBeaconBlockRoot"@.len() == 21 && "parentBeaconBlockRoot"@[0] == 'p' && str_ok("parentBeaconBlockRoot"@),
        "parentHash"@.len() == 10 && "parentHash"@[0] == 'p' && str_ok("parentHash"@),
        "receiptsRoot"@.len() == 12 && "receiptsRoot"@[0] == 'r' && str_ok("receiptsRoot"@),
        "sha3Uncles"@.len() == 10 && "sha3Uncles"@[0] == 's' && str_ok("sha3Uncles"@),
        "size"@.len() == 4 && "size"@[0] == 's' && str_ok("size"@),
        "stateRoot"@.len() == 9 && "stateRoot"@[0] == 's' && str_ok("stateRoot"@),
        "timestamp"@.len() == 9 && "timestamp"@[0] == 't' && str_ok("timestamp"@),
        "transactionsRoot"@.len() == 16 && "transactionsRoot"@[0] == 't' && str_ok("transactionsRoot"@),
        "withdrawals"@.len() == 11 && "withdrawals"@[0] == 'w' && str_ok("withdrawals"@),
        "withdrawalsRoot"@.len() == 15 && "withdrawalsRoot"@[0] == 'w' && str_ok("withdrawalsRoot"@),
        "address"@.len() == 7 && "address"@[0] == 'a' && str_ok("address"@),
        "amount"@.len() == 6 && "amount"@[0] == 'a' && str_ok("amount"@),
        "index"@.len() == 5 && "index"@[0] == 'i' && str_ok("index"@),
        "validatorIndex"@.len() == 14 && "validatorIndex"@[0] == 'v' && str_ok("validatorIndex"@),
{
    reveal_strlit("baseFeePerGas");
    reveal_strlit("blobGasUsed");
    reveal_strlit("difficulty");
    reveal_strlit("excessBlobGas");
    reveal_strlit("extraData");
    reveal_strlit("gasLimit");
    reveal_strlit("gasUsed");
    reveal_strlit("hash");
    reveal_strlit("logsBloom");
    reveal_strlit("miner");
    reveal_strlit("mixHash");
    reveal_strlit("nonce");
    reveal_strlit("number");
    reveal_strlit("parentBeaconBlockRoot");
    reveal_strlit("parentHash");
    reveal_strlit("receiptsRoot");
    reveal_strlit("sha3Uncles");
    reveal_strlit("size");
    reveal_strlit("stateRoot");
    reveal_strlit("timestamp");
    reveal_strlit("transactionsRoot");
    reveal_strlit("withdrawals");
    reveal_strlit("withdrawalsRoot");
    reveal_strlit("address");
    reveal_strlit("amount");
    reveal_strlit("index");
    reveal_strlit("validatorIndex");
}

proof fn lemma_withdrawal_round_trip(w: WithdrawalV)
    requires
        wf_withdrawal(w),
    ensures
        decode_withdrawal(encode_withdrawal(w)) == Some(w),
{
    lemma_block_key_facts();
    let ms = withdrawal_fields(w);
    assert(ms[0] == ("address"@, JsonV::Str(w.address)));
    assert(ms[1] == ("amount"@, JsonV::Str(w.amount)));
    assert(ms[2] == ("index"@, JsonV::Str(w.index)));
    assert(ms[3] == ("validatorIndex"@, JsonV::Str(w.validator_index)));
    lemma_lookup_at(ms, 0);
    assert(forall|q: int| 0 <= q < 1 ==> (#[trigger] ms[q]).0 != ms[1].0);
    lemma_lookup_at(ms, 1);
    assert(forall|q: int| 0 <= q < 2 ==> (#[trigger] ms[q]).0 != ms[2].0);
    lemma_lookup_at(ms, 2);
    assert(forall|q: int| 0 <= q < 3 ==> (#[trigger] ms[q]).0 != ms[3].0);
    lemma_lookup_at(ms, 3);
}

proof fn lemma_withdrawals_round_trip(ws: Seq<WithdrawalV>)
    requires
        forall|i: int| 0 <= i < ws.len() ==> wf_withdrawal(#[trigger] ws[i]),
    ensures
        decode_withdrawals(encode_withdrawals(ws)) == Some(ws),
    decreases ws.len(),
{
    let a = encode_withdrawals(ws);
    if ws.len() == 0 {
        assert(a.len() == 0);
        assert(decode_withdrawals(a).unwrap() =~= ws);
    } else {
        lemma_withdrawal_round_trip(ws[0]);
        lemma_withdrawals_round_trip(ws.drop_first());
        assert(a[0] == encode_withdrawal(ws[0]));
        assert(a.drop_first() =~= encode_withdrawals(ws.drop_first()));
        assert(seq![ws[0]] + ws.drop_first() =~= ws);
    }
}

#[verifier::rlimit(100)]
pub proof fn lemma_block_round_trip(b: BlockV)
    requires
        wf_block(b),
    ensures
        decode_block(encode_block(b)) == Some(b),
{
    lemma_block_key_facts();
    let ms = block_fields(b);
    assert(ms[0] == ("baseFeePerGas"@, JsonV::Str(b.base_fee_per_gas)));
    assert(ms[1] == ("blobGasUsed"@, JsonV::Str(b.blob_gas_used)));
    assert(ms[2] == ("difficulty"@, JsonV::Str(b.difficulty)));
    assert(ms[3] == ("excessBlobGas"@, JsonV::Str(b.excess_blob_gas)));
    assert(ms[4] == ("extraData"@, JsonV::Str(b.extra_data)));
    assert(ms[5] == ("gasLimit"@, JsonV::Str(b.gas_limit)));
    assert(ms[6] == ("gasUsed"@, JsonV::Str(b.gas_used)));
    assert(ms[7] == ("hash"@, JsonV::Str(b.hash)));
    assert(ms[8] == ("logsBloom"@, JsonV::Str(b.logs_bloom)));
    assert(ms[9] == ("miner"@, JsonV::Str(b.miner)));
    assert(ms[10] == ("mixHash"@, JsonV::Str(b.mix_hash)));
    assert(ms[11] == ("nonce"@, JsonV::Str(b.nonce)));
    assert(ms[12] == ("number"@, JsonV::Str(b.number)));
    assert(ms[13] == ("parentBeaconBlockRoot"@, JsonV::Str(b.parent_beacon_block_root)));
    assert(ms[14] == ("parentHash"@, JsonV::Str(b.parent_hash)));
    assert(ms[15] == ("receiptsRoot"@, JsonV::Str(b.receipts_root)));
    assert(ms[16] == ("sha3Uncles"@, JsonV::Str(b.sha3_uncles)));
    assert(ms[17] == ("size"@, JsonV::Str(b.size)));
    assert(ms[18] == ("stateRoot"@, JsonV::Str(b.state_root)));
    assert(ms[19] == ("timestamp"@, JsonV::Str(b.timestamp)));
    assert(ms[20] == ("transactionsRoot"@, JsonV::Str(b.transactions_root)));
    assert(ms[21] == ("withdrawals"@, JsonV::Arr(encode_withdrawals(b.withdrawals))));
    assert(ms[22] == ("withdrawalsRoot"@, JsonV::Str(b.withdrawals_root)));
    lemma_lookup_at(ms, 0);
    assert(forall|q: int| 0 <= q < 1 ==> (#[trigger] ms[q]).0 != ms[1].0);
    lemma_lookup_at(ms, 1);
    assert(forall|q: int| 0 <= q < 2 ==> (#[trigger] ms[q]).0 != ms[2].0);
    lemma_lookup_at(ms, 2);
    assert(forall|q: int| 0 <= q < 3 ==> (#[trigger] ms[q]).0 != ms[3].0);
    lemma_lookup_at(ms, 3);
    assert(forall|q: int| 0 <= q < 4 ==> (#[trigger] ms[q]).0 != ms[4].0);
    lemma_lookup_at(ms, 4);
    assert(forall|q: int| 0 <= q < 5 ==> (#[trigger] ms[q]).0 != ms[5].0);
    lemma_lookup_at(ms, 5);
    assert(forall|q: int| 0 <= q < 6 ==> (#[trigger] ms[q]).0 != ms[6].0);
    lemma_lookup_at(ms, 6);
    assert(forall|q: int| 0 <= q < 7 ==> (#[trigger] ms[q]).0 != ms[7].0);
    lemma_lookup_at(ms, 7);
    assert(forall|q: int| 0 <= q < 8 ==> (#[trigger] ms[q]).0 != ms[8].0);
    lemma_lookup_at(ms, 8);
    assert(forall|q: int| 0 <= q < 9 ==> (#[trigger] ms[q]).0 != ms[9].0);
    lemma_lookup_at(ms, 9);
    assert(forall|q: int| 0 <= q < 10 ==> (#[trigger] ms[q]).0 != ms[10].0);
    lemma_lookup_at(ms, 10);
    assert(forall|q: int| 0 <= q < 11 ==> (#[trigger] ms[q]).0 != ms[11].0);
    lemma_lookup_at(ms, 11);
    assert(forall|q: int| 0 <= q < 12 ==> (#[trigger] ms[q]).0 != ms[12].0);
    lemma_lookup_at(ms, 12);
    assert(forall|q: int| 0 <= q < 13 ==> (#[trigger] ms[q]).0 != ms[13].0);
    lemma_lookup_at(ms, 13);
    assert(forall|q: int| 0 <= q < 14 ==> (#[trigger] ms[q]).0 != ms[14].0);
    lemma_lookup_at(ms, 14);
    assert(forall|q: int| 0 <= q < 15 ==> (#[trigger] ms[q]).0 != ms[15].0);
    lemma_lookup_at(ms, 15);
    assert(forall|q: int| 0 <= q < 16 ==> (#[trigger] ms[q]).0 != ms[16].0);
    lemma_lookup_at(ms, 16);
    assert(forall|q: int| 0 <= q < 17 ==> (#[trigger] ms[q]).0 != ms[17].0);
    lemma_lookup_at(ms, 17);
    assert(forall|q: int| 0 <= q < 18 ==> (#[trigger] ms[q]).0 != ms[18].0);
    lemma_lookup_at(ms, 18);
    assert(forall|q: int| 0 <= q < 19 ==> (#[trigger] ms[q]).0 != ms[19].0);
    lemma_lookup_at(ms, 19);
    assert(forall|q: int| 0 <= q < 20 ==> (#[trigger] ms[q]).0 != ms[20].0);
    lemma_lookup_at(ms, 20);
    assert(forall|q: int| 0 <= q < 21 ==> (#[trigger] ms[q]).0 != ms[21].0);
    lemma_lookup_at(ms, 21);
    assert(forall|q: int| 0 <= q < 22 ==> (#[trigger] ms[q]).0 != ms[22].0);
    lemma_lookup_at(ms, 22);
    lemma_withdrawals_round_trip(b.withdrawals);
    assert(decode_block(encode_block(b)).unwrap() =~~= b);
}

/// The block envelope survives the codec.
pub proof fn lemma_block_envelope_round_trip(e: EnvelopeV<BlockV>)
    requires
        wf_block_envelope(e),
    ensures
        decode_block_envelope(encode_block_envelope(e)) == Some(e),
{
    lemma_envelope_key_facts();
    let ps = seq![
        ("result"@, encode_block(e.params.result)),
        ("subscription"@, JsonV::Str(e.params.subscription)),
    ];
    let ms = seq![
        ("jsonrpc"@, JsonV::Str(e.jsonrpc)),
        ("method"@, JsonV::Str(e.method)),
        ("params"@, JsonV::Obj(ps)),
    ];
    assert(ms[0] == ("jsonrpc"@, JsonV::Str(e.jsonrpc)));
    assert(ms[1] == ("method"@, JsonV::Str(e.method)));
    assert(ms[2] == ("params"@, JsonV::Obj(ps)));
    lemma_lookup_at(ms, 0);
    assert(forall|q: int| 0 <= q < 1 ==> (#[trigger] ms[q]).0 != ms[1].0);
    lemma_lookup_at(ms, 1);
    assert(forall|q: int| 0 <= q < 2 ==> (#[trigger] ms[q]).0 != ms[2].0);
    lemma_lookup_at(ms, 2);
    assert(ps[0] == ("result"@, encode_block(e.params.result)));
    assert(ps[1] == ("subscription"@, JsonV::Str(e.params.subscription)));
    lemma_lookup_at(ps, 0);
    assert(forall|q: int| 0 <= q < 1 ==> (#[trigger] ps[q]).0 != ps[1].0);
    lemma_lookup_at(ps, 1);
    lemma_block_round_trip(e.params.result);
    assert(decode_block_envelope(encode_block_envelope(e)).unwrap() =~~= e);
}

proof fn lemma_encode_withdrawals_wf(ws: Seq<WithdrawalV>)
    requires
        forall|i: int| 0 <= i < ws.len() ==> wf_withdrawal(#[trigger] ws[i]),
    ensures
        forall|i: int|
            0 <= i < encode_withdrawals(ws).len() ==> wf_json(#[trigger] encode_withdrawals(ws)[i]),
        encode_withdrawals(ws).len() == ws.len(),
    decreases ws.len(),
{
    lemma_block_key_facts();
    let a = encode_withdrawals(ws);
    if ws.len() > 0 {
        lemma_encode_withdrawals_wf(ws.drop_first());
        let wms = withdrawal_fields(ws[0]);
        assert forall|i: int| 0 <= i < wms.len() implies str_ok((#[trigger] wms[i]).0) && wf_json(
            wms[i].1,
        ) by {}
        assert(wf_json(a[0]));
        assert forall|i: int| 0 <= i < a.len() implies wf_json(#[trigger] a[i]) by {
            if i > 0 {
                assert(a[i] == encode_withdrawals(ws.drop_first())[i - 1]);
            }
        }
    }
}

#[verifier::rlimit(100)]
pub proof fn lemma_encode_block_envelope_wf(e: EnvelopeV<BlockV>)
    requires
        wf_block_envelope(e),
    ensures
        wf_json(encode_block_envelope(e)),
{
    lemma_block_key_facts();
    lemma_envelope_key_facts();
    let b = e.params.result;
    lemma_encode_withdrawals_wf(b.withdrawals);
    let bms = block_fields(b);
    assert forall|i: int| 0 <= i < bms.len() implies str_ok((#[trigger] bms[i]).0) && wf_json(
        bms[i].1,
    ) by {}
    assert(wf_json(encode_block(b)));
    let ps = seq![
        ("result"@, encode_block(b)),
        ("subscription"@, JsonV::Str(e.params.subscription)),
    ];
    assert forall|i: int| 0 <= i < ps.len() implies str_ok((#[trigger] ps[i]).0) && wf_json(
        ps[i].1,
    ) by {}
    let ms = seq![
        ("jsonrpc"@, JsonV::Str(e.jsonrpc)),
        ("method"@, JsonV::Str(e.method)),
        ("params"@, JsonV::Obj(ps)),
    ];
    assert forall|i: int| 0 <= i < ms.len() implies str_ok((#[trigger] ms[i]).0) && wf_json(
        ms[i].1,
    ) by {}
    assert(wf_json(encode_block_envelope(e)));
}

/// The decode-or-passthrough policy for block-header frames.
pub open spec fn decode_block_frame_spec(s: Seq<char>) -> DecodeOutcomeV<BlockV> {
    match parse_document(s) {
        None => DecodeOutcomeV::Raw(s),
        Some(j) => match decode_block_envelope(j) {
            None => DecodeOutcomeV::Raw(s),
            Some(e) => DecodeOutcomeV::Decoded(e),
        },
    }
}

/// The canonical wire text of a block-header envelope.
pub open spec fn serialize_block_envelope(e: EnvelopeV<BlockV>) -> Seq<char> {
    print_json(encode_block_envelope(e))
}

/// Decoding is lossless for block-header frames too.
pub proof fn lemma_block_decode_lossless(e: EnvelopeV<BlockV>)
    requires
        wf_block_envelope(e),
    ensures
        decode_block_frame_spec(serialize_block_envelope(e)) == DecodeOutcomeV::<BlockV>::Decoded(e),
{
    lemma_encode_block_envelope_wf(e);
    crate::json::lemma_print_parse_round_trip(encode_block_envelope(e));
    lemma_block_envelope_round_trip(e);
}

// ---------------------------------------------------------------
// Executable records
// ---------------------------------------------------------------

/// One staking withdrawal inside a block header.
pub struct Withdrawal {
    pub address: String,
    pub amount: String,
    pub index: String,
    pub validator_index: String,
}

/// One block header; hexadecimal strings kept exactly as transmitted.
pub struct EthereumBlock {
    pub base_fee_per_gas: String,
    pub blob_gas_used: String,
    pub difficulty: String,
    pub excess_blob_gas: String,
    pub extra_data: String,
    pub gas_limit: String,
    pub gas_used: String,
    pub hash: String,
    pub logs_bloom: String,
    pub miner: String,
    pub mix_hash: String,
    pub nonce: String,
    pub number: String,
    pub parent_beacon_block_root: String,
    pub parent_hash: String,
    pub receipts_root: String,
    pub sha3_uncles: String,
    pub size: String,
    pub state_root: String,
    pub timestamp: String,
    pub transactions_root: String,
    pub withdrawals: Vec<Withdrawal>,
    pub withdrawals_root: String,
}

impl Withdrawal {
    pub open spec fn model(self) -> WithdrawalV {
        WithdrawalV {
            address: self.address@,
            amount: self.amount@,
            index: self.index@,
            validator_index: self.validator_index@,
        }
    }
}

pub open spec fn withdrawals_v(ws: Seq<Withdrawal>) -> Seq<WithdrawalV>
    decreases ws,
{
    if ws.len() == 0 {
        Seq::empty()
    } else {
        seq![ws[0].model()] + withdrawals_v(ws.drop_first())
    }
}

pub broadcast proof fn lemma_withdrawals_v_props(ws: Seq<Withdrawal>)
    ensures
        (#[trigger] withdrawals_v(ws)).len() == ws.len(),
        forall|i: int| 0 <= i < ws.len() ==> withdrawals_v(ws)[i] == ws[i].model(),
    decreases ws,
{
    if ws.len() > 0 {
        lemma_withdrawals_v_props(ws.drop_first());
        assert forall|i: int| 0 <= i < ws.len() implies withdrawals_v(ws)[i] == ws[i].model() by {
            if i > 0 {
                assert(withdrawals_v(ws)[i] == withdrawals_v(ws.drop_first())[i - 1]);
                assert(ws.drop_first()[i - 1] == ws[i]);
            }
        }
    }
}

impl EthereumBlock {
    pub open spec fn model(self) -> BlockV {
        BlockV {
            base_fee_per_gas: self.base_fee_per_gas@,
            blob_gas_used: self.blob_gas_used@,
            difficulty: self.difficulty@,
            excess_blob_gas: self.excess_blob_gas@,
            extra_data: self.extra_data@,
            gas_limit: self.gas_limit@,
            gas_used: self.gas_used@,
            hash: self.hash@,
            logs_bloom: self.logs_bloom@,
            miner: self.miner@,
            mix_hash: self.mix_hash@,
            nonce: self.nonce@,
            number: self.number@,
            parent_beacon_block_root: self.parent_beacon_block_root@,
            parent_hash: self.parent_hash@,
            receipts_root: self.receipts_root@,
            sha3_uncles: self.sha3_uncles@,
            size: self.size@,
            state_root: self.state_root@,
            timestamp: self.timestamp@,
            transactions_root: self.transactions_root@,
            withdrawals: withdrawals_v(self.withdrawals@),
            withdrawals_root: self.withdrawals_root@,
        }
    }
}

impl WebsocketMessage<EthereumBlock> {
    pub open spec fn model(self) -> EnvelopeV<BlockV> {
        EnvelopeV {
            jsonrpc: self.jsonrpc@,
            method: self.method@,
            params: ParamsV {
                result: self.params.result.model(),
                subscription: self.params.subscription@,
            },
        }
    }
}

impl DecodeOutcome<EthereumBlock> {
    pub open spec fn model(self) -> DecodeOutcomeV<BlockV> {
        match self {
            DecodeOutcome::Decoded(m) => DecodeOutcomeV::Decoded(m.model()),
            DecodeOutcome::Raw(s) => DecodeOutcomeV::Raw(s@),
        }
    }
}

fn decode_withdrawal_exec(j: &Json) -> (r: Option<Withdrawal>)
    ensures
        match r {
            Some(w) => decode_withdrawal(j.v()) == Some(w.model()),
            None => decode_withdrawal(j.v()) is None,
        },
{
    let ms = match j {
        Json::Obj(ms) => ms,
        _ => {
            return None;
        }
    };
    let address = match get_str_field(ms, &String::from_str("address")) {
        Some(x) => x,
        None => {
            return None;
        }
    };
    let amount = match get_str_field(ms, &String::from_str("amount")) {
        Some(x) => x,
        None => {
            return None;
        }
    };
    let index = match get_str_field(ms, &String::from_str("index")) {
        Some(x) => x,
        None => {
            return None;
        }
    };
    let validator_index = match get_str_field(ms, &String::from_str("validatorIndex")) {
        Some(x) => x,
        None => {
            return None;
        }
    };
    Some(Withdrawal { address, amount, index, validator_index })
}

fn decode_withdrawals_exec(a: &Vec<Json>, k: usize) -> (r: Option<Vec<Withdrawal>>)
    requires
        k <= a.len(),
    ensures
        match r {
            Some(ws) => decode_withdrawals(arr_v(a@).skip(k as int)) == Some(withdrawals_v(ws@)),
            None => decode_withdrawals(arr_v(a@).skip(k as int)) is None,
        },
    decreases a.len() - k,
{
    proof {
        broadcast use crate::json::lemma_arr_v_props;
        broadcast use lemma_withdrawals_v_props;

    }
    if k == a.len() {
        let out: Vec<Withdrawal> = Vec::new();
        proof {
            assert(arr_v(a@).skip(k as int) =~= Seq::<JsonV>::empty());
            assert(withdrawals_v(out@) =~= Seq::<WithdrawalV>::empty());
        }
        return Some(out);
    }
    proof {
        assert(arr_v(a@).skip(k as int)[0] == a@[k as int].v());
        assert(arr_v(a@).skip(k as int).drop_first() =~= arr_v(a@).skip(k as int + 1));
    }
    let w = match decode_withdrawal_exec(&a[k]) {
        Some(x) => x,
        None => {
            return None;
        }
    };
    let rest = match decode_withdrawals_exec(a, k + 1) {
        Some(x) => x,
        None => {
            return None;
        }
    };
    let mut out: Vec<Withdrawal> = Vec::new();
    out.push(w);
    let mut rest = rest;
    let ghost restv = rest@;
    out.append(&mut rest);
    proof {
        broadcast use lemma_withdrawals_v_props;

        assert(out@.drop_first() =~= restv);
        assert(withdrawals_v(out@) =~= seq![out@[0].model()] + withdrawals_v(restv));
    }
    Some(out)
}

/// Strict structural decode of one block-header object.
fn decode_block_exec(j: &Json) -> (r: Option<EthereumBlock>)
    ensures
        match r {
            Some(b) => decode_block(j.v()) == Some(b.model()),
            None => decode_block(j.v()) is None,
        },
{
    let ms = match j {
        Json::Obj(ms) => ms,
        _ => {
            return None;
        }
    };
    let base_fee_per_gas = match get_str_field(ms, &String::from_str("baseFeePerGas")) {
        Some(x) => x,
        None => {
            return None;
        }
    };
    let blob_gas_used = match get_str_field(ms, &String::from_str("blobGasUsed")) {
        Some(x) => x,
        None => {
            return None;
        }
    };
    let difficulty = match get_str_field(ms, &String::from_str("difficulty")) {
        Some(x) => x,
        None => {
            return None;
        }
    };
    let excess_blob_gas = match get_str_field(ms, &String::from_str("excessBlobGas")) {
        Some(x) => x,
        None => {
            return None;
        }
    };
    let extra_data = match get_str_field(ms, &String::from_str("extraData")) {
        Some(x) => x,
        None => {
            return None;
        }
    };
    let gas_limit = match get_str_field(ms, &String::from_str("gasLimit")) {
        Some(x) => x,
        None => {
            return None;
        }
    };
    let gas_used = match get_str_field(ms, &String::from_str("gasUsed")) {
        Some(x) => x,
        None => {
            return None;
        }
    };
    let hash = match get_str_field(ms, &String::from_str("hash")) {
        Some(x) => x,
        None => {
            return None;
        }
    };
    let logs_bloom = match get_str_field(ms, &String::from_str("logsBloom")) {
        Some(x) => x,
        None => {
            return None;
        }
    };
    let miner = match get_str_field(ms, &String::from_str("miner")) {
        Some(x) => x,
        None => {
            return None;
        }
    };
    let mix_hash = match get_str_field(ms, &String::from_str("mixHash")) {
        Some(x) => x,
        None => {
            return None;
        }
    };
    let nonce = match get_str_field(ms, &String::from_str("nonce")) {
        Some(x) => x,
        None => {
            return None;
        }
    };
    let number = match get_str_field(ms, &String::from_str("number")) {
        Some(x) => x,
        None => {
            return None;
        }
    };
    let parent_beacon_block_root = match get_str_field(ms, &String::from_str("parentBeaconBlockRoot")) {
        Some(x) => x,
        None => {
            return None;
        }
    };
    let parent_hash = match get_str_field(ms, &String::from_str("parentHash")) {
        Some(x) => x,
        None => {
            return None;
        }
    };
    let receipts_root = match get_str_field(ms, &String::from_str("receiptsRoot")) {
        Some(x) => x,
        None => {
            return None;
        }
    };
    let sha3_uncles = match get_str_field(ms, &String::from_str("sha3Uncles")) {
        Some(x) => x,
        None => {
            return None;
        }
    };
    let size = match get_str_field(ms, &String::from_str("size")) {
        Some(x) => x,
        None => {
            return None;
        }
    };
    let state_root = match get_str_field(ms, &String::from_str("stateRoot")) {
        Some(x) => x,
        None => {
            return None;
        }
    };
    let timestamp = match get_str_field(ms, &String::from_str("timestamp")) {
        Some(x) => x,
        None => {
            return None;
        }
    };
    let transactions_root = match get_str_field(ms, &String::from_str("transactionsRoot")) {
        Some(x) => x,
        None => {
            return None;
        }
    };
    let withdrawals_root = match get_str_field(ms, &String::from_str("withdrawalsRoot")) {
        Some(x) => x,
        None => {
            return None;
        }
    };
    let warr = match crate::records::get_arr_field(ms, &String::from_str("withdrawals")) {
        Some(x) => x,
        None => {
            return None;
        }
    };
    let withdrawals = match decode_withdrawals_exec(&warr, 0) {
        Some(x) => x,
        None => {
            proof {
                assert(arr_v(warr@).skip(0) =~= arr_v(warr@));
            }
            return None;
        }
    };
    proof {
        assert(arr_v(warr@).skip(0) =~= arr_v(warr@));
    }
    Some(EthereumBlock { base_fee_per_gas, blob_gas_used, difficulty, excess_blob_gas, extra_data, gas_limit, gas_used, hash, logs_bloom, miner, mix_hash, nonce, number, parent_beacon_block_root, parent_hash, receipts_root, sha3_uncles, size, state_root, timestamp, transactions_root, withdrawals, withdrawals_root })
}

fn decode_block_envelope_exec(j: &Json) -> (r: Option<WebsocketMessage<EthereumBlock>>)
    ensures
        match r {
            Some(m) => decode_block_envelope(j.v()) == Some(m.model()),
            None => decode_block_envelope(j.v()) is None,
        },
{
    let ms = match j {
        Json::Obj(ms) => ms,
        _ => {
            return None;
        }
    };
    let jsonrpc = match get_str_field(ms, &String::from_str("jsonrpc")) {
        Some(x) => x,
        None => {
            return None;
        }
    };
    let method = match get_str_field(ms, &String::from_str("method")) {
        Some(x) => x,
        None => {
            return None;
        }
    };
    let ps = match obj_get(ms, &String::from_str("params")) {
        Some(Json::Obj(ps)) => ps,
        _ => {
            return None;
        }
    };
    let rj = match obj_get(ps, &String::from_str("result")) {
        Some(x) => x,
        None => {
            return None;
        }
    };
    let subscription = match get_str_field(ps, &String::from_str("subscription")) {
        Some(x) => x,
        None => {
            return None;
        }
    };
    let result = match decode_block_exec(rj) {
        Some(x) => x,
        None => {
            return None;
        }
    };
    Some(
        WebsocketMessage {
            jsonrpc,
            method,
            params: WebSocketParams { result, subscription },
        },
    )
}

/// Decode-or-passthrough for one block-header frame.
pub fn decode_block_frame(text: &str) -> (r: DecodeOutcome<EthereumBlock>)
    ensures
        r.model() == decode_block_frame_spec(text@),
{
    match parse_text(text) {
        None => DecodeOutcome::Raw(text.to_owned()),
        Some(j) => match decode_block_envelope_exec(&j) {
            None => DecodeOutcome::Raw(text.to_owned()),
            Some(m) => DecodeOutcome::Decoded(m),
        },
    }
}

/// Why a text was not a block header.
#[derive(Debug)]
pub enum BlockParseError {
    /// The text is not a value of the frame grammar.
    NotJson,
    /// The text is a value, but not of the block-header shape.
    SchemaMismatch,
}

/// Parses one bare block-header object (not wrapped in an envelope).
/// Returns `Ok` exactly when the text is a frame-grammar value of the
/// block-header shape.
pub fn parse_ethereum_block(json_str: &str) -> (r: Result<EthereumBlock, BlockParseError>)
    ensures
        match r {
            Ok(b) => parse_document(json_str@) is Some && decode_block(
                parse_document(json_str@).unwrap(),
            ) == Some(b.model()),
            Err(BlockParseError::NotJson) => parse_document(json_str@) is None,
            Err(BlockParseError::SchemaMismatch) => parse_document(json_str@) is Some
                && decode_block(parse_document(json_str@).unwrap()) is None,
        },
{
    match parse_text(json_str) {
        None => Err(BlockParseError::NotJson),
        Some(j) => match decode_block_exec(&j) {
            None => Err(BlockParseError::SchemaMismatch),
            Some(b) => Ok(b),
        },
    }
}

// ---------------------------------------------------------------
// Executable encoding
// ---------------------------------------------------------------

fn encode_withdrawal_exec(w: &Withdrawal) -> (j: Json)
    ensures
        j.v() == encode_withdrawal(w.model()),
{
    let mut out: Vec<(String, Json)> = Vec::new();
    out.push((String::from_str("address"), Json::Str(w.address.clone())));
    out.push((String::from_str("amount"), Json::Str(w.amount.clone())));
    out.push((String::from_str("index"), Json::Str(w.index.clone())));
    out.push((String::from_str("validatorIndex"), Json::Str(w.validator_index.clone())));
    proof {
        broadcast use crate::json::lemma_obj_v_props;

        assert(crate::json::obj_v(out@) =~= withdrawal_fields(w.model()));
    }
    Json::Obj(out)
}

fn encode_withdrawals_exec(ws: &Vec<Withdrawal>, k: usize) -> (out: Vec<Json>)
    requires
        k <= ws.len(),
    ensures
        arr_v(out@) == encode_withdrawals(withdrawals_v(ws@).skip(k as int)),
    decreases ws.len() - k,
{
    proof {
        broadcast use crate::json::lemma_arr_v_props;
        broadcast use lemma_withdrawals_v_props;

    }
    if k == ws.len() {
        let out: Vec<Json> = Vec::new();
        proof {
            assert(withdrawals_v(ws@).skip(k as int) =~= Seq::<WithdrawalV>::empty());
            assert(arr_v(out@) =~= Seq::<JsonV>::empty());
        }
        return out;
    }
    let first = encode_withdrawal_exec(&ws[k]);
    let mut rest = encode_withdrawals_exec(ws, k + 1);
    let ghost restv = rest@;
    let mut out: Vec<Json> = Vec::new();
    out.push(first);
    out.append(&mut rest);
    proof {
        broadcast use crate::json::lemma_arr_v_props;
        broadcast use lemma_withdrawals_v_props;

        let tail = withdrawals_v(ws@).skip(k as int);
        assert(tail[0] == ws@[k as int].model());
        assert(tail.drop_first() =~= withdrawals_v(ws@).skip(k as int + 1));
        assert(out@.drop_first() =~= restv);
        assert(arr_v(out@) =~= seq![out@[0].v()] + arr_v(restv));
    }
    out
}

/// The wire object of one block header.
pub fn encode_block_exec(b: &EthereumBlock) -> (j: Json)
    ensures
        j.v() == encode_block(b.model()),
{
    let mut out: Vec<(String, Json)> = Vec::new();
    out.push((String::from_str("baseFeePerGas"), Json::Str(b.base_fee_per_gas.clone())));
    out.push((String::from_str("blobGasUsed"), Json::Str(b.blob_gas_used.clone())));
    out.push((String::from_str("difficulty"), Json::Str(b.difficulty.clone())));
    out.push((String::from_str("excessBlobGas"), Json::Str(b.excess_blob_gas.clone())));
    out.push((String::from_str("extraData"), Json::Str(b.extra_data.clone())));
    out.push((String::from_str("gasLimit"), Json::Str(b.gas_limit.clone())));
    out.push((String::from_str("gasUsed"), Json::Str(b.gas_used.clone())));
    out.push((String::from_str("hash"), Json::Str(b.hash.clone())));
    out.push((String::from_str("logsBloom"), Json::Str(b.logs_bloom.clone())));
    out.push((String::from_str("miner"), Json::Str(b.miner.clone())));
    out.push((String::from_str("mixHash"), Json::Str(b.mix_hash.clone())));
    out.push((String::from_str("nonce"), Json::Str(b.nonce.clone())));
    out.push((String::from_str("number"), Json::Str(b.number.clone())));
    out.push((String::from_str("parentBeaconBlockRoot"), Json::Str(b.parent_beacon_block_root.clone())));
    out.push((String::from_str("parentHash"), Json::Str(b.parent_hash.clone())));
    out.push((String::from_str("receiptsRoot"), Json::Str(b.receipts_root.clone())));
    out.push((String::from_str("sha3Uncles"), Json::Str(b.sha3_uncles.clone())));
    out.push((String::from_str("size"), Json::Str(b.size.clone())));
    out.push((String::from_str("stateRoot"), Json::Str(b.state_root.clone())));
    out.push((String::from_str("timestamp"), Json::Str(b.timestamp.clone())));
    out.push((String::from_str("transactionsRoot"), Json::Str(b.transactions_root.clone())));
    let ws = encode_withdrawals_exec(&b.withdrawals, 0);
    proof {
        assert(withdrawals_v(b.withdrawals@).skip(0) =~= withdrawals_v(b.withdrawals@));
    }
    out.push((String::from_str("withdrawals"), Json::Arr(ws)));
    out.push((String::from_str("withdrawalsRoot"), Json::Str(b.withdrawals_root.clone())));
    proof {
        broadcast use crate::json::lemma_obj_v_props;

        assert(crate::json::obj_v(out@) =~= block_fields(b.model()));
    }
    Json::Obj(out)
}

/// The wire object of one block-header envelope.
pub fn encode_block_message(m: &WebsocketMessage<EthereumBlock>) -> (j: Json)
    ensures
        j.v() == encode_block_envelope(m.model()),
{
    let mut ps: Vec<(String, Json)> = Vec::new();
    ps.push((String::from_str("result"), encode_block_exec(&m.params.result)));
    ps.push((String::from_str("subscription"), Json::Str(m.params.subscription.clone())));
    proof {
        broadcast use crate::json::lemma_obj_v_props;

        assert(crate::json::obj_v(ps@) =~= seq![
            ("result"@, encode_block(m.params.result.model())),
            ("subscription"@, JsonV::Str(m.params.subscription@)),
        ]);
    }
    let mut out: Vec<(String, Json)> = Vec::new();
    out.push((String::from_str("jsonrpc"), Json::Str(m.jsonrpc.clone())));
    out.push((String::from_str("method"), Json::Str(m.method.clone())));
    out.push((String::from_str("params"), Json::Obj(ps)));
    proof {
        broadcast use crate::json::lemma_obj_v_props;

        assert(crate::json::obj_v(out@) =~= seq![
            ("jsonrpc"@, JsonV::Str(m.jsonrpc@)),
            ("method"@, JsonV::Str(m.method@)),
            (
                "params"@,
                JsonV::Obj(
                    seq![
                        ("result"@, encode_block(m.params.result.model())),
                        ("subscription"@, JsonV::Str(m.params.subscription@)),
                    ],
                ),
            ),
        ]);
    }
    Json::Obj(out)
}

/// The canonical wire text of one block-header envelope.
pub fn serialize_block_message(m: &WebsocketMessage<EthereumBlock>) -> (r: String)
    ensures
        r@ == serialize_block_envelope(m.model()),
{
    let j = encode_block_message(m);
    crate::json::print_text(&j)
}

} // verus!
