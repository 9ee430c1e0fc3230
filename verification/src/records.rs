//! Typed records of the subscription protocol, and their codec.
//!
//! A notification envelope wraps one payload: either a mined
//! transaction or a block header.  Every quantity stays the opaque
//! hexadecimal string the provider transmitted — the client is a
//! transparent relay, not a numeric interpreter.  Decoding is strict
//! and total: a frame that does not match the expected shape comes
//! back as `Raw` with the original text, never as an error.

use vstd::prelude::*;
use crate::json::{
    Json, JsonV, arr_v, obj_v, lookup, lemma_lookup_at, lemma_arr_v_props, lemma_obj_v_props,
    str_ok, wf_json, parse_document, print_json, parse_text, print_text,
    lemma_print_parse_round_trip,
};

verus! {

// ---------------------------------------------------------------
// Ghost model
// ---------------------------------------------------------------

/// Fields common to every transaction kind.
#[verifier::ext_equal]
pub ghost struct TxCommonV {
    pub block_hash: Seq<char>,
    pub block_number: Seq<char>,
    pub from: Seq<char>,
    pub gas: Seq<char>,
    pub gas_price: Seq<char>,
    pub hash: Seq<char>,
    pub input: Seq<char>,
    pub nonce: Seq<char>,
    pub to: Option<Seq<char>>,
    pub transaction_index: Seq<char>,
    pub value: Seq<char>,
    pub v: Seq<char>,
    pub r: Seq<char>,
    pub s: Seq<char>,
    pub chain_id: Seq<char>,
}

/// One transaction, as a sum over the transaction kind, so that a
/// kind never carries fields of another.
#[verifier::ext_equal]
pub ghost enum TransactionV {
    Legacy { common: TxCommonV },
    AccessList { common: TxCommonV, access_list: Seq<JsonV>, y_parity: Seq<char> },
    FeeMarket {
        common: TxCommonV,
        max_fee_per_gas: Seq<char>,
        max_priority_fee_per_gas: Seq<char>,
        access_list: Seq<JsonV>,
        y_parity: Seq<char>,
    },
}

#[verifier::ext_equal]
pub ghost struct MinedTransactionsV {
    pub removed: bool,
    pub transaction: TransactionV,
}

#[verifier::ext_equal]
pub ghost struct ParamsV<TV> {
    pub result: TV,
    pub subscription: Seq<char>,
}

#[verifier::ext_equal]
pub ghost struct EnvelopeV<TV> {
    pub jsonrpc: Seq<char>,
    pub method: Seq<char>,
    pub params: ParamsV<TV>,
}

#[verifier::ext_equal]
pub ghost struct WithdrawalV {
    pub address: Seq<char>,
    pub amount: Seq<char>,
    pub index: Seq<char>,
    pub validator_index: Seq<char>,
}

#[verifier::ext_equal]
pub ghost struct BlockV {
    pub base_fee_per_gas: Seq<char>,
    pub blob_gas_used: Seq<char>,
    pub difficulty: Seq<char>,
    pub excess_blob_gas: Seq<char>,
    pub extra_data: Seq<char>,
    pub gas_limit: Seq<char>,
    pub gas_used: Seq<char>,
    pub hash: Seq<char>,
    pub logs_bloom: Seq<char>,
    pub miner: Seq<char>,
    pub mix_hash: Seq<char>,
    pub nonce: Seq<char>,
    pub number: Seq<char>,
    pub parent_beacon_block_root: Seq<char>,
    pub parent_hash: Seq<char>,
    pub receipts_root: Seq<char>,
    pub sha3_uncles: Seq<char>,
    pub size: Seq<char>,
    pub state_root: Seq<char>,
    pub timestamp: Seq<char>,
    pub transactions_root: Seq<char>,
    pub withdrawals: Seq<WithdrawalV>,
    pub withdrawals_root: Seq<char>,
}

pub open spec fn all_wf(a: Seq<JsonV>) -> bool {
    forall|i: int| 0 <= i < a.len() ==> wf_json(#[trigger] a[i])
}

pub open spec fn wf_common(c: TxCommonV) -> bool {
    &&& str_ok(c.block_hash)
    &&& str_ok(c.block_number)
    &&& str_ok(c.from)
    &&& str_ok(c.gas)
    &&& str_ok(c.gas_price)
    &&& str_ok(c.hash)
    &&& str_ok(c.input)
    &&& str_ok(c.nonce)
    &&& (c.to is Some ==> str_ok(c.to.unwrap()))
    &&& str_ok(c.transaction_index)
    &&& str_ok(c.value)
    &&& str_ok(c.v)
    &&& str_ok(c.r)
    &&& str_ok(c.s)
    &&& str_ok(c.chain_id)
}

pub open spec fn wf_transaction(t: TransactionV) -> bool {
    match t {
        TransactionV::Legacy { common } => wf_common(common),
        TransactionV::AccessList { common, access_list, y_parity } => wf_common(common) && all_wf(
            access_list,
        ) && str_ok(y_parity),
        TransactionV::FeeMarket {
            common,
            max_fee_per_gas,
            max_priority_fee_per_gas,
            access_list,
            y_parity,
        } => wf_common(common) && str_ok(max_fee_per_gas) && str_ok(max_priority_fee_per_gas)
            && all_wf(access_list) && str_ok(y_parity),
    }
}

pub open spec fn wf_mined(m: MinedTransactionsV) -> bool {
    wf_transaction(m.transaction)
}

pub open spec fn wf_tx_envelope(e: EnvelopeV<MinedTransactionsV>) -> bool {
    str_ok(e.jsonrpc) && str_ok(e.method) && str_ok(e.params.subscription) && wf_mined(
        e.params.result,
    )
}

// ---------------------------------------------------------------
// Encoding to the frame grammar
// ---------------------------------------------------------------

pub open spec fn opt_str_json(o: Option<Seq<char>>) -> JsonV {
    match o {
        None => JsonV::Null,
        Some(s) => JsonV::Str(s),
    }
}

/// The common fields, in wire order, with the kind tag.
pub open spec fn common_fields(c: TxCommonV, ty: Seq<char>) -> Seq<(Seq<char>, JsonV)> {
    seq![
        ("blockHash"@, JsonV::Str(c.block_hash)),
        ("blockNumber"@, JsonV::Str(c.block_number)),
        ("from"@, JsonV::Str(c.from)),
        ("gas"@, JsonV::Str(c.gas)),
        ("gasPrice"@, JsonV::Str(c.gas_price)),
        ("hash"@, JsonV::Str(c.hash)),
        ("input"@, JsonV::Str(c.input)),
        ("nonce"@, JsonV::Str(c.nonce)),
        ("to"@, opt_str_json(c.to)),
        ("transactionIndex"@, JsonV::Str(c.transaction_index)),
        ("value"@, JsonV::Str(c.value)),
        ("type"@, JsonV::Str(ty)),
        ("v"@, JsonV::Str(c.v)),
        ("r"@, JsonV::Str(c.r)),
        ("s"@, JsonV::Str(c.s)),
        ("chainId"@, JsonV::Str(c.chain_id)),
    ]
}

pub open spec fn encode_transaction(t: TransactionV) -> JsonV {
    match t {
        TransactionV::Legacy { common } => JsonV::Obj(common_fields(common, "0x0"@)),
        TransactionV::AccessList { common, access_list, y_parity } => JsonV::Obj(
            common_fields(common, "0x1"@) + seq![
                ("accessList"@, JsonV::Arr(access_list)),
                ("yParity"@, JsonV::Str(y_parity)),
            ],
        ),
        TransactionV::FeeMarket {
            common,
            max_fee_per_gas,
            max_priority_fee_per_gas,
            access_list,
            y_parity,
        } => JsonV::Obj(
            common_fields(common, "0x2"@) + seq![
                ("maxFeePerGas"@, JsonV::Str(max_fee_per_gas)),
                ("maxPriorityFeePerGas"@, JsonV::Str(max_priority_fee_per_gas)),
                ("accessList"@, JsonV::Arr(access_list)),
                ("yParity"@, JsonV::Str(y_parity)),
            ],
        ),
    }
}

pub open spec fn encode_mined(m: MinedTransactionsV) -> JsonV {
    JsonV::Obj(
        seq![("removed"@, JsonV::Bool(m.removed)), ("transaction"@, encode_transaction(m.transaction))],
    )
}

pub open spec fn encode_envelope(jsonrpc: Seq<char>, method: Seq<char>, subscription: Seq<char>, result: JsonV) -> JsonV {
    JsonV::Obj(
        seq![
            ("jsonrpc"@, JsonV::Str(jsonrpc)),
            ("method"@, JsonV::Str(method)),
            (
                "params"@,
                JsonV::Obj(
                    seq![("result"@, result), ("subscription"@, JsonV::Str(subscription))],
                ),
            ),
        ],
    )
}

pub open spec fn encode_tx_envelope(e: EnvelopeV<MinedTransactionsV>) -> JsonV {
    encode_envelope(e.jsonrpc, e.method, e.params.subscription, encode_mined(e.params.result))
}

// ---------------------------------------------------------------
// Decoding from the frame grammar
// ---------------------------------------------------------------

pub open spec fn get_str(ms: Seq<(Seq<char>, JsonV)>, k: Seq<char>) -> Option<Seq<char>> {
    match lookup(ms, k) {
        Some(JsonV::Str(s)) => Some(s),
        _ => None,
    }
}

/// An optional string field: absent and `null` both mean absent.
pub open spec fn get_opt_str(ms: Seq<(Seq<char>, JsonV)>, k: Seq<char>) -> Option<
    Option<Seq<char>>,
> {
    match lookup(ms, k) {
        None => Some(None),
        Some(JsonV::Null) => Some(None),
        Some(JsonV::Str(s)) => Some(Some(s)),
        Some(_) => None,
    }
}

pub open spec fn get_arr(ms: Seq<(Seq<char>, JsonV)>, k: Seq<char>) -> Option<Seq<JsonV>> {
    match lookup(ms, k) {
        Some(JsonV::Arr(a)) => Some(a),
        _ => None,
    }
}

pub open spec fn get_bool(ms: Seq<(Seq<char>, JsonV)>, k: Seq<char>) -> Option<bool> {
    match lookup(ms, k) {
        Some(JsonV::Bool(b)) => Some(b),
        _ => None,
    }
}

pub open spec fn get_obj(ms: Seq<(Seq<char>, JsonV)>, k: Seq<char>) -> Option<
    Seq<(Seq<char>, JsonV)>,
> {
    match lookup(ms, k) {
        Some(JsonV::Obj(o)) => Some(o),
        _ => None,
    }
}

pub open spec fn decode_common(ms: Seq<(Seq<char>, JsonV)>) -> Option<TxCommonV> {
    if get_str(ms, "blockHash"@) is Some && get_str(ms, "blockNumber"@) is Some && get_str(
        ms,
        "from"@,
    ) is Some && get_str(ms, "gas"@) is Some && get_str(ms, "gasPrice"@) is Some && get_str(
        ms,
        "hash"@,
    ) is Some && get_str(ms, "input"@) is Some && get_str(ms, "nonce"@) is Some && get_opt_str(
        ms,
        "to"@,
    ) is Some && get_str(ms, "transactionIndex"@) is Some && get_str(ms, "value"@) is Some
        && get_str(ms, "v"@) is Some && get_str(ms, "r"@) is Some && get_str(ms, "s"@) is Some
        && get_str(ms, "chainId"@) is Some {
        Some(
            TxCommonV {
                block_hash: get_str(ms, "blockHash"@).unwrap(),
                block_number: get_str(ms, "blockNumber"@).unwrap(),
                from: get_str(ms, "from"@).unwrap(),
                gas: get_str(ms, "gas"@).unwrap(),
                gas_price: get_str(ms, "gasPrice"@).unwrap(),
                hash: get_str(ms, "hash"@).unwrap(),
                input: get_str(ms, "input"@).unwrap(),
                nonce: get_str(ms, "nonce"@).unwrap(),
                to: get_opt_str(ms, "to"@).unwrap(),
                transaction_index: get_str(ms, "transactionIndex"@).unwrap(),
                value: get_str(ms, "value"@).unwrap(),
                v: get_str(ms, "v"@).unwrap(),
                r: get_str(ms, "r"@).unwrap(),
                s: get_str(ms, "s"@).unwrap(),
                chain_id: get_str(ms, "chainId"@).unwrap(),
            },
        )
    } else {
        None
    }
}

pub open spec fn decode_transaction(j: JsonV) -> Option<TransactionV> {
    match j {
        JsonV::Obj(ms) => {
            match (decode_common(ms), get_str(ms, "type"@)) {
                (Some(common), Some(ty)) => if ty == "0x0"@ {
                    Some(TransactionV::Legacy { common })
                } else if ty == "0x1"@ {
                    match (get_arr(ms, "accessList"@), get_str(ms, "yParity"@)) {
                        (Some(access_list), Some(y_parity)) => Some(
                            TransactionV::AccessList { common, access_list, y_parity },
                        ),
                        _ => None,
                    }
                } else if ty == "0x2"@ {
                    match (
                        get_str(ms, "maxFeePerGas"@),
                        get_str(ms, "maxPriorityFeePerGas"@),
                        get_arr(ms, "accessList"@),
                        get_str(ms, "yParity"@),
                    ) {
                        (
                            Some(max_fee_per_gas),
                            Some(max_priority_fee_per_gas),
                            Some(access_list),
                            Some(y_parity),
                        ) => Some(
                            TransactionV::FeeMarket {
                                common,
                                max_fee_per_gas,
                                max_priority_fee_per_gas,
                                access_list,
                                y_parity,
                            },
                        ),
                        _ => None,
                    }
                } else {
                    None
                },
                _ => None,
            }
        },
        _ => None,
    }
}

pub open spec fn decode_mined(j: JsonV) -> Option<MinedTransactionsV> {
    match j {
        JsonV::Obj(ms) => match (get_bool(ms, "removed"@), lookup(ms, "transaction"@)) {
            (Some(removed), Some(tj)) => match decode_transaction(tj) {
                Some(transaction) => Some(MinedTransactionsV { removed, transaction }),
                None => None,
            },
            _ => None,
        },
        _ => None,
    }
}

pub open spec fn decode_tx_envelope(j: JsonV) -> Option<EnvelopeV<MinedTransactionsV>> {
    match j {
        JsonV::Obj(ms) => match (
            get_str(ms, "jsonrpc"@),
            get_str(ms, "method"@),
            get_obj(ms, "params"@),
        ) {
            (Some(jsonrpc), Some(method), Some(ps)) => match (
                lookup(ps, "result"@),
                get_str(ps, "subscription"@),
            ) {
                (Some(rj), Some(subscription)) => match decode_mined(rj) {
                    Some(result) => Some(
                        EnvelopeV { jsonrpc, method, params: ParamsV { result, subscription } },
                    ),
                    None => None,
                },
                _ => None,
            },
            _ => None,
        },
        _ => None,
    }
}

// ---------------------------------------------------------------
// Losslessness of the transaction codec
// ---------------------------------------------------------------

/// Lengths and distinguishing characters of the wire keys, so that
/// distinct keys are provably distinct.
pub(crate) proof fn lemma_envelope_key_facts()
    ensures
        "blockHash"@.len() == 9,
        "blockNumber"@.len() == 11,
        "from"@.len() == 4 && "from"@[0] == 'f',
        "gas"@.len() == 3,
        "gasPrice"@.len() == 8,
        "hash"@.len() == 4 && "hash"@[0] == 'h',
        "input"@.len() == 5 && "input"@[0] == 'i',
        "nonce"@.len() == 5 && "nonce"@[0] == 'n',
        "to"@.len() == 2,
        "transactionIndex"@.len() == 16,
        "value"@.len() == 5 && "value"@[0] == 'v',
        "type"@.len() == 4 && "type"@[0] == 't',
        "v"@.len() == 1 && "v"@[0] == 'v',
        "r"@.len() == 1 && "r"@[0] == 'r',
        "s"@.len() == 1 && "s"@[0] == 's',
        "chainId"@.len() == 7 && "chainId"@[0] == 'c',
        "maxFeePerGas"@.len() == 12,
        "maxPriorityFeePerGas"@.len() == 20,
        "accessList"@.len() == 10,
        "yParity"@.len() == 7 && "yParity"@[0] == 'y',
        "0x0"@.len() == 3 && "0x0"@[2] == '0',
        "0x1"@.len() == 3 && "0x1"@[2] == '1',
        "0x2"@.len() == 3 && "0x2"@[2] == '2',
        "removed"@.len() == 7 && "removed"@[0] == 'r',
        "transaction"@.len() == 11,
        "jsonrpc"@.len() == 7 && "jsonrpc"@[0] == 'j',
        "method"@.len() == 6 && "method"@[0] == 'm',
        "params"@.len() == 6 && "params"@[0] == 'p',
        "result"@.len() == 6 && "result"@[0] == 'r',
        "subscription"@.len() == 12,
        str_ok("blockHash"@) && str_ok("blockNumber"@) && str_ok("from"@) && str_ok("gas"@),
        str_ok("gasPrice"@) && str_ok("hash"@) && str_ok("input"@) && str_ok("nonce"@),
        str_ok("to"@) && str_ok("transactionIndex"@) && str_ok("value"@) && str_ok("type"@),
        str_ok("v"@) && str_ok("r"@) && str_ok("s"@) && str_ok("chainId"@),
        str_ok("maxFeePerGas"@) && str_ok("maxPriorityFeePerGas"@) && str_ok("accessList"@),
        str_ok("yParity"@) && str_ok("0x0"@) && str_ok("0x1"@) && str_ok("0x2"@),
        str_ok("removed"@) && str_ok("transaction"@) && str_ok("jsonrpc"@) && str_ok("method"@),
        str_ok("params"@) && str_ok("result"@) && str_ok("subscription"@),
{
    reveal_strlit("blockHash");
    reveal_strlit("blockNumber");
    reveal_strlit("from");
    reveal_strlit("gas");
    reveal_strlit("gasPrice");
    reveal_strlit("hash");
    reveal_strlit("input");
    reveal_strlit("nonce");
    reveal_strlit("to");
    reveal_strlit("transactionIndex");
    reveal_strlit("value");
    reveal_strlit("type");
    reveal_strlit("v");
    reveal_strlit("r");
    reveal_strlit("s");
    reveal_strlit("chainId");
    reveal_strlit("maxFeePerGas");
    reveal_strlit("maxPriorityFeePerGas");
    reveal_strlit("accessList");
    reveal_strlit("yParity");
    reveal_strlit("0x0");
    reveal_strlit("0x1");
    reveal_strlit("0x2");
    reveal_strlit("removed");
    reveal_strlit("transaction");
    reveal_strlit("jsonrpc");
    reveal_strlit("method");
    reveal_strlit("params");
    reveal_strlit("result");
    reveal_strlit("subscription");
}

/// The common fields keep their values under any trailing extras:
/// `decode_common` reads them back exactly.
#[verifier::rlimit(80)]
proof fn lemma_common_lookup(c: TxCommonV, ty: Seq<char>, extra: Seq<(Seq<char>, JsonV)>)
    ensures
        decode_common(common_fields(c, ty) + extra) == Some(c),
        get_str(common_fields(c, ty) + extra, "type"@) == Some(ty),
{
    lemma_envelope_key_facts();
    let ms = common_fields(c, ty) + extra;
    reveal_strlit("blockHash");
    reveal_strlit("blockNumber");
    reveal_strlit("from");
    reveal_strlit("gas");
    reveal_strlit("gasPrice");
    reveal_strlit("hash");
    reveal_strlit("input");
    reveal_strlit("nonce");
    reveal_strlit("to");
    reveal_strlit("transactionIndex");
    reveal_strlit("value");
    reveal_strlit("type");
    reveal_strlit("v");
    reveal_strlit("r");
    reveal_strlit("s");
    reveal_strlit("chainId");
    assert(ms[0] == ("blockHash"@, JsonV::Str(c.block_hash)));
    assert(ms[1] == ("blockNumber"@, JsonV::Str(c.block_number)));
    assert(ms[2] == ("from"@, JsonV::Str(c.from)));
    assert(ms[3] == ("gas"@, JsonV::Str(c.gas)));
    assert(ms[4] == ("gasPrice"@, JsonV::Str(c.gas_price)));
    assert(ms[5] == ("hash"@, JsonV::Str(c.hash)));
    assert(ms[6] == ("input"@, JsonV::Str(c.input)));
    assert(ms[7] == ("nonce"@, JsonV::Str(c.nonce)));
    assert(ms[8] == ("to"@, opt_str_json(c.to)));
    assert(ms[9] == ("transactionIndex"@, JsonV::Str(c.transaction_index)));
    assert(ms[10] == ("value"@, JsonV::Str(c.value)));
    assert(ms[11] == ("type"@, JsonV::Str(ty)));
    assert(ms[12] == ("v"@, JsonV::Str(c.v)));
    assert(ms[13] == ("r"@, JsonV::Str(c.r)));
    assert(ms[14] == ("s"@, JsonV::Str(c.s)));
    assert(ms[15] == ("chainId"@, JsonV::Str(c.chain_id)));
    lemma_lookup_at(ms, 0);
    assert(forall|q: int| 0 <= q < 1 ==> (#[trigger] ms[q]).0 != ms[1].0);
    lemma_lookup_at(ms, 1);
    assert(forall|q: int| 0 <= q < 2 ==> (#[trigger] ms[q]).0 != ms[2].0);
    lemma_lookup_at(ms, 2);
    assert(forall|q: int| 0 <= q < 3 ==> (#[trigger] ms[q]).0 != ms[3].0);
    lemma_lookup_at(ms, 3);
    assert(forall|q: int| 0 <= q < 4 ==> (#[trigger] ms[q]).0 != ms[4].0);
    lemma_lookup_at(ms, 4);
    assert(forall|q: int| 0 <= q < 5 ==> (#[trigger] ms[q]).0 != ms[5].0);
    lemma_lookup_at(ms, 5);
    assert(forall|q: int| 0 <= q < 6 ==> (#[trigger] ms[q]).0 != ms[6].0);
    lemma_lookup_at(ms, 6);
    assert(forall|q: int| 0 <= q < 7 ==> (#[trigger] ms[q]).0 != ms[7].0);
    lemma_lookup_at(ms, 7);
    assert(forall|q: int| 0 <= q < 8 ==> (#[trigger] ms[q]).0 != ms[8].0);
    lemma_lookup_at(ms, 8);
    assert(forall|q: int| 0 <= q < 9 ==> (#[trigger] ms[q]).0 != ms[9].0);
    lemma_lookup_at(ms, 9);
    assert(forall|q: int| 0 <= q < 10 ==> (#[trigger] ms[q]).0 != ms[10].0);
    lemma_lookup_at(ms, 10);
    assert(forall|q: int| 0 <= q < 11 ==> (#[trigger] ms[q]).0 != ms[11].0);
    lemma_lookup_at(ms, 11);
    assert(forall|q: int| 0 <= q < 12 ==> (#[trigger] ms[q]).0 != ms[12].0);
    lemma_lookup_at(ms, 12);
    assert(forall|q: int| 0 <= q < 13 ==> (#[trigger] ms[q]).0 != ms[13].0);
    lemma_lookup_at(ms, 13);
    assert(forall|q: int| 0 <= q < 14 ==> (#[trigger] ms[q]).0 != ms[14].0);
    lemma_lookup_at(ms, 14);
    assert(forall|q: int| 0 <= q < 15 ==> (#[trigger] ms[q]).0 != ms[15].0);
    lemma_lookup_at(ms, 15);
    assert(get_opt_str(ms, "to"@) == Some(c.to));
    assert(decode_common(ms) == Some(c));
}

/// Transaction records survive the codec: decoding what was encoded
/// gives back the record, for every kind.
#[verifier::rlimit(80)]
pub proof fn lemma_transaction_round_trip(t: TransactionV)
    requires
        wf_transaction(t),
    ensures
        decode_transaction(encode_transaction(t)) == Some(t),
{
    lemma_envelope_key_facts();
    reveal_strlit("0x0");
    reveal_strlit("0x1");
    reveal_strlit("0x2");
    reveal_strlit("accessList");
    reveal_strlit("yParity");
    reveal_strlit("maxFeePerGas");
    reveal_strlit("maxPriorityFeePerGas");
    match t {
        TransactionV::Legacy { common } => {
            let ms = common_fields(common, "0x0"@) + Seq::<(Seq<char>, JsonV)>::empty();
            assert(ms =~= common_fields(common, "0x0"@));
            lemma_common_lookup(common, "0x0"@, Seq::empty());
        }
        TransactionV::AccessList { common, access_list, y_parity } => {
            let extra = seq![
                ("accessList"@, JsonV::Arr(access_list)),
                ("yParity"@, JsonV::Str(y_parity)),
            ];
            let ms = common_fields(common, "0x1"@) + extra;
            lemma_common_lookup(common, "0x1"@, extra);
            assert(ms[16] == ("accessList"@, JsonV::Arr(access_list)));
            assert(ms[17] == ("yParity"@, JsonV::Str(y_parity)));
            reveal_strlit("blockHash");
            reveal_strlit("blockNumber");
            reveal_strlit("from");
            reveal_strlit("gas");
            reveal_strlit("gasPrice");
            reveal_strlit("hash");
            reveal_strlit("input");
            reveal_strlit("nonce");
            reveal_strlit("to");
            reveal_strlit("transactionIndex");
            reveal_strlit("value");
            reveal_strlit("type");
            reveal_strlit("v");
            reveal_strlit("r");
            reveal_strlit("s");
            reveal_strlit("chainId");
            assert(forall|q: int| 0 <= q < 16 ==> (#[trigger] ms[q]).0 != ms[16].0);
            lemma_lookup_at(ms, 16);
            assert(forall|q: int| 0 <= q < 17 ==> (#[trigger] ms[q]).0 != ms[17].0);
            lemma_lookup_at(ms, 17);
            assert(get_arr(ms, "accessList"@) == Some(access_list));
            assert(get_str(ms, "yParity"@) == Some(y_parity));
            assert("0x1"@ != "0x0"@);
        }
        TransactionV::FeeMarket {
            common,
            max_fee_per_gas,
            max_priority_fee_per_gas,
            access_list,
            y_parity,
        } => {
            let extra = seq![
                ("maxFeePerGas"@, JsonV::Str(max_fee_per_gas)),
                ("maxPriorityFeePerGas"@, JsonV::Str(max_priority_fee_per_gas)),
                ("accessList"@, JsonV::Arr(access_list)),
                ("yParity"@, JsonV::Str(y_parity)),
            ];
            let ms = common_fields(common, "0x2"@) + extra;
            lemma_common_lookup(common, "0x2"@, extra);
            assert(ms[16] == ("maxFeePerGas"@, JsonV::Str(max_fee_per_gas)));
            assert(ms[17] == ("maxPriorityFeePerGas"@, JsonV::Str(max_priority_fee_per_gas)));
            assert(ms[18] == ("accessList"@, JsonV::Arr(access_list)));
            assert(ms[19] == ("yParity"@, JsonV::Str(y_parity)));
            reveal_strlit("blockHash");
            reveal_strlit("blockNumber");
            reveal_strlit("from");
            reveal_strlit("gas");
            reveal_strlit("gasPrice");
            reveal_strlit("hash");
            reveal_strlit("input");
            reveal_strlit("nonce");
            reveal_strlit("to");
            reveal_strlit("transactionIndex");
            reveal_strlit("value");
            reveal_strlit("type");
            reveal_strlit("v");
            reveal_strlit("r");
            reveal_strlit("s");
            reveal_strlit("chainId");
            assert(forall|q: int| 0 <= q < 16 ==> (#[trigger] ms[q]).0 != ms[16].0);
            lemma_lookup_at(ms, 16);
            assert(forall|q: int| 0 <= q < 17 ==> (#[trigger] ms[q]).0 != ms[17].0);
            lemma_lookup_at(ms, 17);
            assert(forall|q: int| 0 <= q < 18 ==> (#[trigger] ms[q]).0 != ms[18].0);
            lemma_lookup_at(ms, 18);
            assert(forall|q: int| 0 <= q < 19 ==> (#[trigger] ms[q]).0 != ms[19].0);
            lemma_lookup_at(ms, 19);
            assert(get_str(ms, "maxFeePerGas"@) == Some(max_fee_per_gas));
            assert(get_str(ms, "maxPriorityFeePerGas"@) == Some(max_priority_fee_per_gas));
            assert(get_arr(ms, "accessList"@) == Some(access_list));
            assert(get_str(ms, "yParity"@) == Some(y_parity));
            assert("0x2"@ != "0x0"@);
            assert("0x2"@ != "0x1"@);
        }
    }
}

/// The mined-transaction notification survives the codec.
pub proof fn lemma_mined_round_trip(m: MinedTransactionsV)
    requires
        wf_mined(m),
    ensures
        decode_mined(encode_mined(m)) == Some(m),
{
    lemma_envelope_key_facts();
    reveal_strlit("removed");
    reveal_strlit("transaction");
    let ms = seq![
        ("removed"@, JsonV::Bool(m.removed)),
        ("transaction"@, encode_transaction(m.transaction)),
    ];
    assert(ms[0] == ("removed"@, JsonV::Bool(m.removed)));
    assert(ms[1] == ("transaction"@, encode_transaction(m.transaction)));
    lemma_lookup_at(ms, 0);
    assert(forall|q: int| 0 <= q < 1 ==> (#[trigger] ms[q]).0 != ms[1].0);
    lemma_lookup_at(ms, 1);
    lemma_transaction_round_trip(m.transaction);
}

/// Encoded records lie inside the frame grammar, so the printer
/// accepts them.
#[verifier::rlimit(80)]
pub proof fn lemma_encode_tx_envelope_wf(e: EnvelopeV<MinedTransactionsV>)
    requires
        wf_tx_envelope(e),
    ensures
        wf_json(encode_tx_envelope(e)),
{
    lemma_envelope_key_facts();
    let t = e.params.result.transaction;
    let tms = match t {
        TransactionV::Legacy { common } => common_fields(common, "0x0"@),
        TransactionV::AccessList { common, access_list, y_parity } => common_fields(common, "0x1"@)
            + seq![("accessList"@, JsonV::Arr(access_list)), ("yParity"@, JsonV::Str(y_parity))],
        TransactionV::FeeMarket {
            common,
            max_fee_per_gas,
            max_priority_fee_per_gas,
            access_list,
            y_parity,
        } => common_fields(common, "0x2"@) + seq![
            ("maxFeePerGas"@, JsonV::Str(max_fee_per_gas)),
            ("maxPriorityFeePerGas"@, JsonV::Str(max_priority_fee_per_gas)),
            ("accessList"@, JsonV::Arr(access_list)),
            ("yParity"@, JsonV::Str(y_parity)),
        ],
    };
    assert(encode_transaction(t) == JsonV::Obj(tms));
    assert forall|i: int| 0 <= i < tms.len() implies str_ok((#[trigger] tms[i]).0) && wf_json(
        tms[i].1,
    ) by {
        match t {
            TransactionV::Legacy { common } => {}
            TransactionV::AccessList { common, access_list, y_parity } => {}
            TransactionV::FeeMarket {
                common,
                max_fee_per_gas,
                max_priority_fee_per_gas,
                access_list,
                y_parity,
            } => {}
        }
    }
    assert(wf_json(encode_transaction(t)));
    let mms = seq![
        ("removed"@, JsonV::Bool(e.params.result.removed)),
        ("transaction"@, encode_transaction(t)),
    ];
    assert forall|i: int| 0 <= i < mms.len() implies str_ok((#[trigger] mms[i]).0) && wf_json(
        mms[i].1,
    ) by {}
    assert(wf_json(encode_mined(e.params.result)));
    let ps = seq![
        ("result"@, encode_mined(e.params.result)),
        ("subscription"@, JsonV::Str(e.params.subscription)),
    ];
    assert forall|i: int| 0 <= i < ps.len() implies str_ok((#[trigger] ps[i]).0) && wf_json(
        ps[i].1,
    ) by {}
    let ms = seq![
        ("jsonrpc"@, JsonV::Str(e.jsonrpc)),
        ("method"@, JsonV::Str(e.method)),
        ("params"@, JsonV::Obj(ps)),
    ];
    assert forall|i: int| 0 <= i < ms.len() implies str_ok((#[trigger] ms[i]).0) && wf_json(
        ms[i].1,
    ) by {}
    assert(wf_json(encode_tx_envelope(e)));
}

/// The whole envelope survives the codec.
pub proof fn lemma_envelope_round_trip(e: EnvelopeV<MinedTransactionsV>)
    requires
        wf_tx_envelope(e),
    ensures
        decode_tx_envelope(encode_tx_envelope(e)) == Some(e),
{
    lemma_envelope_key_facts();
    reveal_strlit("jsonrpc");
    reveal_strlit("method");
    reveal_strlit("params");
    reveal_strlit("result");
    reveal_strlit("subscription");
    let ps = seq![
        ("result"@, encode_mined(e.params.result)),
        ("subscription"@, JsonV::Str(e.params.subscription)),
    ];
    let ms = seq![
        ("jsonrpc"@, JsonV::Str(e.jsonrpc)),
        ("method"@, JsonV::Str(e.method)),
        ("params"@, JsonV::Obj(ps)),
    ];
    assert(ms[0] == ("jsonrpc"@, JsonV::Str(e.jsonrpc)));
    assert(ms[1] == ("method"@, JsonV::Str(e.method)));
    assert(ms[2] == ("params"@, JsonV::Obj(ps)));
    lemma_lookup_at(ms, 0);
    assert(forall|q: int| 0 <= q < 1 ==> (#[trigger] ms[q]).0 != ms[1].0);
    lemma_lookup_at(ms, 1);
    assert(forall|q: int| 0 <= q < 2 ==> (#[trigger] ms[q]).0 != ms[2].0);
    lemma_lookup_at(ms, 2);
    assert(ps[0] == ("result"@, encode_mined(e.params.result)));
    assert(ps[1] == ("subscription"@, JsonV::Str(e.params.subscription)));
    lemma_lookup_at(ps, 0);
    assert(forall|q: int| 0 <= q < 1 ==> (#[trigger] ps[q]).0 != ps[1].0);
    lemma_lookup_at(ps, 1);
    lemma_mined_round_trip(e.params.result);
    assert(decode_tx_envelope(encode_tx_envelope(e)).unwrap() =~~= e);
}

/// What one text frame decodes to: a typed envelope, or the frame
/// itself, verbatim.  Never an error.
#[verifier::ext_equal]
pub ghost enum DecodeOutcomeV<TV> {
    Decoded(EnvelopeV<TV>),
    Raw(Seq<char>),
}

/// The decode-or-passthrough policy for mined-transaction frames.
pub open spec fn decode_tx_frame_spec(s: Seq<char>) -> DecodeOutcomeV<MinedTransactionsV> {
    match parse_document(s) {
        None => DecodeOutcomeV::Raw(s),
        Some(j) => match decode_tx_envelope(j) {
            None => DecodeOutcomeV::Raw(s),
            Some(e) => DecodeOutcomeV::Decoded(e),
        },
    }
}

/// The canonical wire text of a notification envelope.
pub open spec fn serialize_tx_envelope(e: EnvelopeV<MinedTransactionsV>) -> Seq<char> {
    print_json(encode_tx_envelope(e))
}

/// Decoding is lossless: for every well-formed envelope, decoding
/// its own wire text yields it back exactly — every field, optional
/// and hexadecimal fields included, with no coercion.
pub proof fn lemma_decode_lossless(e: EnvelopeV<MinedTransactionsV>)
    requires
        wf_tx_envelope(e),
    ensures
        decode_tx_frame_spec(serialize_tx_envelope(e)) == DecodeOutcomeV::<
            MinedTransactionsV,
        >::Decoded(e),
{
    lemma_encode_tx_envelope_wf(e);
    lemma_print_parse_round_trip(encode_tx_envelope(e));
    lemma_envelope_round_trip(e);
}

// ---------------------------------------------------------------
// Executable records
// ---------------------------------------------------------------

/// Fields common to every transaction kind; hexadecimal strings kept
/// exactly as transmitted.
pub struct TransactionCommon {
    pub block_hash: String,
    pub block_number: String,
    pub from: String,
    pub gas: String,
    pub gas_price: String,
    pub hash: String,
    pub input: String,
    pub nonce: String,
    pub to: Option<String>,
    pub transaction_index: String,
    pub value: String,
    pub v: String,
    pub r: String,
    pub s: String,
    pub chain_id: String,
}

/// One mined transaction, by kind.
pub enum Transaction {
    Legacy { common: TransactionCommon },
    AccessList { common: TransactionCommon, access_list: Vec<Json>, y_parity: String },
    FeeMarket {
        common: TransactionCommon,
        max_fee_per_gas: String,
        max_priority_fee_per_gas: String,
        access_list: Vec<Json>,
        y_parity: String,
    },
}

/// The mined-transaction notification payload.
pub struct MinedTransactions {
    pub removed: bool,
    pub transaction: Transaction,
}

/// The parameter object of a notification frame.
pub struct WebSocketParams<T> {
    pub result: T,
    pub subscription: String,
}

/// One notification frame, generic over the payload kind.
pub struct WebsocketMessage<T> {
    pub jsonrpc: String,
    pub method: String,
    pub params: WebSocketParams<T>,
}

/// What became of one inbound text frame: a typed envelope, or the
/// original text verbatim.  Never an error.
pub enum DecodeOutcome<T> {
    Decoded(WebsocketMessage<T>),
    Raw(String),
}

pub open spec fn opt_string_v(o: Option<String>) -> Option<Seq<char>> {
    match o {
        None => None,
        Some(s) => Some(s@),
    }
}

impl TransactionCommon {
    pub open spec fn model(self) -> TxCommonV {
        TxCommonV {
            block_hash: self.block_hash@,
            block_number: self.block_number@,
            from: self.from@,
            gas: self.gas@,
            gas_price: self.gas_price@,
            hash: self.hash@,
            input: self.input@,
            nonce: self.nonce@,
            to: opt_string_v(self.to),
            transaction_index: self.transaction_index@,
            value: self.value@,
            v: self.v@,
            r: self.r@,
            s: self.s@,
            chain_id: self.chain_id@,
        }
    }
}

impl Transaction {
    pub open spec fn model(self) -> TransactionV {
        match self {
            Transaction::Legacy { common } => TransactionV::Legacy { common: common.model() },
            Transaction::AccessList { common, access_list, y_parity } => TransactionV::AccessList {
                common: common.model(),
                access_list: arr_v(access_list@),
                y_parity: y_parity@,
            },
            Transaction::FeeMarket {
                common,
                max_fee_per_gas,
                max_priority_fee_per_gas,
                access_list,
                y_parity,
            } => TransactionV::FeeMarket {
                common: common.model(),
                max_fee_per_gas: max_fee_per_gas@,
                max_priority_fee_per_gas: max_priority_fee_per_gas@,
                access_list: arr_v(access_list@),
                y_parity: y_parity@,
            },
        }
    }
}

impl MinedTransactions {
    pub open spec fn model(self) -> MinedTransactionsV {
        MinedTransactionsV { removed: self.removed, transaction: self.transaction.model() }
    }
}

impl WebsocketMessage<MinedTransactions> {
    pub open spec fn model(self) -> EnvelopeV<MinedTransactionsV> {
        EnvelopeV {
            jsonrpc: self.jsonrpc@,
            method: self.method@,
            params: ParamsV {
                result: self.params.result.model(),
                subscription: self.params.subscription@,
            },
        }
    }
}

impl DecodeOutcome<MinedTransactions> {
    pub open spec fn model(self) -> DecodeOutcomeV<MinedTransactionsV> {
        match self {
            DecodeOutcome::Decoded(m) => DecodeOutcomeV::Decoded(m.model()),
            DecodeOutcome::Raw(s) => DecodeOutcomeV::Raw(s@),
        }
    }
}

// ---------------------------------------------------------------
// Executable decoding
// ---------------------------------------------------------------

/// The value under `key`, when the object has it.
pub(crate) fn obj_get<'a>(ms: &'a Vec<(String, Json)>, key: &String) -> (r: Option<&'a Json>)
    ensures
        match r {
            Some(j) => lookup(obj_v(ms@), key@) == Some(j.v()),
            None => lookup(obj_v(ms@), key@) is None,
        },
{
    proof {
        broadcast use lemma_obj_v_props;

        assert(obj_v(ms@).skip(0) =~= obj_v(ms@));
    }
    let n = ms.len();
    let mut q: usize = 0;
    while q < n
        invariant
            q <= n,
            n == ms.len(),
            lookup(obj_v(ms@), key@) == lookup(obj_v(ms@).skip(q as int), key@),
        decreases n - q,
    {
        proof {
            broadcast use lemma_obj_v_props;

            assert(obj_v(ms@).skip(q as int)[0] == (ms@[q as int].0@, ms@[q as int].1.v()));
        }
        if ms[q].0 == *key {
            return Some(&ms[q].1);
        }
        proof {
            assert(obj_v(ms@).skip(q as int).drop_first() =~= obj_v(ms@).skip(q as int + 1));
        }
        q = q + 1;
    }
    proof {
        assert(obj_v(ms@).skip(n as int) =~= Seq::<(Seq<char>, JsonV)>::empty());
    }
    None
}

pub(crate) fn get_str_field(ms: &Vec<(String, Json)>, key: &String) -> (r: Option<String>)
    ensures
        match r {
            Some(s) => get_str(obj_v(ms@), key@) == Some(s@),
            None => get_str(obj_v(ms@), key@) is None,
        },
{
    match obj_get(ms, key) {
        Some(Json::Str(s)) => Some(s.clone()),
        _ => None,
    }
}

pub(crate) fn get_opt_str_field(ms: &Vec<(String, Json)>, key: &String) -> (r: Option<Option<String>>)
    ensures
        match r {
            Some(o) => get_opt_str(obj_v(ms@), key@) == Some(opt_string_v(o)),
            None => get_opt_str(obj_v(ms@), key@) is None,
        },
{
    match obj_get(ms, key) {
        None => Some(None),
        Some(Json::Null) => Some(None),
        Some(Json::Str(s)) => Some(Some(s.clone())),
        Some(_) => None,
    }
}

pub(crate) fn get_bool_field(ms: &Vec<(String, Json)>, key: &String) -> (r: Option<bool>)
    ensures
        match r {
            Some(b) => get_bool(obj_v(ms@), key@) == Some(b),
            None => get_bool(obj_v(ms@), key@) is None,
        },
{
    match obj_get(ms, key) {
        Some(Json::Bool(b)) => Some(*b),
        _ => None,
    }
}

/// A verified deep copy; `Clone` through `derive` would tell the
/// verifier nothing.
pub fn clone_json(j: &Json) -> (r: Json)
    ensures
        r.v() == j.v(),
    decreases j, 0int,
{
    match j {
        Json::Null => Json::Null,
        Json::Bool(b) => Json::Bool(*b),
        Json::Str(s) => Json::Str(s.clone()),
        Json::Arr(a) => {
            let out = clone_arr_from(a, 0);
            proof {
                broadcast use lemma_arr_v_props;

                assert(arr_v(out@) =~= arr_v(a@));
            }
            Json::Arr(out)
        }
        Json::Obj(ms) => {
            let out = clone_obj_from(ms, 0);
            proof {
                broadcast use lemma_obj_v_props;

                assert(obj_v(out@) =~= obj_v(ms@));
            }
            Json::Obj(out)
        }
    }
}

pub(crate) fn clone_arr_from(a: &Vec<Json>, k: usize) -> (out: Vec<Json>)
    requires
        k <= a.len(),
    ensures
        out@.len() == a@.len() - k,
        forall|i: int| 0 <= i < out@.len() ==> (#[trigger] out@[i]).v() == a@[k + i].v(),
    decreases a, a.len() - k,
{
    if k == a.len() {
        Vec::new()
    } else {
        let first = clone_json(&a[k]);
        let mut rest = clone_arr_from(a, k + 1);
        let mut out: Vec<Json> = Vec::new();
        out.push(first);
        out.append(&mut rest);
        out
    }
}

pub(crate) fn clone_obj_from(ms: &Vec<(String, Json)>, k: usize) -> (out: Vec<(String, Json)>)
    requires
        k <= ms.len(),
    ensures
        out@.len() == ms@.len() - k,
        forall|i: int|
            0 <= i < out@.len() ==> (#[trigger] out@[i]).0@ == ms@[k + i].0@ && out@[i].1.v()
                == ms@[k + i].1.v(),
    decreases ms, ms.len() - k,
{
    if k == ms.len() {
        Vec::new()
    } else {
        let key = ms[k].0.clone();
        let val = clone_json(&ms[k].1);
        let mut rest = clone_obj_from(ms, k + 1);
        let mut out: Vec<(String, Json)> = Vec::new();
        out.push((key, val));
        out.append(&mut rest);
        out
    }
}

pub(crate) fn get_arr_field(ms: &Vec<(String, Json)>, key: &String) -> (r: Option<Vec<Json>>)
    ensures
        match r {
            Some(a) => get_arr(obj_v(ms@), key@) == Some(arr_v(a@)),
            None => get_arr(obj_v(ms@), key@) is None,
        },
{
    match obj_get(ms, key) {
        Some(j) => match j {
            Json::Arr(a) => {
                let cloned = clone_json(j);
                match cloned {
                    Json::Arr(out) => Some(out),
                    _ => None,
                }
            }
            _ => None,
        },
        None => None,
    }
}

/// Strict structural decode of one transaction object.
fn decode_transaction_exec(j: &Json) -> (r: Option<Transaction>)
    ensures
        match r {
            Some(t) => decode_transaction(j.v()) == Some(t.model()),
            None => decode_transaction(j.v()) is None,
        },
{
    let ms = match j {
        Json::Obj(ms) => ms,
        _ => {
            return None;
        }
    };
    let block_hash = match get_str_field(ms, &String::from_str("blockHash")) {
        Some(x) => x,
        None => {
            return None;
        }
    };
    let block_number = match get_str_field(ms, &String::from_str("blockNumber")) {
        Some(x) => x,
        None => {
            return None;
        }
    };
    let from = match get_str_field(ms, &String::from_str("from")) {
        Some(x) => x,
        None => {
            return None;
        }
    };
    let gas = match get_str_field(ms, &String::from_str("gas")) {
        Some(x) => x,
        None => {
            return None;
        }
    };
    let gas_price = match get_str_field(ms, &String::from_str("gasPrice")) {
        Some(x) => x,
        None => {
            return None;
        }
    };
    let hash = match get_str_field(ms, &String::from_str("hash")) {
        Some(x) => x,
        None => {
            return None;
        }
    };
    let input = match get_str_field(ms, &String::from_str("input")) {
        Some(x) => x,
        None => {
            return None;
        }
    };
    let nonce = match get_str_field(ms, &String::from_str("nonce")) {
        Some(x) => x,
        None => {
            return None;
        }
    };
    let to = match get_opt_str_field(ms, &String::from_str("to")) {
        Some(x) => x,
        None => {
            return None;
        }
    };
    let transaction_index = match get_str_field(ms, &String::from_str("transactionIndex")) {
        Some(x) => x,
        None => {
            return None;
        }
    };
    let value = match get_str_field(ms, &String::from_str("value")) {
        Some(x) => x,
        None => {
            return None;
        }
    };
    let v = match get_str_field(ms, &String::from_str("v")) {
        Some(x) => x,
        None => {
            return None;
        }
    };
    let r_field = match get_str_field(ms, &String::from_str("r")) {
        Some(x) => x,
        None => {
            return None;
        }
    };
    let s_field = match get_str_field(ms, &String::from_str("s")) {
        Some(x) => x,
        None => {
            return None;
        }
    };
    let chain_id = match get_str_field(ms, &String::from_str("chainId")) {
        Some(x) => x,
        None => {
            return None;
        }
    };
    let ty = match get_str_field(ms, &String::from_str("type")) {
        Some(x) => x,
        None => {
            return None;
        }
    };
    let common = TransactionCommon {
        block_hash,
        block_number,
        from,
        gas,
        gas_price,
        hash,
        input,
        nonce,
        to,
        transaction_index,
        value,
        v,
        r: r_field,
        s: s_field,
        chain_id,
    };
    proof {
        assert(decode_common(obj_v(ms@)) == Some(common.model()));
    }
    if ty == String::from_str("0x0") {
        Some(Transaction::Legacy { common })
    } else if ty == String::from_str("0x1") {
        let access_list = match get_arr_field(ms, &String::from_str("accessList")) {
            Some(x) => x,
            None => {
                return None;
            }
        };
        let y_parity = match get_str_field(ms, &String::from_str("yParity")) {
            Some(x) => x,
            None => {
                return None;
            }
        };
        Some(Transaction::AccessList { common, access_list, y_parity })
    } else if ty == String::from_str("0x2") {
        let max_fee_per_gas = match get_str_field(ms, &String::from_str("maxFeePerGas")) {
            Some(x) => x,
            None => {
                return None;
            }
        };
        let max_priority_fee_per_gas = match get_str_field(
            ms,
            &String::from_str("maxPriorityFeePerGas"),
        ) {
            Some(x) => x,
            None => {
                return None;
            }
        };
        let access_list = match get_arr_field(ms, &String::from_str("accessList")) {
            Some(x) => x,
            None => {
                return None;
            }
        };
        let y_parity = match get_str_field(ms, &String::from_str("yParity")) {
            Some(x) => x,
            None => {
                return None;
            }
        };
        Some(
            Transaction::FeeMarket {
                common,
                max_fee_per_gas,
                max_priority_fee_per_gas,
                access_list,
                y_parity,
            },
        )
    } else {
        None
    }
}

fn decode_mined_exec(j: &Json) -> (r: Option<MinedTransactions>)
    ensures
        match r {
            Some(m) => decode_mined(j.v()) == Some(m.model()),
            None => decode_mined(j.v()) is None,
        },
{
    let ms = match j {
        Json::Obj(ms) => ms,
        _ => {
            return None;
        }
    };
    let removed = match get_bool_field(ms, &String::from_str("removed")) {
        Some(x) => x,
        None => {
            return None;
        }
    };
    let tj = match obj_get(ms, &String::from_str("transaction")) {
        Some(x) => x,
        None => {
            return None;
        }
    };
    let transaction = match decode_transaction_exec(tj) {
        Some(x) => x,
        None => {
            return None;
        }
    };
    Some(MinedTransactions { removed, transaction })
}

fn decode_tx_envelope_exec(j: &Json) -> (r: Option<WebsocketMessage<MinedTransactions>>)
    ensures
        match r {
            Some(m) => decode_tx_envelope(j.v()) == Some(m.model()),
            None => decode_tx_envelope(j.v()) is None,
        },
{
    let ms = match j {
        Json::Obj(ms) => ms,
        _ => {
            return None;
        }
    };
    let jsonrpc = match get_str_field(ms, &String::from_str("jsonrpc")) {
        Some(x) => x,
        None => {
            return None;
        }
    };
    let method = match get_str_field(ms, &String::from_str("method")) {
        Some(x) => x,
        None => {
            return None;
        }
    };
    let ps = match obj_get(ms, &String::from_str("params")) {
        Some(Json::Obj(ps)) => ps,
        _ => {
            return None;
        }
    };
    let rj = match obj_get(ps, &String::from_str("result")) {
        Some(x) => x,
        None => {
            return None;
        }
    };
    let subscription = match get_str_field(ps, &String::from_str("subscription")) {
        Some(x) => x,
        None => {
            return None;
        }
    };
    let result = match decode_mined_exec(rj) {
        Some(x) => x,
        None => {
            return None;
        }
    };
    Some(
        WebsocketMessage {
            jsonrpc,
            method,
            params: WebSocketParams { result, subscription },
        },
    )
}

// ---------------------------------------------------------------
// Executable encoding
// ---------------------------------------------------------------

fn common_fields_exec(c: &TransactionCommon, ty: &str) -> (out: Vec<(String, Json)>)
    ensures
        obj_v(out@) == common_fields(c.model(), ty@),
{
    let mut out: Vec<(String, Json)> = Vec::new();
    out.push((String::from_str("blockHash"), Json::Str(c.block_hash.clone())));
    out.push((String::from_str("blockNumber"), Json::Str(c.block_number.clone())));
    out.push((String::from_str("from"), Json::Str(c.from.clone())));
    out.push((String::from_str("gas"), Json::Str(c.gas.clone())));
    out.push((String::from_str("gasPrice"), Json::Str(c.gas_price.clone())));
    out.push((String::from_str("hash"), Json::Str(c.hash.clone())));
    out.push((String::from_str("input"), Json::Str(c.input.clone())));
    out.push((String::from_str("nonce"), Json::Str(c.nonce.clone())));
    let to_json = match &c.to {
        None => Json::Null,
        Some(s) => Json::Str(s.clone()),
    };
    out.push((String::from_str("to"), to_json));
    out.push((String::from_str("transactionIndex"), Json::Str(c.transaction_index.clone())));
    out.push((String::from_str("value"), Json::Str(c.value.clone())));
    out.push((String::from_str("type"), Json::Str(ty.to_owned())));
    out.push((String::from_str("v"), Json::Str(c.v.clone())));
    out.push((String::from_str("r"), Json::Str(c.r.clone())));
    out.push((String::from_str("s"), Json::Str(c.s.clone())));
    out.push((String::from_str("chainId"), Json::Str(c.chain_id.clone())));
    proof {
        broadcast use lemma_obj_v_props;

        assert(obj_v(out@) =~= common_fields(c.model(), ty@));
    }
    out
}

/// The wire object of one transaction.
pub fn encode_transaction_exec(t: &Transaction) -> (j: Json)
    ensures
        j.v() == encode_transaction(t.model()),
{
    match t {
        Transaction::Legacy { common } => Json::Obj(common_fields_exec(common, "0x0")),
        Transaction::AccessList { common, access_list, y_parity } => {
            let mut out = common_fields_exec(common, "0x1");
            let ghost base = obj_v(out@);
            out.push((String::from_str("accessList"), Json::Arr(clone_arr_from(access_list, 0))));
            out.push((String::from_str("yParity"), Json::Str(y_parity.clone())));
            proof {
                broadcast use lemma_obj_v_props;
                broadcast use lemma_arr_v_props;

                let al = match out@[16].1 {
                    Json::Arr(a) => a,
                    _ => arbitrary(),
                };
                assert(arr_v(al@) =~= arr_v(access_list@));
                assert(obj_v(out@) =~= base + seq![
                    ("accessList"@, JsonV::Arr(arr_v(access_list@))),
                    ("yParity"@, JsonV::Str(y_parity@)),
                ]);
            }
            Json::Obj(out)
        }
        Transaction::FeeMarket {
            common,
            max_fee_per_gas,
            max_priority_fee_per_gas,
            access_list,
            y_parity,
        } => {
            let mut out = common_fields_exec(common, "0x2");
            let ghost base = obj_v(out@);
            out.push((String::from_str("maxFeePerGas"), Json::Str(max_fee_per_gas.clone())));
            out.push(
                (
                    String::from_str("maxPriorityFeePerGas"),
                    Json::Str(max_priority_fee_per_gas.clone()),
                ),
            );
            out.push((String::from_str("accessList"), Json::Arr(clone_arr_from(access_list, 0))));
            out.push((String::from_str("yParity"), Json::Str(y_parity.clone())));
            proof {
                broadcast use lemma_obj_v_props;
                broadcast use lemma_arr_v_props;

                let al = match out@[18].1 {
                    Json::Arr(a) => a,
                    _ => arbitrary(),
                };
                assert(arr_v(al@) =~= arr_v(access_list@));
                assert(obj_v(out@) =~= base + seq![
                    ("maxFeePerGas"@, JsonV::Str(max_fee_per_gas@)),
                    ("maxPriorityFeePerGas"@, JsonV::Str(max_priority_fee_per_gas@)),
                    ("accessList"@, JsonV::Arr(arr_v(access_list@))),
                    ("yParity"@, JsonV::Str(y_parity@)),
                ]);
            }
            Json::Obj(out)
        }
    }
}

/// The wire object of one notification envelope.
pub fn encode_tx_message(m: &WebsocketMessage<MinedTransactions>) -> (j: Json)
    ensures
        j.v() == encode_tx_envelope(m.model()),
{
    let mut mined: Vec<(String, Json)> = Vec::new();
    mined.push((String::from_str("removed"), Json::Bool(m.params.result.removed)));
    mined.push(
        (String::from_str("transaction"), encode_transaction_exec(&m.params.result.transaction)),
    );
    proof {
        broadcast use lemma_obj_v_props;

        assert(obj_v(mined@) =~= seq![
            ("removed"@, JsonV::Bool(m.params.result.removed)),
            ("transaction"@, encode_transaction(m.params.result.transaction.model())),
        ]);
    }
    let mut ps: Vec<(String, Json)> = Vec::new();
    ps.push((String::from_str("result"), Json::Obj(mined)));
    ps.push((String::from_str("subscription"), Json::Str(m.params.subscription.clone())));
    proof {
        broadcast use lemma_obj_v_props;

        assert(obj_v(ps@) =~= seq![
            ("result"@, encode_mined(m.params.result.model())),
            ("subscription"@, JsonV::Str(m.params.subscription@)),
        ]);
    }
    let mut out: Vec<(String, Json)> = Vec::new();
    out.push((String::from_str("jsonrpc"), Json::Str(m.jsonrpc.clone())));
    out.push((String::from_str("method"), Json::Str(m.method.clone())));
    out.push((String::from_str("params"), Json::Obj(ps)));
    proof {
        broadcast use lemma_obj_v_props;

        assert(obj_v(out@) =~= seq![
            ("jsonrpc"@, JsonV::Str(m.jsonrpc@)),
            ("method"@, JsonV::Str(m.method@)),
            (
                "params"@,
                JsonV::Obj(
                    seq![
                        ("result"@, encode_mined(m.params.result.model())),
                        ("subscription"@, JsonV::Str(m.params.subscription@)),
                    ],
                ),
            ),
        ]);
    }
    Json::Obj(out)
}

/// The canonical wire text of one notification envelope.
pub fn serialize_tx_message(m: &WebsocketMessage<MinedTransactions>) -> (r: String)
    ensures
        r@ == serialize_tx_envelope(m.model()),
{
    let j = encode_tx_message(m);
    print_text(&j)
}

/// Decode-or-passthrough for one mined-transaction frame: a frame
/// matching the notification schema becomes `Decoded`; any other
/// frame — the one-off subscription acknowledgement, malformed text,
/// schema drift — comes back as `Raw` with the original text.
pub fn decode_tx_frame(text: &str) -> (r: DecodeOutcome<MinedTransactions>)
    ensures
        r.model() == decode_tx_frame_spec(text@),
{
    match parse_text(text) {
        None => DecodeOutcome::Raw(text.to_owned()),
        Some(j) => match decode_tx_envelope_exec(&j) {
            None => DecodeOutcome::Raw(text.to_owned()),
            Some(m) => DecodeOutcome::Decoded(m),
        },
    }
}

} // verus!
