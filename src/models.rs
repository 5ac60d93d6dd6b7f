use vstd::prelude::*;
use crate::decimal::{lemma_decimal_round_trip, render_u64};
use crate::json::{
    lemma_field_at,
    field_of, get_field, hash_field, is_hex_of_len, check_hex, opt_hash_field, opt_str_field,
    opt_uint_field, str_field, take_hash, take_opt_hash, take_opt_str, take_opt_uint, take_str,
    take_uint, uint_field, DecodeError, Json,
};

verus! {

/// The success value of a response's `status` member.
#[derive(Debug, PartialEq, Eq)]
pub enum Status {
    OK,
}

/// A response: a `status` member beside the members of the payload.
/// Success is the one status defined.
#[derive(Debug, PartialEq, Eq)]
pub enum MoneroResult<T> {
    OK(T),
}

impl<T> MoneroResult<T> {
    /// The payload of a successful response.
    pub fn into_inner(self) -> (r: T)
        ensures
            self == MoneroResult::OK(r),
    {
        match self {
            MoneroResult::OK(v) => v,
        }
    }
}

/// Exchange rates of the currency. A rate keeps the text of its number literal.
#[derive(Debug, PartialEq, Eq)]
pub struct Rates {
    pub aud: Option<String>,
}

/// The members of an object; nothing for any other value.
pub open spec fn object_members(j: Json) -> Seq<(String, Json)> {
    match j {
        Json::Object(o) => o@,
        _ => Seq::empty(),
    }
}

pub open spec fn opt_nat(o: Option<u64>) -> Option<nat> {
    match o {
        Some(v) => Some(v as nat),
        None => None,
    }
}

pub open spec fn opt_text(o: Option<String>) -> Option<Seq<char>> {
    match o {
        Some(s) => Some(s@),
        None => None,
    }
}

pub open spec fn opt_rates(o: Option<Rates>) -> Option<Option<Seq<char>>> {
    match o {
        Some(r) => Some(opt_text(r.aud)),
        None => None,
    }
}

/// An optional number member, read as the text of its literal.
pub open spec fn opt_number_field(fs: Seq<(String, Json)>, key: Seq<char>) -> Option<Option<Seq<char>>> {
    match field_of(fs, key) {
        None => Some(None),
        Some(Json::Null) => Some(None),
        Some(Json::Number(t)) => Some(Some(t@)),
        _ => None,
    }
}

/// An optional rates member: absent or null reads as no rates.
pub open spec fn rates_field(fs: Seq<(String, Json)>, key: Seq<char>) -> Option<Option<Option<Seq<char>>>> {
    rates_value(field_of(fs, key))
}

pub open spec fn rates_value(v: Option<Json>) -> Option<Option<Option<Seq<char>>>> {
    match v {
        None => Some(None),
        Some(Json::Null) => Some(None),
        Some(Json::Object(o)) => match opt_number_field(o@, "AUD"@) {
            Some(a) => Some(Some(a)),
            None => None,
        },
        _ => None,
    }
}

fn take_opt_number(fields: &Vec<(String, Json)>, key: &str) -> (r: Result<Option<String>, DecodeError>)
    ensures
        match r {
            Ok(v) => opt_number_field(fields@, key@) == Some(opt_text(v)),
            Err(_) => opt_number_field(fields@, key@) is None,
        },
{
    match get_field(fields, key) {
        Some(Json::Number(t)) => Ok(Some(t.clone())),
        Some(Json::Null) => Ok(None),
        Some(_) => Err(DecodeError::InvalidField(String::from_str(key))),
        None => Ok(None),
    }
}

fn take_rates(fields: &Vec<(String, Json)>, key: &str) -> (r: Result<Option<Rates>, DecodeError>)
    ensures
        match r {
            Ok(v) => rates_field(fields@, key@) == Some(opt_rates(v)),
            Err(_) => rates_field(fields@, key@) is None,
        },
{
    match get_field(fields, key) {
        Some(Json::Object(o)) => {
            let aud = take_opt_number(o, "AUD")?;
            Ok(Some(Rates { aud }))
        },
        Some(Json::Null) => Ok(None),
        Some(_) => Err(DecodeError::InvalidField(String::from_str(key))),
        None => Ok(None),
    }
}

fn rates_json(o: &Option<Rates>) -> (r: Json)
    ensures
        rates_value(Some(r)) == Some(opt_rates(*o)),
{
    match o {
        Some(rates) => {
            let aud = match &rates.aud {
                Some(t) => Json::Number(t.clone()),
                None => Json::Null,
            };
            let mut fs: Vec<(String, Json)> = Vec::new();
            fs.push((String::from_str("AUD"), aud));
            proof {
                lemma_field_at(fs@, "AUD"@, 0);
            }
            Json::Object(fs)
        },
        None => Json::Null,
    }
}

fn hash_list_json(v: &Vec<String>) -> (r: Vec<Json>)
    ensures
        r@.len() == v@.len(),
        forall|i: int| 0 <= i < r@.len() ==> #[trigger] r@[i] == Json::Str(v@[i]),
{
    let mut out: Vec<Json> = Vec::new();
    let mut i: usize = 0;
    while i < v.len()
        invariant
            i <= v@.len(),
            out@.len() == i,
            forall|j: int| 0 <= j < i ==> #[trigger] out@[j] == Json::Str(v@[j]),
        decreases v@.len() - i,
    {
        out.push(Json::Str(v[i].clone()));
        i = i + 1;
    }
    out
}

pub open spec fn hash_item_ok(j: Json, nbytes: nat) -> bool {
    match j {
        Json::Str(t) => is_hex_of_len(t@, nbytes),
        _ => false,
    }
}

/// Member `key` is an array of hex strings, each for `nbytes` bytes.
pub open spec fn hash_list_ok(fs: Seq<(String, Json)>, key: Seq<char>, nbytes: nat) -> bool {
    match field_of(fs, key) {
        Some(Json::Array(a)) => forall|i: int| 0 <= i < a@.len() ==> hash_item_ok(#[trigger] a@[i], nbytes),
        _ => false,
    }
}

pub open spec fn hash_list_from(fs: Seq<(String, Json)>, key: Seq<char>, nbytes: nat, out: Seq<String>) -> bool {
    match field_of(fs, key) {
        Some(Json::Array(a)) => a@.len() == out.len()
            && forall|i: int| 0 <= i < a@.len() ==> hash_item_ok(#[trigger] a@[i], nbytes)
                && a@[i] == Json::Str(out[i]),
        _ => false,
    }
}

fn take_hash_list(fields: &Vec<(String, Json)>, key: &str, nbytes: usize) -> (r: Result<Vec<String>, DecodeError>)
    ensures
        r is Ok <==> hash_list_ok(fields@, key@, nbytes as nat),
        r matches Ok(v) ==> hash_list_from(fields@, key@, nbytes as nat, v@),
{
    let items = match get_field(fields, key) {
        Some(Json::Array(a)) => a,
        Some(_) => return Err(DecodeError::InvalidField(String::from_str(key))),
        None => return Err(DecodeError::MissingField(String::from_str(key))),
    };
    let mut out: Vec<String> = Vec::new();
    let mut i: usize = 0;
    while i < items.len()
        invariant
            field_of(fields@, key@) == Some(Json::Array(*items)),
            i <= items@.len(),
            out@.len() == i,
            forall|j: int| 0 <= j < i ==> hash_item_ok(#[trigger] items@[j], nbytes as nat)
                && items@[j] == Json::Str(out@[j]),
        decreases items@.len() - i,
    {
        assert(Json::Array(*items)->Array_0@ == items@);
        match &items[i] {
            Json::Str(t) => {
                if !check_hex(t.as_str(), nbytes) {
                    assert(!hash_item_ok(items@[i as int], nbytes as nat));
                    return Err(DecodeError::InvalidField(String::from_str(key)));
                }
                out.push(t.clone());
            },
            _ => {
                assert(!hash_item_ok(items@[i as int], nbytes as nat));
                return Err(DecodeError::InvalidField(String::from_str(key)));
            },
        }
        i = i + 1;
    }
    Ok(out)
}

/// An output of the account that a transaction spent.
#[derive(Debug, PartialEq, Eq)]
pub struct SpendObject {
    pub amount: String,
    pub key_image: String,
    pub tx_pub_key: String,
    pub out_index: u16,
    pub mixin: u32,
}

/// A decoy output offered for ring construction.
#[derive(Debug, PartialEq, Eq)]
pub struct RandomOutput {
    pub global_index: u64,
    pub public_key: String,
    pub rct: String,
}

/// An unspent output of the account.
#[derive(Debug, PartialEq, Eq)]
pub struct Output {
    pub tx_id: u64,
    pub amount: String,
    pub index: u16,
    pub global_index: u64,
    pub rct: String,
    pub tx_hash: String,
    pub tx_prefix_hash: String,
    pub public_key: String,
    pub tx_pub_key: String,
    pub spend_key_images: Vec<String>,
    pub timestamp: String,
    pub height: u64,
}

/// A transaction that touches the account.
#[derive(Debug, PartialEq, Eq)]
pub struct Transaction {
    pub id: u64,
    pub hash: String,
    pub timestamp: String,
    pub total_received: String,
    pub total_sent: String,
    pub unlock_time: u64,
    pub height: Option<u64>,
    pub spent_outputs: Vec<SpendObject>,
    pub payment_id: Option<String>,
    pub coinbase: u8,
    pub mempool: u8,
    pub mixin: u32,
}

/// Balance summary of an account.
#[derive(Debug, PartialEq, Eq)]
pub struct AddressInfo {
    pub locked_funds: String,
    pub total_received: String,
    pub total_sent: String,
    pub scanned_height: u64,
    pub scanned_block_height: u64,
    pub start_height: u64,
    pub transaction_height: u64,
    pub blockchain_height: u64,
    pub spent_outputs: Vec<SpendObject>,
    pub rates: Option<Rates>,
}

/// The transactions of an account.
#[derive(Debug, PartialEq, Eq)]
pub struct AddressTxs {
    pub total_received: String,
    pub scanned_height: u64,
    pub scanned_block_height: u64,
    pub start_height: u64,
    pub blockchain_height: u64,
    pub transactions: Vec<Transaction>,
}

/// Decoy outputs, as returned by `get_random_outs`.
#[derive(Debug, PartialEq, Eq)]
pub struct AmountOuts {
    pub amount_outs: Vec<RandomOutput>,
}

/// Decoy outputs for one amount.
#[derive(Debug, PartialEq, Eq)]
pub struct RandomOutputs {
    pub amount: String,
    pub outputs: Vec<RandomOutput>,
}

/// Spendable outputs and the fee to pay.
#[derive(Debug, PartialEq, Eq)]
pub struct UnspentOuts {
    pub per_kb_fee: u64,
    pub fee_mask: u64,
    pub amount: String,
    pub outputs: Vec<Output>,
}

/// Outcome of a request to scan an account from an earlier height.
#[derive(Debug, PartialEq, Eq)]
pub struct ImportResponse {
    pub payment_address: Option<String>,
    pub payment_id: Option<String>,
    pub import_fee: Option<String>,
    pub new_request: u8,
    pub request_fulfilled: u8,
    pub status: String,
}

/// Outcome of a login.
#[derive(Debug, PartialEq, Eq)]
pub struct LoginResponse {
    pub new_address: u8,
    pub generated_locally: u8,
    pub start_height: Option<u64>,
}

/// `fs` is a well-formed `SpendObject`.
pub open spec fn spend_object_ok(fs: Seq<(String, Json)>) -> bool {
    str_field(fs, "amount"@) is Some
        && hash_field(fs, "key_image"@, 32) is Some
        && hash_field(fs, "tx_pub_key"@, 32) is Some
        && uint_field(fs, "out_index"@, u16::MAX as nat) is Some
        && uint_field(fs, "mixin"@, u32::MAX as nat) is Some
}

/// `fs` reads as the `SpendObject` `r`.
pub open spec fn spend_object_from(fs: Seq<(String, Json)>, r: SpendObject) -> bool {
    str_field(fs, "amount"@) == Some(r.amount@)
        && hash_field(fs, "key_image"@, 32) == Some(r.key_image@)
        && hash_field(fs, "tx_pub_key"@, 32) == Some(r.tx_pub_key@)
        && uint_field(fs, "out_index"@, u16::MAX as nat) == Some(r.out_index as nat)
        && uint_field(fs, "mixin"@, u32::MAX as nat) == Some(r.mixin as nat)
}

pub fn decode_spend_object(fields: &Vec<(String, Json)>) -> (r: Result<SpendObject, DecodeError>)
    ensures
        r is Ok <==> spend_object_ok(fields@),
        r matches Ok(v) ==> spend_object_from(fields@, v),
{
    let amount = take_str(fields, "amount")?;
    let key_image = take_hash(fields, "key_image", 32)?;
    let tx_pub_key = take_hash(fields, "tx_pub_key", 32)?;
    let out_index = take_uint(fields, "out_index", u16::MAX as u64)? as u16;
    let mixin = take_uint(fields, "mixin", u32::MAX as u64)? as u32;
    Ok(SpendObject { amount, key_image, tx_pub_key, out_index, mixin })
}

/// `fs` is a well-formed `RandomOutput`.
pub open spec fn random_output_ok(fs: Seq<(String, Json)>) -> bool {
    uint_field(fs, "global_index"@, u64::MAX as nat) is Some
        && hash_field(fs, "public_key"@, 32) is Some
        && hash_field(fs, "rct"@, 32) is Some
}

/// `fs` reads as the `RandomOutput` `r`.
pub open spec fn random_output_from(fs: Seq<(String, Json)>, r: RandomOutput) -> bool {
    uint_field(fs, "global_index"@, u64::MAX as nat) == Some(r.global_index as nat)
        && hash_field(fs, "public_key"@, 32) == Some(r.public_key@)
        && hash_field(fs, "rct"@, 32) == Some(r.rct@)
}

pub fn decode_random_output(fields: &Vec<(String, Json)>) -> (r: Result<RandomOutput, DecodeError>)
    ensures
        r is Ok <==> random_output_ok(fields@),
        r matches Ok(v) ==> random_output_from(fields@, v),
{
    let global_index = take_uint(fields, "global_index", u64::MAX as u64)?;
    let public_key = take_hash(fields, "public_key", 32)?;
    let rct = take_hash(fields, "rct", 32)?;
    Ok(RandomOutput { global_index, public_key, rct })
}

/// `fs` is a well-formed `Output`.
pub open spec fn output_ok(fs: Seq<(String, Json)>) -> bool {
    uint_field(fs, "tx_id"@, u64::MAX as nat) is Some
        && str_field(fs, "amount"@) is Some
        && uint_field(fs, "index"@, u16::MAX as nat) is Some
        && uint_field(fs, "global_index"@, u64::MAX as nat) is Some
        && str_field(fs, "rct"@) is Some
        && hash_field(fs, "tx_hash"@, 32) is Some
        && str_field(fs, "tx_prefix_hash"@) is Some
        && hash_field(fs, "public_key"@, 32) is Some
        && hash_field(fs, "tx_pub_key"@, 32) is Some
        && hash_list_ok(fs, "spend_key_images"@, 32)
        && str_field(fs, "timestamp"@) is Some
        && uint_field(fs, "height"@, u64::MAX as nat) is Some
}

/// `fs` reads as the `Output` `r`.
pub open spec fn output_from(fs: Seq<(String, Json)>, r: Output) -> bool {
    uint_field(fs, "tx_id"@, u64::MAX as nat) == Some(r.tx_id as nat)
        && str_field(fs, "amount"@) == Some(r.amount@)
        && uint_field(fs, "index"@, u16::MAX as nat) == Some(r.index as nat)
        && uint_field(fs, "global_index"@, u64::MAX as nat) == Some(r.global_index as nat)
        && str_field(fs, "rct"@) == Some(r.rct@)
        && hash_field(fs, "tx_hash"@, 32) == Some(r.tx_hash@)
        && str_field(fs, "tx_prefix_hash"@) == Some(r.tx_prefix_hash@)
        && hash_field(fs, "public_key"@, 32) == Some(r.public_key@)
        && hash_field(fs, "tx_pub_key"@, 32) == Some(r.tx_pub_key@)
        && hash_list_from(fs, "spend_key_images"@, 32, r.spend_key_images@)
        && str_field(fs, "timestamp"@) == Some(r.timestamp@)
        && uint_field(fs, "height"@, u64::MAX as nat) == Some(r.height as nat)
}

pub fn decode_output(fields: &Vec<(String, Json)>) -> (r: Result<Output, DecodeError>)
    ensures
        r is Ok <==> output_ok(fields@),
        r matches Ok(v) ==> output_from(fields@, v),
{
    let tx_id = take_uint(fields, "tx_id", u64::MAX as u64)?;
    let amount = take_str(fields, "amount")?;
    let index = take_uint(fields, "index", u16::MAX as u64)? as u16;
    let global_index = take_uint(fields, "global_index", u64::MAX as u64)?;
    let rct = take_str(fields, "rct")?;
    let tx_hash = take_hash(fields, "tx_hash", 32)?;
    let tx_prefix_hash = take_str(fields, "tx_prefix_hash")?;
    let public_key = take_hash(fields, "public_key", 32)?;
    let tx_pub_key = take_hash(fields, "tx_pub_key", 32)?;
    let spend_key_images = take_hash_list(fields, "spend_key_images", 32)?;
    let timestamp = take_str(fields, "timestamp")?;
    let height = take_uint(fields, "height", u64::MAX as u64)?;
    Ok(Output { tx_id, amount, index, global_index, rct, tx_hash, tx_prefix_hash, public_key, tx_pub_key, spend_key_images, timestamp, height })
}

/// `fs` is a well-formed `Transaction`.
pub open spec fn transaction_ok(fs: Seq<(String, Json)>) -> bool {
    uint_field(fs, "id"@, u64::MAX as nat) is Some
        && hash_field(fs, "hash"@, 32) is Some
        && str_field(fs, "timestamp"@) is Some
        && str_field(fs, "total_received"@) is Some
        && str_field(fs, "total_sent"@) is Some
        && uint_field(fs, "unlock_time"@, u64::MAX as nat) is Some
        && opt_uint_field(fs, "height"@) is Some
        && spend_object_list_ok(fs, "spent_outputs"@)
        && opt_hash_field(fs, "payment_id"@, 8) is Some
        && uint_field(fs, "coinbase"@, u8::MAX as nat) is Some
        && uint_field(fs, "mempool"@, u8::MAX as nat) is Some
        && uint_field(fs, "mixin"@, u32::MAX as nat) is Some
}

/// `fs` reads as the `Transaction` `r`.
pub open spec fn transaction_from(fs: Seq<(String, Json)>, r: Transaction) -> bool {
    uint_field(fs, "id"@, u64::MAX as nat) == Some(r.id as nat)
        && hash_field(fs, "hash"@, 32) == Some(r.hash@)
        && str_field(fs, "timestamp"@) == Some(r.timestamp@)
        && str_field(fs, "total_received"@) == Some(r.total_received@)
        && str_field(fs, "total_sent"@) == Some(r.total_sent@)
        && uint_field(fs, "unlock_time"@, u64::MAX as nat) == Some(r.unlock_time as nat)
        && opt_uint_field(fs, "height"@) == Some(opt_nat(r.height))
        && spend_object_list_from(fs, "spent_outputs"@, r.spent_outputs@)
        && opt_hash_field(fs, "payment_id"@, 8) == Some(opt_text(r.payment_id))
        && uint_field(fs, "coinbase"@, u8::MAX as nat) == Some(r.coinbase as nat)
        && uint_field(fs, "mempool"@, u8::MAX as nat) == Some(r.mempool as nat)
        && uint_field(fs, "mixin"@, u32::MAX as nat) == Some(r.mixin as nat)
}

pub fn decode_transaction(fields: &Vec<(String, Json)>) -> (r: Result<Transaction, DecodeError>)
    ensures
        r is Ok <==> transaction_ok(fields@),
        r matches Ok(v) ==> transaction_from(fields@, v),
{
    let id = take_uint(fields, "id", u64::MAX as u64)?;
    let hash = take_hash(fields, "hash", 32)?;
    let timestamp = take_str(fields, "timestamp")?;
    let total_received = take_str(fields, "total_received")?;
    let total_sent = take_str(fields, "total_sent")?;
    let unlock_time = take_uint(fields, "unlock_time", u64::MAX as u64)?;
    let height = take_opt_uint(fields, "height")?;
    let spent_outputs = decode_spend_object_list(fields, "spent_outputs")?;
    let payment_id = take_opt_hash(fields, "payment_id", 8)?;
    let coinbase = take_uint(fields, "coinbase", u8::MAX as u64)? as u8;
    let mempool = take_uint(fields, "mempool", u8::MAX as u64)? as u8;
    let mixin = take_uint(fields, "mixin", u32::MAX as u64)? as u32;
    Ok(Transaction { id, hash, timestamp, total_received, total_sent, unlock_time, height, spent_outputs, payment_id, coinbase, mempool, mixin })
}

/// `fs` is a well-formed `AddressInfo`.
pub open spec fn address_info_ok(fs: Seq<(String, Json)>) -> bool {
    str_field(fs, "locked_funds"@) is Some
        && str_field(fs, "total_received"@) is Some
        && str_field(fs, "total_sent"@) is Some
        && uint_field(fs, "scanned_height"@, u64::MAX as nat) is Some
        && uint_field(fs, "scanned_block_height"@, u64::MAX as nat) is Some
        && uint_field(fs, "start_height"@, u64::MAX as nat) is Some
        && uint_field(fs, "transaction_height"@, u64::MAX as nat) is Some
        && uint_field(fs, "blockchain_height"@, u64::MAX as nat) is Some
        && spend_object_list_ok(fs, "spent_outputs"@)
        && rates_field(fs, "rates"@) is Some
}

/// `fs` reads as the `AddressInfo` `r`.
pub open spec fn address_info_from(fs: Seq<(String, Json)>, r: AddressInfo) -> bool {
    str_field(fs, "locked_funds"@) == Some(r.locked_funds@)
        && str_field(fs, "total_received"@) == Some(r.total_received@)
        && str_field(fs, "total_sent"@) == Some(r.total_sent@)
        && uint_field(fs, "scanned_height"@, u64::MAX as nat) == Some(r.scanned_height as nat)
        && uint_field(fs, "scanned_block_height"@, u64::MAX as nat) == Some(r.scanned_block_height as nat)
        && uint_field(fs, "start_height"@, u64::MAX as nat) == Some(r.start_height as nat)
        && uint_field(fs, "transaction_height"@, u64::MAX as nat) == Some(r.transaction_height as nat)
        && uint_field(fs, "blockchain_height"@, u64::MAX as nat) == Some(r.blockchain_height as nat)
        && spend_object_list_from(fs, "spent_outputs"@, r.spent_outputs@)
        && rates_field(fs, "rates"@) == Some(opt_rates(r.rates))
}

pub fn decode_address_info(fields: &Vec<(String, Json)>) -> (r: Result<AddressInfo, DecodeError>)
    ensures
        r is Ok <==> address_info_ok(fields@),
        r matches Ok(v) ==> address_info_from(fields@, v),
{
    let locked_funds = take_str(fields, "locked_funds")?;
    let total_received = take_str(fields, "total_received")?;
    let total_sent = take_str(fields, "total_sent")?;
    let scanned_height = take_uint(fields, "scanned_height", u64::MAX as u64)?;
    let scanned_block_height = take_uint(fields, "scanned_block_height", u64::MAX as u64)?;
    let start_height = take_uint(fields, "start_height", u64::MAX as u64)?;
    let transaction_height = take_uint(fields, "transaction_height", u64::MAX as u64)?;
    let blockchain_height = take_uint(fields, "blockchain_height", u64::MAX as u64)?;
    let spent_outputs = decode_spend_object_list(fields, "spent_outputs")?;
    let rates = take_rates(fields, "rates")?;
    Ok(AddressInfo { locked_funds, total_received, total_sent, scanned_height, scanned_block_height, start_height, transaction_height, blockchain_height, spent_outputs, rates })
}

/// `fs` is a well-formed `AddressTxs`.
pub open spec fn address_txs_ok(fs: Seq<(String, Json)>) -> bool {
    str_field(fs, "total_received"@) is Some
        && uint_field(fs, "scanned_height"@, u64::MAX as nat) is Some
        && uint_field(fs, "scanned_block_height"@, u64::MAX as nat) is Some
        && uint_field(fs, "start_height"@, u64::MAX as nat) is Some
        && uint_field(fs, "blockchain_height"@, u64::MAX as nat) is Some
        && transaction_list_ok(fs, "transactions"@)
}

/// `fs` reads as the `AddressTxs` `r`.
pub open spec fn address_txs_from(fs: Seq<(String, Json)>, r: AddressTxs) -> bool {
    str_field(fs, "total_received"@) == Some(r.total_received@)
        && uint_field(fs, "scanned_height"@, u64::MAX as nat) == Some(r.scanned_height as nat)
        && uint_field(fs, "scanned_block_height"@, u64::MAX as nat) == Some(r.scanned_block_height as nat)
        && uint_field(fs, "start_height"@, u64::MAX as nat) == Some(r.start_height as nat)
        && uint_field(fs, "blockchain_height"@, u64::MAX as nat) == Some(r.blockchain_height as nat)
        && transaction_list_from(fs, "transactions"@, r.transactions@)
}

pub fn decode_address_txs(fields: &Vec<(String, Json)>) -> (r: Result<AddressTxs, DecodeError>)
    ensures
        r is Ok <==> address_txs_ok(fields@),
        r matches Ok(v) ==> address_txs_from(fields@, v),
{
    let total_received = take_str(fields, "total_received")?;
    let scanned_height = take_uint(fields, "scanned_height", u64::MAX as u64)?;
    let scanned_block_height = take_uint(fields, "scanned_block_height", u64::MAX as u64)?;
    let start_height = take_uint(fields, "start_height", u64::MAX as u64)?;
    let blockchain_height = take_uint(fields, "blockchain_height", u64::MAX as u64)?;
    let transactions = decode_transaction_list(fields, "transactions")?;
    Ok(AddressTxs { total_received, scanned_height, scanned_block_height, start_height, blockchain_height, transactions })
}

/// `fs` is a well-formed `AmountOuts`.
pub open spec fn amount_outs_ok(fs: Seq<(String, Json)>) -> bool {
    random_output_list_ok(fs, "amount_outs"@)
}

/// `fs` reads as the `AmountOuts` `r`.
pub open spec fn amount_outs_from(fs: Seq<(String, Json)>, r: AmountOuts) -> bool {
    random_output_list_from(fs, "amount_outs"@, r.amount_outs@)
}

pub fn decode_amount_outs(fields: &Vec<(String, Json)>) -> (r: Result<AmountOuts, DecodeError>)
    ensures
        r is Ok <==> amount_outs_ok(fields@),
        r matches Ok(v) ==> amount_outs_from(fields@, v),
{
    let amount_outs = decode_random_output_list(fields, "amount_outs")?;
    Ok(AmountOuts { amount_outs })
}

/// `fs` is a well-formed `RandomOutputs`.
pub open spec fn random_outputs_ok(fs: Seq<(String, Json)>) -> bool {
    str_field(fs, "amount"@) is Some
        && random_output_list_ok(fs, "outputs"@)
}

/// `fs` reads as the `RandomOutputs` `r`.
pub open spec fn random_outputs_from(fs: Seq<(String, Json)>, r: RandomOutputs) -> bool {
    str_field(fs, "amount"@) == Some(r.amount@)
        && random_output_list_from(fs, "outputs"@, r.outputs@)
}

pub fn decode_random_outputs(fields: &Vec<(String, Json)>) -> (r: Result<RandomOutputs, DecodeError>)
    ensures
        r is Ok <==> random_outputs_ok(fields@),
        r matches Ok(v) ==> random_outputs_from(fields@, v),
{
    let amount = take_str(fields, "amount")?;
    let outputs = decode_random_output_list(fields, "outputs")?;
    Ok(RandomOutputs { amount, outputs })
}

/// `fs` is a well-formed `UnspentOuts`.
pub open spec fn unspent_outs_ok(fs: Seq<(String, Json)>) -> bool {
    uint_field(fs, "per_kb_fee"@, u64::MAX as nat) is Some
        && uint_field(fs, "fee_mask"@, u64::MAX as nat) is Some
        && str_field(fs, "amount"@) is Some
        && output_list_ok(fs, "outputs"@)
}

/// `fs` reads as the `UnspentOuts` `r`.
pub open spec fn unspent_outs_from(fs: Seq<(String, Json)>, r: UnspentOuts) -> bool {
    uint_field(fs, "per_kb_fee"@, u64::MAX as nat) == Some(r.per_kb_fee as nat)
        && uint_field(fs, "fee_mask"@, u64::MAX as nat) == Some(r.fee_mask as nat)
        && str_field(fs, "amount"@) == Some(r.amount@)
        && output_list_from(fs, "outputs"@, r.outputs@)
}

pub fn decode_unspent_outs(fields: &Vec<(String, Json)>) -> (r: Result<UnspentOuts, DecodeError>)
    ensures
        r is Ok <==> unspent_outs_ok(fields@),
        r matches Ok(v) ==> unspent_outs_from(fields@, v),
{
    let per_kb_fee = take_uint(fields, "per_kb_fee", u64::MAX as u64)?;
    let fee_mask = take_uint(fields, "fee_mask", u64::MAX as u64)?;
    let amount = take_str(fields, "amount")?;
    let outputs = decode_output_list(fields, "outputs")?;
    Ok(UnspentOuts { per_kb_fee, fee_mask, amount, outputs })
}

/// `fs` is a well-formed `ImportResponse`.
pub open spec fn import_response_ok(fs: Seq<(String, Json)>) -> bool {
    opt_str_field(fs, "payment_address"@) is Some
        && opt_hash_field(fs, "payment_id"@, 8) is Some
        && opt_str_field(fs, "import_fee"@) is Some
        && uint_field(fs, "new_request"@, u8::MAX as nat) is Some
        && uint_field(fs, "request_fulfilled"@, u8::MAX as nat) is Some
        && str_field(fs, "status"@) is Some
}

/// `fs` reads as the `ImportResponse` `r`.
pub open spec fn import_response_from(fs: Seq<(String, Json)>, r: ImportResponse) -> bool {
    opt_str_field(fs, "payment_address"@) == Some(opt_text(r.payment_address))
        && opt_hash_field(fs, "payment_id"@, 8) == Some(opt_text(r.payment_id))
        && opt_str_field(fs, "import_fee"@) == Some(opt_text(r.import_fee))
        && uint_field(fs, "new_request"@, u8::MAX as nat) == Some(r.new_request as nat)
        && uint_field(fs, "request_fulfilled"@, u8::MAX as nat) == Some(r.request_fulfilled as nat)
        && str_field(fs, "status"@) == Some(r.status@)
}

pub fn decode_import_response(fields: &Vec<(String, Json)>) -> (r: Result<ImportResponse, DecodeError>)
    ensures
        r is Ok <==> import_response_ok(fields@),
        r matches Ok(v) ==> import_response_from(fields@, v),
{
    let payment_address = take_opt_str(fields, "payment_address")?;
    let payment_id = take_opt_hash(fields, "payment_id", 8)?;
    let import_fee = take_opt_str(fields, "import_fee")?;
    let new_request = take_uint(fields, "new_request", u8::MAX as u64)? as u8;
    let request_fulfilled = take_uint(fields, "request_fulfilled", u8::MAX as u64)? as u8;
    let status = take_str(fields, "status")?;
    Ok(ImportResponse { payment_address, payment_id, import_fee, new_request, request_fulfilled, status })
}

/// `fs` is a well-formed `LoginResponse`.
pub open spec fn login_response_ok(fs: Seq<(String, Json)>) -> bool {
    uint_field(fs, "new_address"@, u8::MAX as nat) is Some
        && uint_field(fs, "generated_locally"@, u8::MAX as nat) is Some
        && opt_uint_field(fs, "start_height"@) is Some
}

/// `fs` reads as the `LoginResponse` `r`.
pub open spec fn login_response_from(fs: Seq<(String, Json)>, r: LoginResponse) -> bool {
    uint_field(fs, "new_address"@, u8::MAX as nat) == Some(r.new_address as nat)
        && uint_field(fs, "generated_locally"@, u8::MAX as nat) == Some(r.generated_locally as nat)
        && opt_uint_field(fs, "start_height"@) == Some(opt_nat(r.start_height))
}

pub fn decode_login_response(fields: &Vec<(String, Json)>) -> (r: Result<LoginResponse, DecodeError>)
    ensures
        r is Ok <==> login_response_ok(fields@),
        r matches Ok(v) ==> login_response_from(fields@, v),
{
    let new_address = take_uint(fields, "new_address", u8::MAX as u64)? as u8;
    let generated_locally = take_uint(fields, "generated_locally", u8::MAX as u64)? as u8;
    let start_height = take_opt_uint(fields, "start_height")?;
    Ok(LoginResponse { new_address, generated_locally, start_height })
}

pub open spec fn spend_object_item_ok(j: Json) -> bool {
    match j {
        Json::Object(o) => spend_object_ok(o@),
        _ => false,
    }
}

pub open spec fn spend_object_item_from(j: Json, r: SpendObject) -> bool {
    match j {
        Json::Object(o) => spend_object_from(o@, r),
        _ => false,
    }
}

/// Member `key` is an array of well-formed `SpendObject` objects.
pub open spec fn spend_object_list_ok(fs: Seq<(String, Json)>, key: Seq<char>) -> bool {
    match field_of(fs, key) {
        Some(Json::Array(a)) => forall|i: int| 0 <= i < a@.len() ==> spend_object_item_ok(#[trigger] a@[i]),
        _ => false,
    }
}

/// Member `key` is an array that reads, item by item, as `out`.
pub open spec fn spend_object_list_from(fs: Seq<(String, Json)>, key: Seq<char>, out: Seq<SpendObject>) -> bool {
    match field_of(fs, key) {
        Some(Json::Array(a)) => a@.len() == out.len()
            && forall|i: int| 0 <= i < a@.len() ==> spend_object_item_from(#[trigger] a@[i], out[i]),
        _ => false,
    }
}

pub fn decode_spend_object_list(fields: &Vec<(String, Json)>, key: &str) -> (r: Result<Vec<SpendObject>, DecodeError>)
    ensures
        r is Ok <==> spend_object_list_ok(fields@, key@),
        r matches Ok(v) ==> spend_object_list_from(fields@, key@, v@),
{
    let items = match get_field(fields, key) {
        Some(Json::Array(a)) => a,
        Some(_) => return Err(DecodeError::InvalidField(String::from_str(key))),
        None => return Err(DecodeError::MissingField(String::from_str(key))),
    };
    let mut out: Vec<SpendObject> = Vec::new();
    let mut i: usize = 0;
    while i < items.len()
        invariant
            field_of(fields@, key@) == Some(Json::Array(*items)),
            i <= items@.len(),
            out@.len() == i,
            forall|j: int| 0 <= j < i ==> spend_object_item_from(#[trigger] items@[j], out@[j]),
            forall|j: int| 0 <= j < i ==> spend_object_item_ok(#[trigger] items@[j]),
        decreases items@.len() - i,
    {
        assert(Json::Array(*items)->Array_0@ == items@);
        match &items[i] {
            Json::Object(o) => match decode_spend_object(o) {
                Ok(v) => out.push(v),
                Err(e) => {
                    assert(!spend_object_item_ok(items@[i as int]));
                    return Err(e);
                },
            },
            _ => {
                assert(!spend_object_item_ok(items@[i as int]));
                return Err(DecodeError::NotAnObject);
            },
        }
        i = i + 1;
    }
    Ok(out)
}

pub open spec fn random_output_item_ok(j: Json) -> bool {
    match j {
        Json::Object(o) => random_output_ok(o@),
        _ => false,
    }
}

pub open spec fn random_output_item_from(j: Json, r: RandomOutput) -> bool {
    match j {
        Json::Object(o) => random_output_from(o@, r),
        _ => false,
    }
}

/// Member `key` is an array of well-formed `RandomOutput` objects.
pub open spec fn random_output_list_ok(fs: Seq<(String, Json)>, key: Seq<char>) -> bool {
    match field_of(fs, key) {
        Some(Json::Array(a)) => forall|i: int| 0 <= i < a@.len() ==> random_output_item_ok(#[trigger] a@[i]),
        _ => false,
    }
}

/// Member `key` is an array that reads, item by item, as `out`.
pub open spec fn random_output_list_from(fs: Seq<(String, Json)>, key: Seq<char>, out: Seq<RandomOutput>) -> bool {
    match field_of(fs, key) {
        Some(Json::Array(a)) => a@.len() == out.len()
            && forall|i: int| 0 <= i < a@.len() ==> random_output_item_from(#[trigger] a@[i], out[i]),
        _ => false,
    }
}

pub fn decode_random_output_list(fields: &Vec<(String, Json)>, key: &str) -> (r: Result<Vec<RandomOutput>, DecodeError>)
    ensures
        r is Ok <==> random_output_list_ok(fields@, key@),
        r matches Ok(v) ==> random_output_list_from(fields@, key@, v@),
{
    let items = match get_field(fields, key) {
        Some(Json::Array(a)) => a,
        Some(_) => return Err(DecodeError::InvalidField(String::from_str(key))),
        None => return Err(DecodeError::MissingField(String::from_str(key))),
    };
    let mut out: Vec<RandomOutput> = Vec::new();
    let mut i: usize = 0;
    while i < items.len()
        invariant
            field_of(fields@, key@) == Some(Json::Array(*items)),
            i <= items@.len(),
            out@.len() == i,
            forall|j: int| 0 <= j < i ==> random_output_item_from(#[trigger] items@[j], out@[j]),
            forall|j: int| 0 <= j < i ==> random_output_item_ok(#[trigger] items@[j]),
        decreases items@.len() - i,
    {
        assert(Json::Array(*items)->Array_0@ == items@);
        match &items[i] {
            Json::Object(o) => match decode_random_output(o) {
                Ok(v) => out.push(v),
                Err(e) => {
                    assert(!random_output_item_ok(items@[i as int]));
                    return Err(e);
                },
            },
            _ => {
                assert(!random_output_item_ok(items@[i as int]));
                return Err(DecodeError::NotAnObject);
            },
        }
        i = i + 1;
    }
    Ok(out)
}

pub open spec fn output_item_ok(j: Json) -> bool {
    match j {
        Json::Object(o) => output_ok(o@),
        _ => false,
    }
}

pub open spec fn output_item_from(j: Json, r: Output) -> bool {
    match j {
        Json::Object(o) => output_from(o@, r),
        _ => false,
    }
}

/// Member `key` is an array of well-formed `Output` objects.
pub open spec fn output_list_ok(fs: Seq<(String, Json)>, key: Seq<char>) -> bool {
    match field_of(fs, key) {
        Some(Json::Array(a)) => forall|i: int| 0 <= i < a@.len() ==> output_item_ok(#[trigger] a@[i]),
        _ => false,
    }
}

/// Member `key` is an array that reads, item by item, as `out`.
pub open spec fn output_list_from(fs: Seq<(String, Json)>, key: Seq<char>, out: Seq<Output>) -> bool {
    match field_of(fs, key) {
        Some(Json::Array(a)) => a@.len() == out.len()
            && forall|i: int| 0 <= i < a@.len() ==> output_item_from(#[trigger] a@[i], out[i]),
        _ => false,
    }
}

pub fn decode_output_list(fields: &Vec<(String, Json)>, key: &str) -> (r: Result<Vec<Output>, DecodeError>)
    ensures
        r is Ok <==> output_list_ok(fields@, key@),
        r matches Ok(v) ==> output_list_from(fields@, key@, v@),
{
    let items = match get_field(fields, key) {
        Some(Json::Array(a)) => a,
        Some(_) => return Err(DecodeError::InvalidField(String::from_str(key))),
        None => return Err(DecodeError::MissingField(String::from_str(key))),
    };
    let mut out: Vec<Output> = Vec::new();
    let mut i: usize = 0;
    while i < items.len()
        invariant
            field_of(fields@, key@) == Some(Json::Array(*items)),
            i <= items@.len(),
            out@.len() == i,
            forall|j: int| 0 <= j < i ==> output_item_from(#[trigger] items@[j], out@[j]),
            forall|j: int| 0 <= j < i ==> output_item_ok(#[trigger] items@[j]),
        decreases items@.len() - i,
    {
        assert(Json::Array(*items)->Array_0@ == items@);
        match &items[i] {
            Json::Object(o) => match decode_output(o) {
                Ok(v) => out.push(v),
                Err(e) => {
                    assert(!output_item_ok(items@[i as int]));
                    return Err(e);
                },
            },
            _ => {
                assert(!output_item_ok(items@[i as int]));
                return Err(DecodeError::NotAnObject);
            },
        }
        i = i + 1;
    }
    Ok(out)
}

pub open spec fn transaction_item_ok(j: Json) -> bool {
    match j {
        Json::Object(o) => transaction_ok(o@),
        _ => false,
    }
}

pub open spec fn transaction_item_from(j: Json, r: Transaction) -> bool {
    match j {
        Json::Object(o) => transaction_from(o@, r),
        _ => false,
    }
}

/// Member `key` is an array of well-formed `Transaction` objects.
pub open spec fn transaction_list_ok(fs: Seq<(String, Json)>, key: Seq<char>) -> bool {
    match field_of(fs, key) {
        Some(Json::Array(a)) => forall|i: int| 0 <= i < a@.len() ==> transaction_item_ok(#[trigger] a@[i]),
        _ => false,
    }
}

/// Member `key` is an array that reads, item by item, as `out`.
pub open spec fn transaction_list_from(fs: Seq<(String, Json)>, key: Seq<char>, out: Seq<Transaction>) -> bool {
    match field_of(fs, key) {
        Some(Json::Array(a)) => a@.len() == out.len()
            && forall|i: int| 0 <= i < a@.len() ==> transaction_item_from(#[trigger] a@[i], out[i]),
        _ => false,
    }
}

pub fn decode_transaction_list(fields: &Vec<(String, Json)>, key: &str) -> (r: Result<Vec<Transaction>, DecodeError>)
    ensures
        r is Ok <==> transaction_list_ok(fields@, key@),
        r matches Ok(v) ==> transaction_list_from(fields@, key@, v@),
{
    let items = match get_field(fields, key) {
        Some(Json::Array(a)) => a,
        Some(_) => return Err(DecodeError::InvalidField(String::from_str(key))),
        None => return Err(DecodeError::MissingField(String::from_str(key))),
    };
    let mut out: Vec<Transaction> = Vec::new();
    let mut i: usize = 0;
    while i < items.len()
        invariant
            field_of(fields@, key@) == Some(Json::Array(*items)),
            i <= items@.len(),
            out@.len() == i,
            forall|j: int| 0 <= j < i ==> transaction_item_from(#[trigger] items@[j], out@[j]),
            forall|j: int| 0 <= j < i ==> transaction_item_ok(#[trigger] items@[j]),
        decreases items@.len() - i,
    {
        assert(Json::Array(*items)->Array_0@ == items@);
        match &items[i] {
            Json::Object(o) => match decode_transaction(o) {
                Ok(v) => out.push(v),
                Err(e) => {
                    assert(!transaction_item_ok(items@[i as int]));
                    return Err(e);
                },
            },
            _ => {
                assert(!transaction_item_ok(items@[i as int]));
                return Err(DecodeError::NotAnObject);
            },
        }
        i = i + 1;
    }
    Ok(out)
}

/// Hash members of `r`, nested records included, hold hex text of the right length.
pub open spec fn spend_object_valid(r: SpendObject) -> bool {
    is_hex_of_len(r.key_image@, 32)
        && is_hex_of_len(r.tx_pub_key@, 32)
}

/// `a` and `b` agree in every field.
pub open spec fn spend_object_same(a: SpendObject, b: SpendObject) -> bool {
    a.amount@ == b.amount@
        && a.key_image@ == b.key_image@
        && a.tx_pub_key@ == b.tx_pub_key@
        && a.out_index == b.out_index
        && a.mixin == b.mixin
}

impl SpendObject {
    /// The wire form of the record: one member per field, in declaration order,
    /// with null for an absent optional field.
    pub fn to_json(&self) -> (r: Json)
        requires
            spend_object_valid(*self),
        ensures
            r is Object && spend_object_from(object_members(r), *self),
    {
        let mut fs: Vec<(String, Json)> = Vec::new();
        fs.push((String::from_str("amount"), Json::Str(self.amount.clone())));
        fs.push((String::from_str("key_image"), Json::Str(self.key_image.clone())));
        fs.push((String::from_str("tx_pub_key"), Json::Str(self.tx_pub_key.clone())));
        fs.push((String::from_str("out_index"), Json::Number(render_u64(self.out_index as u64))));
        fs.push((String::from_str("mixin"), Json::Number(render_u64(self.mixin as u64))));
        proof {
            reveal_strlit("amount");
            assert(fs@[0].0@ == "amount"@);
            assert("amount"@.len() == 6);
            reveal_strlit("key_image");
            assert(fs@[1].0@ == "key_image"@);
            assert("key_image"@.len() == 9);
            reveal_strlit("tx_pub_key");
            assert(fs@[2].0@ == "tx_pub_key"@);
            assert("tx_pub_key"@.len() == 10);
            reveal_strlit("out_index");
            assert(fs@[3].0@ == "out_index"@);
            assert("out_index"@.len() == 9);
            reveal_strlit("mixin");
            assert(fs@[4].0@ == "mixin"@);
            assert("mixin"@.len() == 5);
            assert("key_image"@[0] == 'k' && "out_index"@[0] == 'o');
            assert("key_image"@ != "out_index"@);
            lemma_field_at(fs@, "amount"@, 0);
            lemma_field_at(fs@, "key_image"@, 1);
            lemma_field_at(fs@, "tx_pub_key"@, 2);
            lemma_decimal_round_trip(self.out_index as u64);
            lemma_field_at(fs@, "out_index"@, 3);
            lemma_decimal_round_trip(self.mixin as u64);
            lemma_field_at(fs@, "mixin"@, 4);
        }
        Json::Object(fs)
    }
}

/// Round trip: members that read as `r` are well formed, and any `SpendObject` that they read as
/// agrees with `r` in every field, absent optional fields included.
/// With `to_json` and `decode_spend_object`, encoding a record and decoding it gives it back.
pub proof fn lemma_spend_object_round_trip(r: SpendObject, fs: Seq<(String, Json)>, back: SpendObject)
    requires
        spend_object_from(fs, r),
        spend_object_from(fs, back),
    ensures
        spend_object_ok(fs),
        spend_object_same(r, back),
{
}

/// Hash members of `r`, nested records included, hold hex text of the right length.
pub open spec fn random_output_valid(r: RandomOutput) -> bool {
    is_hex_of_len(r.public_key@, 32)
        && is_hex_of_len(r.rct@, 32)
}

/// `a` and `b` agree in every field.
pub open spec fn random_output_same(a: RandomOutput, b: RandomOutput) -> bool {
    a.global_index == b.global_index
        && a.public_key@ == b.public_key@
        && a.rct@ == b.rct@
}

impl RandomOutput {
    /// The wire form of the record: one member per field, in declaration order,
    /// with null for an absent optional field.
    pub fn to_json(&self) -> (r: Json)
        requires
            random_output_valid(*self),
        ensures
            r is Object && random_output_from(object_members(r), *self),
    {
        let mut fs: Vec<(String, Json)> = Vec::new();
        fs.push((String::from_str("global_index"), Json::Number(render_u64(self.global_index as u64))));
        fs.push((String::from_str("public_key"), Json::Str(self.public_key.clone())));
        fs.push((String::from_str("rct"), Json::Str(self.rct.clone())));
        proof {
            reveal_strlit("global_index");
            assert(fs@[0].0@ == "global_index"@);
            assert("global_index"@.len() == 12);
            reveal_strlit("public_key");
            assert(fs@[1].0@ == "public_key"@);
            assert("public_key"@.len() == 10);
            reveal_strlit("rct");
            assert(fs@[2].0@ == "rct"@);
            assert("rct"@.len() == 3);
            lemma_decimal_round_trip(self.global_index as u64);
            lemma_field_at(fs@, "global_index"@, 0);
            lemma_field_at(fs@, "public_key"@, 1);
            lemma_field_at(fs@, "rct"@, 2);
        }
        Json::Object(fs)
    }
}

/// Round trip: members that read as `r` are well formed, and any `RandomOutput` that they read as
/// agrees with `r` in every field, absent optional fields included.
/// With `to_json` and `decode_random_output`, encoding a record and decoding it gives it back.
pub proof fn lemma_random_output_round_trip(r: RandomOutput, fs: Seq<(String, Json)>, back: RandomOutput)
    requires
        random_output_from(fs, r),
        random_output_from(fs, back),
    ensures
        random_output_ok(fs),
        random_output_same(r, back),
{
}

/// Hash members of `r`, nested records included, hold hex text of the right length.
pub open spec fn output_valid(r: Output) -> bool {
    is_hex_of_len(r.tx_hash@, 32)
        && is_hex_of_len(r.public_key@, 32)
        && is_hex_of_len(r.tx_pub_key@, 32)
        && (forall|i: int| 0 <= i < r.spend_key_images@.len() ==> is_hex_of_len((#[trigger] r.spend_key_images@[i])@, 32))
}

/// `a` and `b` agree in every field.
pub open spec fn output_same(a: Output, b: Output) -> bool {
    a.tx_id == b.tx_id
        && a.amount@ == b.amount@
        && a.index == b.index
        && a.global_index == b.global_index
        && a.rct@ == b.rct@
        && a.tx_hash@ == b.tx_hash@
        && a.tx_prefix_hash@ == b.tx_prefix_hash@
        && a.public_key@ == b.public_key@
        && a.tx_pub_key@ == b.tx_pub_key@
        && a.spend_key_images@.len() == b.spend_key_images@.len()
        && (forall|i: int| 0 <= i < a.spend_key_images@.len() ==> (#[trigger] a.spend_key_images@[i])@ == b.spend_key_images@[i]@)
        && a.timestamp@ == b.timestamp@
        && a.height == b.height
}

impl Output {
    /// The wire form of the record: one member per field, in declaration order,
    /// with null for an absent optional field.
    pub fn to_json(&self) -> (r: Json)
        requires
            output_valid(*self),
        ensures
            r is Object && output_from(object_members(r), *self),
    {
        let mut fs: Vec<(String, Json)> = Vec::new();
        fs.push((String::from_str("tx_id"), Json::Number(render_u64(self.tx_id as u64))));
        fs.push((String::from_str("amount"), Json::Str(self.amount.clone())));
        fs.push((String::from_str("index"), Json::Number(render_u64(self.index as u64))));
        fs.push((String::from_str("global_index"), Json::Number(render_u64(self.global_index as u64))));
        fs.push((String::from_str("rct"), Json::Str(self.rct.clone())));
        fs.push((String::from_str("tx_hash"), Json::Str(self.tx_hash.clone())));
        fs.push((String::from_str("tx_prefix_hash"), Json::Str(self.tx_prefix_hash.clone())));
        fs.push((String::from_str("public_key"), Json::Str(self.public_key.clone())));
        fs.push((String::from_str("tx_pub_key"), Json::Str(self.tx_pub_key.clone())));
        fs.push((String::from_str("spend_key_images"), Json::Array(hash_list_json(&self.spend_key_images))));
        fs.push((String::from_str("timestamp"), Json::Str(self.timestamp.clone())));
        fs.push((String::from_str("height"), Json::Number(render_u64(self.height as u64))));
        proof {
            reveal_strlit("tx_id");
            assert(fs@[0].0@ == "tx_id"@);
            assert("tx_id"@.len() == 5);
            reveal_strlit("amount");
            assert(fs@[1].0@ == "amount"@);
            assert("amount"@.len() == 6);
            reveal_strlit("index");
            assert(fs@[2].0@ == "index"@);
            assert("index"@.len() == 5);
            reveal_strlit("global_index");
            assert(fs@[3].0@ == "global_index"@);
            assert("global_index"@.len() == 12);
            reveal_strlit("rct");
            assert(fs@[4].0@ == "rct"@);
            assert("rct"@.len() == 3);
            reveal_strlit("tx_hash");
            assert(fs@[5].0@ == "tx_hash"@);
            assert("tx_hash"@.len() == 7);
            reveal_strlit("tx_prefix_hash");
            assert(fs@[6].0@ == "tx_prefix_hash"@);
            assert("tx_prefix_hash"@.len() == 14);
            reveal_strlit("public_key");
            assert(fs@[7].0@ == "public_key"@);
            assert("public_key"@.len() == 10);
            reveal_strlit("tx_pub_key");
            assert(fs@[8].0@ == "tx_pub_key"@);
            assert("tx_pub_key"@.len() == 10);
            reveal_strlit("spend_key_images");
            assert(fs@[9].0@ == "spend_key_images"@);
            assert("spend_key_images"@.len() == 16);
            reveal_strlit("timestamp");
            assert(fs@[10].0@ == "timestamp"@);
            assert("timestamp"@.len() == 9);
            reveal_strlit("height");
            assert(fs@[11].0@ == "height"@);
            assert("height"@.len() == 6);
            assert("tx_id"@[0] == 't' && "index"@[0] == 'i');
            assert("tx_id"@ != "index"@);
            assert("public_key"@[0] == 'p' && "tx_pub_key"@[0] == 't');
            assert("public_key"@ != "tx_pub_key"@);
            assert("amount"@[0] == 'a' && "height"@[0] == 'h');
            assert("amount"@ != "height"@);
            lemma_decimal_round_trip(self.tx_id as u64);
            lemma_field_at(fs@, "tx_id"@, 0);
            lemma_field_at(fs@, "amount"@, 1);
            lemma_decimal_round_trip(self.index as u64);
            lemma_field_at(fs@, "index"@, 2);
            lemma_decimal_round_trip(self.global_index as u64);
            lemma_field_at(fs@, "global_index"@, 3);
            lemma_field_at(fs@, "rct"@, 4);
            lemma_field_at(fs@, "tx_hash"@, 5);
            lemma_field_at(fs@, "tx_prefix_hash"@, 6);
            lemma_field_at(fs@, "public_key"@, 7);
            lemma_field_at(fs@, "tx_pub_key"@, 8);
            lemma_field_at(fs@, "spend_key_images"@, 9);
            lemma_field_at(fs@, "timestamp"@, 10);
            lemma_decimal_round_trip(self.height as u64);
            lemma_field_at(fs@, "height"@, 11);
        }
        Json::Object(fs)
    }
}

/// Round trip: members that read as `r` are well formed, and any `Output` that they read as
/// agrees with `r` in every field, absent optional fields included.
/// With `to_json` and `decode_output`, encoding a record and decoding it gives it back.
pub proof fn lemma_output_round_trip(r: Output, fs: Seq<(String, Json)>, back: Output)
    requires
        output_from(fs, r),
        output_from(fs, back),
    ensures
        output_ok(fs),
        output_same(r, back),
{
    let aspend_key_images = field_of(fs, "spend_key_images"@)->Some_0->Array_0;
    assert forall|i: int| 0 <= i < aspend_key_images@.len() implies (#[trigger] r.spend_key_images@[i])@ == back.spend_key_images@[i]@ by {
        assert(hash_item_ok(aspend_key_images@[i], 32));
    }
}

/// Hash members of `r`, nested records included, hold hex text of the right length.
pub open spec fn transaction_valid(r: Transaction) -> bool {
    is_hex_of_len(r.hash@, 32)
        && (forall|i: int| 0 <= i < r.spent_outputs@.len() ==> spend_object_valid(#[trigger] r.spent_outputs@[i]))
        && (match r.payment_id { Some(t) => is_hex_of_len(t@, 8), None => true })
}

/// `a` and `b` agree in every field.
pub open spec fn transaction_same(a: Transaction, b: Transaction) -> bool {
    a.id == b.id
        && a.hash@ == b.hash@
        && a.timestamp@ == b.timestamp@
        && a.total_received@ == b.total_received@
        && a.total_sent@ == b.total_sent@
        && a.unlock_time == b.unlock_time
        && a.height == b.height
        && a.spent_outputs@.len() == b.spent_outputs@.len()
        && (forall|i: int| 0 <= i < a.spent_outputs@.len() ==> spend_object_same(#[trigger] a.spent_outputs@[i], b.spent_outputs@[i]))
        && opt_text(a.payment_id) == opt_text(b.payment_id)
        && a.coinbase == b.coinbase
        && a.mempool == b.mempool
        && a.mixin == b.mixin
}

impl Transaction {
    /// The wire form of the record: one member per field, in declaration order,
    /// with null for an absent optional field.
    pub fn to_json(&self) -> (r: Json)
        requires
            transaction_valid(*self),
        ensures
            r is Object && transaction_from(object_members(r), *self),
    {
        let mut fs: Vec<(String, Json)> = Vec::new();
        fs.push((String::from_str("id"), Json::Number(render_u64(self.id as u64))));
        fs.push((String::from_str("hash"), Json::Str(self.hash.clone())));
        fs.push((String::from_str("timestamp"), Json::Str(self.timestamp.clone())));
        fs.push((String::from_str("total_received"), Json::Str(self.total_received.clone())));
        fs.push((String::from_str("total_sent"), Json::Str(self.total_sent.clone())));
        fs.push((String::from_str("unlock_time"), Json::Number(render_u64(self.unlock_time as u64))));
        fs.push((String::from_str("height"), match self.height {
            Some(v) => Json::Number(render_u64(v)),
            None => Json::Null,
        }));
        fs.push((String::from_str("spent_outputs"), Json::Array(encode_spend_object_list(&self.spent_outputs))));
        fs.push((String::from_str("payment_id"), match &self.payment_id {
            Some(t) => Json::Str(t.clone()),
            None => Json::Null,
        }));
        fs.push((String::from_str("coinbase"), Json::Number(render_u64(self.coinbase as u64))));
        fs.push((String::from_str("mempool"), Json::Number(render_u64(self.mempool as u64))));
        fs.push((String::from_str("mixin"), Json::Number(render_u64(self.mixin as u64))));
        proof {
            reveal_strlit("id");
            assert(fs@[0].0@ == "id"@);
            assert("id"@.len() == 2);
            reveal_strlit("hash");
            assert(fs@[1].0@ == "hash"@);
            assert("hash"@.len() == 4);
            reveal_strlit("timestamp");
            assert(fs@[2].0@ == "timestamp"@);
            assert("timestamp"@.len() == 9);
            reveal_strlit("total_received");
            assert(fs@[3].0@ == "total_received"@);
            assert("total_received"@.len() == 14);
            reveal_strlit("total_sent");
            assert(fs@[4].0@ == "total_sent"@);
            assert("total_sent"@.len() == 10);
            reveal_strlit("unlock_time");
            assert(fs@[5].0@ == "unlock_time"@);
            assert("unlock_time"@.len() == 11);
            reveal_strlit("height");
            assert(fs@[6].0@ == "height"@);
            assert("height"@.len() == 6);
            reveal_strlit("spent_outputs");
            assert(fs@[7].0@ == "spent_outputs"@);
            assert("spent_outputs"@.len() == 13);
            reveal_strlit("payment_id");
            assert(fs@[8].0@ == "payment_id"@);
            assert("payment_id"@.len() == 10);
            reveal_strlit("coinbase");
            assert(fs@[9].0@ == "coinbase"@);
            assert("coinbase"@.len() == 8);
            reveal_strlit("mempool");
            assert(fs@[10].0@ == "mempool"@);
            assert("mempool"@.len() == 7);
            reveal_strlit("mixin");
            assert(fs@[11].0@ == "mixin"@);
            assert("mixin"@.len() == 5);
            assert("total_sent"@[0] == 't' && "payment_id"@[0] == 'p');
            assert("total_sent"@ != "payment_id"@);
            lemma_decimal_round_trip(self.id as u64);
            lemma_field_at(fs@, "id"@, 0);
            lemma_field_at(fs@, "hash"@, 1);
            lemma_field_at(fs@, "timestamp"@, 2);
            lemma_field_at(fs@, "total_received"@, 3);
            lemma_field_at(fs@, "total_sent"@, 4);
            lemma_decimal_round_trip(self.unlock_time as u64);
            lemma_field_at(fs@, "unlock_time"@, 5);
            if self.height is Some {
                lemma_decimal_round_trip(self.height->Some_0);
            }
            lemma_field_at(fs@, "height"@, 6);
            lemma_field_at(fs@, "spent_outputs"@, 7);
            lemma_field_at(fs@, "payment_id"@, 8);
            lemma_decimal_round_trip(self.coinbase as u64);
            lemma_field_at(fs@, "coinbase"@, 9);
            lemma_decimal_round_trip(self.mempool as u64);
            lemma_field_at(fs@, "mempool"@, 10);
            lemma_decimal_round_trip(self.mixin as u64);
            lemma_field_at(fs@, "mixin"@, 11);
        }
        Json::Object(fs)
    }
}

/// Round trip: members that read as `r` are well formed, and any `Transaction` that they read as
/// agrees with `r` in every field, absent optional fields included.
/// With `to_json` and `decode_transaction`, encoding a record and decoding it gives it back.
pub proof fn lemma_transaction_round_trip(r: Transaction, fs: Seq<(String, Json)>, back: Transaction)
    requires
        transaction_from(fs, r),
        transaction_from(fs, back),
    ensures
        transaction_ok(fs),
        transaction_same(r, back),
{
    let aspent_outputs = field_of(fs, "spent_outputs"@)->Some_0->Array_0;
    assert(field_of(fs, "spent_outputs"@) == Some(Json::Array(aspent_outputs)));
    assert(aspent_outputs@.len() == r.spent_outputs@.len() && aspent_outputs@.len() == back.spent_outputs@.len());
    assert forall|i: int| 0 <= i < aspent_outputs@.len() implies spend_object_item_ok(#[trigger] aspent_outputs@[i]) by {
        assert(spend_object_item_from(aspent_outputs@[i], r.spent_outputs@[i]));
        assert(spend_object_item_from(aspent_outputs@[i], back.spent_outputs@[i]));
        lemma_spend_object_round_trip(r.spent_outputs@[i], aspent_outputs@[i]->Object_0@, back.spent_outputs@[i]);
    }
    assert forall|i: int| 0 <= i < aspent_outputs@.len() implies spend_object_same(#[trigger] r.spent_outputs@[i], back.spent_outputs@[i]) by {
        assert(spend_object_item_from(aspent_outputs@[i], r.spent_outputs@[i]));
        assert(spend_object_item_from(aspent_outputs@[i], back.spent_outputs@[i]));
        lemma_spend_object_round_trip(r.spent_outputs@[i], aspent_outputs@[i]->Object_0@, back.spent_outputs@[i]);
    }
}

/// Hash members of `r`, nested records included, hold hex text of the right length.
pub open spec fn address_info_valid(r: AddressInfo) -> bool {
    (forall|i: int| 0 <= i < r.spent_outputs@.len() ==> spend_object_valid(#[trigger] r.spent_outputs@[i]))
}

/// `a` and `b` agree in every field.
pub open spec fn address_info_same(a: AddressInfo, b: AddressInfo) -> bool {
    a.locked_funds@ == b.locked_funds@
        && a.total_received@ == b.total_received@
        && a.total_sent@ == b.total_sent@
        && a.scanned_height == b.scanned_height
        && a.scanned_block_height == b.scanned_block_height
        && a.start_height == b.start_height
        && a.transaction_height == b.transaction_height
        && a.blockchain_height == b.blockchain_height
        && a.spent_outputs@.len() == b.spent_outputs@.len()
        && (forall|i: int| 0 <= i < a.spent_outputs@.len() ==> spend_object_same(#[trigger] a.spent_outputs@[i], b.spent_outputs@[i]))
        && opt_rates(a.rates) == opt_rates(b.rates)
}

impl AddressInfo {
    /// The wire form of the record: one member per field, in declaration order,
    /// with null for an absent optional field.
    pub fn to_json(&self) -> (r: Json)
        requires
            address_info_valid(*self),
        ensures
            r is Object && address_info_from(object_members(r), *self),
    {
        let mut fs: Vec<(String, Json)> = Vec::new();
        fs.push((String::from_str("locked_funds"), Json::Str(self.locked_funds.clone())));
        fs.push((String::from_str("total_received"), Json::Str(self.total_received.clone())));
        fs.push((String::from_str("total_sent"), Json::Str(self.total_sent.clone())));
        fs.push((String::from_str("scanned_height"), Json::Number(render_u64(self.scanned_height as u64))));
        fs.push((String::from_str("scanned_block_height"), Json::Number(render_u64(self.scanned_block_height as u64))));
        fs.push((String::from_str("start_height"), Json::Number(render_u64(self.start_height as u64))));
        fs.push((String::from_str("transaction_height"), Json::Number(render_u64(self.transaction_height as u64))));
        fs.push((String::from_str("blockchain_height"), Json::Number(render_u64(self.blockchain_height as u64))));
        fs.push((String::from_str("spent_outputs"), Json::Array(encode_spend_object_list(&self.spent_outputs))));
        fs.push((String::from_str("rates"), rates_json(&self.rates)));
        proof {
            reveal_strlit("locked_funds");
            assert(fs@[0].0@ == "locked_funds"@);
            assert("locked_funds"@.len() == 12);
            reveal_strlit("total_received");
            assert(fs@[1].0@ == "total_received"@);
            assert("total_received"@.len() == 14);
            reveal_strlit("total_sent");
            assert(fs@[2].0@ == "total_sent"@);
            assert("total_sent"@.len() == 10);
            reveal_strlit("scanned_height");
            assert(fs@[3].0@ == "scanned_height"@);
            assert("scanned_height"@.len() == 14);
            reveal_strlit("scanned_block_height");
            assert(fs@[4].0@ == "scanned_block_height"@);
            assert("scanned_block_height"@.len() == 20);
            reveal_strlit("start_height");
            assert(fs@[5].0@ == "start_height"@);
            assert("start_height"@.len() == 12);
            reveal_strlit("transaction_height");
            assert(fs@[6].0@ == "transaction_height"@);
            assert("transaction_height"@.len() == 18);
            reveal_strlit("blockchain_height");
            assert(fs@[7].0@ == "blockchain_height"@);
            assert("blockchain_height"@.len() == 17);
            reveal_strlit("spent_outputs");
            assert(fs@[8].0@ == "spent_outputs"@);
            assert("spent_outputs"@.len() == 13);
            reveal_strlit("rates");
            assert(fs@[9].0@ == "rates"@);
            assert("rates"@.len() == 5);
            assert("total_received"@[0] == 't' && "scanned_height"@[0] == 's');
            assert("total_received"@ != "scanned_height"@);
            assert("locked_funds"@[0] == 'l' && "start_height"@[0] == 's');
            assert("locked_funds"@ != "start_height"@);
            lemma_field_at(fs@, "locked_funds"@, 0);
            lemma_field_at(fs@, "total_received"@, 1);
            lemma_field_at(fs@, "total_sent"@, 2);
            lemma_decimal_round_trip(self.scanned_height as u64);
            lemma_field_at(fs@, "scanned_height"@, 3);
            lemma_decimal_round_trip(self.scanned_block_height as u64);
            lemma_field_at(fs@, "scanned_block_height"@, 4);
            lemma_decimal_round_trip(self.start_height as u64);
            lemma_field_at(fs@, "start_height"@, 5);
            lemma_decimal_round_trip(self.transaction_height as u64);
            lemma_field_at(fs@, "transaction_height"@, 6);
            lemma_decimal_round_trip(self.blockchain_height as u64);
            lemma_field_at(fs@, "blockchain_height"@, 7);
            lemma_field_at(fs@, "spent_outputs"@, 8);
            lemma_field_at(fs@, "rates"@, 9);
        }
        Json::Object(fs)
    }
}

/// Round trip: members that read as `r` are well formed, and any `AddressInfo` that they read as
/// agrees with `r` in every field, absent optional fields included.
/// With `to_json` and `decode_address_info`, encoding a record and decoding it gives it back.
pub proof fn lemma_address_info_round_trip(r: AddressInfo, fs: Seq<(String, Json)>, back: AddressInfo)
    requires
        address_info_from(fs, r),
        address_info_from(fs, back),
    ensures
        address_info_ok(fs),
        address_info_same(r, back),
{
    let aspent_outputs = field_of(fs, "spent_outputs"@)->Some_0->Array_0;
    assert(field_of(fs, "spent_outputs"@) == Some(Json::Array(aspent_outputs)));
    assert(aspent_outputs@.len() == r.spent_outputs@.len() && aspent_outputs@.len() == back.spent_outputs@.len());
    assert forall|i: int| 0 <= i < aspent_outputs@.len() implies spend_object_item_ok(#[trigger] aspent_outputs@[i]) by {
        assert(spend_object_item_from(aspent_outputs@[i], r.spent_outputs@[i]));
        assert(spend_object_item_from(aspent_outputs@[i], back.spent_outputs@[i]));
        lemma_spend_object_round_trip(r.spent_outputs@[i], aspent_outputs@[i]->Object_0@, back.spent_outputs@[i]);
    }
    assert forall|i: int| 0 <= i < aspent_outputs@.len() implies spend_object_same(#[trigger] r.spent_outputs@[i], back.spent_outputs@[i]) by {
        assert(spend_object_item_from(aspent_outputs@[i], r.spent_outputs@[i]));
        assert(spend_object_item_from(aspent_outputs@[i], back.spent_outputs@[i]));
        lemma_spend_object_round_trip(r.spent_outputs@[i], aspent_outputs@[i]->Object_0@, back.spent_outputs@[i]);
    }
}

/// Hash members of `r`, nested records included, hold hex text of the right length.
pub open spec fn address_txs_valid(r: AddressTxs) -> bool {
    (forall|i: int| 0 <= i < r.transactions@.len() ==> transaction_valid(#[trigger] r.transactions@[i]))
}

/// `a` and `b` agree in every field.
pub open spec fn address_txs_same(a: AddressTxs, b: AddressTxs) -> bool {
    a.total_received@ == b.total_received@
        && a.scanned_height == b.scanned_height
        && a.scanned_block_height == b.scanned_block_height
        && a.start_height == b.start_height
        && a.blockchain_height == b.blockchain_height
        && a.transactions@.len() == b.transactions@.len()
        && (forall|i: int| 0 <= i < a.transactions@.len() ==> transaction_same(#[trigger] a.transactions@[i], b.transactions@[i]))
}

impl AddressTxs {
    /// The wire form of the record: one member per field, in declaration order,
    /// with null for an absent optional field.
    pub fn to_json(&self) -> (r: Json)
        requires
            address_txs_valid(*self),
        ensures
            r is Object && address_txs_from(object_members(r), *self),
    {
        let mut fs: Vec<(String, Json)> = Vec::new();
        fs.push((String::from_str("total_received"), Json::Str(self.total_received.clone())));
        fs.push((String::from_str("scanned_height"), Json::Number(render_u64(self.scanned_height as u64))));
        fs.push((String::from_str("scanned_block_height"), Json::Number(render_u64(self.scanned_block_height as u64))));
        fs.push((String::from_str("start_height"), Json::Number(render_u64(self.start_height as u64))));
        fs.push((String::from_str("blockchain_height"), Json::Number(render_u64(self.blockchain_height as u64))));
        fs.push((String::from_str("transactions"), Json::Array(encode_transaction_list(&self.transactions))));
        proof {
            reveal_strlit("total_received");
            assert(fs@[0].0@ == "total_received"@);
            assert("total_received"@.len() == 14);
            reveal_strlit("scanned_height");
            assert(fs@[1].0@ == "scanned_height"@);
            assert("scanned_height"@.len() == 14);
            reveal_strlit("scanned_block_height");
            assert(fs@[2].0@ == "scanned_block_height"@);
            assert("scanned_block_height"@.len() == 20);
            reveal_strlit("start_height");
            assert(fs@[3].0@ == "start_height"@);
            assert("start_height"@.len() == 12);
            reveal_strlit("blockchain_height");
            assert(fs@[4].0@ == "blockchain_height"@);
            assert("blockchain_height"@.len() == 17);
            reveal_strlit("transactions");
            assert(fs@[5].0@ == "transactions"@);
            assert("transactions"@.len() == 12);
            assert("total_received"@[0] == 't' && "scanned_height"@[0] == 's');
            assert("total_received"@ != "scanned_height"@);
            assert("start_height"@[0] == 's' && "transactions"@[0] == 't');
            assert("start_height"@ != "transactions"@);
            lemma_field_at(fs@, "total_received"@, 0);
            lemma_decimal_round_trip(self.scanned_height as u64);
            lemma_field_at(fs@, "scanned_height"@, 1);
            lemma_decimal_round_trip(self.scanned_block_height as u64);
            lemma_field_at(fs@, "scanned_block_height"@, 2);
            lemma_decimal_round_trip(self.start_height as u64);
            lemma_field_at(fs@, "start_height"@, 3);
            lemma_decimal_round_trip(self.blockchain_height as u64);
            lemma_field_at(fs@, "blockchain_height"@, 4);
            lemma_field_at(fs@, "transactions"@, 5);
        }
        Json::Object(fs)
    }
}

/// Round trip: members that read as `r` are well formed, and any `AddressTxs` that they read as
/// agrees with `r` in every field, absent optional fields included.
/// With `to_json` and `decode_address_txs`, encoding a record and decoding it gives it back.
pub proof fn lemma_address_txs_round_trip(r: AddressTxs, fs: Seq<(String, Json)>, back: AddressTxs)
    requires
        address_txs_from(fs, r),
        address_txs_from(fs, back),
    ensures
        address_txs_ok(fs),
        address_txs_same(r, back),
{
    let atransactions = field_of(fs, "transactions"@)->Some_0->Array_0;
    assert(field_of(fs, "transactions"@) == Some(Json::Array(atransactions)));
    assert(atransactions@.len() == r.transactions@.len() && atransactions@.len() == back.transactions@.len());
    assert forall|i: int| 0 <= i < atransactions@.len() implies transaction_item_ok(#[trigger] atransactions@[i]) by {
        assert(transaction_item_from(atransactions@[i], r.transactions@[i]));
        assert(transaction_item_from(atransactions@[i], back.transactions@[i]));
        lemma_transaction_round_trip(r.transactions@[i], atransactions@[i]->Object_0@, back.transactions@[i]);
    }
    assert forall|i: int| 0 <= i < atransactions@.len() implies transaction_same(#[trigger] r.transactions@[i], back.transactions@[i]) by {
        assert(transaction_item_from(atransactions@[i], r.transactions@[i]));
        assert(transaction_item_from(atransactions@[i], back.transactions@[i]));
        lemma_transaction_round_trip(r.transactions@[i], atransactions@[i]->Object_0@, back.transactions@[i]);
    }
}

/// Hash members of `r`, nested records included, hold hex text of the right length.
pub open spec fn amount_outs_valid(r: AmountOuts) -> bool {
    (forall|i: int| 0 <= i < r.amount_outs@.len() ==> random_output_valid(#[trigger] r.amount_outs@[i]))
}

/// `a` and `b` agree in every field.
pub open spec fn amount_outs_same(a: AmountOuts, b: AmountOuts) -> bool {
    a.amount_outs@.len() == b.amount_outs@.len()
        && (forall|i: int| 0 <= i < a.amount_outs@.len() ==> random_output_same(#[trigger] a.amount_outs@[i], b.amount_outs@[i]))
}

impl AmountOuts {
    /// The wire form of the record: one member per field, in declaration order,
    /// with null for an absent optional field.
    pub fn to_json(&self) -> (r: Json)
        requires
            amount_outs_valid(*self),
        ensures
            r is Object && amount_outs_from(object_members(r), *self),
    {
        let mut fs: Vec<(String, Json)> = Vec::new();
        fs.push((String::from_str("amount_outs"), Json::Array(encode_random_output_list(&self.amount_outs))));
        proof {
            reveal_strlit("amount_outs");
            assert(fs@[0].0@ == "amount_outs"@);
            assert("amount_outs"@.len() == 11);
            lemma_field_at(fs@, "amount_outs"@, 0);
        }
        Json::Object(fs)
    }
}

/// Round trip: members that read as `r` are well formed, and any `AmountOuts` that they read as
/// agrees with `r` in every field, absent optional fields included.
/// With `to_json` and `decode_amount_outs`, encoding a record and decoding it gives it back.
pub proof fn lemma_amount_outs_round_trip(r: AmountOuts, fs: Seq<(String, Json)>, back: AmountOuts)
    requires
        amount_outs_from(fs, r),
        amount_outs_from(fs, back),
    ensures
        amount_outs_ok(fs),
        amount_outs_same(r, back),
{
    let aamount_outs = field_of(fs, "amount_outs"@)->Some_0->Array_0;
    assert(field_of(fs, "amount_outs"@) == Some(Json::Array(aamount_outs)));
    assert(aamount_outs@.len() == r.amount_outs@.len() && aamount_outs@.len() == back.amount_outs@.len());
    assert forall|i: int| 0 <= i < aamount_outs@.len() implies random_output_item_ok(#[trigger] aamount_outs@[i]) by {
        assert(random_output_item_from(aamount_outs@[i], r.amount_outs@[i]));
        assert(random_output_item_from(aamount_outs@[i], back.amount_outs@[i]));
        lemma_random_output_round_trip(r.amount_outs@[i], aamount_outs@[i]->Object_0@, back.amount_outs@[i]);
    }
    assert forall|i: int| 0 <= i < aamount_outs@.len() implies random_output_same(#[trigger] r.amount_outs@[i], back.amount_outs@[i]) by {
        assert(random_output_item_from(aamount_outs@[i], r.amount_outs@[i]));
        assert(random_output_item_from(aamount_outs@[i], back.amount_outs@[i]));
        lemma_random_output_round_trip(r.amount_outs@[i], aamount_outs@[i]->Object_0@, back.amount_outs@[i]);
    }
}

/// Hash members of `r`, nested records included, hold hex text of the right length.
pub open spec fn random_outputs_valid(r: RandomOutputs) -> bool {
    (forall|i: int| 0 <= i < r.outputs@.len() ==> random_output_valid(#[trigger] r.outputs@[i]))
}

/// `a` and `b` agree in every field.
pub open spec fn random_outputs_same(a: RandomOutputs, b: RandomOutputs) -> bool {
    a.amount@ == b.amount@
        && a.outputs@.len() == b.outputs@.len()
        && (forall|i: int| 0 <= i < a.outputs@.len() ==> random_output_same(#[trigger] a.outputs@[i], b.outputs@[i]))
}

impl RandomOutputs {
    /// The wire form of the record: one member per field, in declaration order,
    /// with null for an absent optional field.
    pub fn to_json(&self) -> (r: Json)
        requires
            random_outputs_valid(*self),
        ensures
            r is Object && random_outputs_from(object_members(r), *self),
    {
        let mut fs: Vec<(String, Json)> = Vec::new();
        fs.push((String::from_str("amount"), Json::Str(self.amount.clone())));
        fs.push((String::from_str("outputs"), Json::Array(encode_random_output_list(&self.outputs))));
        proof {
            reveal_strlit("amount");
            assert(fs@[0].0@ == "amount"@);
            assert("amount"@.len() == 6);
            reveal_strlit("outputs");
            assert(fs@[1].0@ == "outputs"@);
            assert("outputs"@.len() == 7);
            lemma_field_at(fs@, "amount"@, 0);
            lemma_field_at(fs@, "outputs"@, 1);
        }
        Json::Object(fs)
    }
}

/// Round trip: members that read as `r` are well formed, and any `RandomOutputs` that they read as
/// agrees with `r` in every field, absent optional fields included.
/// With `to_json` and `decode_random_outputs`, encoding a record and decoding it gives it back.
pub proof fn lemma_random_outputs_round_trip(r: RandomOutputs, fs: Seq<(String, Json)>, back: RandomOutputs)
    requires
        random_outputs_from(fs, r),
        random_outputs_from(fs, back),
    ensures
        random_outputs_ok(fs),
        random_outputs_same(r, back),
{
    let aoutputs = field_of(fs, "outputs"@)->Some_0->Array_0;
    assert(field_of(fs, "outputs"@) == Some(Json::Array(aoutputs)));
    assert(aoutputs@.len() == r.outputs@.len() && aoutputs@.len() == back.outputs@.len());
    assert forall|i: int| 0 <= i < aoutputs@.len() implies random_output_item_ok(#[trigger] aoutputs@[i]) by {
        assert(random_output_item_from(aoutputs@[i], r.outputs@[i]));
        assert(random_output_item_from(aoutputs@[i], back.outputs@[i]));
        lemma_random_output_round_trip(r.outputs@[i], aoutputs@[i]->Object_0@, back.outputs@[i]);
    }
    assert forall|i: int| 0 <= i < aoutputs@.len() implies random_output_same(#[trigger] r.outputs@[i], back.outputs@[i]) by {
        assert(random_output_item_from(aoutputs@[i], r.outputs@[i]));
        assert(random_output_item_from(aoutputs@[i], back.outputs@[i]));
        lemma_random_output_round_trip(r.outputs@[i], aoutputs@[i]->Object_0@, back.outputs@[i]);
    }
}

/// Hash members of `r`, nested records included, hold hex text of the right length.
pub open spec fn unspent_outs_valid(r: UnspentOuts) -> bool {
    (forall|i: int| 0 <= i < r.outputs@.len() ==> output_valid(#[trigger] r.outputs@[i]))
}

/// `a` and `b` agree in every field.
pub open spec fn unspent_outs_same(a: UnspentOuts, b: UnspentOuts) -> bool {
    a.per_kb_fee == b.per_kb_fee
        && a.fee_mask == b.fee_mask
        && a.amount@ == b.amount@
        && a.outputs@.len() == b.outputs@.len()
        && (forall|i: int| 0 <= i < a.outputs@.len() ==> output_same(#[trigger] a.outputs@[i], b.outputs@[i]))
}

impl UnspentOuts {
    /// The wire form of the record: one member per field, in declaration order,
    /// with null for an absent optional field.
    pub fn to_json(&self) -> (r: Json)
        requires
            unspent_outs_valid(*self),
        ensures
            r is Object && unspent_outs_from(object_members(r), *self),
    {
        let mut fs: Vec<(String, Json)> = Vec::new();
        fs.push((String::from_str("per_kb_fee"), Json::Number(render_u64(self.per_kb_fee as u64))));
        fs.push((String::from_str("fee_mask"), Json::Number(render_u64(self.fee_mask as u64))));
        fs.push((String::from_str("amount"), Json::Str(self.amount.clone())));
        fs.push((String::from_str("outputs"), Json::Array(encode_output_list(&self.outputs))));
        proof {
            reveal_strlit("per_kb_fee");
            assert(fs@[0].0@ == "per_kb_fee"@);
            assert("per_kb_fee"@.len() == 10);
            reveal_strlit("fee_mask");
            assert(fs@[1].0@ == "fee_mask"@);
            assert("fee_mask"@.len() == 8);
            reveal_strlit("amount");
            assert(fs@[2].0@ == "amount"@);
            assert("amount"@.len() == 6);
            reveal_strlit("outputs");
            assert(fs@[3].0@ == "outputs"@);
            assert("outputs"@.len() == 7);
            lemma_decimal_round_trip(self.per_kb_fee as u64);
            lemma_field_at(fs@, "per_kb_fee"@, 0);
            lemma_decimal_round_trip(self.fee_mask as u64);
            lemma_field_at(fs@, "fee_mask"@, 1);
            lemma_field_at(fs@, "amount"@, 2);
            lemma_field_at(fs@, "outputs"@, 3);
        }
        Json::Object(fs)
    }
}

/// Round trip: members that read as `r` are well formed, and any `UnspentOuts` that they read as
/// agrees with `r` in every field, absent optional fields included.
/// With `to_json` and `decode_unspent_outs`, encoding a record and decoding it gives it back.
pub proof fn lemma_unspent_outs_round_trip(r: UnspentOuts, fs: Seq<(String, Json)>, back: UnspentOuts)
    requires
        unspent_outs_from(fs, r),
        unspent_outs_from(fs, back),
    ensures
        unspent_outs_ok(fs),
        unspent_outs_same(r, back),
{
    let aoutputs = field_of(fs, "outputs"@)->Some_0->Array_0;
    assert(field_of(fs, "outputs"@) == Some(Json::Array(aoutputs)));
    assert(aoutputs@.len() == r.outputs@.len() && aoutputs@.len() == back.outputs@.len());
    assert forall|i: int| 0 <= i < aoutputs@.len() implies output_item_ok(#[trigger] aoutputs@[i]) by {
        assert(output_item_from(aoutputs@[i], r.outputs@[i]));
        assert(output_item_from(aoutputs@[i], back.outputs@[i]));
        lemma_output_round_trip(r.outputs@[i], aoutputs@[i]->Object_0@, back.outputs@[i]);
    }
    assert forall|i: int| 0 <= i < aoutputs@.len() implies output_same(#[trigger] r.outputs@[i], back.outputs@[i]) by {
        assert(output_item_from(aoutputs@[i], r.outputs@[i]));
        assert(output_item_from(aoutputs@[i], back.outputs@[i]));
        lemma_output_round_trip(r.outputs@[i], aoutputs@[i]->Object_0@, back.outputs@[i]);
    }
}

/// Hash members of `r`, nested records included, hold hex text of the right length.
pub open spec fn import_response_valid(r: ImportResponse) -> bool {
    (match r.payment_id { Some(t) => is_hex_of_len(t@, 8), None => true })
}

/// `a` and `b` agree in every field.
pub open spec fn import_response_same(a: ImportResponse, b: ImportResponse) -> bool {
    opt_text(a.payment_address) == opt_text(b.payment_address)
        && opt_text(a.payment_id) == opt_text(b.payment_id)
        && opt_text(a.import_fee) == opt_text(b.import_fee)
        && a.new_request == b.new_request
        && a.request_fulfilled == b.request_fulfilled
        && a.status@ == b.status@
}

impl ImportResponse {
    /// The wire form of the record: one member per field, in declaration order,
    /// with null for an absent optional field.
    pub fn to_json(&self) -> (r: Json)
        requires
            import_response_valid(*self),
        ensures
            r is Object && import_response_from(object_members(r), *self),
    {
        let mut fs: Vec<(String, Json)> = Vec::new();
        fs.push((String::from_str("payment_address"), match &self.payment_address {
            Some(t) => Json::Str(t.clone()),
            None => Json::Null,
        }));
        fs.push((String::from_str("payment_id"), match &self.payment_id {
            Some(t) => Json::Str(t.clone()),
            None => Json::Null,
        }));
        fs.push((String::from_str("import_fee"), match &self.import_fee {
            Some(t) => Json::Str(t.clone()),
            None => Json::Null,
        }));
        fs.push((String::from_str("new_request"), Json::Number(render_u64(self.new_request as u64))));
        fs.push((String::from_str("request_fulfilled"), Json::Number(render_u64(self.request_fulfilled as u64))));
        fs.push((String::from_str("status"), Json::Str(self.status.clone())));
        proof {
            reveal_strlit("payment_address");
            assert(fs@[0].0@ == "payment_address"@);
            assert("payment_address"@.len() == 15);
            reveal_strlit("payment_id");
            assert(fs@[1].0@ == "payment_id"@);
            assert("payment_id"@.len() == 10);
            reveal_strlit("import_fee");
            assert(fs@[2].0@ == "import_fee"@);
            assert("import_fee"@.len() == 10);
            reveal_strlit("new_request");
            assert(fs@[3].0@ == "new_request"@);
            assert("new_request"@.len() == 11);
            reveal_strlit("request_fulfilled");
            assert(fs@[4].0@ == "request_fulfilled"@);
            assert("request_fulfilled"@.len() == 17);
            reveal_strlit("status");
            assert(fs@[5].0@ == "status"@);
            assert("status"@.len() == 6);
            assert("payment_id"@[0] == 'p' && "import_fee"@[0] == 'i');
            assert("payment_id"@ != "import_fee"@);
            lemma_field_at(fs@, "payment_address"@, 0);
            lemma_field_at(fs@, "payment_id"@, 1);
            lemma_field_at(fs@, "import_fee"@, 2);
            lemma_decimal_round_trip(self.new_request as u64);
            lemma_field_at(fs@, "new_request"@, 3);
            lemma_decimal_round_trip(self.request_fulfilled as u64);
            lemma_field_at(fs@, "request_fulfilled"@, 4);
            lemma_field_at(fs@, "status"@, 5);
        }
        Json::Object(fs)
    }
}

/// Round trip: members that read as `r` are well formed, and any `ImportResponse` that they read as
/// agrees with `r` in every field, absent optional fields included.
/// With `to_json` and `decode_import_response`, encoding a record and decoding it gives it back.
pub proof fn lemma_import_response_round_trip(r: ImportResponse, fs: Seq<(String, Json)>, back: ImportResponse)
    requires
        import_response_from(fs, r),
        import_response_from(fs, back),
    ensures
        import_response_ok(fs),
        import_response_same(r, back),
{
}

/// Hash members of `r`, nested records included, hold hex text of the right length.
pub open spec fn login_response_valid(r: LoginResponse) -> bool {
    true
}

/// `a` and `b` agree in every field.
pub open spec fn login_response_same(a: LoginResponse, b: LoginResponse) -> bool {
    a.new_address == b.new_address
        && a.generated_locally == b.generated_locally
        && a.start_height == b.start_height
}

impl LoginResponse {
    /// The wire form of the record: one member per field, in declaration order,
    /// with null for an absent optional field.
    pub fn to_json(&self) -> (r: Json)
        requires
            login_response_valid(*self),
        ensures
            r is Object && login_response_from(object_members(r), *self),
    {
        let mut fs: Vec<(String, Json)> = Vec::new();
        fs.push((String::from_str("new_address"), Json::Number(render_u64(self.new_address as u64))));
        fs.push((String::from_str("generated_locally"), Json::Number(render_u64(self.generated_locally as u64))));
        fs.push((String::from_str("start_height"), match self.start_height {
            Some(v) => Json::Number(render_u64(v)),
            None => Json::Null,
        }));
        proof {
            reveal_strlit("new_address");
            assert(fs@[0].0@ == "new_address"@);
            assert("new_address"@.len() == 11);
            reveal_strlit("generated_locally");
            assert(fs@[1].0@ == "generated_locally"@);
            assert("generated_locally"@.len() == 17);
            reveal_strlit("start_height");
            assert(fs@[2].0@ == "start_height"@);
            assert("start_height"@.len() == 12);
            lemma_decimal_round_trip(self.new_address as u64);
            lemma_field_at(fs@, "new_address"@, 0);
            lemma_decimal_round_trip(self.generated_locally as u64);
            lemma_field_at(fs@, "generated_locally"@, 1);
            if self.start_height is Some {
                lemma_decimal_round_trip(self.start_height->Some_0);
            }
            lemma_field_at(fs@, "start_height"@, 2);
        }
        Json::Object(fs)
    }
}

/// Round trip: members that read as `r` are well formed, and any `LoginResponse` that they read as
/// agrees with `r` in every field, absent optional fields included.
/// With `to_json` and `decode_login_response`, encoding a record and decoding it gives it back.
pub proof fn lemma_login_response_round_trip(r: LoginResponse, fs: Seq<(String, Json)>, back: LoginResponse)
    requires
        login_response_from(fs, r),
        login_response_from(fs, back),
    ensures
        login_response_ok(fs),
        login_response_same(r, back),
{
}

fn encode_spend_object_list(v: &Vec<SpendObject>) -> (r: Vec<Json>)
    requires
        forall|i: int| 0 <= i < v@.len() ==> spend_object_valid(#[trigger] v@[i]),
    ensures
        r@.len() == v@.len(),
        forall|i: int| 0 <= i < r@.len() ==> spend_object_item_from(#[trigger] r@[i], v@[i]),
{
    let mut out: Vec<Json> = Vec::new();
    let mut i: usize = 0;
    while i < v.len()
        invariant
            i <= v@.len(),
            out@.len() == i,
            forall|j: int| 0 <= j < v@.len() ==> spend_object_valid(#[trigger] v@[j]),
            forall|j: int| 0 <= j < i ==> spend_object_item_from(#[trigger] out@[j], v@[j]),
        decreases v@.len() - i,
    {
        out.push(v[i].to_json());
        i = i + 1;
    }
    out
}

fn encode_random_output_list(v: &Vec<RandomOutput>) -> (r: Vec<Json>)
    requires
        forall|i: int| 0 <= i < v@.len() ==> random_output_valid(#[trigger] v@[i]),
    ensures
        r@.len() == v@.len(),
        forall|i: int| 0 <= i < r@.len() ==> random_output_item_from(#[trigger] r@[i], v@[i]),
{
    let mut out: Vec<Json> = Vec::new();
    let mut i: usize = 0;
    while i < v.len()
        invariant
            i <= v@.len(),
            out@.len() == i,
            forall|j: int| 0 <= j < v@.len() ==> random_output_valid(#[trigger] v@[j]),
            forall|j: int| 0 <= j < i ==> random_output_item_from(#[trigger] out@[j], v@[j]),
        decreases v@.len() - i,
    {
        out.push(v[i].to_json());
        i = i + 1;
    }
    out
}

fn encode_output_list(v: &Vec<Output>) -> (r: Vec<Json>)
    requires
        forall|i: int| 0 <= i < v@.len() ==> output_valid(#[trigger] v@[i]),
    ensures
        r@.len() == v@.len(),
        forall|i: int| 0 <= i < r@.len() ==> output_item_from(#[trigger] r@[i], v@[i]),
{
    let mut out: Vec<Json> = Vec::new();
    let mut i: usize = 0;
    while i < v.len()
        invariant
            i <= v@.len(),
            out@.len() == i,
            forall|j: int| 0 <= j < v@.len() ==> output_valid(#[trigger] v@[j]),
            forall|j: int| 0 <= j < i ==> output_item_from(#[trigger] out@[j], v@[j]),
        decreases v@.len() - i,
    {
        out.push(v[i].to_json());
        i = i + 1;
    }
    out
}

fn encode_transaction_list(v: &Vec<Transaction>) -> (r: Vec<Json>)
    requires
        forall|i: int| 0 <= i < v@.len() ==> transaction_valid(#[trigger] v@[i]),
    ensures
        r@.len() == v@.len(),
        forall|i: int| 0 <= i < r@.len() ==> transaction_item_from(#[trigger] r@[i], v@[i]),
{
    let mut out: Vec<Json> = Vec::new();
    let mut i: usize = 0;
    while i < v.len()
        invariant
            i <= v@.len(),
            out@.len() == i,
            forall|j: int| 0 <= j < v@.len() ==> transaction_valid(#[trigger] v@[j]),
            forall|j: int| 0 <= j < i ==> transaction_item_from(#[trigger] out@[j], v@[j]),
        decreases v@.len() - i,
    {
        out.push(v[i].to_json());
        i = i + 1;
    }
    out
}

} // verus!
