//! Client-side logic for the light wallet server's JSON-over-HTTP protocol:
//! request parameters, response status handling and record decoding.
//!
//! Amounts are counts of base units and travel as decimal text; addresses and
//! keys travel as their string forms. The HTTP round trip itself is left to the
//! caller, which hands back the status code and the parsed body.

mod decimal;
mod json;
mod models;
mod params;
mod reply;
mod transport;

pub use decimal::{lemma_decimal_round_trip, parse_u64, render_u64};
pub use json::{
    check_hex, get_field, lemma_field_at, take_hash, take_opt_hash, take_opt_str, take_opt_uint,
    take_str, take_uint, DecodeError, Json,
};
pub use models::{
    AddressInfo, AddressTxs, AmountOuts, ImportResponse,
    LoginResponse, MoneroResult, Output, RandomOutput,
    RandomOutputs, Rates, SpendObject, Status,
    Transaction, UnspentOuts, decode_address_info, decode_address_txs,
    decode_amount_outs, decode_import_response, decode_login_response, decode_output,
    decode_output_list, decode_random_output, decode_random_output_list, decode_random_outputs,
    decode_spend_object, decode_spend_object_list, decode_transaction, decode_transaction_list,
    decode_unspent_outs, lemma_address_info_round_trip, lemma_address_txs_round_trip, lemma_amount_outs_round_trip,
    lemma_import_response_round_trip, lemma_login_response_round_trip, lemma_output_round_trip, lemma_random_output_round_trip,
    lemma_random_outputs_round_trip, lemma_spend_object_round_trip, lemma_transaction_round_trip, lemma_unspent_outs_round_trip,
};
pub use params::{
    account_params, body_of, import_request_params, lemma_import_body, lemma_unspent_body_amounts,
    login_params, random_outs_params, unspent_outs_params, RpcParams, WireValue,
};
pub use reply::{
    decode_address_info_reply, decode_address_txs_reply, decode_amount_outs_reply,
    decode_import_response_reply, decode_login_response_reply, decode_unspent_outs_reply,
    open_envelope,
};
pub use transport::{check_status, method_url, status_failure, Endpoint, RpcError};
