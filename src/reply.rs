use vstd::prelude::*;
use crate::json::{str_field, DecodeError, Json};
use crate::models::{
    decode_address_info, address_info_from, address_info_ok, decode_address_txs, address_txs_from, address_txs_ok, decode_amount_outs, amount_outs_from, amount_outs_ok, decode_unspent_outs, unspent_outs_from, unspent_outs_ok, decode_import_response, import_response_from, import_response_ok, decode_login_response, login_response_from, login_response_ok, AddressInfo, AddressTxs, AmountOuts, ImportResponse, LoginResponse, MoneroResult, UnspentOuts,
};
use crate::transport::RpcError;

verus! {

/// The members of an object; nothing for any other value.
pub open spec fn object_fields(j: Json) -> Seq<(String, Json)> {
    match j {
        Json::Object(o) => o@,
        _ => Seq::empty(),
    }
}

/// The response carries the success status.
pub open spec fn status_accepted(j: Json) -> bool {
    j is Object && str_field(object_fields(j), "status"@) == Some("OK"@)
}

/// The response carries a status string other than the success value.
pub open spec fn status_refused(j: Json) -> bool {
    j is Object && match str_field(object_fields(j), "status"@) {
        Some(t) => t != "OK"@,
        None => false,
    }
}

/// Checks the `status` member of a response and hands back its members on success.
/// A body that is not an object, or has no string status, is a decode failure;
/// any status but the success value is a protocol failure.
pub fn open_envelope(j: &Json) -> (r: Result<&Vec<(String, Json)>, RpcError>)
    ensures
        r is Ok <==> status_accepted(*j),
        r matches Ok(fs) ==> *j == Json::Object(*fs),
        r matches Err(RpcError::Protocol(s)) <==> status_refused(*j),
        r matches Err(RpcError::Protocol(s)) ==> str_field(object_fields(*j), "status"@) == Some(s@),
        r matches Err(e) ==> (e is Decode || e is Protocol),
{
    match j {
        Json::Object(fs) => {
            match crate::json::take_str(fs, "status") {
                Ok(s) => {
                    let ok = String::from_str("OK");
                    if s == ok {
                        Ok(fs)
                    } else {
                        Err(RpcError::Protocol(s))
                    }
                },
                Err(e) => Err(RpcError::Decode(e)),
            }
        },
        _ => Err(RpcError::Decode(DecodeError::NotAnObject)),
    }
}

/// Reads the response to `get_address_info`: the envelope first, then the record beside its status.
pub fn decode_address_info_reply(j: &Json) -> (r: Result<MoneroResult<AddressInfo>, RpcError>)
    ensures
        r is Ok <==> status_accepted(*j) && address_info_ok(object_fields(*j)),
        r matches Ok(MoneroResult::OK(v)) ==> address_info_from(object_fields(*j), v),
        r matches Err(RpcError::Protocol(_)) <==> status_refused(*j),
        r matches Err(e) ==> (e is Decode || e is Protocol),
{
    let fs = open_envelope(j)?;
    match decode_address_info(fs) {
        Ok(v) => Ok(MoneroResult::OK(v)),
        Err(e) => Err(RpcError::Decode(e)),
    }
}

/// Reads the response to `get_address_txs`: the envelope first, then the record beside its status.
pub fn decode_address_txs_reply(j: &Json) -> (r: Result<MoneroResult<AddressTxs>, RpcError>)
    ensures
        r is Ok <==> status_accepted(*j) && address_txs_ok(object_fields(*j)),
        r matches Ok(MoneroResult::OK(v)) ==> address_txs_from(object_fields(*j), v),
        r matches Err(RpcError::Protocol(_)) <==> status_refused(*j),
        r matches Err(e) ==> (e is Decode || e is Protocol),
{
    let fs = open_envelope(j)?;
    match decode_address_txs(fs) {
        Ok(v) => Ok(MoneroResult::OK(v)),
        Err(e) => Err(RpcError::Decode(e)),
    }
}

/// Reads the response to `get_random_outs`: the envelope first, then the record beside its status.
pub fn decode_amount_outs_reply(j: &Json) -> (r: Result<MoneroResult<AmountOuts>, RpcError>)
    ensures
        r is Ok <==> status_accepted(*j) && amount_outs_ok(object_fields(*j)),
        r matches Ok(MoneroResult::OK(v)) ==> amount_outs_from(object_fields(*j), v),
        r matches Err(RpcError::Protocol(_)) <==> status_refused(*j),
        r matches Err(e) ==> (e is Decode || e is Protocol),
{
    let fs = open_envelope(j)?;
    match decode_amount_outs(fs) {
        Ok(v) => Ok(MoneroResult::OK(v)),
        Err(e) => Err(RpcError::Decode(e)),
    }
}

/// Reads the response to `get_unspent_outs`: the envelope first, then the record beside its status.
pub fn decode_unspent_outs_reply(j: &Json) -> (r: Result<MoneroResult<UnspentOuts>, RpcError>)
    ensures
        r is Ok <==> status_accepted(*j) && unspent_outs_ok(object_fields(*j)),
        r matches Ok(MoneroResult::OK(v)) ==> unspent_outs_from(object_fields(*j), v),
        r matches Err(RpcError::Protocol(_)) <==> status_refused(*j),
        r matches Err(e) ==> (e is Decode || e is Protocol),
{
    let fs = open_envelope(j)?;
    match decode_unspent_outs(fs) {
        Ok(v) => Ok(MoneroResult::OK(v)),
        Err(e) => Err(RpcError::Decode(e)),
    }
}

/// Reads the response to `import_wallet_request`: the envelope first, then the record beside its status.
pub fn decode_import_response_reply(j: &Json) -> (r: Result<MoneroResult<ImportResponse>, RpcError>)
    ensures
        r is Ok <==> status_accepted(*j) && import_response_ok(object_fields(*j)),
        r matches Ok(MoneroResult::OK(v)) ==> import_response_from(object_fields(*j), v),
        r matches Err(RpcError::Protocol(_)) <==> status_refused(*j),
        r matches Err(e) ==> (e is Decode || e is Protocol),
{
    let fs = open_envelope(j)?;
    match decode_import_response(fs) {
        Ok(v) => Ok(MoneroResult::OK(v)),
        Err(e) => Err(RpcError::Decode(e)),
    }
}

/// Reads the response to `login`: the envelope first, then the record beside its status.
pub fn decode_login_response_reply(j: &Json) -> (r: Result<MoneroResult<LoginResponse>, RpcError>)
    ensures
        r is Ok <==> status_accepted(*j) && login_response_ok(object_fields(*j)),
        r matches Ok(MoneroResult::OK(v)) ==> login_response_from(object_fields(*j), v),
        r matches Err(RpcError::Protocol(_)) <==> status_refused(*j),
        r matches Err(e) ==> (e is Decode || e is Protocol),
{
    let fs = open_envelope(j)?;
    match decode_login_response(fs) {
        Ok(v) => Ok(MoneroResult::OK(v)),
        Err(e) => Err(RpcError::Decode(e)),
    }
}

} // verus!
