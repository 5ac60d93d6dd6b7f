use monero_lws::{
    account_params, decode_address_info_reply, decode_amount_outs_reply, decode_import_response_reply,
    decode_login_response_reply, decode_spend_object, decode_transaction, import_request_params,
    login_params, parse_u64, random_outs_params, render_u64, unspent_outs_params, check_status,
    AmountOuts, DecodeError, Endpoint, Json, LoginResponse, MoneroResult, RpcError, RpcParams,
    SpendObject, Transaction, WireValue,
};

fn s(t: &str) -> String {
    t.to_string()
}

fn num(n: u64) -> Json {
    Json::Number(n.to_string())
}

fn text(t: &str) -> Json {
    Json::Str(t.to_string())
}

fn obj(members: Vec<(&str, Json)>) -> Json {
    Json::Object(members.into_iter().map(|(k, v)| (k.to_string(), v)).collect())
}

fn hex64(c: char) -> String {
    std::iter::repeat(c).take(64).collect()
}

fn entries(p: &RpcParams) -> &Vec<(String, WireValue)> {
    match p {
        RpcParams::Named(v) => v,
    }
}

#[test]
fn render_exact_values() {
    assert_eq!(render_u64(0), "0");
    assert_eq!(render_u64(7), "7");
    assert_eq!(render_u64(1000000), "1000000");
    assert_eq!(render_u64(u64::MAX), "18446744073709551615");
}

#[test]
fn parse_exact_values() {
    assert_eq!(parse_u64("0"), Some(0));
    assert_eq!(parse_u64("1000"), Some(1000));
    assert_eq!(parse_u64("18446744073709551615"), Some(u64::MAX));
    assert_eq!(parse_u64("18446744073709551616"), None);
    assert_eq!(parse_u64(""), None);
    assert_eq!(parse_u64("12a"), None);
    assert_eq!(parse_u64("-1"), None);
    assert_eq!(parse_u64("1.5"), None);
}

#[test]
fn amount_text_round_trips() {
    for n in [0u64, 1, 9, 10, 100, 1000000, 123456789012, u64::MAX - 1, u64::MAX] {
        assert_eq!(parse_u64(&render_u64(n)), Some(n));
    }
}

#[test]
fn login_params_hold_exactly_the_required_names() {
    let p = login_params("addr", "key", true, false);
    let e = entries(&p);
    assert_eq!(e.len(), 4);
    assert_eq!(e[0], (s("address"), WireValue::Str(s("addr"))));
    assert_eq!(e[1], (s("view_key"), WireValue::Str(s("key"))));
    assert_eq!(e[2], (s("create_account"), WireValue::Bool(true)));
    assert_eq!(e[3], (s("generated_locally"), WireValue::Bool(false)));
}

#[test]
fn account_params_hold_address_and_key() {
    let p = account_params("4Addr", "viewkey");
    assert_eq!(
        entries(&p),
        &vec![(s("address"), WireValue::Str(s("4Addr"))), (s("view_key"), WireValue::Str(s("viewkey")))]
    );
}

#[test]
fn import_params_omit_absent_height() {
    let p = import_request_params("a", "k", None);
    assert_eq!(entries(&p).len(), 2);
    assert!(entries(&p).iter().all(|(n, _)| n != "from_height"));
    let p = import_request_params("a", "k", Some(99));
    assert_eq!(entries(&p).len(), 3);
    assert_eq!(entries(&p)[2], (s("from_height"), WireValue::Int(99)));
}

#[test]
fn random_outs_params_send_amounts_as_decimal_text() {
    let p = random_outs_params(11, &vec![1000000]);
    assert_eq!(
        entries(&p),
        &vec![(s("count"), WireValue::Int(11)), (s("amounts"), WireValue::StrList(vec![s("1000000")]))]
    );
}

#[test]
fn unspent_outs_params_in_order() {
    let p = unspent_outs_params("a", "k", 1000, 10, true, 100);
    assert_eq!(
        entries(&p),
        &vec![
            (s("address"), WireValue::Str(s("a"))),
            (s("view_key"), WireValue::Str(s("k"))),
            (s("amount"), WireValue::Str(s("1000"))),
            (s("mixin"), WireValue::Int(10)),
            (s("use_dust"), WireValue::Bool(true)),
            (s("dust_threshold"), WireValue::Str(s("100"))),
        ]
    );
}

#[test]
fn params_become_an_object_body() {
    let p = random_outs_params(11, &vec![1000000, 5]);
    assert_eq!(
        p.to_json(),
        obj(vec![("count", num(11)), ("amounts", Json::Array(vec![text("1000000"), text("5")]))])
    );
    let p = login_params("a", "k", true, true);
    assert_eq!(
        p.to_json(),
        obj(vec![
            ("address", text("a")),
            ("view_key", text("k")),
            ("create_account", Json::Bool(true)),
            ("generated_locally", Json::Bool(true)),
        ])
    );
}

#[test]
fn status_200_passes() {
    assert_eq!(check_status(200, "http://h/login"), Ok(()));
}

#[test]
fn status_403_is_a_transport_error() {
    let ep = Endpoint::new(s("http://localhost:38884"), None);
    let url = ep.url_for("get_unspent_outs");
    assert_eq!(url, "http://localhost:38884/get_unspent_outs");
    let e = check_status(403, &url).unwrap_err();
    assert_eq!(
        e,
        RpcError::Transport { code: 403, reason: s("Forbidden"), url: s("http://localhost:38884/get_unspent_outs") }
    );
    assert_eq!(
        e.describe(),
        "HTTP status client error (403 Forbidden) for url (http://localhost:38884/get_unspent_outs)"
    );
}

#[test]
fn status_500_is_a_server_error() {
    let e = check_status(500, "http://h/login").unwrap_err();
    assert_eq!(e.describe(), "HTTP status server error (500 Internal Server Error) for url (http://h/login)");
}

#[test]
fn unregistered_status_has_a_marker_phrase() {
    let e = check_status(299, "u").unwrap_err();
    assert_eq!(e, RpcError::Transport { code: 299, reason: s("<unknown status code>"), url: s("u") });
    let e = check_status(201, "u").unwrap_err();
    assert_eq!(e, RpcError::Transport { code: 201, reason: s("Created"), url: s("u") });
}

#[test]
fn endpoint_keeps_its_proxy() {
    let ep = Endpoint::new(s("http://a"), Some(s("socks5://p:9050")));
    assert_eq!(ep.addr(), "http://a");
    assert_eq!(ep.proxy(), Some("socks5://p:9050"));
    assert_eq!(ep.url_for("login"), "http://a/login");
}

#[test]
fn login_reply_decodes() {
    let body = obj(vec![("status", text("OK")), ("new_address", num(1)), ("generated_locally", num(1))]);
    let r = decode_login_response_reply(&body).unwrap().into_inner();
    assert_eq!(r, LoginResponse { new_address: 1, generated_locally: 1, start_height: None });
}

#[test]
fn login_reply_with_height_and_extra_members() {
    let body = obj(vec![
        ("start_height", num(42)),
        ("extra", Json::Bool(false)),
        ("generated_locally", num(0)),
        ("new_address", num(1)),
        ("status", text("OK")),
    ]);
    let r = decode_login_response_reply(&body).unwrap();
    assert_eq!(r, MoneroResult::OK(LoginResponse { new_address: 1, generated_locally: 0, start_height: Some(42) }));
}

#[test]
fn empty_amount_outs_is_not_an_error() {
    let body = obj(vec![("status", text("OK")), ("amount_outs", Json::Array(vec![]))]);
    let r = decode_amount_outs_reply(&body).unwrap().into_inner();
    assert_eq!(r, AmountOuts { amount_outs: vec![] });
}

#[test]
fn missing_status_is_a_decode_error() {
    let body = obj(vec![("new_address", num(1)), ("generated_locally", num(1))]);
    assert_eq!(
        decode_login_response_reply(&body),
        Err(RpcError::Decode(DecodeError::MissingField(s("status"))))
    );
}

#[test]
fn other_status_is_a_protocol_error() {
    let body = obj(vec![("status", text("ERROR")), ("new_address", num(1)), ("generated_locally", num(1))]);
    assert_eq!(decode_login_response_reply(&body), Err(RpcError::Protocol(s("ERROR"))));
    let e = RpcError::Protocol(s("ERROR"));
    assert_eq!(e.describe(), "unexpected response status: ERROR");
}

#[test]
fn non_string_status_is_a_decode_error() {
    let body = obj(vec![("status", num(1))]);
    assert_eq!(
        decode_login_response_reply(&body),
        Err(RpcError::Decode(DecodeError::InvalidField(s("status"))))
    );
}

#[test]
fn non_object_body_is_a_decode_error() {
    assert_eq!(
        decode_amount_outs_reply(&Json::Array(vec![])),
        Err(RpcError::Decode(DecodeError::NotAnObject))
    );
}

#[test]
fn missing_required_field_fails() {
    let body = obj(vec![("status", text("OK")), ("new_address", num(1))]);
    assert_eq!(
        decode_login_response_reply(&body),
        Err(RpcError::Decode(DecodeError::MissingField(s("generated_locally"))))
    );
}

#[test]
fn out_of_range_flag_fails() {
    let body = obj(vec![("status", text("OK")), ("new_address", num(256)), ("generated_locally", num(1))]);
    assert_eq!(
        decode_login_response_reply(&body),
        Err(RpcError::Decode(DecodeError::InvalidField(s("new_address"))))
    );
}

#[test]
fn short_hash_fails() {
    let fs = vec![
        (s("amount"), text("5")),
        (s("key_image"), text("abcd")),
        (s("tx_pub_key"), Json::Str(hex64('0'))),
        (s("out_index"), num(1)),
        (s("mixin"), num(10)),
    ];
    assert_eq!(decode_spend_object(&fs), Err(DecodeError::InvalidField(s("key_image"))));
}

#[test]
fn malformed_error_describes_its_cause() {
    let e = RpcError::Decode(DecodeError::Malformed(s("EOF")));
    assert_eq!(e.describe(), "error decoding response body: malformed body: EOF");
}

fn sample_spend() -> SpendObject {
    SpendObject { amount: s("12000000"), key_image: hex64('a'), tx_pub_key: hex64('F'), out_index: 3, mixin: 15 }
}

#[test]
fn spend_object_round_trips() {
    let r = sample_spend();
    let j = r.to_json();
    match &j {
        Json::Object(fs) => assert_eq!(decode_spend_object(fs), Ok(sample_spend())),
        _ => panic!("not an object"),
    }
}

#[test]
fn transaction_round_trips_with_absent_optionals() {
    let make = |height: Option<u64>, pid: Option<String>| Transaction {
        id: 7,
        hash: hex64('b'),
        timestamp: s("2022-01-01T00:00:00Z"),
        total_received: s("100"),
        total_sent: s("0"),
        unlock_time: 0,
        height,
        spent_outputs: vec![sample_spend(), sample_spend()],
        payment_id: pid,
        coinbase: 1,
        mempool: 0,
        mixin: 10,
    };
    for (h, p) in [(None, None), (Some(u64::MAX), Some(s("0123456789abcdef")))] {
        let t = make(h, p.clone());
        match t.to_json() {
            Json::Object(fs) => assert_eq!(decode_transaction(&fs), Ok(make(h, p))),
            _ => panic!("not an object"),
        }
    }
}

#[test]
fn login_response_round_trips() {
    for h in [None, Some(0), Some(123)] {
        let r = LoginResponse { new_address: 1, generated_locally: 0, start_height: h };
        let mut members = match r.to_json() {
            Json::Object(fs) => fs,
            _ => panic!("not an object"),
        };
        members.push((s("status"), text("OK")));
        let back = decode_login_response_reply(&Json::Object(members)).unwrap().into_inner();
        assert_eq!(back, LoginResponse { new_address: 1, generated_locally: 0, start_height: h });
    }
}

#[test]
fn address_info_rates_keep_their_text() {
    let body = obj(vec![
        ("status", text("OK")),
        ("locked_funds", text("0")),
        ("total_received", text("17592186044415")),
        ("total_sent", text("0")),
        ("scanned_height", num(100)),
        ("scanned_block_height", num(100)),
        ("start_height", num(1)),
        ("transaction_height", num(101)),
        ("blockchain_height", num(101)),
        ("spent_outputs", Json::Array(vec![])),
        ("rates", obj(vec![("AUD", Json::Number(s("1.5")))])),
    ]);
    let r = decode_address_info_reply(&body).unwrap().into_inner();
    assert_eq!(r.total_received, "17592186044415");
    assert_eq!(r.rates.unwrap().aud, Some(s("1.5")));
}

#[test]
fn import_response_keeps_status_and_optionals() {
    let body = obj(vec![
        ("status", text("OK")),
        ("import_fee", Json::Null),
        ("new_request", num(1)),
        ("request_fulfilled", num(0)),
    ]);
    let r = decode_import_response_reply(&body).unwrap().into_inner();
    assert_eq!(r.status, "OK");
    assert_eq!(r.payment_address, None);
    assert_eq!(r.payment_id, None);
    assert_eq!(r.import_fee, None);
    assert_eq!((r.new_request, r.request_fulfilled), (1, 0));
}
