use vstd::prelude::*;
use crate::decimal::{decimal_of, lemma_decimal_round_trip, parsed_u64, render_u64};
use crate::json::{field_of, lemma_field_at, str_field, uint_field, Json};

verus! {

/// A value that a request parameter can carry.
#[derive(Debug, PartialEq, Eq)]
pub enum WireValue {
    Str(String),
    Int(u64),
    Bool(bool),
    StrList(Vec<String>),
}

/// The parameters of one call. Named members are the one encoding in use; the
/// enum leaves room for another without touching the callers.
#[derive(Debug, PartialEq, Eq)]
pub enum RpcParams {
    Named(Vec<(String, WireValue)>),
}

pub open spec fn entries(p: RpcParams) -> Seq<(String, WireValue)> {
    match p {
        RpcParams::Named(v) => v@,
    }
}

/// The parameter at `i` is named `name` and holds the string `value`.
pub open spec fn str_entry(p: RpcParams, i: int, name: Seq<char>, value: Seq<char>) -> bool {
    entries(p)[i].0@ == name && (entries(p)[i].1 matches WireValue::Str(s) && s@ == value)
}

pub open spec fn int_entry(p: RpcParams, i: int, name: Seq<char>, value: u64) -> bool {
    entries(p)[i].0@ == name && entries(p)[i].1 == WireValue::Int(value)
}

pub open spec fn bool_entry(p: RpcParams, i: int, name: Seq<char>, value: bool) -> bool {
    entries(p)[i].0@ == name && entries(p)[i].1 == WireValue::Bool(value)
}

/// A monetary amount travels as the decimal text of its count of base units.
pub open spec fn amount_entry(p: RpcParams, i: int, name: Seq<char>, pico: u64) -> bool {
    str_entry(p, i, name, decimal_of(pico as nat))
}

fn text(s: &str) -> (r: String)
    ensures
        r@ == s@,
{
    String::from_str(s)
}

fn push_str(v: &mut Vec<(String, WireValue)>, name: &str, value: &str)
    ensures
        final(v)@.len() == old(v)@.len() + 1,
        forall|j: int| 0 <= j < old(v)@.len() ==> final(v)@[j] == old(v)@[j],
        final(v)@.last().0@ == name@,
        final(v)@.last().1 matches WireValue::Str(s) && s@ == value@,
{
    v.push((text(name), WireValue::Str(text(value))));
}

fn push_value(v: &mut Vec<(String, WireValue)>, name: &str, value: WireValue)
    ensures
        final(v)@ == old(v)@.push((final(v)@.last().0, value)),
        final(v)@.last().0@ == name@,
{
    v.push((text(name), value));
}

/// Parameters naming an account: its address and its view key.
pub fn account_params(address: &str, view_key: &str) -> (r: RpcParams)
    ensures
        entries(r).len() == 2,
        str_entry(r, 0, "address"@, address@),
        str_entry(r, 1, "view_key"@, view_key@),
{
    let mut v: Vec<(String, WireValue)> = Vec::new();
    push_str(&mut v, "address", address);
    push_str(&mut v, "view_key", view_key);
    RpcParams::Named(v)
}

/// Parameters of `get_random_outs`: how many outputs, and for which amounts in base units.
pub fn random_outs_params(count: u32, amounts: &Vec<u64>) -> (r: RpcParams)
    ensures
        entries(r).len() == 2,
        int_entry(r, 0, "count"@, count as u64),
        entries(r)[1].0@ == "amounts"@,
        entries(r)[1].1 matches WireValue::StrList(l) && l@.len() == amounts@.len()
            && forall|i: int| 0 <= i < l@.len() ==> (#[trigger] l@[i])@ == decimal_of(amounts@[i] as nat),
{
    let mut l: Vec<String> = Vec::new();
    let mut i: usize = 0;
    while i < amounts.len()
        invariant
            i <= amounts@.len(),
            l@.len() == i,
            forall|j: int| 0 <= j < i ==> (#[trigger] l@[j])@ == decimal_of(amounts@[j] as nat),
        decreases amounts@.len() - i,
    {
        l.push(render_u64(amounts[i]));
        i = i + 1;
    }
    let mut v: Vec<(String, WireValue)> = Vec::new();
    push_value(&mut v, "count", WireValue::Int(count as u64));
    push_value(&mut v, "amounts", WireValue::StrList(l));
    RpcParams::Named(v)
}

/// Parameters of `get_unspent_outs`; amounts are in base units.
pub fn unspent_outs_params(
    address: &str,
    view_key: &str,
    amount: u64,
    mixin: u32,
    use_dust: bool,
    dust_threshold: u64,
) -> (r: RpcParams)
    ensures
        entries(r).len() == 6,
        str_entry(r, 0, "address"@, address@),
        str_entry(r, 1, "view_key"@, view_key@),
        amount_entry(r, 2, "amount"@, amount),
        int_entry(r, 3, "mixin"@, mixin as u64),
        bool_entry(r, 4, "use_dust"@, use_dust),
        amount_entry(r, 5, "dust_threshold"@, dust_threshold),
{
    let mut v: Vec<(String, WireValue)> = Vec::new();
    push_str(&mut v, "address", address);
    push_str(&mut v, "view_key", view_key);
    let a = render_u64(amount);
    push_str(&mut v, "amount", a.as_str());
    push_value(&mut v, "mixin", WireValue::Int(mixin as u64));
    push_value(&mut v, "use_dust", WireValue::Bool(use_dust));
    let d = render_u64(dust_threshold);
    push_str(&mut v, "dust_threshold", d.as_str());
    RpcParams::Named(v)
}

/// Parameters of `import_wallet_request`; `from_height` is sent only when given.
pub fn import_request_params(address: &str, view_key: &str, from_height: Option<u64>) -> (r: RpcParams)
    ensures
        str_entry(r, 0, "address"@, address@),
        str_entry(r, 1, "view_key"@, view_key@),
        match from_height {
            Some(h) => entries(r).len() == 3 && int_entry(r, 2, "from_height"@, h),
            None => entries(r).len() == 2,
        },
{
    let mut v: Vec<(String, WireValue)> = Vec::new();
    push_str(&mut v, "address", address);
    push_str(&mut v, "view_key", view_key);
    match from_height {
        Some(h) => push_value(&mut v, "from_height", WireValue::Int(h)),
        None => {},
    }
    RpcParams::Named(v)
}

/// Parameters of `login`.
pub fn login_params(address: &str, view_key: &str, create_account: bool, generated_locally: bool) -> (r: RpcParams)
    ensures
        entries(r).len() == 4,
        str_entry(r, 0, "address"@, address@),
        str_entry(r, 1, "view_key"@, view_key@),
        bool_entry(r, 2, "create_account"@, create_account),
        bool_entry(r, 3, "generated_locally"@, generated_locally),
{
    let mut v: Vec<(String, WireValue)> = Vec::new();
    push_str(&mut v, "address", address);
    push_str(&mut v, "view_key", view_key);
    push_value(&mut v, "create_account", WireValue::Bool(create_account));
    push_value(&mut v, "generated_locally", WireValue::Bool(generated_locally));
    RpcParams::Named(v)
}

/// How a parameter value reads as JSON: integers as number literals, the rest as themselves.
pub open spec fn wire_json(w: WireValue, j: Json) -> bool {
    match w {
        WireValue::Str(s) => j matches Json::Str(t) && t@ == s@,
        WireValue::Int(n) => j matches Json::Number(t) && t@ == decimal_of(n as nat),
        WireValue::Bool(b) => j == Json::Bool(b),
        WireValue::StrList(l) => j matches Json::Array(a) && a@.len() == l@.len()
            && forall|i: int| 0 <= i < a@.len() ==> (#[trigger] a@[i] matches Json::Str(t) && t@ == l@[i]@),
    }
}

fn value_json(w: &WireValue) -> (r: Json)
    ensures
        wire_json(*w, r),
{
    match w {
        WireValue::Str(s) => Json::Str(s.clone()),
        WireValue::Int(n) => Json::Number(render_u64(*n)),
        WireValue::Bool(b) => Json::Bool(*b),
        WireValue::StrList(l) => {
            let mut a: Vec<Json> = Vec::new();
            let mut i: usize = 0;
            while i < l.len()
                invariant
                    i <= l@.len(),
                    a@.len() == i,
                    forall|j: int| 0 <= j < i ==> (#[trigger] a@[j] matches Json::Str(t) && t@ == l@[j]@),
                decreases l@.len() - i,
            {
                a.push(Json::Str(l[i].clone()));
                i = i + 1;
            }
            Json::Array(a)
        },
    }
}

/// `fs` is the body for `p`: one member per parameter, in order, each under the
/// parameter's name and holding its value as JSON.
pub open spec fn body_of(p: RpcParams, fs: Seq<(String, Json)>) -> bool {
    fs.len() == entries(p).len() && forall|i: int| 0 <= i < fs.len() ==>
        (#[trigger] fs[i]).0@ == entries(p)[i].0@ && wire_json(entries(p)[i].1, fs[i].1)
}

/// The body of an import request carries the address and the view key, and a
/// `from_height` member exactly when a height is given, holding that height.
pub proof fn lemma_import_body(
    p: RpcParams,
    fs: Seq<(String, Json)>,
    address: Seq<char>,
    view_key: Seq<char>,
    from_height: Option<u64>,
)
    requires
        str_entry(p, 0, "address"@, address),
        str_entry(p, 1, "view_key"@, view_key),
        match from_height {
            Some(h) => entries(p).len() == 3 && int_entry(p, 2, "from_height"@, h),
            None => entries(p).len() == 2,
        },
        body_of(p, fs),
    ensures
        str_field(fs, "address"@) == Some(address),
        str_field(fs, "view_key"@) == Some(view_key),
        match from_height {
            Some(h) => uint_field(fs, "from_height"@, u64::MAX as nat) == Some(h as nat),
            None => field_of(fs, "from_height"@) is None,
        },
{
    reveal_strlit("address");
    reveal_strlit("view_key");
    reveal_strlit("from_height");
    assert(fs[0].0@ == "address"@);
    assert(fs[1].0@ == "view_key"@);
    assert("address"@.len() == 7 && "view_key"@.len() == 8 && "from_height"@.len() == 11);
    lemma_field_at(fs, "address"@, 0);
    lemma_field_at(fs, "view_key"@, 1);
    match from_height {
        Some(h) => {
            assert(fs[2].0@ == "from_height"@);
            lemma_field_at(fs, "from_height"@, 2);
            lemma_decimal_round_trip(h);
        },
        None => {
            assert(field_of(fs.subrange(2, 2), "from_height"@) is None);
            crate::json::lemma_field_of_skip(fs, "from_height"@, 2);
            assert(fs.subrange(2, fs.len() as int) =~= fs.subrange(2, 2));
        },
    }
}

/// The amounts in the body of an unspent-outputs request are decimal text that
/// reads back as exactly the amounts given, in base units.
pub proof fn lemma_unspent_body_amounts(
    p: RpcParams,
    fs: Seq<(String, Json)>,
    address: Seq<char>,
    view_key: Seq<char>,
    amount: u64,
    mixin: u32,
    use_dust: bool,
    dust_threshold: u64,
)
    requires
        entries(p).len() == 6,
        str_entry(p, 0, "address"@, address),
        str_entry(p, 1, "view_key"@, view_key),
        amount_entry(p, 2, "amount"@, amount),
        int_entry(p, 3, "mixin"@, mixin as u64),
        bool_entry(p, 4, "use_dust"@, use_dust),
        amount_entry(p, 5, "dust_threshold"@, dust_threshold),
        body_of(p, fs),
    ensures
        str_field(fs, "amount"@) == Some(decimal_of(amount as nat)),
        parsed_u64(decimal_of(amount as nat)) == Some(amount),
        str_field(fs, "dust_threshold"@) == Some(decimal_of(dust_threshold as nat)),
        parsed_u64(decimal_of(dust_threshold as nat)) == Some(dust_threshold),
{
    reveal_strlit("address");
    reveal_strlit("view_key");
    reveal_strlit("amount");
    reveal_strlit("mixin");
    reveal_strlit("use_dust");
    reveal_strlit("dust_threshold");
    assert(fs[0].0@ == "address"@ && fs[1].0@ == "view_key"@ && fs[2].0@ == "amount"@);
    assert(fs[3].0@ == "mixin"@ && fs[4].0@ == "use_dust"@ && fs[5].0@ == "dust_threshold"@);
    assert("address"@.len() == 7 && "view_key"@.len() == 8 && "amount"@.len() == 6);
    assert("mixin"@.len() == 5 && "use_dust"@.len() == 8 && "dust_threshold"@.len() == 14);
    lemma_field_at(fs, "amount"@, 2);
    lemma_field_at(fs, "dust_threshold"@, 5);
    lemma_decimal_round_trip(amount);
    lemma_decimal_round_trip(dust_threshold);
}

impl RpcParams {
    /// The request body: an object with one member per parameter, in order.
    pub fn to_json(&self) -> (r: Json)
        ensures
            r matches Json::Object(fs) && body_of(*self, fs@),
    {
        match self {
            RpcParams::Named(v) => {
                let mut fs: Vec<(String, Json)> = Vec::new();
                let mut i: usize = 0;
                while i < v.len()
                    invariant
                        i <= v@.len(),
                        fs@.len() == i,
                        forall|j: int| 0 <= j < i ==>
                            (#[trigger] fs@[j]).0@ == v@[j].0@ && wire_json(v@[j].1, fs@[j].1),
                    decreases v@.len() - i,
                {
                    fs.push((v[i].0.clone(), value_json(&v[i].1)));
                    i = i + 1;
                }
                Json::Object(fs)
            },
        }
    }
}

} // verus!
