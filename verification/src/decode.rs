//! Decoding of JSON response bodies into the domain entities: which members
//! each entity requires, which fall back to defaults when absent, and
//! exactly when a body is rejected.

use vstd::prelude::*;
use crate::json::{
    JsonMember, JsonSpecVal, JsonValue, aview, json_doc, jview, lemma_aview_index, lemma_aview_len,
    lemma_mview_index, lemma_mview_len, mview, parse_json, is_digit,
};
use crate::structs::{
    AddieUser, AddieUserV, ProductMeta, ProductMetaV, SanoraUser, SanoraUserV, SuccessResult,
    addie_user_default,
};

verus! {

/// Why a response body was rejected: it is not JSON at all, or it is JSON of
/// the wrong shape for the expected entity.
#[derive(Clone, Copy, PartialEq, Eq, Structural, Debug)]
pub enum DecodeError {
    Syntax,
    Shape,
}

/// The value of the first member named `k` at or after position `i`.
pub open spec fn field_lookup(
    ms: Seq<(Seq<char>, JsonSpecVal)>,
    i: int,
    k: Seq<char>,
) -> Option<JsonSpecVal>
    decreases ms.len() - i,
{
    if i < 0 || i >= ms.len() {
        None
    } else if ms[i].0 == k {
        Some(ms[i].1)
    } else {
        field_lookup(ms, i + 1, k)
    }
}

/// A string member that defaults to the empty string when absent; any
/// non-string value is a shape error.
pub open spec fn opt_str_field(ms: Seq<(Seq<char>, JsonSpecVal)>, k: Seq<char>) -> Option<
    Seq<char>,
> {
    match field_lookup(ms, 0, k) {
        None => Some(Seq::empty()),
        Some(JsonSpecVal::Str(t)) => Some(t),
        Some(_) => None,
    }
}

/// A string member that must be present.
pub open spec fn req_str_field(ms: Seq<(Seq<char>, JsonSpecVal)>, k: Seq<char>) -> Option<
    Seq<char>,
> {
    match field_lookup(ms, 0, k) {
        Some(JsonSpecVal::Str(t)) => Some(t),
        _ => None,
    }
}

/// Whether every character of `t` is a decimal digit.
pub open spec fn all_digits(t: Seq<char>) -> bool {
    forall|i: int| 0 <= i < t.len() ==> is_digit(t[i])
}

/// The integer a digit sequence denotes.
pub open spec fn dec_nat(t: Seq<char>) -> int
    decreases t.len(),
{
    if t.len() == 0 {
        0
    } else {
        dec_nat(t.drop_last()) * 10 + ((t.last() as u32) - 48)
    }
}

/// The `u32` a raw number token denotes, if it is a plain digit run whose
/// value fits: no sign, no fraction, no exponent.
pub open spec fn dec_u32_of(t: Seq<char>) -> Option<u32> {
    if t.len() > 0 && all_digits(t) && dec_nat(t) <= u32::MAX {
        Some(dec_nat(t) as u32)
    } else {
        None
    }
}

proof fn lemma_dec_nonneg(t: Seq<char>)
    requires
        all_digits(t),
    ensures
        dec_nat(t) >= 0,
    decreases t.len(),
{
    if t.len() > 0 {
        assert(forall|i: int| 0 <= i < t.drop_last().len() ==> is_digit(#[trigger] t.drop_last()[i]));
        lemma_dec_nonneg(t.drop_last());
    }
}

proof fn lemma_dec_prefix_le(t: Seq<char>, j: int)
    requires
        0 <= j <= t.len(),
        all_digits(t),
    ensures
        dec_nat(t.subrange(0, j)) <= dec_nat(t),
    decreases t.len() - j,
{
    if j < t.len() {
        assert(t.subrange(0, j + 1).drop_last() =~= t.subrange(0, j));
        assert(t.subrange(0, j + 1).last() == t[j]);
        assert(forall|i: int| 0 <= i < t.subrange(0, j).len() ==> is_digit(
            #[trigger] t.subrange(0, j)[i],
        ));
        lemma_dec_nonneg(t.subrange(0, j));
        lemma_dec_prefix_le(t, j + 1);
    } else {
        assert(t.subrange(0, j) =~= t);
    }
}

/// Parses a raw number token as a `u32`: exactly [`dec_u32_of`].
pub fn parse_u32_dec(t: &str) -> (r: Option<u32>)
    ensures
        r == dec_u32_of(t@),
{
    let len = t.unicode_len();
    if len == 0 {
        return None;
    }
    let mut acc: u64 = 0;
    let mut i: usize = 0;
    while i < len
        invariant
            i <= len,
            len == t@.len(),
            forall|k: int| 0 <= k < i ==> is_digit(t@[k]),
            acc == dec_nat(t@.subrange(0, i as int)),
            acc <= u32::MAX,
        decreases len - i,
    {
        let c = t.get_char(i);
        if !('0' <= c && c <= '9') {
            return None;
        }
        let d = (c as u32) - 48;
        let next = acc * 10 + (d as u64);
        proof {
            assert(t@.subrange(0, i as int + 1).drop_last() =~= t@.subrange(0, i as int));
            assert(t@.subrange(0, i as int + 1).last() == t@[i as int]);
        }
        if next > 0xFFFF_FFFF {
            proof {
                if all_digits(t@) {
                    lemma_dec_prefix_le(t@, i as int + 1);
                }
            }
            return None;
        }
        acc = next;
        i = i + 1;
    }
    proof {
        assert(t@.subrange(0, len as int) =~= t@);
    }
    Some(acc as u32)
}

fn str_eq(a: &str, b: &str) -> (r: bool)
    ensures
        r == (a@ == b@),
{
    let la = a.unicode_len();
    let lb = b.unicode_len();
    if la != lb {
        return false;
    }
    let mut i: usize = 0;
    while i < la
        invariant
            i <= la,
            la == a@.len(),
            lb == b@.len(),
            la == lb,
            forall|k: int| 0 <= k < i ==> a@[k] == b@[k],
        decreases la - i,
    {
        let ca = a.get_char(i);
        let cb = b.get_char(i);
        if ca != cb {
            return false;
        }
        i = i + 1;
    }
    proof {
        assert(a@ =~= b@);
    }
    true
}

fn lookup<'a>(ms: &'a Vec<JsonMember>, from: usize, k: &str) -> (r: Option<&'a JsonValue>)
    requires
        from as int <= ms@.len(),
    ensures
        match r {
            Some(v) => field_lookup(mview(ms@), from as int, k@) == Some(jview(*v)),
            None => field_lookup(mview(ms@), from as int, k@) is None,
        },
    decreases ms@.len() - from,
{
    proof {
        lemma_mview_len(ms@);
    }
    if from >= ms.len() {
        return None;
    }
    proof {
        lemma_mview_index(ms@, from as int);
    }
    if str_eq(ms[from].key.as_str(), k) {
        Some(&ms[from].val)
    } else {
        lookup(ms, from + 1, k)
    }
}

fn opt_str(ms: &Vec<JsonMember>, k: &str) -> (r: Option<String>)
    ensures
        match r {
            Some(t) => opt_str_field(mview(ms@), k@) == Some(t@),
            None => opt_str_field(mview(ms@), k@) is None,
        },
{
    match lookup(ms, 0, k) {
        None => Some(String::new()),
        Some(JsonValue::Str(t)) => Some(t.clone()),
        Some(_) => None,
    }
}

fn req_str(ms: &Vec<JsonMember>, k: &str) -> (r: Option<String>)
    ensures
        match r {
            Some(t) => req_str_field(mview(ms@), k@) == Some(t@),
            None => req_str_field(mview(ms@), k@) is None,
        },
{
    match lookup(ms, 0, k) {
        Some(JsonValue::Str(t)) => Some(t.clone()),
        _ => None,
    }
}

/// The embedded account an object denotes: `uuid` is required; `pubKey` and
/// `stripeAccountId` default to the empty string.
pub open spec fn addie_of_json(v: JsonSpecVal) -> Option<AddieUserV> {
    match v {
        JsonSpecVal::Obj(ms) => match (
            opt_str_field(ms, ("pubKey")@),
            req_str_field(ms, ("uuid")@),
            opt_str_field(ms, ("stripeAccountId")@),
        ) {
            (Some(pk), Some(uu), Some(sa)) => Some(
                AddieUserV { pub_key: pk, uuid: uu, stripe_account_id: sa },
            ),
            _ => None,
        },
        _ => None,
    }
}

/// The user an object denotes: `uuid` is required, `pubKey` defaults to the
/// empty string, and a missing `addieUser` member becomes the all-empty
/// default account.
pub open spec fn user_of_json(v: JsonSpecVal) -> Option<SanoraUserV> {
    match v {
        JsonSpecVal::Obj(ms) => {
            let addie = match field_lookup(ms, 0, ("addieUser")@) {
                None => Some(addie_user_default()),
                Some(av) => addie_of_json(av),
            };
            match (opt_str_field(ms, ("pubKey")@), req_str_field(ms, ("uuid")@), addie) {
                (Some(pk), Some(uu), Some(ad)) => Some(
                    SanoraUserV { pub_key: pk, uuid: uu, addie_user: ad },
                ),
                _ => None,
            }
        },
        _ => None,
    }
}

/// The strings an array of string values denotes, from position `i` on.
pub open spec fn strs_of(es: Seq<JsonSpecVal>, i: int) -> Option<Seq<Seq<char>>>
    decreases es.len() - i,
{
    if i < 0 || i >= es.len() {
        Some(Seq::empty())
    } else {
        match es[i] {
            JsonSpecVal::Str(t) => match strs_of(es, i + 1) {
                Some(rest) => Some(seq![t] + rest),
                None => None,
            },
            _ => None,
        }
    }
}

/// A `u32` number member that must be present.
pub open spec fn req_u32_field(ms: Seq<(Seq<char>, JsonSpecVal)>, k: Seq<char>) -> Option<u32> {
    match field_lookup(ms, 0, k) {
        Some(JsonSpecVal::Num(t)) => dec_u32_of(t),
        _ => None,
    }
}

/// An array-of-strings member that must be present.
pub open spec fn req_strs_field(ms: Seq<(Seq<char>, JsonSpecVal)>, k: Seq<char>) -> Option<
    Seq<Seq<char>>,
> {
    match field_lookup(ms, 0, k) {
        Some(JsonSpecVal::Arr(es)) => strs_of(es, 0),
        _ => None,
    }
}

/// The product an object denotes: every member is required.
pub open spec fn product_of_json(v: JsonSpecVal) -> Option<ProductMetaV> {
    match v {
        JsonSpecVal::Obj(ms) => match (
            req_str_field(ms, ("uuid")@),
            req_str_field(ms, ("title")@),
            req_str_field(ms, ("description")@),
            req_u32_field(ms, ("price")@),
            req_strs_field(ms, ("artifacts")@),
        ) {
            (Some(uu), Some(ti), Some(de), Some(pr), Some(ar)) => Some(
                ProductMetaV { uuid: uu, title: ti, description: de, price: pr, artifacts: ar },
            ),
            _ => None,
        },
        _ => None,
    }
}

/// The flag a success object denotes: `success` is required.
pub open spec fn success_of_json(v: JsonSpecVal) -> Option<bool> {
    match v {
        JsonSpecVal::Obj(ms) => match field_lookup(ms, 0, ("success")@) {
            Some(JsonSpecVal::Bool(b)) => Some(b),
            _ => None,
        },
        _ => None,
    }
}

/// The user a whole response body denotes.
pub open spec fn spec_decode_user(s: Seq<char>) -> Option<SanoraUserV> {
    match json_doc(s) {
        Some(v) => user_of_json(v),
        None => None,
    }
}

/// The product a whole response body denotes.
pub open spec fn spec_decode_product(s: Seq<char>) -> Option<ProductMetaV> {
    match json_doc(s) {
        Some(v) => product_of_json(v),
        None => None,
    }
}

/// The success flag a whole response body denotes.
pub open spec fn spec_decode_success(s: Seq<char>) -> Option<bool> {
    match json_doc(s) {
        Some(v) => success_of_json(v),
        None => None,
    }
}

/// The spec-level image of a list of strings.
pub open spec fn strseq_view(v: Seq<String>) -> Seq<Seq<char>> {
    v.map_values(|s: String| s@)
}

fn addie_from_json(v: &JsonValue) -> (r: Option<AddieUser>)
    ensures
        match r {
            Some(a) => addie_of_json(jview(*v)) == Some(a@),
            None => addie_of_json(jview(*v)) is None,
        },
{
    let ms = match v {
        JsonValue::Obj(ms) => ms,
        _ => {
            return None;
        },
    };
    let pk = match opt_str(ms, "pubKey") {
        Some(t) => t,
        None => {
            return None;
        },
    };
    let uu = match req_str(ms, "uuid") {
        Some(t) => t,
        None => {
            return None;
        },
    };
    let sa = match opt_str(ms, "stripeAccountId") {
        Some(t) => t,
        None => {
            return None;
        },
    };
    Some(AddieUser { pub_key: pk, uuid: uu, stripe_account_id: sa })
}

fn user_from_json(v: &JsonValue) -> (r: Option<SanoraUser>)
    ensures
        match r {
            Some(u) => user_of_json(jview(*v)) == Some(u@),
            None => user_of_json(jview(*v)) is None,
        },
{
    let ms = match v {
        JsonValue::Obj(ms) => ms,
        _ => {
            return None;
        },
    };
    let addie = match lookup(ms, 0, "addieUser") {
        None => AddieUser::default(),
        Some(av) => match addie_from_json(av) {
            Some(a) => a,
            None => {
                return None;
            },
        },
    };
    let pk = match opt_str(ms, "pubKey") {
        Some(t) => t,
        None => {
            return None;
        },
    };
    let uu = match req_str(ms, "uuid") {
        Some(t) => t,
        None => {
            return None;
        },
    };
    Some(SanoraUser { pub_key: pk, uuid: uu, addie_user: addie })
}

fn strings_from(es: &Vec<JsonValue>, from: usize) -> (r: Option<Vec<String>>)
    requires
        from as int <= es@.len(),
    ensures
        match r {
            Some(v) => strs_of(aview(es@), from as int) == Some(strseq_view(v@)),
            None => strs_of(aview(es@), from as int) is None,
        },
    decreases es@.len() - from,
{
    proof {
        lemma_aview_len(es@);
    }
    if from >= es.len() {
        let empty: Vec<String> = Vec::new();
        proof {
            assert(strseq_view(empty@) =~= Seq::<Seq<char>>::empty());
        }
        return Some(empty);
    }
    proof {
        lemma_aview_index(es@, from as int);
    }
    match &es[from] {
        JsonValue::Str(t) => {
            match strings_from(es, from + 1) {
                Some(rest) => {
                    let mut rest = rest;
                    let ghost grest = rest@;
                    let tt = t.clone();
                    let ghost gtt = tt;
                    rest.insert(0, tt);
                    proof {
                        let x = rest@;
                        assert(x[0] == gtt);
                        assert(x.drop_first() =~= grest);
                        assert(strseq_view(x) =~= seq![gtt@] + strseq_view(grest));
                    }
                    Some(rest)
                },
                None => None,
            }
        },
        _ => None,
    }
}

fn product_from_json(v: &JsonValue) -> (r: Option<ProductMeta>)
    ensures
        match r {
            Some(p) => product_of_json(jview(*v)) == Some(p@),
            None => product_of_json(jview(*v)) is None,
        },
{
    let ms = match v {
        JsonValue::Obj(ms) => ms,
        _ => {
            return None;
        },
    };
    let uu = match req_str(ms, "uuid") {
        Some(t) => t,
        None => {
            return None;
        },
    };
    let ti = match req_str(ms, "title") {
        Some(t) => t,
        None => {
            return None;
        },
    };
    let de = match req_str(ms, "description") {
        Some(t) => t,
        None => {
            return None;
        },
    };
    let pr = match lookup(ms, 0, "price") {
        Some(JsonValue::Num(t)) => match parse_u32_dec(t.as_str()) {
            Some(n) => n,
            None => {
                return None;
            },
        },
        _ => {
            return None;
        },
    };
    let af = match lookup(ms, 0, "artifacts") {
        Some(JsonValue::Arr(es)) => match strings_from(es, 0) {
            Some(v) => v,
            None => {
                return None;
            },
        },
        _ => {
            return None;
        },
    };
    let ghost gaf = af@;
    let p = ProductMeta { uuid: uu, title: ti, description: de, price: pr, artifacts: af };
    proof {
        assert(p@.artifacts =~= strseq_view(gaf));
    }
    Some(p)
}

fn success_from_json(v: &JsonValue) -> (r: Option<SuccessResult>)
    ensures
        match r {
            Some(x) => success_of_json(jview(*v)) == Some(x.success),
            None => success_of_json(jview(*v)) is None,
        },
{
    let ms = match v {
        JsonValue::Obj(ms) => ms,
        _ => {
            return None;
        },
    };
    match lookup(ms, 0, "success") {
        Some(JsonValue::Bool(b)) => Some(SuccessResult { success: *b }),
        _ => None,
    }
}

/// Decodes a user response body: `Ok` exactly when the body is JSON of the
/// right shape, `Err(Syntax)` when it is not JSON, `Err(Shape)` otherwise.
pub fn decode_sanora_user(s: &str) -> (r: Result<SanoraUser, DecodeError>)
    ensures
        match r {
            Ok(u) => spec_decode_user(s@) == Some(u@),
            Err(e) => spec_decode_user(s@) is None && ((e == DecodeError::Syntax) <==> json_doc(
                s@,
            ) is None),
        },
{
    let v = match parse_json(s) {
        Some(v) => v,
        None => {
            return Err(DecodeError::Syntax);
        },
    };
    match user_from_json(&v) {
        Some(u) => Ok(u),
        None => Err(DecodeError::Shape),
    }
}

/// Decodes a product response body; errors as [`decode_sanora_user`] does.
pub fn decode_product_meta(s: &str) -> (r: Result<ProductMeta, DecodeError>)
    ensures
        match r {
            Ok(p) => spec_decode_product(s@) == Some(p@),
            Err(e) => spec_decode_product(s@) is None && ((e == DecodeError::Syntax) <==> json_doc(
                s@,
            ) is None),
        },
{
    let v = match parse_json(s) {
        Some(v) => v,
        None => {
            return Err(DecodeError::Syntax);
        },
    };
    match product_from_json(&v) {
        Some(p) => Ok(p),
        None => Err(DecodeError::Shape),
    }
}

/// Decodes a success response body; errors as [`decode_sanora_user`] does.
pub fn decode_success_result(s: &str) -> (r: Result<SuccessResult, DecodeError>)
    ensures
        match r {
            Ok(x) => spec_decode_success(s@) == Some(x.success),
            Err(e) => spec_decode_success(s@) is None && ((e == DecodeError::Syntax)
                <==> json_doc(s@) is None),
        },
{
    let v = match parse_json(s) {
        Some(v) => v,
        None => {
            return Err(DecodeError::Syntax);
        },
    };
    match success_from_json(&v) {
        Some(x) => Ok(x),
        None => Err(DecodeError::Shape),
    }
}

/// A user object with string `pubKey` and `uuid` members and no `addieUser`
/// member decodes with the documented default: the all-empty account.
pub proof fn lemma_user_default_population(
    ms: Seq<(Seq<char>, JsonSpecVal)>,
    pk: Seq<char>,
    uu: Seq<char>,
)
    requires
        field_lookup(ms, 0, ("pubKey")@) == Some(JsonSpecVal::Str(pk)),
        field_lookup(ms, 0, ("uuid")@) == Some(JsonSpecVal::Str(uu)),
        field_lookup(ms, 0, ("addieUser")@) is None,
    ensures
        user_of_json(JsonSpecVal::Obj(ms)) == Some(
            SanoraUserV { pub_key: pk, uuid: uu, addie_user: addie_user_default() },
        ),
{
}

/// A user object whose members are all present and well-formed, including a
/// nested account object, decodes with every field populated from the body.
pub proof fn lemma_user_full_population(
    ms: Seq<(Seq<char>, JsonSpecVal)>,
    ams: Seq<(Seq<char>, JsonSpecVal)>,
    pk: Seq<char>,
    uu: Seq<char>,
    apk: Seq<char>,
    auu: Seq<char>,
    asa: Seq<char>,
)
    requires
        field_lookup(ms, 0, ("pubKey")@) == Some(JsonSpecVal::Str(pk)),
        field_lookup(ms, 0, ("uuid")@) == Some(JsonSpecVal::Str(uu)),
        field_lookup(ms, 0, ("addieUser")@) == Some(JsonSpecVal::Obj(ams)),
        field_lookup(ams, 0, ("pubKey")@) == Some(JsonSpecVal::Str(apk)),
        field_lookup(ams, 0, ("uuid")@) == Some(JsonSpecVal::Str(auu)),
        field_lookup(ams, 0, ("stripeAccountId")@) == Some(JsonSpecVal::Str(asa)),
    ensures
        user_of_json(JsonSpecVal::Obj(ms)) == Some(
            SanoraUserV {
                pub_key: pk,
                uuid: uu,
                addie_user: AddieUserV { pub_key: apk, uuid: auu, stripe_account_id: asa },
            },
        ),
{
}

} // verus!
