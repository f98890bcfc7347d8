//! The JSON grammar the response decoders accept, written as spec functions
//! over character sequences, and a parser proved to return exactly what the
//! grammar says. Strings support the two-character escapes; numbers are kept
//! as their raw text so no numeric interpretation happens here.

use vstd::prelude::*;
use crate::compose::push_char;

verus! {

broadcast use vstd::seq::axiom_seq_index_decreases, vstd::std_specs::vec::axiom_vec_decreases_to_view;

/// A parsed JSON value at the spec level. Numbers keep their raw text form.
#[verifier::ext_equal]
pub enum JsonSpecVal {
    Null,
    Bool(bool),
    Num(Seq<char>),
    Str(Seq<char>),
    Arr(Seq<JsonSpecVal>),
    Obj(Seq<(Seq<char>, JsonSpecVal)>),
}

/// A parsed JSON value: the executable mirror of [`JsonSpecVal`].
pub enum JsonValue {
    Null,
    Bool(bool),
    Num(String),
    Str(String),
    Arr(Vec<JsonValue>),
    Obj(Vec<JsonMember>),
}

/// One `key: value` member of a JSON object.
pub struct JsonMember {
    pub key: String,
    pub val: JsonValue,
}

/// The spec-level image of a parsed value.
pub open spec fn jview(v: JsonValue) -> JsonSpecVal
    decreases v,
{
    match v {
        JsonValue::Null => JsonSpecVal::Null,
        JsonValue::Bool(b) => JsonSpecVal::Bool(b),
        JsonValue::Num(t) => JsonSpecVal::Num(t@),
        JsonValue::Str(t) => JsonSpecVal::Str(t@),
        JsonValue::Arr(es) => JsonSpecVal::Arr(aview(es@)),
        JsonValue::Obj(ms) => JsonSpecVal::Obj(mview(ms@)),
    }
}

/// The spec-level image of a member list.
pub open spec fn mview(ms: Seq<JsonMember>) -> Seq<(Seq<char>, JsonSpecVal)>
    decreases ms,
{
    if ms.len() == 0 {
        Seq::empty()
    } else {
        seq![(ms[0].key@, jview(ms[0].val))] + mview(ms.drop_first())
    }
}

/// The spec-level image of an element list.
pub open spec fn aview(es: Seq<JsonValue>) -> Seq<JsonSpecVal>
    decreases es,
{
    if es.len() == 0 {
        Seq::empty()
    } else {
        seq![jview(es[0])] + aview(es.drop_first())
    }
}

/// `mview` maps the list member by member.
pub proof fn lemma_mview_index(ms: Seq<JsonMember>, n: int)
    requires
        0 <= n < ms.len(),
    ensures
        mview(ms)[n] == (ms[n].key@, jview(ms[n].val)),
    decreases ms.len(),
{
    lemma_mview_len(ms.drop_first());
    if n > 0 {
        lemma_mview_index(ms.drop_first(), n - 1);
    }
}

/// `mview` keeps the length.
pub proof fn lemma_mview_len(ms: Seq<JsonMember>)
    ensures
        mview(ms).len() == ms.len(),
    decreases ms.len(),
{
    if ms.len() > 0 {
        lemma_mview_len(ms.drop_first());
    }
}

/// `aview` maps the list element by element.
pub proof fn lemma_aview_index(es: Seq<JsonValue>, n: int)
    requires
        0 <= n < es.len(),
    ensures
        aview(es)[n] == jview(es[n]),
    decreases es.len(),
{
    lemma_aview_len(es.drop_first());
    if n > 0 {
        lemma_aview_index(es.drop_first(), n - 1);
    }
}

/// `aview` keeps the length.
pub proof fn lemma_aview_len(es: Seq<JsonValue>)
    ensures
        aview(es).len() == es.len(),
    decreases es.len(),
{
    if es.len() > 0 {
        lemma_aview_len(es.drop_first());
    }
}

/// Whether `c` is JSON whitespace.
pub open spec fn is_json_ws(c: char) -> bool {
    c == ' ' || c == '\t' || c == '\n' || c == '\r'
}

/// Whether `c` is a decimal digit.
pub open spec fn is_digit(c: char) -> bool {
    '0' <= c && c <= '9'
}

/// The first position at or after `i` holding no whitespace.
pub open spec fn sp_ws(s: Seq<char>, i: int) -> int
    decreases s.len() - i,
{
    if 0 <= i < s.len() && is_json_ws(s[i]) {
        sp_ws(s, i + 1)
    } else {
        i
    }
}

/// The end of the run of digits starting at `i`.
pub open spec fn sp_digits(s: Seq<char>, i: int) -> int
    decreases s.len() - i,
{
    if 0 <= i < s.len() && is_digit(s[i]) {
        sp_digits(s, i + 1)
    } else {
        i
    }
}

/// Parses the inside of a string literal starting at `i` (just past the
/// opening quote): the decoded content and the position just past the
/// closing quote. Only the two-character escapes are accepted; raw control
/// characters are not.
pub open spec fn sp_string(s: Seq<char>, i: int) -> Option<(Seq<char>, int)>
    decreases s.len() - i,
{
    if i < 0 || i >= s.len() {
        None
    } else if s[i] == '"' {
        Some((Seq::empty(), i + 1))
    } else if s[i] == '\\' {
        if i + 2 > s.len() {
            None
        } else {
            let e = s[i + 1];
            if e == '"' || e == '\\' || e == '/' || e == 'b' || e == 'f' || e == 'n' || e == 'r'
                || e == 't' {
                let c = if e == '"' {
                    '"'
                } else if e == '\\' {
                    '\\'
                } else if e == '/' {
                    '/'
                } else if e == 'b' {
                    '\u{8}'
                } else if e == 'f' {
                    '\u{c}'
                } else if e == 'n' {
                    '\n'
                } else if e == 'r' {
                    '\r'
                } else {
                    '\t'
                };
                match sp_string(s, i + 2) {
                    Some(p) => Some((seq![c] + p.0, p.1)),
                    None => None,
                }
            } else {
                None
            }
        }
    } else if (s[i] as u32) < 32 {
        None
    } else {
        match sp_string(s, i + 1) {
            Some(p) => Some((seq![s[i]] + p.0, p.1)),
            None => None,
        }
    }
}

/// Parses a number token starting at `i`: optional minus, digits, optional
/// fraction, optional exponent. The raw text is kept.
pub open spec fn sp_number(s: Seq<char>, i: int) -> Option<(Seq<char>, int)> {
    let i1 = if 0 <= i < s.len() && s[i] == '-' {
        i + 1
    } else {
        i
    };
    let i2 = sp_digits(s, i1);
    if i2 == i1 {
        None
    } else {
        let i3 = if i2 < s.len() && s[i2] == '.' {
            let d = sp_digits(s, i2 + 1);
            if d == i2 + 1 {
                -1
            } else {
                d
            }
        } else {
            i2
        };
        if i3 < 0 {
            None
        } else {
            let i4 = if i3 < s.len() && (s[i3] == 'e' || s[i3] == 'E') {
                let isign = if i3 + 1 < s.len() && (s[i3 + 1] == '+' || s[i3 + 1] == '-') {
                    i3 + 2
                } else {
                    i3 + 1
                };
                let d = sp_digits(s, isign);
                if d == isign {
                    -1
                } else {
                    d
                }
            } else {
                i3
            };
            if i4 < 0 {
                None
            } else {
                Some((s.subrange(i, i4), i4))
            }
        }
    }
}

/// Parses one value starting at `i`, leading whitespace allowed. `fuel`
/// bounds the structural recursion; [`json_fuel`] always suffices for a
/// parseable document.
pub open spec fn sp_value(s: Seq<char>, i: int, fuel: nat) -> Option<(JsonSpecVal, int)>
    decreases fuel,
{
    if fuel == 0 {
        None
    } else {
        let j = sp_ws(s, i);
        if !(0 <= j < s.len()) {
            None
        } else {
            let c = s[j];
            if c == '"' {
                match sp_string(s, j + 1) {
                    Some(p) => Some((JsonSpecVal::Str(p.0), p.1)),
                    None => None,
                }
            } else if c == '{' {
                match sp_members(s, j + 1, (fuel - 1) as nat) {
                    Some(p) => Some((JsonSpecVal::Obj(p.0), p.1)),
                    None => None,
                }
            } else if c == '[' {
                match sp_elems(s, j + 1, (fuel - 1) as nat) {
                    Some(p) => Some((JsonSpecVal::Arr(p.0), p.1)),
                    None => None,
                }
            } else if c == 't' {
                if s.len() - j >= 4 && s[j + 1] == 'r' && s[j + 2] == 'u' && s[j + 3] == 'e' {
                    Some((JsonSpecVal::Bool(true), j + 4))
                } else {
                    None
                }
            } else if c == 'f' {
                if s.len() - j >= 5 && s[j + 1] == 'a' && s[j + 2] == 'l' && s[j + 3] == 's' && s[j
                    + 4] == 'e' {
                    Some((JsonSpecVal::Bool(false), j + 5))
                } else {
                    None
                }
            } else if c == 'n' {
                if s.len() - j >= 4 && s[j + 1] == 'u' && s[j + 2] == 'l' && s[j + 3] == 'l' {
                    Some((JsonSpecVal::Null, j + 4))
                } else {
                    None
                }
            } else {
                match sp_number(s, j) {
                    Some(p) => Some((JsonSpecVal::Num(p.0), p.1)),
                    None => None,
                }
            }
        }
    }
}

/// Parses the members of an object, starting just past the `{`.
pub open spec fn sp_members(s: Seq<char>, i: int, fuel: nat) -> Option<
    (Seq<(Seq<char>, JsonSpecVal)>, int),
>
    decreases fuel,
{
    if fuel == 0 {
        None
    } else {
        let j = sp_ws(s, i);
        if 0 <= j < s.len() && s[j] == '}' {
            Some((Seq::empty(), j + 1))
        } else {
            sp_members_more(s, i, (fuel - 1) as nat)
        }
    }
}

/// Parses one or more `key: value` members separated by commas, ending just
/// past the `}`.
pub open spec fn sp_members_more(s: Seq<char>, i: int, fuel: nat) -> Option<
    (Seq<(Seq<char>, JsonSpecVal)>, int),
>
    decreases fuel,
{
    if fuel == 0 {
        None
    } else {
        let j = sp_ws(s, i);
        if !(0 <= j < s.len() && s[j] == '"') {
            None
        } else {
            match sp_string(s, j + 1) {
                None => None,
                Some(kp) => {
                    let m = sp_ws(s, kp.1);
                    if !(0 <= m < s.len() && s[m] == ':') {
                        None
                    } else {
                        match sp_value(s, m + 1, (fuel - 1) as nat) {
                            None => None,
                            Some(vp) => {
                                let m2 = sp_ws(s, vp.1);
                                if 0 <= m2 < s.len() && s[m2] == ',' {
                                    match sp_members_more(s, m2 + 1, (fuel - 1) as nat) {
                                        None => None,
                                        Some(rp) => Some((seq![(kp.0, vp.0)] + rp.0, rp.1)),
                                    }
                                } else if 0 <= m2 < s.len() && s[m2] == '}' {
                                    Some((seq![(kp.0, vp.0)], m2 + 1))
                                } else {
                                    None
                                }
                            },
                        }
                    }
                },
            }
        }
    }
}

/// Parses the elements of an array, starting just past the `[`.
pub open spec fn sp_elems(s: Seq<char>, i: int, fuel: nat) -> Option<(Seq<JsonSpecVal>, int)>
    decreases fuel,
{
    if fuel == 0 {
        None
    } else {
        let j = sp_ws(s, i);
        if 0 <= j < s.len() && s[j] == ']' {
            Some((Seq::empty(), j + 1))
        } else {
            sp_elems_more(s, i, (fuel - 1) as nat)
        }
    }
}

/// Parses one or more elements separated by commas, ending just past the
/// `]`.
pub open spec fn sp_elems_more(s: Seq<char>, i: int, fuel: nat) -> Option<(Seq<JsonSpecVal>, int)>
    decreases fuel,
{
    if fuel == 0 {
        None
    } else {
        match sp_value(s, i, (fuel - 1) as nat) {
            None => None,
            Some(vp) => {
                let m = sp_ws(s, vp.1);
                if 0 <= m < s.len() && s[m] == ',' {
                    match sp_elems_more(s, m + 1, (fuel - 1) as nat) {
                        None => None,
                        Some(rp) => Some((seq![vp.0] + rp.0, rp.1)),
                    }
                } else if 0 <= m < s.len() && s[m] == ']' {
                    Some((seq![vp.0], m + 1))
                } else {
                    None
                }
            },
        }
    }
}

/// The recursion budget used for a document of length `n`: ample, since
/// every structural step consumes input.
pub open spec fn json_fuel(n: nat) -> nat {
    4 * n + 8
}

/// The value a whole JSON document denotes: one value, surrounded only by
/// whitespace.
pub open spec fn json_doc(s: Seq<char>) -> Option<JsonSpecVal> {
    match sp_value(s, 0, json_fuel(s.len())) {
        Some(p) => if sp_ws(s, p.1) == s.len() {
            Some(p.0)
        } else {
            None
        },
        None => None,
    }
}

fn skip_ws(s: &str, i: usize) -> (r: usize)
    requires
        i as int <= s@.len(),
    ensures
        r as int == sp_ws(s@, i as int),
        i <= r,
        r as int <= s@.len(),
    decreases s@.len() - i,
{
    let len = s.unicode_len();
    if i < len {
        let c = s.get_char(i);
        if c == ' ' || c == '\t' || c == '\n' || c == '\r' {
            return skip_ws(s, i + 1);
        }
    }
    i
}

fn scan_digits(s: &str, i: usize) -> (r: usize)
    requires
        i as int <= s@.len(),
    ensures
        r as int == sp_digits(s@, i as int),
        i <= r,
        r as int <= s@.len(),
    decreases s@.len() - i,
{
    let len = s.unicode_len();
    if i < len {
        let c = s.get_char(i);
        if '0' <= c && c <= '9' {
            return scan_digits(s, i + 1);
        }
    }
    i
}

fn parse_string_body(s: &str, i: usize) -> (r: Option<(String, usize)>)
    requires
        i as int <= s@.len(),
    ensures
        match r {
            Some(p) => sp_string(s@, i as int) == Some((p.0@, p.1 as int)) && i <= p.1 && p.1
                as int <= s@.len(),
            None => sp_string(s@, i as int) is None,
        },
{
    let len = s.unicode_len();
    let mut out = String::new();
    let mut j = i;
    loop
        invariant
            i <= j,
            j as int <= s@.len(),
            len == s@.len(),
            sp_string(s@, i as int) == (match sp_string(s@, j as int) {
                Some(p) => Some((out@ + p.0, p.1)),
                None => None::<(Seq<char>, int)>,
            }),
        decreases s@.len() - j,
    {
        if j >= len {
            return None;
        }
        let c = s.get_char(j);
        if c == '"' {
            proof {
                assert(out@ + Seq::<char>::empty() =~= out@);
            }
            return Some((out, j + 1));
        } else if c == '\\' {
            if j + 1 >= len {
                return None;
            }
            let e = s.get_char(j + 1);
            let dec: char;
            if e == '"' {
                dec = '"';
            } else if e == '\\' {
                dec = '\\';
            } else if e == '/' {
                dec = '/';
            } else if e == 'b' {
                dec = '\u{8}';
            } else if e == 'f' {
                dec = '\u{c}';
            } else if e == 'n' {
                dec = '\n';
            } else if e == 'r' {
                dec = '\r';
            } else if e == 't' {
                dec = '\t';
            } else {
                return None;
            }
            let ghost pre = out@;
            push_char(&mut out, dec);
            proof {
                assert(out@ =~= pre + seq![dec]);
                match sp_string(s@, j as int + 2) {
                    Some(p) => {
                        assert(pre + (seq![dec] + p.0) =~= (pre + seq![dec]) + p.0);
                    },
                    None => {},
                }
            }
            j = j + 2;
        } else if (c as u32) < 32 {
            return None;
        } else {
            let ghost pre = out@;
            push_char(&mut out, c);
            proof {
                assert(out@ =~= pre + seq![c]);
                match sp_string(s@, j as int + 1) {
                    Some(p) => {
                        assert(pre + (seq![c] + p.0) =~= (pre + seq![c]) + p.0);
                    },
                    None => {},
                }
            }
            j = j + 1;
        }
    }
}

fn parse_number(s: &str, i: usize) -> (r: Option<(String, usize)>)
    requires
        i as int <= s@.len(),
    ensures
        match r {
            Some(p) => sp_number(s@, i as int) == Some((p.0@, p.1 as int)) && i <= p.1 && p.1
                as int <= s@.len(),
            None => sp_number(s@, i as int) is None,
        },
{
    let len = s.unicode_len();
    let i1 = if i < len && s.get_char(i) == '-' {
        i + 1
    } else {
        i
    };
    let i2 = scan_digits(s, i1);
    if i2 == i1 {
        return None;
    }
    let mut endpos = i2;
    if i2 < len && s.get_char(i2) == '.' {
        let d = scan_digits(s, i2 + 1);
        if d == i2 + 1 {
            return None;
        }
        endpos = d;
    }
    if endpos < len {
        let c = s.get_char(endpos);
        if c == 'e' || c == 'E' {
            let isign = if endpos + 1 < len {
                let cs = s.get_char(endpos + 1);
                if cs == '+' || cs == '-' {
                    endpos + 2
                } else {
                    endpos + 1
                }
            } else {
                endpos + 1
            };
            let d2 = scan_digits(s, isign);
            if d2 == isign {
                return None;
            }
            endpos = d2;
        }
    }
    let t = s.substring_char(i, endpos).to_owned();
    Some((t, endpos))
}

fn parse_value(s: &str, i: usize, fuel: u128) -> (r: Option<(JsonValue, usize)>)
    requires
        i as int <= s@.len(),
    ensures
        match r {
            Some(p) => sp_value(s@, i as int, fuel as nat) == Some((jview(p.0), p.1 as int)) && i
                <= p.1 && p.1 as int <= s@.len(),
            None => sp_value(s@, i as int, fuel as nat) is None,
        },
    decreases fuel,
{
    if fuel == 0 {
        return None;
    }
    let len = s.unicode_len();
    let j = skip_ws(s, i);
    if j >= len {
        return None;
    }
    let c = s.get_char(j);
    if c == '"' {
        match parse_string_body(s, j + 1) {
            Some(p) => Some((JsonValue::Str(p.0), p.1)),
            None => None,
        }
    } else if c == '{' {
        match parse_members(s, j + 1, fuel - 1) {
            Some(p) => {
                let v = JsonValue::Obj(p.0);
                proof {
                    assert(jview(v) =~= JsonSpecVal::Obj(mview(p.0@)));
                }
                Some((v, p.1))
            },
            None => None,
        }
    } else if c == '[' {
        match parse_elems(s, j + 1, fuel - 1) {
            Some(p) => {
                let v = JsonValue::Arr(p.0);
                proof {
                    assert(jview(v) =~= JsonSpecVal::Arr(aview(p.0@)));
                }
                Some((v, p.1))
            },
            None => None,
        }
    } else if c == 't' {
        if len - j >= 4 && s.get_char(j + 1) == 'r' && s.get_char(j + 2) == 'u' && s.get_char(j + 3)
            == 'e' {
            Some((JsonValue::Bool(true), j + 4))
        } else {
            None
        }
    } else if c == 'f' {
        if len - j >= 5 && s.get_char(j + 1) == 'a' && s.get_char(j + 2) == 'l' && s.get_char(j + 3)
            == 's' && s.get_char(j + 4) == 'e' {
            Some((JsonValue::Bool(false), j + 5))
        } else {
            None
        }
    } else if c == 'n' {
        if len - j >= 4 && s.get_char(j + 1) == 'u' && s.get_char(j + 2) == 'l' && s.get_char(j + 3)
            == 'l' {
            Some((JsonValue::Null, j + 4))
        } else {
            None
        }
    } else {
        match parse_number(s, j) {
            Some(p) => Some((JsonValue::Num(p.0), p.1)),
            None => None,
        }
    }
}

fn parse_members(s: &str, i: usize, fuel: u128) -> (r: Option<(Vec<JsonMember>, usize)>)
    requires
        i as int <= s@.len(),
    ensures
        match r {
            Some(p) => sp_members(s@, i as int, fuel as nat) == Some((mview(p.0@), p.1 as int))
                && i <= p.1 && p.1 as int <= s@.len(),
            None => sp_members(s@, i as int, fuel as nat) is None,
        },
    decreases fuel,
{
    if fuel == 0 {
        return None;
    }
    let len = s.unicode_len();
    let j = skip_ws(s, i);
    if j < len && s.get_char(j) == '}' {
        let empty: Vec<JsonMember> = Vec::new();
        proof {
            assert(mview(empty@) =~= Seq::<(Seq<char>, JsonSpecVal)>::empty());
        }
        Some((empty, j + 1))
    } else {
        parse_members_more(s, i, fuel - 1)
    }
}

fn parse_members_more(s: &str, i: usize, fuel: u128) -> (r: Option<(Vec<JsonMember>, usize)>)
    requires
        i as int <= s@.len(),
    ensures
        match r {
            Some(p) => sp_members_more(s@, i as int, fuel as nat) == Some(
                (mview(p.0@), p.1 as int),
            ) && i <= p.1 && p.1 as int <= s@.len(),
            None => sp_members_more(s@, i as int, fuel as nat) is None,
        },
    decreases fuel,
{
    if fuel == 0 {
        return None;
    }
    let len = s.unicode_len();
    let j = skip_ws(s, i);
    if !(j < len && s.get_char(j) == '"') {
        return None;
    }
    let kp = match parse_string_body(s, j + 1) {
        Some(kp) => kp,
        None => {
            return None;
        },
    };
    let (key, kend) = kp;
    let m = skip_ws(s, kend);
    if !(m < len && s.get_char(m) == ':') {
        return None;
    }
    let vp = match parse_value(s, m + 1, fuel - 1) {
        Some(vp) => vp,
        None => {
            return None;
        },
    };
    let (v, vend) = vp;
    let m2 = skip_ws(s, vend);
    let ghost gk = key@;
    let ghost gv = jview(v);
    let member = JsonMember { key, val: v };
    let ghost gmem = member;
    if m2 < len && s.get_char(m2) == ',' {
        match parse_members_more(s, m2 + 1, fuel - 1) {
            Some(rp) => {
                let (mut rest, endpos) = rp;
                let ghost grest = rest@;
                rest.insert(0, member);
                proof {
                    let x = rest@;
                    assert(x[0] == gmem);
                    assert(x.drop_first() =~= grest);
                    assert(mview(x) =~= seq![(gk, gv)] + mview(grest));
                }
                Some((rest, endpos))
            },
            None => None,
        }
    } else if m2 < len && s.get_char(m2) == '}' {
        let mut one: Vec<JsonMember> = Vec::new();
        one.push(member);
        proof {
            reveal_with_fuel(mview, 2);
            let x = one@;
            assert(x[0] == gmem);
            assert(x.drop_first() =~= Seq::<JsonMember>::empty());
            assert(mview(x) =~= seq![(gk, gv)]);
        }
        Some((one, m2 + 1))
    } else {
        None
    }
}

fn parse_elems(s: &str, i: usize, fuel: u128) -> (r: Option<(Vec<JsonValue>, usize)>)
    requires
        i as int <= s@.len(),
    ensures
        match r {
            Some(p) => sp_elems(s@, i as int, fuel as nat) == Some((aview(p.0@), p.1 as int)) && i
                <= p.1 && p.1 as int <= s@.len(),
            None => sp_elems(s@, i as int, fuel as nat) is None,
        },
    decreases fuel,
{
    if fuel == 0 {
        return None;
    }
    let len = s.unicode_len();
    let j = skip_ws(s, i);
    if j < len && s.get_char(j) == ']' {
        let empty: Vec<JsonValue> = Vec::new();
        proof {
            assert(aview(empty@) =~= Seq::<JsonSpecVal>::empty());
        }
        Some((empty, j + 1))
    } else {
        parse_elems_more(s, i, fuel - 1)
    }
}

fn parse_elems_more(s: &str, i: usize, fuel: u128) -> (r: Option<(Vec<JsonValue>, usize)>)
    requires
        i as int <= s@.len(),
    ensures
        match r {
            Some(p) => sp_elems_more(s@, i as int, fuel as nat) == Some((aview(p.0@), p.1 as int))
                && i <= p.1 && p.1 as int <= s@.len(),
            None => sp_elems_more(s@, i as int, fuel as nat) is None,
        },
    decreases fuel,
{
    if fuel == 0 {
        return None;
    }
    let len = s.unicode_len();
    let vp = match parse_value(s, i, fuel - 1) {
        Some(vp) => vp,
        None => {
            return None;
        },
    };
    let (v, vend) = vp;
    let m = skip_ws(s, vend);
    let ghost gv = jview(v);
    let ghost gval = v;
    if m < len && s.get_char(m) == ',' {
        match parse_elems_more(s, m + 1, fuel - 1) {
            Some(rp) => {
                let (mut rest, endpos) = rp;
                let ghost grest = rest@;
                rest.insert(0, v);
                proof {
                    let x = rest@;
                    assert(x[0] == gval);
                    assert(x.drop_first() =~= grest);
                    assert(aview(x) =~= seq![gv] + aview(grest));
                }
                Some((rest, endpos))
            },
            None => None,
        }
    } else if m < len && s.get_char(m) == ']' {
        let mut one: Vec<JsonValue> = Vec::new();
        one.push(v);
        proof {
            reveal_with_fuel(aview, 2);
            let x = one@;
            assert(x[0] == gval);
            assert(x.drop_first() =~= Seq::<JsonValue>::empty());
            assert(aview(x) =~= seq![gv]);
        }
        Some((one, m + 1))
    } else {
        None
    }
}

/// Parses a whole JSON document: exactly what [`json_doc`] accepts.
pub fn parse_json(s: &str) -> (r: Option<JsonValue>)
    ensures
        match r {
            Some(v) => json_doc(s@) == Some(jview(v)),
            None => json_doc(s@) is None,
        },
{
    let len = s.unicode_len();
    let fuel: u128 = 4 * (len as u128) + 8;
    proof {
        assert(fuel as nat == json_fuel(s@.len()));
    }
    match parse_value(s, 0, fuel) {
        Some(p) => {
            let k = skip_ws(s, p.1);
            if k == len {
                Some(p.0)
            } else {
                None
            }
        },
        None => None,
    }
}

} // verus!
