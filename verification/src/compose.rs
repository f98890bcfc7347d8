//! The request composer: resolves each operation's URL from the base URL and
//! the raw path identifiers, and assembles the JSON body (for writes) or the
//! signed query string (for reads) around the timestamp and hex signature.

use vstd::prelude::*;
use crate::message::digit_char;
use crate::structs::Order;

verus! {

/// The HTTP verb an operation uses.
#[derive(Clone, Copy, PartialEq, Eq, Structural, Debug)]
pub enum Method {
    Get,
    Put,
}

/// A transport-ready request: everything the HTTP collaborator needs to
/// perform the exchange.
pub struct HttpRequest {
    pub method: Method,
    pub url: String,
    pub body: Option<String>,
}

/// The character for the hexadecimal digit `d`, lowercase.
pub open spec fn hex_digit_char(d: nat) -> char
    recommends
        d < 16,
{
    if d < 10 {
        digit_char(d)
    } else {
        ((87 + d) as u8) as char
    }
}

/// How one character is written inside a JSON string literal: quote and
/// backslash are escaped, the named control characters use their two-letter
/// escapes, other control characters use a `\u00` escape, and everything
/// else stands as itself.
pub open spec fn esc_char(c: char) -> Seq<char> {
    if c == '"' {
        seq!['\\', '"']
    } else if c == '\\' {
        seq!['\\', '\\']
    } else if c == '\u{8}' {
        seq!['\\', 'b']
    } else if c == '\t' {
        seq!['\\', 't']
    } else if c == '\n' {
        seq!['\\', 'n']
    } else if c == '\u{c}' {
        seq!['\\', 'f']
    } else if c == '\r' {
        seq!['\\', 'r']
    } else if (c as u32) < 32 {
        seq!['\\', 'u', '0', '0', hex_digit_char((c as u32 / 16) as nat), hex_digit_char(
            (c as u32 % 16) as nat,
        )]
    } else {
        seq![c]
    }
}

/// The escaped form of `s` from position `i` on.
pub open spec fn esc_from(s: Seq<char>, i: int) -> Seq<char>
    decreases s.len() - i,
{
    if i < 0 || i >= s.len() {
        Seq::empty()
    } else {
        esc_char(s[i]) + esc_from(s, i + 1)
    }
}

/// The body of a JSON string literal holding `s`.
pub open spec fn json_escaped(s: Seq<char>) -> Seq<char> {
    esc_from(s, 0)
}

fn hex_digit_literal(d: u32) -> (r: &'static str)
    requires
        d < 16,
    ensures
        r@ == seq![hex_digit_char(d as nat)],
{
    proof {
        reveal_strlit("0");
        reveal_strlit("1");
        reveal_strlit("2");
        reveal_strlit("3");
        reveal_strlit("4");
        reveal_strlit("5");
        reveal_strlit("6");
        reveal_strlit("7");
        reveal_strlit("8");
        reveal_strlit("9");
        reveal_strlit("a");
        reveal_strlit("b");
        reveal_strlit("c");
        reveal_strlit("d");
        reveal_strlit("e");
        reveal_strlit("f");
    }
    let r = match d {
        0 => "0",
        1 => "1",
        2 => "2",
        3 => "3",
        4 => "4",
        5 => "5",
        6 => "6",
        7 => "7",
        8 => "8",
        9 => "9",
        10 => "a",
        11 => "b",
        12 => "c",
        13 => "d",
        14 => "e",
        _ => "f",
    };
    proof {
        assert(r@ =~= seq![hex_digit_char(d as nat)]);
    }
    r
}

/// Relies on std `String::push`: appends exactly one character.
#[verifier::external_body]
pub(crate) fn push_char(s: &mut String, c: char)
    ensures
        final(s)@ == old(s)@.push(c),
{
    s.push(c);
}

/// Escapes `s` for embedding inside a JSON string literal.
pub fn escape_json(s: &str) -> (r: String)
    ensures
        r@ == json_escaped(s@),
{
    let len = s.unicode_len();
    let mut out = String::new();
    let mut i: usize = 0;
    while i < len
        invariant
            i <= len,
            len == s@.len(),
            json_escaped(s@) == out@ + esc_from(s@, i as int),
        decreases len - i,
    {
        let c = s.get_char(i);
        let ghost pre = out@;
        if c == '"' {
            out.append("\\\"");
            proof {
                reveal_strlit("\\\"");
                assert(out@ =~= pre + esc_char(c));
            }
        } else if c == '\\' {
            out.append("\\\\");
            proof {
                reveal_strlit("\\\\");
                assert(out@ =~= pre + esc_char(c));
            }
        } else if c == '\u{8}' {
            out.append("\\b");
            proof {
                reveal_strlit("\\b");
                assert(out@ =~= pre + esc_char(c));
            }
        } else if c == '\t' {
            out.append("\\t");
            proof {
                reveal_strlit("\\t");
                assert(out@ =~= pre + esc_char(c));
            }
        } else if c == '\n' {
            out.append("\\n");
            proof {
                reveal_strlit("\\n");
                assert(out@ =~= pre + esc_char(c));
            }
        } else if c == '\u{c}' {
            out.append("\\f");
            proof {
                reveal_strlit("\\f");
                assert(out@ =~= pre + esc_char(c));
            }
        } else if c == '\r' {
            out.append("\\r");
            proof {
                reveal_strlit("\\r");
                assert(out@ =~= pre + esc_char(c));
            }
        } else if (c as u32) < 32 {
            out.append("\\u00");
            let hi = hex_digit_literal(c as u32 / 16);
            out.append(hi);
            let lo = hex_digit_literal(c as u32 % 16);
            out.append(lo);
            proof {
                reveal_strlit("\\u00");
                assert(out@ =~= pre + esc_char(c));
            }
        } else {
            push_char(&mut out, c);
            proof {
                assert(out@ =~= pre + esc_char(c));
            }
        }
        proof {
            assert(esc_from(s@, i as int) == esc_char(s@[i as int]) + esc_from(s@, i as int + 1));
            assert(pre + (esc_char(s@[i as int]) + esc_from(s@, i as int + 1)) =~= (pre + esc_char(
                s@[i as int],
            )) + esc_from(s@, i as int + 1));
        }
        i = i + 1;
    }
    proof {
        assert(out@ + esc_from(s@, len as int) =~= out@);
    }
    out
}

/// URL for creating a user.
pub open spec fn create_user_url(base: Seq<char>) -> Seq<char> {
    base + ("user/create")@
}

/// URL for fetching a user: the timestamp and signature travel as query
/// parameters; the uuid stands in the path verbatim.
pub open spec fn get_user_url(base: Seq<char>, uuid: Seq<char>, ts: Seq<char>, sig: Seq<char>) -> Seq<
    char,
> {
    base + ("user/")@ + uuid + ("?timestamp=")@ + ts + ("&signature=")@ + sig
}

/// URL for attaching a processor account: uuid and processor name stand in
/// the path verbatim.
pub open spec fn add_processor_url(base: Seq<char>, uuid: Seq<char>, processor: Seq<char>) -> Seq<
    char,
> {
    base + ("user/")@ + uuid + ("/processor/")@ + processor
}

/// URL for adding a product: uuid and title stand in the path verbatim.
pub open spec fn add_product_url(base: Seq<char>, uuid: Seq<char>, title: Seq<char>) -> Seq<char> {
    base + ("user/")@ + uuid + ("/product/")@ + title
}

/// URL for adding an order.
pub open spec fn add_order_url(base: Seq<char>, uuid: Seq<char>) -> Seq<char> {
    base + ("user/")@ + uuid + ("/orders")@
}

/// Body of the create-user request.
pub open spec fn create_user_body(ts: Seq<char>, pub_key: Seq<char>, sig: Seq<char>) -> Seq<char> {
    ("{\"timestamp\":\"")@ + json_escaped(ts) + ("\",\"pubKey\":\"")@ + json_escaped(pub_key) + (
    "\",\"signature\":\"")@ + json_escaped(sig) + ("\"}")@
}

/// Body of the attach-processor-account request. The uuid rides in the URL
/// path, not here.
pub open spec fn add_processor_body(
    ts: Seq<char>,
    name: Seq<char>,
    email: Seq<char>,
    sig: Seq<char>,
) -> Seq<char> {
    ("{\"timestamp\":\"")@ + json_escaped(ts) + ("\",\"name\":\"")@ + json_escaped(name) + (
    "\",\"email\":\"")@ + json_escaped(email) + ("\",\"signature\":\"")@ + json_escaped(sig) + (
    "\"}")@
}

/// Body of the add-product request: the price is a bare JSON number; uuid
/// and title ride in the URL path, not here.
pub open spec fn add_product_body(
    ts: Seq<char>,
    description: Seq<char>,
    price: u32,
    sig: Seq<char>,
) -> Seq<char> {
    ("{\"timestamp\":\"")@ + json_escaped(ts) + ("\",\"description\":\"")@ + json_escaped(
        description,
    ) + ("\",\"price\":")@ + crate::message::dec_str(price as nat) + (",\"signature\":\"")@
        + json_escaped(sig) + ("\"}")@
}

/// Body of the add-order request: the order's own JSON text is embedded
/// verbatim, unsigned.
pub open spec fn add_order_body(ts: Seq<char>, order_json: Seq<char>, sig: Seq<char>) -> Seq<char> {
    ("{\"timestamp\":\"")@ + json_escaped(ts) + ("\",\"order\":")@ + order_json + (
    ",\"signature\":\"")@ + json_escaped(sig) + ("\"}")@
}

pub fn compose_create_user(base: &str, ts: &str, pub_key: &str, sig: &str) -> (r: HttpRequest)
    ensures
        r.method == Method::Put,
        r.url@ == create_user_url(base@),
        r.body matches Some(b) && b@ == create_user_body(ts@, pub_key@, sig@),
{
    let mut url = base.to_owned();
    url.append("user/create");
    let mut b = ("{\"timestamp\":\"").to_owned();
    let e_ts = escape_json(ts);
    b.append(e_ts.as_str());
    b.append("\",\"pubKey\":\"");
    let e_pk = escape_json(pub_key);
    b.append(e_pk.as_str());
    b.append("\",\"signature\":\"");
    let e_sig = escape_json(sig);
    b.append(e_sig.as_str());
    b.append("\"}");
    proof {
        assert(b@ =~= create_user_body(ts@, pub_key@, sig@));
    }
    HttpRequest { method: Method::Put, url, body: Some(b) }
}

pub fn compose_get_user(base: &str, uuid: &str, ts: &str, sig: &str) -> (r: HttpRequest)
    ensures
        r.method == Method::Get,
        r.url@ == get_user_url(base@, uuid@, ts@, sig@),
        r.body is None,
{
    let mut url = base.to_owned();
    url.append("user/");
    url.append(uuid);
    url.append("?timestamp=");
    url.append(ts);
    url.append("&signature=");
    url.append(sig);
    proof {
        assert(url@ =~= get_user_url(base@, uuid@, ts@, sig@));
    }
    HttpRequest { method: Method::Get, url, body: None }
}

pub fn compose_add_processor(
    base: &str,
    uuid: &str,
    processor: &str,
    ts: &str,
    name: &str,
    email: &str,
    sig: &str,
) -> (r: HttpRequest)
    ensures
        r.method == Method::Put,
        r.url@ == add_processor_url(base@, uuid@, processor@),
        r.body matches Some(b) && b@ == add_processor_body(ts@, name@, email@, sig@),
{
    let mut url = base.to_owned();
    url.append("user/");
    url.append(uuid);
    url.append("/processor/");
    url.append(processor);
    proof {
        assert(url@ =~= add_processor_url(base@, uuid@, processor@));
    }
    let mut b = ("{\"timestamp\":\"").to_owned();
    let e_ts = escape_json(ts);
    b.append(e_ts.as_str());
    b.append("\",\"name\":\"");
    let e_name = escape_json(name);
    b.append(e_name.as_str());
    b.append("\",\"email\":\"");
    let e_email = escape_json(email);
    b.append(e_email.as_str());
    b.append("\",\"signature\":\"");
    let e_sig = escape_json(sig);
    b.append(e_sig.as_str());
    b.append("\"}");
    proof {
        assert(b@ =~= add_processor_body(ts@, name@, email@, sig@));
    }
    HttpRequest { method: Method::Put, url, body: Some(b) }
}

pub fn compose_add_product(
    base: &str,
    uuid: &str,
    title: &str,
    description: &str,
    price: u32,
    ts: &str,
    sig: &str,
) -> (r: HttpRequest)
    ensures
        r.method == Method::Put,
        r.url@ == add_product_url(base@, uuid@, title@),
        r.body matches Some(b) && b@ == add_product_body(ts@, description@, price, sig@),
{
    let mut url = base.to_owned();
    url.append("user/");
    url.append(uuid);
    url.append("/product/");
    url.append(title);
    proof {
        assert(url@ =~= add_product_url(base@, uuid@, title@));
    }
    let mut b = ("{\"timestamp\":\"").to_owned();
    let e_ts = escape_json(ts);
    b.append(e_ts.as_str());
    b.append("\",\"description\":\"");
    let e_desc = escape_json(description);
    b.append(e_desc.as_str());
    b.append("\",\"price\":");
    let p = crate::message::u32_to_dec(price);
    b.append(p.as_str());
    b.append(",\"signature\":\"");
    let e_sig = escape_json(sig);
    b.append(e_sig.as_str());
    b.append("\"}");
    proof {
        assert(b@ =~= add_product_body(ts@, description@, price, sig@));
    }
    HttpRequest { method: Method::Put, url, body: Some(b) }
}

pub fn compose_add_order(base: &str, uuid: &str, order: &Order, ts: &str, sig: &str) -> (r:
    HttpRequest)
    ensures
        r.method == Method::Put,
        r.url@ == add_order_url(base@, uuid@),
        r.body matches Some(b) && b@ == add_order_body(ts@, order.json@, sig@),
{
    let mut url = base.to_owned();
    url.append("user/");
    url.append(uuid);
    url.append("/orders");
    proof {
        assert(url@ =~= add_order_url(base@, uuid@));
    }
    let mut b = ("{\"timestamp\":\"").to_owned();
    let e_ts = escape_json(ts);
    b.append(e_ts.as_str());
    b.append("\",\"order\":");
    b.append(order.json.as_str());
    b.append(",\"signature\":\"");
    let e_sig = escape_json(sig);
    b.append(e_sig.as_str());
    b.append("\"}");
    proof {
        assert(b@ =~= add_order_body(ts@, order.json@, sig@));
    }
    HttpRequest { method: Method::Put, url, body: Some(b) }
}

} // verus!
