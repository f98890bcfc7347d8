//! The signing messages: for each operation, the exact ordered concatenation
//! of fields that is signed. The field set and order are a protocol contract
//! with the server; the message always starts with the millisecond timestamp,
//! fields are joined with no separator, and the price is rendered as its
//! decimal text form.

use vstd::prelude::*;

verus! {

/// The character for the decimal digit `d`.
pub open spec fn digit_char(d: nat) -> char
    recommends
        d < 10,
{
    ((48 + d) as u8) as char
}

/// The decimal text of `n`: no sign, no padding, no separators.
pub open spec fn dec_str(n: nat) -> Seq<char>
    decreases n,
{
    if n < 10 {
        seq![digit_char(n)]
    } else {
        dec_str(n / 10).push(digit_char(n % 10))
    }
}

fn digit_literal(d: u32) -> (r: &'static str)
    requires
        d < 10,
    ensures
        r@ == seq![digit_char(d as nat)],
{
    proof {
        reveal_strlit("0");
        reveal_strlit("1");
        reveal_strlit("2");
        reveal_strlit("3");
        reveal_strlit("4");
        reveal_strlit("5");
        reveal_strlit("6");
        reveal_strlit("7");
        reveal_strlit("8");
        reveal_strlit("9");
    }
    let r = match d {
        0 => "0",
        1 => "1",
        2 => "2",
        3 => "3",
        4 => "4",
        5 => "5",
        6 => "6",
        7 => "7",
        8 => "8",
        _ => "9",
    };
    proof {
        assert(r@ =~= seq![digit_char(d as nat)]);
    }
    r
}

/// Renders `n` in its natural decimal text form.
pub fn u32_to_dec(n: u32) -> (r: String)
    ensures
        r@ == dec_str(n as nat),
    decreases n,
{
    if n < 10 {
        digit_literal(n).to_owned()
    } else {
        let mut s = u32_to_dec(n / 10);
        s.append(digit_literal(n % 10));
        proof {
            assert(s@ =~= dec_str(n as nat));
        }
        s
    }
}

/// Message signed for creating a user: timestamp, then public key.
pub open spec fn create_user_message(ts: Seq<char>, pub_key: Seq<char>) -> Seq<char> {
    ts + pub_key
}

/// Message signed for fetching a user: timestamp, then uuid.
pub open spec fn get_user_message(ts: Seq<char>, uuid: Seq<char>) -> Seq<char> {
    ts + uuid
}

/// Message signed for attaching a processor account: timestamp, uuid, name, email.
pub open spec fn add_processor_message(
    ts: Seq<char>,
    uuid: Seq<char>,
    name: Seq<char>,
    email: Seq<char>,
) -> Seq<char> {
    ts + uuid + name + email
}

/// Message signed for adding a product: timestamp, uuid, title, description,
/// then the price as decimal text.
pub open spec fn add_product_message(
    ts: Seq<char>,
    uuid: Seq<char>,
    title: Seq<char>,
    description: Seq<char>,
    price: u32,
) -> Seq<char> {
    ts + uuid + title + description + dec_str(price as nat)
}

/// Message signed for adding an order: timestamp, then uuid. The order body
/// itself is deliberately not part of the signed message.
pub open spec fn add_order_message(ts: Seq<char>, uuid: Seq<char>) -> Seq<char> {
    ts + uuid
}

pub fn build_create_user_message(ts: &str, pub_key: &str) -> (r: String)
    ensures
        r@ == create_user_message(ts@, pub_key@),
{
    let mut s = ts.to_owned();
    s.append(pub_key);
    s
}

pub fn build_get_user_message(ts: &str, uuid: &str) -> (r: String)
    ensures
        r@ == get_user_message(ts@, uuid@),
{
    let mut s = ts.to_owned();
    s.append(uuid);
    s
}

pub fn build_add_processor_message(ts: &str, uuid: &str, name: &str, email: &str) -> (r: String)
    ensures
        r@ == add_processor_message(ts@, uuid@, name@, email@),
{
    let mut s = ts.to_owned();
    s.append(uuid);
    s.append(name);
    s.append(email);
    s
}

pub fn build_add_product_message(
    ts: &str,
    uuid: &str,
    title: &str,
    description: &str,
    price: u32,
) -> (r: String)
    ensures
        r@ == add_product_message(ts@, uuid@, title@, description@, price),
{
    let mut s = ts.to_owned();
    s.append(uuid);
    s.append(title);
    s.append(description);
    let p = u32_to_dec(price);
    s.append(p.as_str());
    s
}

pub fn build_add_order_message(ts: &str, uuid: &str) -> (r: String)
    ensures
        r@ == add_order_message(ts@, uuid@),
{
    let mut s = ts.to_owned();
    s.append(uuid);
    s
}

/// Every signing message is a function of its fields and timestamp alone:
/// two messages built from the same inputs are byte-identical.
pub proof fn lemma_message_determinism(
    m1: Seq<char>,
    m2: Seq<char>,
    ts: Seq<char>,
    uuid: Seq<char>,
    title: Seq<char>,
    description: Seq<char>,
    price: u32,
)
    requires
        m1 == add_product_message(ts, uuid, title, description, price),
        m2 == add_product_message(ts, uuid, title, description, price),
    ensures
        m1 == m2,
{
}

/// Swapping the uuid and title fields of a product message changes the
/// message whenever the two orders of concatenation differ, so the signature
/// over it changes too for any injective signing scheme.
pub proof fn lemma_field_order_sensitivity(
    ts: Seq<char>,
    uuid: Seq<char>,
    title: Seq<char>,
    description: Seq<char>,
    price: u32,
)
    requires
        uuid + title != title + uuid,
    ensures
        add_product_message(ts, uuid, title, description, price) != add_product_message(
            ts,
            title,
            uuid,
            description,
            price,
        ),
{
    let x = uuid + title;
    let y = title + uuid;
    assert(x.len() == y.len());
    if forall|i: int| 0 <= i < x.len() ==> x[i] == y[i] {
        assert(x =~= y);
    }
    let i = choose|i: int| 0 <= i < x.len() && x[i] != y[i];
    let m1 = add_product_message(ts, uuid, title, description, price);
    let m2 = add_product_message(ts, title, uuid, description, price);
    assert(m1[ts.len() + i] == x[i]);
    assert(m2[ts.len() + i] == y[i]);
}

} // verus!
