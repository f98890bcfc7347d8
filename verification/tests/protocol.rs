use sanora::Sanora;
use sanora::compose::Method;
use sanora::keys::SigningKey;
use sanora::message::{
    build_add_product_message, build_create_user_message, build_get_user_message, u32_to_dec,
};
use sanora::structs::Order;
use sessionless::hex::{FromHex, IntoHex};
use sessionless::{PrivateKey, PublicKey, Sessionless, Signature};

const KEY_HEX: &str = "0000000000000000000000000000000000000000000000000000000000000001";

fn client() -> Sanora {
    let key = SigningKey::from_hex(KEY_HEX).expect("a valid key");
    Sanora::new(Some("https://example.test/".to_string()), Some(key))
}

#[test]
fn message_determinism() {
    let a = build_add_product_message("100", "u1", "Widget", "A widget", 1999);
    let b = build_add_product_message("100", "u1", "Widget", "A widget", 1999);
    assert_eq!(a, b);
    assert_eq!(a, "100u1WidgetA widget1999");
    assert_eq!(build_create_user_message("7", "aabb"), "7aabb");
    assert_eq!(build_get_user_message("7", "u-9"), "7u-9");
}

#[test]
fn decimal_rendering() {
    assert_eq!(u32_to_dec(0), "0");
    assert_eq!(u32_to_dec(1999), "1999");
    assert_eq!(u32_to_dec(4294967295), "4294967295");
}

#[test]
fn signature_verifiability() {
    let key = SigningKey::generate();
    let msg = "123some message";
    let sig_hex = key.sign_hex(msg);
    assert_eq!(sig_hex.len(), 128);
    let sig = Signature::from_hex(&sig_hex).expect("signature hex parses");
    let pk = PublicKey::from_hex(key.public_key_hex()).expect("public key hex parses");
    let ctx = Sessionless::new();
    assert!(ctx.verify(msg, &pk, &sig).is_ok());
    // A message altered in a single field no longer verifies.
    assert!(ctx.verify("124some message", &pk, &sig).is_err());
}

#[test]
fn signing_matches_sessionless() {
    // The library's signature is exactly what sessionless computes for the
    // same key and message, not the message handed back.
    let key = SigningKey::from_hex(KEY_HEX).expect("a valid key");
    let msg = "100u1";
    let lib_sig = key.sign_hex(msg);
    let ctx = Sessionless::from_private_key(PrivateKey::from_hex(KEY_HEX).unwrap());
    assert_eq!(lib_sig, ctx.sign(msg).to_hex());
    assert_ne!(lib_sig, msg);
    assert_eq!(key.public_key_hex(), ctx.public_key().to_hex());
}

#[test]
fn field_order_sensitivity() {
    let key = SigningKey::from_hex(KEY_HEX).expect("a valid key");
    let m1 = build_add_product_message("100", "u1", "Widget", "d", 1);
    let m2 = build_add_product_message("100", "Widget", "u1", "d", 1);
    assert_ne!(m1, m2);
    assert_ne!(key.sign_hex(&m1), key.sign_hex(&m2));
}

#[test]
fn key_from_hex_rejects_invalid() {
    assert!(SigningKey::from_hex("not hex").is_none());
    assert!(SigningKey::from_hex("").is_none());
    // The zero scalar is not a valid secp256k1 key.
    assert!(SigningKey::from_hex(
        "0000000000000000000000000000000000000000000000000000000000000000"
    )
    .is_none());
    let k = SigningKey::from_hex(KEY_HEX).expect("a valid key");
    assert_eq!(k.to_hex(), KEY_HEX);
}

#[test]
fn create_user_request_shape() {
    let c = client();
    let r = c.create_user_request("100");
    assert_eq!(r.method, Method::Put);
    assert_eq!(r.url, "https://example.test/user/create");
    let body = r.body.expect("a PUT carries a body");
    let pk = c.key.public_key_hex();
    let sig = c.key.sign_hex(&format!("100{}", pk));
    assert_eq!(
        body,
        format!("{{\"timestamp\":\"100\",\"pubKey\":\"{}\",\"signature\":\"{}\"}}", pk, sig)
    );
}

#[test]
fn get_user_request_uses_query_params() {
    let c = client();
    let r = c.get_user_by_uuid_request("100", "u1");
    assert_eq!(r.method, Method::Get);
    assert!(r.body.is_none());
    let sig = c.key.sign_hex("100u1");
    assert_eq!(
        r.url,
        format!("https://example.test/user/u1?timestamp=100&signature={}", sig)
    );
}

#[test]
fn add_processor_request_shape() {
    let c = client();
    let r = c.add_processor_account_request("100", "u1", "Ann", "ann@example.test", "stripe");
    assert_eq!(r.method, Method::Put);
    assert_eq!(r.url, "https://example.test/user/u1/processor/stripe");
    let sig = c.key.sign_hex("100u1Annann@example.test");
    assert_eq!(
        r.body.unwrap(),
        format!(
            "{{\"timestamp\":\"100\",\"name\":\"Ann\",\"email\":\"ann@example.test\",\"signature\":\"{}\"}}",
            sig
        )
    );
}

#[test]
fn price_rendering_scenario() {
    let c = client();
    let msg = build_add_product_message("100", "u1", "Widget", "A widget", 1999);
    assert!(msg.starts_with("100"));
    assert!(msg.ends_with("u1WidgetA widget1999"));
    let r = c.add_product_request("100", "u1", "Widget", "A widget", 1999);
    assert_eq!(r.method, Method::Put);
    assert_eq!(r.url, "https://example.test/user/u1/product/Widget");
    let body = r.body.unwrap();
    assert!(body.contains("\"price\":1999"));
    assert!(!body.contains("19.99"));
    let sig = c.key.sign_hex(&msg);
    assert_eq!(
        body,
        format!(
            "{{\"timestamp\":\"100\",\"description\":\"A widget\",\"price\":1999,\"signature\":\"{}\"}}",
            sig
        )
    );
}

#[test]
fn add_order_request_embeds_order_verbatim() {
    let c = client();
    let order = Order { json: "{\"item\":\"x\",\"qty\":2}".to_string() };
    let r = c.add_order_request("100", "u1", &order);
    assert_eq!(r.method, Method::Put);
    assert_eq!(r.url, "https://example.test/user/u1/orders");
    // Only timestamp + uuid are signed; the order rides unsigned.
    let sig = c.key.sign_hex("100u1");
    assert_eq!(
        r.body.unwrap(),
        format!(
            "{{\"timestamp\":\"100\",\"order\":{{\"item\":\"x\",\"qty\":2}},\"signature\":\"{}\"}}",
            sig
        )
    );
}

#[test]
fn default_base_url_is_used() {
    let key = SigningKey::from_hex(KEY_HEX).expect("a valid key");
    let c = Sanora::new(None, Some(key));
    let r = c.create_user_request("1");
    assert!(r.url.starts_with("https://dev.sanora.allyabase.com/"));
    assert_eq!(r.url, "https://dev.sanora.allyabase.com/user/create");
}

#[test]
fn composed_bodies_are_valid_json() {
    let c = client();
    let r = c.add_processor_account_request("100", "u1", "A\"B\\C\n", "a\tb", "p");
    let body = r.body.unwrap();
    // The body parses as JSON (a shape error, not a syntax error, when read
    // as the wrong entity), and serde_json agrees with the library's grammar.
    assert_eq!(
        sanora::decode::decode_success_result(&body),
        Err(sanora::decode::DecodeError::Shape)
    );
    let v: serde_json::Value = serde_json::from_str(&body).expect("serde_json parses the body");
    assert_eq!(v["name"], serde_json::Value::String("A\"B\\C\n".to_string()));
    assert_eq!(v["email"], serde_json::Value::String("a\tb".to_string()));
}

#[test]
fn body_fields_are_json_escaped() {
    let c = client();
    let r = c.add_processor_account_request("100", "u1", "A\"B\\C", "a\nb", "p");
    let body = r.body.unwrap();
    assert!(body.contains("\"name\":\"A\\\"B\\\\C\""));
    assert!(body.contains("\"email\":\"a\\nb\""));
    assert_eq!(sanora::compose::escape_json("\u{1}"), "\\u0001");
    assert_eq!(sanora::compose::escape_json("plain"), "plain");
}
