use sanora::decode::{
    DecodeError, decode_product_meta, decode_sanora_user, decode_success_result, parse_u32_dec,
};
use sanora::structs::{AddieUser, PaymentIntent, ProductMeta, SanoraUser};

#[test]
fn round_trip_decode_full_user() {
    let body = "{\"pubKey\":\"abc\",\"uuid\":\"u1\",\"addieUser\":{\"pubKey\":\"apk\",\"uuid\":\"au\",\"stripeAccountId\":\"acct_1\"}}";
    let u = decode_sanora_user(body).expect("a well-formed user decodes");
    assert_eq!(u.pub_key, "abc");
    assert_eq!(u.uuid, "u1");
    assert_eq!(u.addie_user.pub_key, "apk");
    assert_eq!(u.addie_user.uuid, "au");
    assert_eq!(u.addie_user.stripe_account_id, "acct_1");
}

#[test]
fn default_population_scenario() {
    let u = decode_sanora_user("{\"pubKey\":\"abc\",\"uuid\":\"u1\"}").expect("decodes");
    assert_eq!(u.pub_key, "abc");
    assert_eq!(u.uuid, "u1");
    assert_eq!(u.addie_user.pub_key, "");
    assert_eq!(u.addie_user.uuid, "");
    assert_eq!(u.addie_user.stripe_account_id, "");
}

#[test]
fn user_pub_key_defaults_when_absent() {
    let u = decode_sanora_user("{\"uuid\":\"u1\"}").expect("decodes");
    assert_eq!(u.pub_key, "");
    assert_eq!(u.uuid, "u1");
}

#[test]
fn user_without_uuid_is_shape_error() {
    assert_eq!(decode_sanora_user("{\"pubKey\":\"abc\"}"), Err(DecodeError::Shape));
    assert_eq!(decode_sanora_user("[1,2]"), Err(DecodeError::Shape));
    assert_eq!(decode_sanora_user("{\"uuid\":7}"), Err(DecodeError::Shape));
}

#[test]
fn malformed_json_is_syntax_error() {
    assert_eq!(decode_sanora_user("not json"), Err(DecodeError::Syntax));
    assert_eq!(decode_sanora_user(""), Err(DecodeError::Syntax));
    assert_eq!(decode_sanora_user("{\"uuid\":\"u1\"} trailing"), Err(DecodeError::Syntax));
    assert_eq!(decode_sanora_user("{\"uuid\":\"u1\""), Err(DecodeError::Syntax));
}

#[test]
fn product_decodes_with_artifacts() {
    let body = "{ \"uuid\": \"p1\", \"title\": \"Widget\", \"description\": \"A widget\", \"price\": 1999, \"artifacts\": [\"a1\", \"a2\"] }";
    let p = decode_product_meta(body).expect("decodes");
    assert_eq!(p.uuid, "p1");
    assert_eq!(p.title, "Widget");
    assert_eq!(p.description, "A widget");
    assert_eq!(p.price, 1999);
    assert_eq!(p.artifacts, vec!["a1".to_string(), "a2".to_string()]);
}

#[test]
fn product_requires_every_member() {
    assert_eq!(
        decode_product_meta("{\"uuid\":\"p1\",\"title\":\"t\",\"description\":\"d\",\"price\":1}"),
        Err(DecodeError::Shape)
    );
    // A fractional price is not a u32.
    assert_eq!(
        decode_product_meta(
            "{\"uuid\":\"p1\",\"title\":\"t\",\"description\":\"d\",\"price\":19.99,\"artifacts\":[]}"
        ),
        Err(DecodeError::Shape)
    );
    // Artifacts must all be strings.
    assert_eq!(
        decode_product_meta(
            "{\"uuid\":\"p1\",\"title\":\"t\",\"description\":\"d\",\"price\":1,\"artifacts\":[1]}"
        ),
        Err(DecodeError::Shape)
    );
}

#[test]
fn string_escapes_decode() {
    let u = decode_sanora_user("{\"uuid\":\"a\\\"b\\\\c\\n\\t\\/\"}").expect("decodes");
    assert_eq!(u.uuid, "a\"b\\c\n\t/");
}

#[test]
fn unknown_members_are_skipped() {
    let body = "{\"uuid\":\"u1\",\"extra\":null,\"n\":-1.5e-3,\"deep\":[{\"y\":true},[],\"s\"]}";
    let u = decode_sanora_user(body).expect("unknown members are ignored");
    assert_eq!(u.uuid, "u1");
    assert_eq!(u.pub_key, "");
}

#[test]
fn first_member_wins_on_repeated_keys() {
    let u = decode_sanora_user("{\"uuid\":\"first\",\"uuid\":\"second\"}").expect("decodes");
    assert_eq!(u.uuid, "first");
}

#[test]
fn success_result_decodes() {
    assert!(decode_success_result("{\"success\":true}").unwrap().success);
    assert!(!decode_success_result("{\"success\":false}").unwrap().success);
    assert_eq!(decode_success_result("{}"), Err(DecodeError::Shape));
}

#[test]
fn u32_token_parsing() {
    assert_eq!(parse_u32_dec("0"), Some(0));
    assert_eq!(parse_u32_dec("4294967295"), Some(4294967295));
    assert_eq!(parse_u32_dec("4294967296"), None);
    assert_eq!(parse_u32_dec("-1"), None);
    assert_eq!(parse_u32_dec("1e3"), None);
    assert_eq!(parse_u32_dec(""), None);
}

#[test]
fn defaults_are_all_empty() {
    let a = AddieUser::default();
    assert_eq!(a.pub_key, "");
    assert_eq!(a.uuid, "");
    assert_eq!(a.stripe_account_id, "");
    let u = SanoraUser::default();
    assert_eq!(u.pub_key, "");
    assert_eq!(u.uuid, "");
    assert_eq!(u.addie_user.uuid, "");
    let p = ProductMeta::default();
    assert_eq!(p.price, 0);
    assert!(p.artifacts.is_empty());
    let i = PaymentIntent::new();
    assert_eq!(i.payment_intent, "");
    assert_eq!(i.ephemeral_key, "");
    assert_eq!(i.customer, "");
    assert_eq!(i.publishable_key, "");
}
