//! Client-side core of the signed-request protocol spoken with the Sanora
//! service: deterministic construction of the byte sequence each operation
//! signs, composition of the outgoing request around the signature, and
//! decoding of the JSON responses into the domain entities. The HTTP
//! exchange itself is left to an outside transport collaborator.

pub mod compose;
pub mod decode;
pub mod json;
pub mod keys;
pub mod message;
pub mod structs;

use vstd::prelude::*;
use crate::compose::{
    HttpRequest, Method, compose_add_order, compose_add_processor, compose_add_product,
    compose_create_user, compose_get_user, create_user_url, get_user_url, add_processor_url,
    add_product_url, add_order_url, create_user_body, add_processor_body, add_product_body,
    add_order_body,
};
use crate::keys::{SigningKey, pub_key_hex_of, sign_hex_of};
use crate::message::{
    build_add_order_message, build_add_processor_message, build_add_product_message,
    build_create_user_message, build_get_user_message, add_order_message, add_processor_message,
    add_product_message, create_user_message, get_user_message,
};
use crate::structs::Order;

verus! {

/// The remote endpoint used when no base URL is supplied at construction.
pub open spec fn default_base_url() -> Seq<char> {
    ("https://dev.sanora.allyabase.com/")@
}

/// The client: a base URL and the signing key, both fixed at construction
/// and never mutated. Each operation builds the transport-ready request for
/// one exchange; the caller performs it and hands the response body back to
/// the decoders in [`decode`].
pub struct Sanora {
    base_url: String,
    pub key: SigningKey,
}

impl Sanora {
    /// The configured base URL.
    pub closed spec fn base_url_spec(&self) -> Seq<char> {
        self.base_url@
    }

    /// The hex form of the client's private key.
    pub closed spec fn key_hex(&self) -> Seq<char> {
        self.key.hex_spec()
    }

    /// Builds a client from an optional base URL override and an optional
    /// pre-existing key; a fresh key pair is generated when none is given.
    pub fn new(base_url: Option<String>, key: Option<SigningKey>) -> (r: Sanora)
        ensures
            (match base_url {
                Some(b) => r.base_url_spec() == b@,
                None => r.base_url_spec() == default_base_url(),
            }),
            key matches Some(k) ==> r.key_hex() == k.hex_spec(),
    {
        let url = match base_url {
            Some(b) => b,
            None => ("https://dev.sanora.allyabase.com/").to_owned(),
        };
        let k = match key {
            Some(k) => k,
            None => SigningKey::generate(),
        };
        Sanora { base_url: url, key: k }
    }

    /// The signed create-user request: PUT to `user/create`, with the
    /// timestamp, the client's public key and the signature over
    /// timestamp + public key in the JSON body.
    pub fn create_user_request(&self, timestamp: &str) -> (r: HttpRequest)
        ensures
            ({
                let pk = pub_key_hex_of(self.key_hex());
                let sig = sign_hex_of(self.key_hex(), create_user_message(timestamp@, pk));
                &&& r.method == Method::Put
                &&& r.url@ == create_user_url(self.base_url_spec())
                &&& r.body matches Some(b) && b@ == create_user_body(timestamp@, pk, sig)
            }),
    {
        let pk = self.key.public_key_hex();
        let msg = build_create_user_message(timestamp, pk.as_str());
        let sig = self.key.sign_hex(msg.as_str());
        compose_create_user(self.base_url.as_str(), timestamp, pk.as_str(), sig.as_str())
    }

    /// The signed fetch-user request: GET with the timestamp and the
    /// signature over timestamp + uuid as query parameters, and no body.
    pub fn get_user_by_uuid_request(&self, timestamp: &str, uuid: &str) -> (r: HttpRequest)
        ensures
            ({
                let sig = sign_hex_of(self.key_hex(), get_user_message(timestamp@, uuid@));
                &&& r.method == Method::Get
                &&& r.url@ == get_user_url(self.base_url_spec(), uuid@, timestamp@, sig)
                &&& r.body is None
            }),
    {
        let msg = build_get_user_message(timestamp, uuid);
        let sig = self.key.sign_hex(msg.as_str());
        compose_get_user(self.base_url.as_str(), uuid, timestamp, sig.as_str())
    }

    /// The signed attach-processor-account request: PUT to
    /// `user/{uuid}/processor/{processor}` with timestamp, name, email and
    /// the signature over timestamp + uuid + name + email in the body.
    pub fn add_processor_account_request(
        &self,
        timestamp: &str,
        uuid: &str,
        name: &str,
        email: &str,
        processor: &str,
    ) -> (r: HttpRequest)
        ensures
            ({
                let sig = sign_hex_of(
                    self.key_hex(),
                    add_processor_message(timestamp@, uuid@, name@, email@),
                );
                &&& r.method == Method::Put
                &&& r.url@ == add_processor_url(self.base_url_spec(), uuid@, processor@)
                &&& r.body matches Some(b) && b@ == add_processor_body(
                    timestamp@,
                    name@,
                    email@,
                    sig,
                )
            }),
    {
        let msg = build_add_processor_message(timestamp, uuid, name, email);
        let sig = self.key.sign_hex(msg.as_str());
        compose_add_processor(
            self.base_url.as_str(),
            uuid,
            processor,
            timestamp,
            name,
            email,
            sig.as_str(),
        )
    }

    /// The signed add-product request: PUT to `user/{uuid}/product/{title}`
    /// with timestamp, description, the price as a bare JSON number and the
    /// signature over timestamp + uuid + title + description + price in the
    /// body. uuid and title ride only in the URL path.
    pub fn add_product_request(
        &self,
        timestamp: &str,
        uuid: &str,
        title: &str,
        description: &str,
        price: u32,
    ) -> (r: HttpRequest)
        ensures
            ({
                let sig = sign_hex_of(
                    self.key_hex(),
                    add_product_message(timestamp@, uuid@, title@, description@, price),
                );
                &&& r.method == Method::Put
                &&& r.url@ == add_product_url(self.base_url_spec(), uuid@, title@)
                &&& r.body matches Some(b) && b@ == add_product_body(
                    timestamp@,
                    description@,
                    price,
                    sig,
                )
            }),
    {
        let msg = build_add_product_message(timestamp, uuid, title, description, price);
        let sig = self.key.sign_hex(msg.as_str());
        compose_add_product(
            self.base_url.as_str(),
            uuid,
            title,
            description,
            price,
            timestamp,
            sig.as_str(),
        )
    }

    /// The signed add-order request: PUT to `user/{uuid}/orders` with the
    /// timestamp, the order's JSON text embedded verbatim, and the signature
    /// in the body. Only timestamp + uuid are signed; the order itself rides
    /// unsigned, exactly as the protocol prescribes.
    pub fn add_order_request(&self, timestamp: &str, uuid: &str, order: &Order) -> (r: HttpRequest)
        ensures
            ({
                let sig = sign_hex_of(self.key_hex(), add_order_message(timestamp@, uuid@));
                &&& r.method == Method::Put
                &&& r.url@ == add_order_url(self.base_url_spec(), uuid@)
                &&& r.body matches Some(b) && b@ == add_order_body(timestamp@, order.json@, sig)
            }),
    {
        let msg = build_add_order_message(timestamp, uuid);
        let sig = self.key.sign_hex(msg.as_str());
        compose_add_order(self.base_url.as_str(), uuid, order, timestamp, sig.as_str())
    }
}

} // verus!
