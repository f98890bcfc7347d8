use vstd::prelude::*;

verus! {

/// Spec-level image of an [`AddieUser`]: each field as a sequence of characters.
pub struct AddieUserV {
    pub pub_key: Seq<char>,
    pub uuid: Seq<char>,
    pub stripe_account_id: Seq<char>,
}

/// A linked payment-processor account, as embedded in a user record
/// returned by the service.
#[derive(Clone, Debug, PartialEq, Eq)]
pub struct AddieUser {
    pub pub_key: String,
    pub uuid: String,
    pub stripe_account_id: String,
}

impl View for AddieUser {
    type V = AddieUserV;

    open spec fn view(&self) -> AddieUserV {
        AddieUserV {
            pub_key: self.pub_key@,
            uuid: self.uuid@,
            stripe_account_id: self.stripe_account_id@,
        }
    }
}

/// The all-empty account used when a response omits the embedded account.
pub open spec fn addie_user_default() -> AddieUserV {
    AddieUserV { pub_key: Seq::empty(), uuid: Seq::empty(), stripe_account_id: Seq::empty() }
}

impl Default for AddieUser {
    fn default() -> (r: AddieUser)
        ensures
            r@ == addie_user_default(),
    {
        AddieUser { pub_key: String::new(), uuid: String::new(), stripe_account_id: String::new() }
    }
}

/// Spec-level image of a [`SanoraUser`].
pub struct SanoraUserV {
    pub pub_key: Seq<char>,
    pub uuid: Seq<char>,
    pub addie_user: AddieUserV,
}

/// The identity record the service returns for user-scoped operations.
#[derive(Clone, Debug, PartialEq, Eq)]
pub struct SanoraUser {
    pub pub_key: String,
    pub uuid: String,
    pub addie_user: AddieUser,
}

impl View for SanoraUser {
    type V = SanoraUserV;

    open spec fn view(&self) -> SanoraUserV {
        SanoraUserV { pub_key: self.pub_key@, uuid: self.uuid@, addie_user: self.addie_user@ }
    }
}

/// The all-empty user used as the base for absent optional fields.
pub open spec fn sanora_user_default() -> SanoraUserV {
    SanoraUserV { pub_key: Seq::empty(), uuid: Seq::empty(), addie_user: addie_user_default() }
}

impl Default for SanoraUser {
    fn default() -> (r: SanoraUser)
        ensures
            r@ == sanora_user_default(),
    {
        SanoraUser { pub_key: String::new(), uuid: String::new(), addie_user: AddieUser::default() }
    }
}

/// Spec-level image of a [`ProductMeta`].
pub struct ProductMetaV {
    pub uuid: Seq<char>,
    pub title: Seq<char>,
    pub description: Seq<char>,
    pub price: u32,
    pub artifacts: Seq<Seq<char>>,
}

/// Metadata the service returns for a product.
#[derive(Clone, Debug, PartialEq, Eq)]
pub struct ProductMeta {
    pub uuid: String,
    pub title: String,
    pub description: String,
    pub price: u32,
    pub artifacts: Vec<String>,
}

impl View for ProductMeta {
    type V = ProductMetaV;

    open spec fn view(&self) -> ProductMetaV {
        ProductMetaV {
            uuid: self.uuid@,
            title: self.title@,
            description: self.description@,
            price: self.price,
            artifacts: self.artifacts@.map_values(|s: String| s@),
        }
    }
}

/// The all-empty product record.
pub open spec fn product_meta_default() -> ProductMetaV {
    ProductMetaV {
        uuid: Seq::empty(),
        title: Seq::empty(),
        description: Seq::empty(),
        price: 0,
        artifacts: Seq::empty(),
    }
}

impl Default for ProductMeta {
    fn default() -> (r: ProductMeta)
        ensures
            r@ == product_meta_default(),
    {
        let r = ProductMeta {
            uuid: String::new(),
            title: String::new(),
            description: String::new(),
            price: 0,
            artifacts: Vec::new(),
        };
        proof {
            assert(r@.artifacts =~= product_meta_default().artifacts);
        }
        r
    }
}

/// A caller-supplied order, already rendered to its JSON text. The core
/// does not interpret its contents: the text is embedded verbatim in the
/// request body, and the order is not part of the signed message.
#[derive(Clone, Debug, PartialEq, Eq)]
pub struct Order {
    pub json: String,
}

/// The plain success/failure shape used by fire-and-forget operations.
#[derive(Clone, Debug, PartialEq, Eq)]
pub struct SuccessResult {
    pub success: bool,
}

/// The fields a payment-processor intent exchange hands back.
#[derive(Clone, Debug, PartialEq, Eq)]
pub struct PaymentIntent {
    pub payment_intent: String,
    pub ephemeral_key: String,
    pub customer: String,
    pub publishable_key: String,
}

impl PaymentIntent {
    pub fn new() -> (r: PaymentIntent)
        ensures
            r.payment_intent@ == Seq::<char>::empty(),
            r.ephemeral_key@ == Seq::<char>::empty(),
            r.customer@ == Seq::<char>::empty(),
            r.publishable_key@ == Seq::<char>::empty(),
    {
        PaymentIntent {
            payment_intent: String::new(),
            ephemeral_key: String::new(),
            customer: String::new(),
            publishable_key: String::new(),
        }
    }
}

} // verus!
