//! The ingest service's domain: the user actions that it accepts, and the
//! constrained types they are made of.

pub mod config;
pub mod handler;
pub mod ingestor;

use vstd::prelude::*;
use vstd::string::*;
use crate::pipeline::events::{Created, Event, Payload};
use crate::text::{has_prefix, hyphenated_uuid, is_uuid_v4, prefixed};
use crate::foreign::{random_uuid_v4, uuid_text};
use crate::clock::NANOS_PER_SECOND;

verus! {

/// Why a user action, or a part of one, was refused.
#[derive(Debug)]
pub enum DomainError {
    /// The amount was below zero; the bit pattern of the `f64` that was given.
    InvalidAmount(u64),
    /// The page URL was refused, for the reason given.
    InvalidPageUrl(String),
    /// The request had no body.
    MissingBody,
    /// The body was not a user action in JSON.
    SerializationError(serde_json::Error),
}

/// Calls `serde_json::Error`'s `Display`. The text is not stated, as the
/// error is opaque here.
#[verifier::external_body]
fn json_error_text(e: &serde_json::Error) -> (r: String)
{
    e.to_string()
}

impl DomainError {
    /// The text that describes the error, given how the rejected amount is
    /// written (the amount is a floating-point number, which the library
    /// does not hold) and, for a JSON error, the parser's own text.
    pub open spec fn message(&self, amount_text: Seq<char>, parse_text: Seq<char>) -> Seq<char> {
        match self {
            DomainError::InvalidAmount(_) => "Invalid amount: "@ + amount_text,
            DomainError::InvalidPageUrl(reason) => "Invalid page URL: "@ + reason@,
            DomainError::MissingBody => "Missing request body"@,
            DomainError::SerializationError(_) => "Serialization error: "@ + parse_text,
        }
    }

    /// Describes the error, writing a rejected amount as `amount_text`.
    pub fn to_string_with(&self, amount_text: &str) -> (r: String)
        ensures
            exists|parse_text: Seq<char>| r@ == self.message(amount_text@, parse_text),
            !(self is SerializationError) ==> r@ == self.message(amount_text@, Seq::empty()),
    {
        let r = match self {
            DomainError::InvalidAmount(_) => prefixed("Invalid amount: ", amount_text),
            DomainError::InvalidPageUrl(reason) => prefixed("Invalid page URL: ", reason.as_str()),
            DomainError::MissingBody => String::from_str("Missing request body"),
            DomainError::SerializationError(e) => {
                let text = json_error_text(e);
                let r = prefixed("Serialization error: ", text.as_str());
                assert(r@ == self.message(amount_text@, text@));
                r
            },
        };
        proof {
            if !(self is SerializationError) {
                assert(r@ == self.message(amount_text@, Seq::empty()));
            }
        }
        r
    }
}

/// Identifies a user.
#[derive(Debug, Clone, Copy, PartialEq, Eq, Hash)]
pub struct UserId(u128);

impl View for UserId {
    type V = u128;

    closed spec fn view(&self) -> u128 {
        self.0
    }
}

impl UserId {
    /// A new user id: a random version-4 UUID.
    pub fn new() -> (r: Self)
        ensures
            is_uuid_v4(r@),
    {
        UserId(random_uuid_v4())
    }

    /// The 128 bits of the UUID that the id holds, most significant first.
    pub fn as_u128(&self) -> (r: u128)
        ensures
            r == self@,
    {
        self.0
    }

    /// The id of the UUID whose 128 bits are `id`.
    pub fn from_u128(id: u128) -> (r: Self)
        ensures
            r@ == id,
    {
        UserId(id)
    }

    /// The id in the hyphenated UUID form, as `Display` writes it.
    pub fn to_string(&self) -> (r: String)
        ensures
            r@ == hyphenated_uuid(self@),
    {
        uuid_text(self.0)
    }
}

impl Default for UserId {
    fn default() -> (r: Self)
        ensures
            is_uuid_v4(r@),
    {
        Self::new()
    }
}

/// Identifies a product.
#[derive(Debug, Clone, Copy, PartialEq, Eq, Hash)]
pub struct ProductId(u128);

impl View for ProductId {
    type V = u128;

    closed spec fn view(&self) -> u128 {
        self.0
    }
}

impl ProductId {
    /// A new product id: a random version-4 UUID.
    pub fn new() -> (r: Self)
        ensures
            is_uuid_v4(r@),
    {
        ProductId(random_uuid_v4())
    }

    /// The 128 bits of the UUID that the id holds, most significant first.
    pub fn as_u128(&self) -> (r: u128)
        ensures
            r == self@,
    {
        self.0
    }

    /// The id of the UUID whose 128 bits are `id`.
    pub fn from_u128(id: u128) -> (r: Self)
        ensures
            r@ == id,
    {
        ProductId(id)
    }

    /// The id in the hyphenated UUID form, as `Display` writes it.
    pub fn to_string(&self) -> (r: String)
        ensures
            r@ == hyphenated_uuid(self@),
    {
        uuid_text(self.0)
    }
}

impl Default for ProductId {
    fn default() -> (r: Self)
        ensures
            is_uuid_v4(r@),
    {
        Self::new()
    }
}

/// Whether `url` may serve as a page URL: it is not empty and starts with
/// `http` or `/`.
pub open spec fn is_page_url(url: Seq<char>) -> bool {
    url.len() > 0 && ("http"@.is_prefix_of(url) || "/"@.is_prefix_of(url))
}

/// A page URL is accepted exactly when its first four characters are `h`,
/// `t`, `t`, `p`, or its first character is `/`; every other text, empty or
/// not (`www.example.com` among them), is refused.
pub proof fn law_page_url_rule(url: Seq<char>)
    ensures
        is_page_url(url) <==> (url.len() >= 4 && url[0] == 'h' && url[1] == 't' && url[2] == 't'
            && url[3] == 'p') || (url.len() >= 1 && url[0] == '/'),
{
    reveal_strlit("http");
    reveal_strlit("/");
    assert("http"@ =~= seq!['h', 't', 't', 'p']);
    assert("/"@ =~= seq!['/']);
    if url.len() >= 4 && url[0] == 'h' && url[1] == 't' && url[2] == 't' && url[3] == 'p' {
        assert(url.subrange(0, 4) =~= "http"@);
    }
    if url.len() >= 1 && url[0] == '/' {
        assert(url.subrange(0, 1) =~= "/"@);
    }
    if "http"@.is_prefix_of(url) {
        assert(url.subrange(0, 4)[0] == url[0]);
        assert(url.subrange(0, 4)[1] == url[1]);
        assert(url.subrange(0, 4)[2] == url[2]);
        assert(url.subrange(0, 4)[3] == url[3]);
    }
    if "/"@.is_prefix_of(url) {
        assert(url.subrange(0, 1)[0] == url[0]);
    }
}

/// The URL of a page: not empty, and starting with `http` or `/`.
#[derive(Debug, PartialEq, Eq)]
pub struct PageUrl(String);

impl Clone for PageUrl {
    fn clone(&self) -> (r: Self)
        ensures
            r@ == self@,
    {
        proof {
            use_type_invariant(self);
        }
        PageUrl(self.0.clone())
    }
}

impl View for PageUrl {
    type V = Seq<char>;

    closed spec fn view(&self) -> Seq<char> {
        self.0@
    }
}

impl PageUrl {
    #[verifier::type_invariant]
    spec fn well_formed(self) -> bool {
        is_page_url(self.0@)
    }

    /// Accepts `url` if it is not empty and starts with `http` or `/`.
    pub fn create(url: String) -> (r: Result<Self, DomainError>)
        ensures
            is_page_url(url@) ==> (r matches Ok(page) && page@ == url@),
            url@.len() == 0 ==> (r matches Err(DomainError::InvalidPageUrl(reason)) && reason@
                == "URL cannot be empty"@),
            url@.len() > 0 && !is_page_url(url@) ==> (r matches Err(
                DomainError::InvalidPageUrl(reason),
            ) && reason@ == "URL must start with http or /: "@ + url@),
            r is Ok <==> (url@.len() >= 4 && url@[0] == 'h' && url@[1] == 't' && url@[2] == 't'
                && url@[3] == 'p') || (url@.len() >= 1 && url@[0] == '/'),
    {
        proof {
            law_page_url_rule(url@);
        }
        if url.as_str().is_empty() {
            return Err(DomainError::InvalidPageUrl(String::from_str("URL cannot be empty")));
        }
        if !has_prefix(url.as_str(), "http") && !has_prefix(url.as_str(), "/") {
            return Err(
                DomainError::InvalidPageUrl(
                    prefixed("URL must start with http or /: ", url.as_str()),
                ),
            );
        }
        Ok(PageUrl(url))
    }

    /// The URL.
    pub fn value(&self) -> (r: &str)
        ensures
            r@ == self@,
            is_page_url(self@),
    {
        proof {
            use_type_invariant(self);
        }
        self.0.as_str()
    }

    /// The URL, as `Display` writes it.
    pub fn to_string(&self) -> (r: String)
        ensures
            r@ == self@,
    {
        String::from_str(self.0.as_str())
    }
}

/// An amount of money, zero or more. It holds the bit pattern of the `f64`
/// that it stands for; the service around this library checks and converts
/// the floating-point value.
#[derive(Debug, Clone, Copy, PartialEq, Eq)]
pub struct Amount(u64);

impl View for Amount {
    type V = u64;

    closed spec fn view(&self) -> u64 {
        self.0
    }
}

impl Amount {
    /// The amount whose `f64` has the bit pattern `bits`.
    pub fn from_bits(bits: u64) -> (r: Self)
        ensures
            r@ == bits,
    {
        Amount(bits)
    }

    /// The bit pattern of the amount's `f64`.
    pub fn to_bits(&self) -> (r: u64)
        ensures
            r == self@,
    {
        self.0
    }
}

/// What a user did.
#[derive(Debug, Clone)]
pub enum UserAction {
    PageView { user_id: UserId, url: PageUrl },
    Click { user_id: UserId, element_id: String, url: PageUrl },
    Purchase { user_id: UserId, product_id: ProductId, amount: Amount },
}

impl UserAction {
    /// The user `user_id` viewed the page `url`.
    pub fn page_view(user_id: UserId, url: PageUrl) -> (r: Self)
        ensures
            r == (UserAction::PageView { user_id, url }),
    {
        UserAction::PageView { user_id, url }
    }

    /// The user `user_id` clicked the element `element_id` on the page `url`.
    pub fn click(user_id: UserId, element_id: String, url: PageUrl) -> (r: Self)
        ensures
            r == (UserAction::Click { user_id, element_id, url }),
    {
        UserAction::Click { user_id, element_id, url }
    }

    /// The user `user_id` bought the product `product_id` for `amount`.
    pub fn purchase(user_id: UserId, product_id: ProductId, amount: Amount) -> (r: Self)
        ensures
            r == (UserAction::Purchase { user_id, product_id, amount }),
    {
        UserAction::Purchase { user_id, product_id, amount }
    }

    /// A new event, in the `Created` state, that carries this action.
    pub fn into_event(self) -> (r: Event<UserAction, Created>)
        ensures
            r.payload.data == self,
            r.metadata@ == Map::<Seq<char>, Seq<char>>::empty(),
            is_uuid_v4(r.id@),
            r.created_at.subsec_nanos < NANOS_PER_SECOND,
    {
        Event::new(Payload::new(self))
    }
}

} // verus!
