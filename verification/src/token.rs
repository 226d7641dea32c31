//! Signed tokens and the claims inside them.
//!
//! Signing, checking signatures, and reading and writing JSON are done by
//! `jsonwebtoken` and `serde_json`. What this module states of them is
//! taken on trust; everything built on top is proved from those statements.

use vstd::prelude::*;

verus! {

/// `jsonwebtoken::DecodingKey`, carried around and never looked into.
#[verifier::external_type_specification]
#[verifier::external_body]
pub struct ExDecodingKey(jsonwebtoken::DecodingKey);

/// `jsonwebtoken::EncodingKey`, carried around and never looked into.
#[verifier::external_type_specification]
#[verifier::external_body]
pub struct ExEncodingKey(jsonwebtoken::EncodingKey);

/// `jsonwebtoken::Validation`, carried around and never looked into.
#[verifier::external_type_specification]
#[verifier::external_body]
pub struct ExValidation(jsonwebtoken::Validation);

/// `jsonwebtoken::Header`, carried around and never looked into.
#[verifier::external_type_specification]
#[verifier::external_body]
pub struct ExHeader(jsonwebtoken::Header);

/// `jsonwebtoken::errors::Error`: only that there was one is made use of.
#[verifier::external_type_specification]
#[verifier::external_body]
pub struct ExTokenError(jsonwebtoken::errors::Error);

/// `serde_json::Value`, which stands in the type of a claims document.
#[verifier::external_type_specification]
#[verifier::external_body]
pub struct ExJsonValue(serde_json::Value);

/// `serde_json::Map`, the type of a claims document. What it holds is
/// spoken of through `claim_set`.
#[verifier::external_type_specification]
#[verifier::external_body]
#[verifier::reject_recursive_types(K)]
#[verifier::reject_recursive_types(V)]
pub struct ExJsonMap<K, V>(serde_json::Map<K, V>);

/// What one member of a claims document holds.
pub enum Claim {
    /// A whole number.
    Integer(int),
    /// A text.
    Text(Seq<char>),
    /// Anything else: a fraction, a truth value, a list, a nested document
    /// or nothing.
    Other,
}

/// A document without members.
pub open spec fn no_claims() -> Map<Seq<char>, Claim> {
    Map::empty()
}

/// The members of a claims document, by name.
pub uninterp spec fn claim_set(doc: serde_json::Map<String, serde_json::Value>) -> Map<
    Seq<char>,
    Claim,
>;

/// `serde_json::Map::new`: a document without members.
pub assume_specification[ serde_json::Map::<String, serde_json::Value>::new ]() -> (doc: serde_json::Map<String, serde_json::Value>)
    ensures
        claim_set(doc) == no_claims(),
;

/// What one member of a claims document holds, as a value a program can
/// hold.
#[derive(Debug, PartialEq)]
pub enum ClaimValue {
    Integer(i128),
    Text(String),
    Other,
}

impl View for ClaimValue {
    type V = Claim;

    open spec fn view(&self) -> Claim {
        match self {
            ClaimValue::Integer(number) => Claim::Integer(*number as int),
            ClaimValue::Text(text) => Claim::Text(text@),
            ClaimValue::Other => Claim::Other,
        }
    }
}

impl ClaimValue {
    /// Whether the value can be written into a document: a whole number
    /// has to fit in 64 bits, with or without a sign.
    pub open spec fn is_writable(self) -> bool {
        self matches ClaimValue::Integer(number) ==> i64::MIN <= number <= u64::MAX
    }
}

/// `serde_json::Map::insert`, with a number made by `Number::from_i128`, a
/// text as it is, and `Other` as JSON `null`: the member `name` now holds
/// the value, whatever it held before, and the other members stay.
#[verifier::external_body]
pub(crate) fn put(
    doc: &mut serde_json::Map<String, serde_json::Value>,
    name: &str,
    value: ClaimValue,
)
    requires
        value.is_writable(),
    ensures
        claim_set(*final(doc)) == claim_set(*old(doc)).insert(name@, value@),
{
    let held = match value {
        ClaimValue::Integer(number) => serde_json::Value::Number(
            serde_json::Number::from_i128(number).unwrap(),
        ),
        ClaimValue::Text(text) => serde_json::Value::String(text),
        ClaimValue::Other => serde_json::Value::Null,
    };
    doc.insert(name.to_owned(), held);
}

/// `serde_json::Map::get`: what the member `name` holds, if there is such
/// a member. A number counts as whole where `Number::as_i128` gives it.
#[verifier::external_body]
pub(crate) fn held_at(
    doc: &serde_json::Map<String, serde_json::Value>,
    name: &str,
) -> (r: Option<ClaimValue>)
    ensures
        match r {
            Some(value) => claim_set(*doc).contains_key(name@) && claim_set(*doc)[name@] == value@,
            None => !claim_set(*doc).contains_key(name@),
        },
{
    doc.get(name).map(
        |held|
            match held {
                serde_json::Value::String(text) => ClaimValue::Text(text.clone()),
                serde_json::Value::Number(number) => match number.as_i128() {
                    Some(whole) => ClaimValue::Integer(whole),
                    None => ClaimValue::Other,
                },
                _ => ClaimValue::Other,
            },
    )
}

/// `jsonwebtoken::DecodingKey::from_secret`: the key that checks tokens
/// signed with a shared secret.
pub assume_specification[ jsonwebtoken::DecodingKey::from_secret ](
    secret: &[u8],
) -> jsonwebtoken::DecodingKey
;

/// `jsonwebtoken::EncodingKey::from_secret`: the key that signs tokens
/// with a shared secret.
pub assume_specification[ jsonwebtoken::EncodingKey::from_secret ](
    secret: &[u8],
) -> jsonwebtoken::EncodingKey
;

/// `jsonwebtoken::Validation::default`: the checks applied to a token when
/// nothing else is asked for.
pub assume_specification[ <jsonwebtoken::Validation as core::default::Default>::default ]() -> jsonwebtoken::Validation
;

/// `jsonwebtoken::Header::default`: the header of a token when nothing else
/// is asked for.
pub assume_specification[ <jsonwebtoken::Header as core::default::Default>::default ]() -> jsonwebtoken::Header
;

/// `jsonwebtoken::decode`, reading the claims as a JSON document. Whether a
/// token passes depends on the clock as well as on the arguments, so
/// nothing is said of the result.
#[verifier::external_body]
pub(crate) fn decode_claims(
    token: &str,
    key: &jsonwebtoken::DecodingKey,
    validation: &jsonwebtoken::Validation,
) -> (r: Result<serde_json::Map<String, serde_json::Value>, jsonwebtoken::errors::Error>) {
    jsonwebtoken::decode::<serde_json::Map<String, serde_json::Value>>(token, key, validation).map(
        |data| data.claims,
    )
}

/// `jsonwebtoken::encode` on a JSON document of claims. Nothing is said of
/// the token that comes back.
#[verifier::external_body]
pub(crate) fn encode_claims(
    header: &jsonwebtoken::Header,
    claims: &serde_json::Map<String, serde_json::Value>,
    key: &jsonwebtoken::EncodingKey,
) -> (r: Result<String, jsonwebtoken::errors::Error>) {
    jsonwebtoken::encode(header, claims, key)
}

} // verus!
