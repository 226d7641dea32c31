//! Who may ask: reading a bearer token out of a request and turning it
//! into a user.

use vstd::prelude::*;
use vstd::slice::slice_to_vec;
use crate::dtos::{ClaimsView, DSUserDto};
use crate::models::DSUser;
use crate::status::Status;
use crate::text::{strip_prefix, without_prefix};
use crate::token::{
    claim_set, decode_claims, encode_claims, held_at, no_claims, put, Claim, ClaimValue,
};

verus! {

/// The one secret the service shares with whoever issues its tokens. The
/// keys for signing and for checking are made from it where they are
/// needed.
pub struct Keys {
    secret: Vec<u8>,
}

impl View for Keys {
    type V = Seq<u8>;

    closed spec fn view(&self) -> Seq<u8> {
        self.secret@
    }
}

/// Why no token could be issued.
#[derive(Debug, Clone, Copy, PartialEq, Eq, Structural)]
pub enum TokenError {
    /// The expiry is too large to be written into a token.
    ExpiryOutOfRange,
    /// The claims could not be signed.
    Signing,
}

/// How a bearer token is announced in the `Authorization` header.
pub open spec fn bearer_prefix() -> Seq<char> {
    "Bearer "@
}

/// The token a header value carries: what follows the bearer prefix, if
/// the value starts with it.
pub open spec fn bearer_of(header: Seq<char>) -> Option<Seq<char>> {
    without_prefix(header, bearer_prefix())
}

/// The number the member `name` holds, if it holds a whole number.
pub open spec fn member_integer(doc: Map<Seq<char>, Claim>, name: Seq<char>) -> Option<int> {
    if doc.contains_key(name) {
        match doc[name] {
            Claim::Integer(number) => Some(number),
            _ => None,
        }
    } else {
        None
    }
}

/// The text the member `name` holds, if it holds a text.
pub open spec fn member_text(doc: Map<Seq<char>, Claim>, name: Seq<char>) -> Option<Seq<char>> {
    if doc.contains_key(name) {
        match doc[name] {
            Claim::Text(text) => Some(text),
            _ => None,
        }
    } else {
        None
    }
}

/// The document that states `claims`: `id` and `exp` as whole numbers,
/// `aud` and `sub` as texts.
pub open spec fn claims_document(claims: ClaimsView) -> Map<Seq<char>, Claim> {
    no_claims().insert("id"@, Claim::Integer(claims.id as int)).insert(
        "aud"@,
        Claim::Text(claims.aud),
    ).insert("sub"@, Claim::Text(claims.sub)).insert("exp"@, Claim::Integer(claims.exp as int))
}

/// The claims a document states: it must hold `id` as a whole number that
/// fits in 32 bits, `aud` and `sub` as texts, and `exp` as a whole number
/// that is not negative and fits in 128 bits. Other members are ignored.
pub open spec fn document_claims(doc: Map<Seq<char>, Claim>) -> Option<ClaimsView> {
    match (
        member_integer(doc, "id"@),
        member_text(doc, "aud"@),
        member_text(doc, "sub"@),
        member_integer(doc, "exp"@),
    ) {
        (Some(id), Some(aud), Some(sub), Some(exp)) => {
            if i32::MIN <= id <= i32::MAX && 0 <= exp <= u128::MAX {
                Some(ClaimsView { id: id as i32, aud, sub, exp: exp as u128 })
            } else {
                None
            }
        },
        _ => None,
    }
}

/// The view of claims that may be absent.
pub open spec fn claims_view(claims: Option<DSUserDto>) -> Option<ClaimsView> {
    match claims {
        Some(c) => Some(c@),
        None => None,
    }
}

/// The four member names are pairwise different.
proof fn lemma_member_names_differ()
    ensures
        "id"@ != "aud"@,
        "id"@ != "sub"@,
        "id"@ != "exp"@,
        "aud"@ != "sub"@,
        "aud"@ != "exp"@,
        "sub"@ != "exp"@,
{
    reveal_strlit("id");
    reveal_strlit("aud");
    reveal_strlit("sub");
    reveal_strlit("exp");
    assert("id"@.len() == 2);
    assert("aud"@[0] == 'a');
    assert("sub"@[0] == 's');
    assert("exp"@[0] == 'e');
}

/// Writing claims into a document and reading them back gives the same
/// claims.
pub proof fn lemma_claims_round_trip(claims: ClaimsView)
    ensures
        document_claims(claims_document(claims)) == Some(claims),
{
    lemma_member_names_differ();
}

/// Takes the token out of an `Authorization` header value.
pub fn bearer_token(header: &str) -> (token: Option<&str>)
    ensures
        match token {
            Some(t) => bearer_of(header@) == Some(t@),
            None => bearer_of(header@) is None,
        },
{
    strip_prefix(header, "Bearer ")
}

/// The whole number the member `name` holds.
fn integer_at(doc: &serde_json::Map<String, serde_json::Value>, name: &str) -> (r: Option<i128>)
    ensures
        match r {
            Some(number) => member_integer(claim_set(*doc), name@) == Some(number as int),
            None => member_integer(claim_set(*doc), name@) is None,
        },
{
    match held_at(doc, name) {
        Some(ClaimValue::Integer(number)) => Some(number),
        _ => None,
    }
}

/// The text the member `name` holds.
fn text_at(doc: &serde_json::Map<String, serde_json::Value>, name: &str) -> (r: Option<String>)
    ensures
        match r {
            Some(text) => member_text(claim_set(*doc), name@) == Some(text@),
            None => member_text(claim_set(*doc), name@) is None,
        },
{
    match held_at(doc, name) {
        Some(ClaimValue::Text(text)) => Some(text),
        _ => None,
    }
}

/// Reads the claims out of a document.
pub fn claims_from_document(doc: &serde_json::Map<String, serde_json::Value>) -> (claims: Option<
    DSUserDto,
>)
    ensures
        claims_view(claims) == document_claims(claim_set(*doc)),
{
    let id: i128 = match integer_at(doc, "id") {
        Some(id) => id,
        None => {
            return None;
        },
    };
    let aud: String = match text_at(doc, "aud") {
        Some(aud) => aud,
        None => {
            return None;
        },
    };
    let sub: String = match text_at(doc, "sub") {
        Some(sub) => sub,
        None => {
            return None;
        },
    };
    let exp: i128 = match integer_at(doc, "exp") {
        Some(exp) => exp,
        None => {
            return None;
        },
    };
    if id < -2147483648 || id > 2147483647 || exp < 0 {
        return None;
    }
    Some(DSUserDto { id: id as i32, aud, sub, exp: exp as u128 })
}

/// Writes claims into a document. An expiry above what 64 bits hold cannot
/// be written.
pub fn claims_to_document(claims: &DSUserDto) -> (doc: Option<
    serde_json::Map<String, serde_json::Value>,
>)
    ensures
        match doc {
            Some(d) => claims.exp <= u64::MAX && claim_set(d) == claims_document(claims@),
            None => claims.exp > u64::MAX,
        },
{
    if claims.exp > 18446744073709551615u128 {
        return None;
    }
    let mut doc = serde_json::Map::new();
    put(&mut doc, "id", ClaimValue::Integer(claims.id as i128));
    put(&mut doc, "aud", ClaimValue::Text(claims.aud.clone()));
    put(&mut doc, "sub", ClaimValue::Text(claims.sub.clone()));
    put(&mut doc, "exp", ClaimValue::Integer(claims.exp as i128));
    Some(doc)
}

/// What a token check amounts to: the claims of a token that passed and
/// states all four claims; otherwise the caller is not authorized, whatever
/// the reason.
pub fn claims_outcome(
    checked: Result<serde_json::Map<String, serde_json::Value>, jsonwebtoken::errors::Error>,
) -> (r: Result<DSUserDto, Status>)
    ensures
        match r {
            Ok(claims) => checked is Ok && document_claims(claim_set(checked->Ok_0)) == Some(
                claims@,
            ),
            Err(status) => status == Status::Unauthorized && (checked is Ok ==> document_claims(
                claim_set(checked->Ok_0),
            ) is None),
        },
{
    match checked {
        Ok(doc) => match claims_from_document(&doc) {
            Some(claims) => Ok(claims),
            None => Err(Status::Unauthorized),
        },
        Err(_) => Err(Status::Unauthorized),
    }
}

/// What signing amounts to: the token as it was signed, or the report
/// that signing failed.
pub fn token_outcome(signed: Result<String, jsonwebtoken::errors::Error>) -> (r: Result<
    String,
    TokenError,
>)
    ensures
        match r {
            Ok(token) => signed is Ok && token@ == signed->Ok_0@,
            Err(e) => e == TokenError::Signing && signed is Err,
        },
{
    match signed {
        Ok(token) => Ok(token),
        Err(_) => Err(TokenError::Signing),
    }
}

impl Keys {
    /// Keeps a shared secret.
    pub fn from_secret(secret: &[u8]) -> (keys: Keys)
        ensures
            keys@ == secret@,
    {
        Keys { secret: slice_to_vec(secret) }
    }

    /// Issues a token that states `claims`, signed with the shared secret.
    /// What the token looks like is the signer's business; an expiry that
    /// cannot be written is refused before anything is signed.
    pub fn create_jwt(&self, claims: &DSUserDto) -> (r: Result<String, TokenError>)
        ensures
            match r {
                Ok(_) => claims.exp <= u64::MAX,
                Err(e) => e == if claims.exp > u64::MAX {
                    TokenError::ExpiryOutOfRange
                } else {
                    TokenError::Signing
                },
            },
    {
        match claims_to_document(claims) {
            None => Err(TokenError::ExpiryOutOfRange),
            Some(doc) => {
                let header = jsonwebtoken::Header::default();
                let key = jsonwebtoken::EncodingKey::from_secret(self.secret.as_slice());
                token_outcome(encode_claims(&header, &doc, &key))
            },
        }
    }

    /// Checks a token and reads its claims. Every failure, be it the
    /// signature, the expiry, the shape of the token or a missing claim,
    /// is the same refusal.
    pub fn decode_jwt(&self, jwtoken: &str) -> (r: Result<DSUserDto, Status>)
        ensures
            r matches Err(status) ==> status == Status::Unauthorized,
    {
        let key = jsonwebtoken::DecodingKey::from_secret(self.secret.as_slice());
        let validation = jsonwebtoken::Validation::default();
        claims_outcome(decode_claims(jwtoken, &key, &validation))
    }

    /// Decides whether a request may pass, from the value of its
    /// `Authorization` header. Without the header, or with a value that
    /// does not start with the bearer prefix, it may not; otherwise the
    /// token decides.
    pub fn authenticate(&self, header: Option<&str>) -> (r: Result<DSUser, Status>)
        ensures
            match r {
                Ok(_) => header is Some && bearer_of(header->0@) is Some,
                Err(status) => status == Status::Unauthorized,
            },
    {
        let value: &str = match header {
            Some(value) => value,
            None => {
                return Err(Status::Unauthorized);
            },
        };
        let token: &str = match bearer_token(value) {
            Some(token) => token,
            None => {
                return Err(Status::Unauthorized);
            },
        };
        match self.decode_jwt(token) {
            Ok(claims) => Ok(DSUser::from_claims(claims)),
            Err(_) => Err(Status::Unauthorized),
        }
    }
}

} // verus!
