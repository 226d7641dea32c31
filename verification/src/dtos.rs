//! The values that cross the wire: what a client sends and what it is
//! answered with.

use vstd::prelude::*;

verus! {

/// The greeting data the service is started with.
#[derive(Debug)]
pub struct ConfigDto {
    pub name: String,
    pub age: u8,
}

/// The claims a bearer token carries.
#[derive(Debug)]
pub struct DSUserDto {
    pub id: i32,
    pub aud: String,
    pub sub: String,
    pub exp: u128,
}

/// What a set of claims says, as mathematical values.
pub struct ClaimsView {
    pub id: i32,
    pub aud: Seq<char>,
    pub sub: Seq<char>,
    pub exp: u128,
}

/// The body of an answer that only reports what was done.
#[derive(Debug, PartialEq)]
pub struct DSResponseDto {
    pub response: String,
}

/// The body of an answer that reports a failure.
#[derive(Debug)]
pub struct DSErrorDto {
    pub err: String,
    pub msg: Option<String>,
    pub code: u16,
}

/// What a failure body says, as mathematical values.
pub struct ErrorView {
    pub err: Seq<char>,
    pub msg: Option<Seq<char>>,
    pub code: u16,
}

/// A pair of tokens as a client hands them in.
pub struct JWTokenDto {
    pub jwtoken: String,
    pub refresh: String,
}

/// Anything that can be read as the claims of a user.
pub trait DSUserLike {
    /// The claims this value stands for.
    spec fn claims(&self) -> ClaimsView;

    /// Who the user is.
    fn id(&self) -> (r: i32)
        ensures
            r == self.claims().id,
    ;

    /// Whom the token was issued for.
    fn aud(&self) -> (r: String)
        ensures
            r@ == self.claims().aud,
    ;

    /// Whom the token speaks of.
    fn sub(&self) -> (r: String)
        ensures
            r@ == self.claims().sub,
    ;

    /// When the token stops counting.
    fn exp(&self) -> (r: u128)
        ensures
            r == self.claims().exp,
    ;
}

impl View for DSUserDto {
    type V = ClaimsView;

    open spec fn view(&self) -> ClaimsView {
        ClaimsView { id: self.id, aud: self.aud@, sub: self.sub@, exp: self.exp }
    }
}

impl View for DSErrorDto {
    type V = ErrorView;

    open spec fn view(&self) -> ErrorView {
        ErrorView {
            err: self.err@,
            msg: match self.msg {
                Some(m) => Some(m@),
                None => None,
            },
            code: self.code,
        }
    }
}

impl DSUserLike for DSUserDto {
    open spec fn claims(&self) -> ClaimsView {
        self@
    }

    fn id(&self) -> (r: i32) {
        self.id
    }

    fn aud(&self) -> (r: String) {
        self.aud.clone()
    }

    fn sub(&self) -> (r: String) {
        self.sub.clone()
    }

    fn exp(&self) -> (r: u128) {
        self.exp
    }
}

impl DSUserDto {
    /// The audience the token was issued for.
    pub fn get_aud(&self) -> (r: String)
        ensures
            r@ == self.aud@,
    {
        self.aud.clone()
    }

    /// The subject the token speaks of.
    pub fn get_sub(&self) -> (r: String)
        ensures
            r@ == self.sub@,
    {
        self.sub.clone()
    }

    /// The instant after which the token no longer counts.
    pub fn get_exp(&self) -> (r: u128)
        ensures
            r == self.exp,
    {
        self.exp
    }
}

/// The body sent when the caller may not do what it asked.
pub open spec fn unauthorized_body() -> ErrorView {
    ErrorView {
        err: "Unauthorized"@,
        msg: Some("You are not authorized to perform this action"@),
        code: 401,
    }
}

/// The body sent when what was asked for is not on the shelf.
pub open spec fn not_found_body() -> ErrorView {
    ErrorView { err: "Not Found"@, msg: Some("There's just Dust all over here"@), code: 404 }
}

/// The body sent when the shelf itself failed.
pub open spec fn internal_error_body() -> ErrorView {
    ErrorView {
        err: "Internal Server Error"@,
        msg: Some("The Shelf gave way under this request"@),
        code: 500,
    }
}

/// The body sent when no connection to the shelf could be had in time.
pub open spec fn unavailable_body() -> ErrorView {
    ErrorView {
        err: "Service Unavailable"@,
        msg: Some("The Shelf is crowded, come back later"@),
        code: 503,
    }
}

impl DSErrorDto {
    /// The body for a failure of the shelf itself.
    pub fn default_500() -> (e: DSErrorDto)
        ensures
            e@ == internal_error_body(),
    {
        DSErrorDto {
            err: "Internal Server Error".to_owned(),
            msg: Some("The Shelf gave way under this request".to_owned()),
            code: 500,
        }
    }

    /// The body for a request that could not get a connection in time.
    pub fn default_503() -> (e: DSErrorDto)
        ensures
            e@ == unavailable_body(),
    {
        DSErrorDto {
            err: "Service Unavailable".to_owned(),
            msg: Some("The Shelf is crowded, come back later".to_owned()),
            code: 503,
        }
    }

    /// The body for a request that was not let in.
    pub fn default_401() -> (e: DSErrorDto)
        ensures
            e@ == unauthorized_body(),
    {
        DSErrorDto {
            err: "Unauthorized".to_owned(),
            msg: Some("You are not authorized to perform this action".to_owned()),
            code: 401,
        }
    }

    /// The body for a request that found nothing.
    pub fn default_404() -> (e: DSErrorDto)
        ensures
            e@ == not_found_body(),
    {
        DSErrorDto {
            err: "Not Found".to_owned(),
            msg: Some("There's just Dust all over here".to_owned()),
            code: 404,
        }
    }
}

} // verus!
