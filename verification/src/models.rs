//! The records the service keeps and the users it knows.

use vstd::prelude::*;
use vstd::std_specs::cmp::PartialEqSpecImpl;
use crate::dtos::{ClaimsView, ConfigDto, DSErrorDto, DSResponseDto, DSUserDto, DSUserLike};

verus! {

/// The greeting data, under the name it has away from the wire.
pub type Config = ConfigDto;

/// The report of what was done, under the name it has away from the wire.
pub type DSResponse = DSResponseDto;

/// The report of a failure, under the name it has away from the wire.
pub type DSError = DSErrorDto;

/// One row of the shelf.
#[derive(Debug, PartialEq)]
pub struct Book {
    pub id: i32,
    pub title: String,
    pub author: String,
    pub description: String,
    pub published: bool,
    pub encoded: Vec<u8>,
}

/// What a book holds, as mathematical values.
pub struct BookView {
    pub id: i32,
    pub title: Seq<char>,
    pub author: Seq<char>,
    pub description: Seq<char>,
    pub published: bool,
    pub encoded: Seq<u8>,
}

impl View for Book {
    type V = BookView;

    open spec fn view(&self) -> BookView {
        BookView {
            id: self.id,
            title: self.title@,
            author: self.author@,
            description: self.description@,
            published: self.published,
            encoded: self.encoded@,
        }
    }
}

impl BookView {
    /// Whether the three texts a book is validated on are all non-empty.
    pub open spec fn is_valid(self) -> bool {
        self.title.len() > 0 && self.author.len() > 0 && self.description.len() > 0
    }
}

impl Clone for Book {
    fn clone(&self) -> (r: Book)
        ensures
            r@ == self@,
    {
        let encoded = self.encoded.clone();
        assert(encoded@ =~= self.encoded@);
        Book {
            id: self.id,
            title: self.title.clone(),
            author: self.author.clone(),
            description: self.description.clone(),
            published: self.published,
            encoded,
        }
    }
}

/// A book read as bytes is its payload.
impl AsRef<[u8]> for Book {
    fn as_ref(&self) -> (bytes: &[u8])
        ensures
            bytes@ == self.encoded@,
    {
        self.encoded.as_slice()
    }
}

impl Book {
    /// Whether title, author and description are all non-empty.
    pub fn is_valid(&self) -> (r: bool)
        ensures
            r == self@.is_valid(),
    {
        !self.title.as_str().is_empty() && !self.author.as_str().is_empty()
            && !self.description.as_str().is_empty()
    }
}

/// A user the service has recognised by a bearer token.
#[derive(Debug)]
pub struct DSUser {
    pub id: i32,
    pub aud: String,
    pub sub: String,
    pub exp: u128,
}

impl View for DSUser {
    type V = ClaimsView;

    open spec fn view(&self) -> ClaimsView {
        ClaimsView { id: self.id, aud: self.aud@, sub: self.sub@, exp: self.exp }
    }
}

impl DSUser {
    /// The user that a token's claims name.
    pub fn from_claims(claims: DSUserDto) -> (user: DSUser)
        ensures
            user@ == claims@,
    {
        DSUser { id: claims.id, aud: claims.aud, sub: claims.sub, exp: claims.exp }
    }

    /// Who the user is.
    pub fn get_id(&self) -> (r: i32)
        ensures
            r == self.id,
    {
        self.id
    }

    /// Whom the user's token was issued for.
    pub fn get_aud(&self) -> (r: String)
        ensures
            r@ == self.aud@,
    {
        self.aud.clone()
    }

    /// Whom the user's token speaks of.
    pub fn get_sub(&self) -> (r: String)
        ensures
            r@ == self.sub@,
    {
        self.sub.clone()
    }

    /// When the user's token stops counting.
    pub fn get_exp(&self) -> (r: u128)
        ensures
            r == self.exp,
    {
        self.exp
    }

    /// Whether `other` stands for the same user: two sets of claims name
    /// the same user exactly when their ids agree.
    pub fn is_same_user<T: DSUserLike>(&self, other: &T) -> (r: bool)
        ensures
            r == (self.id == other.claims().id),
    {
        self.id == other.id()
    }
}

impl DSUserLike for DSUser {
    open spec fn claims(&self) -> ClaimsView {
        self@
    }

    fn id(&self) -> (r: i32) {
        self.id
    }

    fn aud(&self) -> (r: String) {
        self.aud.clone()
    }

    fn sub(&self) -> (r: String) {
        self.sub.clone()
    }

    fn exp(&self) -> (r: u128) {
        self.exp
    }
}

/// Two users are equal when their ids are; the other claims are not
/// looked at.
impl PartialEq for DSUser {
    fn eq(&self, other: &DSUser) -> (r: bool) {
        self.id == other.id
    }
}

impl PartialEqSpecImpl for DSUser {
    open spec fn obeys_eq_spec() -> bool {
        true
    }

    open spec fn eq_spec(&self, other: &DSUser) -> bool {
        self.id == other.id
    }
}

} // verus!
