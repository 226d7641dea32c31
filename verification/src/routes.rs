//! What each route answers: one function per route, from the outcome of
//! the one thing the route asks of the shelf to the answer that is sent.

use vstd::prelude::*;
use vstd::string::*;
use crate::dtos::{
    internal_error_body, not_found_body, unauthorized_body, ConfigDto, DSErrorDto, DSResponseDto,
    ErrorView,
};
use crate::models::{Book, BookView};
use crate::status::Status;
use crate::store::StoreError;
use crate::text::{decimal, push_decimal, push_signed_decimal, signed_decimal};

verus! {

/// An answer that reports a failure: the outcome and the body that goes
/// with it.
#[derive(Debug)]
pub struct Failure {
    pub status: Status,
    pub body: DSErrorDto,
}

impl Failure {
    /// Whether this is the failure with the given outcome and body.
    pub open spec fn is(self, status: Status, body: ErrorView) -> bool {
        self.status == status && self.body@ == body
    }

    /// The caller may not do what it asked.
    pub fn unauthorized() -> (f: Failure)
        ensures
            f.is(Status::Unauthorized, unauthorized_body()),
    {
        Failure { status: Status::Unauthorized, body: DSErrorDto::default_401() }
    }

    /// What was asked for is not on the shelf.
    pub fn not_found() -> (f: Failure)
        ensures
            f.is(Status::NotFound, not_found_body()),
    {
        Failure { status: Status::NotFound, body: DSErrorDto::default_404() }
    }

    /// The shelf itself failed.
    pub fn internal() -> (f: Failure)
        ensures
            f.is(Status::InternalServerError, internal_error_body()),
    {
        Failure { status: Status::InternalServerError, body: DSErrorDto::default_500() }
    }
}

/// The greeting of the home route.
pub open spec fn welcome() -> Seq<char> {
    "Welcome To The Dusty Shelf"@
}

/// The greeting of the configuration route.
pub open spec fn greeting(name: Seq<char>, age: u8) -> Seq<char> {
    "Hello "@ + name + ", welcome to the club "@ + decimal(age as nat) + "!"@
}

/// The book the random route hands out.
pub open spec fn placeholder_book() -> BookView {
    BookView {
        id: 0,
        title: "Your Personal Diary"@,
        author: "You"@,
        description: "You know what this is about! We don't want to know! :)"@,
        published: true,
        encoded: seq![0u8],
    }
}

/// What is said after a book was taken off the shelf.
pub open spec fn delete_message(id: i32) -> Seq<char> {
    "Book with id: "@ + signed_decimal(id as int) + " is removed from the Shelf now"@
}

/// What is said after an update that touched `count` rows.
pub open spec fn update_message(count: nat) -> Seq<char> {
    "Book Updated Successfully! RESULT: "@ + decimal(count)
}

/// `GET /`: a fixed welcome.
pub fn index() -> (text: &'static str)
    ensures
        text@ == welcome(),
{
    "Welcome To The Dusty Shelf"
}

/// `GET /config`: a greeting made from the name and age the service was
/// started with.
pub fn get_config(config: &ConfigDto) -> (text: String)
    ensures
        text@ == greeting(config.name@, config.age),
{
    let mut text = "Hello ".to_owned();
    text.append(config.name.as_str());
    text.append(", welcome to the club ");
    push_decimal(&mut text, config.age as u64);
    text.append("!");
    text
}

/// `GET /book/random`: always the same placeholder.
pub fn get_random_book() -> (book: Book)
    ensures
        book@ == placeholder_book(),
{
    let mut encoded: Vec<u8> = Vec::new();
    encoded.push(0);
    assert(encoded@ =~= seq![0u8]);
    Book {
        id: 0,
        title: "Your Personal Diary".to_owned(),
        author: "You".to_owned(),
        description: "You know what this is about! We don't want to know! :)".to_owned(),
        published: true,
        encoded,
    }
}

/// `GET /book/{id}`: the book that was found; any failure to find it is
/// answered as not found.
pub fn get_by_id(found: Result<Book, StoreError>) -> (r: Result<Book, Failure>)
    ensures
        match found {
            Ok(book) => r matches Ok(sent) && sent@ == book@,
            Err(_) => r matches Err(f) && f.is(Status::NotFound, not_found_body()),
        },
{
    match found {
        Ok(book) => Ok(book),
        Err(_) => Err(Failure::not_found()),
    }
}

/// `GET /book/all`: all books as they were listed; a failure to list them
/// is the shelf's failure.
pub fn get_all_books(listed: Result<Vec<Book>, StoreError>) -> (r: Result<Vec<Book>, Failure>)
    ensures
        match listed {
            Ok(books) => r matches Ok(sent) && sent == books,
            Err(_) => r matches Err(f) && f.is(Status::InternalServerError, internal_error_body()),
        },
{
    match listed {
        Ok(books) => Ok(books),
        Err(_) => Err(Failure::internal()),
    }
}

/// `POST /add_book`: the row as the shelf echoed it; a failure to put it
/// there is the shelf's failure.
pub fn add_book(inserted: Result<Book, StoreError>) -> (r: Result<Book, Failure>)
    ensures
        match inserted {
            Ok(book) => r matches Ok(sent) && sent@ == book@,
            Err(_) => r matches Err(f) && f.is(Status::InternalServerError, internal_error_body()),
        },
{
    match inserted {
        Ok(book) => Ok(book),
        Err(_) => Err(Failure::internal()),
    }
}

/// `DELETE /delete_book/{id}`: a confirmation when exactly one row was
/// removed; anything else is answered as not found.
pub fn delete_book(id: i32, removed: Result<usize, StoreError>) -> (r: Result<
    DSResponseDto,
    Failure,
>)
    ensures
        match removed {
            Ok(1) => r matches Ok(sent) && sent.response@ == delete_message(id),
            _ => r matches Err(f) && f.is(Status::NotFound, not_found_body()),
        },
{
    match removed {
        Ok(1) => {
            let mut response = "Book with id: ".to_owned();
            push_signed_decimal(&mut response, id as i64);
            response.append(" is removed from the Shelf now");
            Ok(DSResponseDto { response })
        },
        _ => Err(Failure::not_found()),
    }
}

/// `PUT /update_book/{id}`: a confirmation with the number of rows that
/// were changed; an update that changed none, or failed, is answered as not
/// found.
pub fn update_book(changed: Result<usize, StoreError>) -> (r: Result<DSResponseDto, Failure>)
    ensures
        match changed {
            Ok(count) if count > 0 => r matches Ok(sent) && sent.response@ == update_message(
                count as nat,
            ),
            _ => r matches Err(f) && f.is(Status::NotFound, not_found_body()),
        },
{
    match changed {
        Ok(count) => {
            if count > 0 {
                let mut response = "Book Updated Successfully! RESULT: ".to_owned();
                push_decimal(&mut response, count as u64);
                Ok(DSResponseDto { response })
            } else {
                Err(Failure::not_found())
            }
        },
        Err(_) => Err(Failure::not_found()),
    }
}

} // verus!
