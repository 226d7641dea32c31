//! The whole service in one place: a request comes in with what its
//! `Authorization` header said, the guard decides about the caller, the
//! route asks one thing of the shelf, and an answer goes out.

use vstd::prelude::*;
use crate::auth::{bearer_of, Keys};
use crate::dtos::{
    internal_error_body, not_found_body, unauthorized_body, ConfigDto, DSResponseDto, ErrorView,
};
use crate::models::{Book, BookView, DSUser};
use crate::router::{assemble, find_route, request_of, routed, Method};
use crate::routes::{
    add_book, delete_book, delete_message, get_all_books, get_by_id, get_config, get_random_book,
    greeting, index, placeholder_book, update_book, update_message, welcome, Failure,
};
use crate::status::Status;
use crate::store::{deleted, has_id, lookup, unique_ids, updated, views, Shelf};
use crate::store::{lemma_delete, lemma_insert_then_get, lemma_update};

verus! {

/// What a client can ask for. Every route is behind the guard.
#[derive(Debug)]
pub enum Request {
    /// `GET /`
    Index,
    /// `GET /config`
    Config,
    /// `GET /book/random`
    RandomBook,
    /// `GET /book/{id}`
    BookById(i32),
    /// `GET /book/all`
    AllBooks,
    /// `POST /add_book`
    AddBook(Book),
    /// `PUT /update_book/{id}`
    UpdateBook(i32, Book),
    /// `DELETE /delete_book/{id}`
    DeleteBook(i32),
}

/// What an answer carries.
#[derive(Debug)]
pub enum Body {
    Text(String),
    Book(Book),
    Books(Vec<Book>),
    Message(DSResponseDto),
    Error(crate::dtos::DSErrorDto),
}

/// An answer: how the request ended, and what is sent back.
#[derive(Debug)]
pub struct Response {
    pub status: Status,
    pub body: Body,
}

impl Response {
    /// The answer is the given failure.
    pub open spec fn is_failure(self, status: Status, body: ErrorView) -> bool {
        self.status == status && (self.body matches Body::Error(e) && e@ == body)
    }

    /// The answer is a success that carries the text.
    pub open spec fn is_text(self, text: Seq<char>) -> bool {
        self.status == Status::Success && (self.body matches Body::Text(t) && t@ == text)
    }

    /// The answer is a success that carries the book.
    pub open spec fn is_book(self, book: BookView) -> bool {
        self.status == Status::Success && (self.body matches Body::Book(b) && b@ == book)
    }

    /// The answer is a success that carries the books, in this order.
    pub open spec fn is_books(self, books: Seq<BookView>) -> bool {
        self.status == Status::Success && (self.body matches Body::Books(all) && views(all@)
            == books)
    }

    /// The answer is a success that carries the message.
    pub open spec fn is_message(self, text: Seq<char>) -> bool {
        self.status == Status::Success && (self.body matches Body::Message(m) && m.response@
            == text)
    }

    /// The answer every unauthorized request gets.
    pub open spec fn is_unauthorized(self) -> bool {
        self.is_failure(Status::Unauthorized, unauthorized_body())
    }

    /// The answer to a request for something that is not there.
    pub open spec fn is_not_found(self) -> bool {
        self.is_failure(Status::NotFound, not_found_body())
    }

    /// The answer that reports the failure.
    fn failure(f: Failure) -> (response: Response)
        ensures
            response.is_failure(f.status, f.body@),
    {
        Response { status: f.status, body: Body::Error(f.body) }
    }

    /// The answer that carries the text.
    fn text(text: String) -> (response: Response)
        ensures
            response.is_text(text@),
    {
        Response { status: Status::Success, body: Body::Text(text) }
    }

    /// The answer that carries the book, or reports the failure.
    fn book(sent: Result<Book, Failure>) -> (response: Response)
        ensures
            match sent {
                Ok(book) => response.is_book(book@),
                Err(f) => response.is_failure(f.status, f.body@),
            },
    {
        match sent {
            Ok(book) => Response { status: Status::Success, body: Body::Book(book) },
            Err(f) => Response::failure(f),
        }
    }

    /// The answer that carries the books, or reports the failure.
    fn books(sent: Result<Vec<Book>, Failure>) -> (response: Response)
        ensures
            match sent {
                Ok(all) => response.is_books(views(all@)),
                Err(f) => response.is_failure(f.status, f.body@),
            },
    {
        match sent {
            Ok(all) => Response { status: Status::Success, body: Body::Books(all) },
            Err(f) => Response::failure(f),
        }
    }

    /// The answer that carries the message, or reports the failure.
    fn message(sent: Result<DSResponseDto, Failure>) -> (response: Response)
        ensures
            match sent {
                Ok(m) => response.is_message(m.response@),
                Err(f) => response.is_failure(f.status, f.body@),
            },
    {
        match sent {
            Ok(m) => Response { status: Status::Success, body: Body::Message(m) },
            Err(f) => Response::failure(f),
        }
    }
}

/// Whether `response` is the answer an authorized caller gets to `request`
/// when the shelf holds `rows`.
pub open spec fn answers(
    response: Response,
    rows: Seq<BookView>,
    config: ConfigDto,
    request: Request,
) -> bool {
    match request {
        Request::Index => response.is_text(welcome()),
        Request::Config => response.is_text(greeting(config.name@, config.age)),
        Request::RandomBook => response.is_book(placeholder_book()),
        Request::BookById(id) => match lookup(rows, id) {
            Some(book) => response.is_book(book),
            None => response.is_not_found(),
        },
        Request::AllBooks => response.is_books(rows),
        Request::AddBook(book) => if has_id(rows, book.id) {
            response.is_failure(Status::InternalServerError, internal_error_body())
        } else {
            response.is_book(book@)
        },
        Request::UpdateBook(id, _) => if has_id(rows, id) {
            response.is_message(update_message(1))
        } else {
            response.is_not_found()
        },
        Request::DeleteBook(id) => if has_id(rows, id) {
            response.is_message(delete_message(id))
        } else {
            response.is_not_found()
        },
    }
}

/// The rows of the shelf after `request` was served to an authorized
/// caller.
pub open spec fn rows_after(rows: Seq<BookView>, request: Request) -> Seq<BookView> {
    match request {
        Request::AddBook(book) => if has_id(rows, book.id) {
            rows
        } else {
            rows.push(book@)
        },
        Request::UpdateBook(id, book) => updated(
            rows,
            id,
            book.title@,
            book.author@,
            book.description@,
        ),
        Request::DeleteBook(id) => deleted(rows, id),
        _ => rows,
    }
}

/// Serves one request, given what the guard decided about the caller. A
/// caller the guard refused gets the unauthorized answer whatever was asked,
/// and the shelf is not touched. Anyone else gets the answer of the route.
pub fn respond(
    shelf: &mut Shelf,
    config: &ConfigDto,
    caller: Result<DSUser, Status>,
    request: Request,
) -> (response: Response)
    ensures
        unique_ids(final(shelf)@),
        caller is Err ==> response.is_unauthorized() && final(shelf)@ == old(shelf)@,
        caller is Ok ==> answers(response, old(shelf)@, *config, request) && final(shelf)@
            == rows_after(old(shelf)@, request),
{
    proof {
        use_type_invariant(&*shelf);
    }
    if caller.is_err() {
        return Response::failure(Failure::unauthorized());
    }
    match request {
        Request::Index => Response::text(index().to_owned()),
        Request::Config => Response::text(get_config(config)),
        Request::RandomBook => Response::book(Ok(get_random_book())),
        Request::BookById(id) => Response::book(get_by_id(shelf.get_by_id(id))),
        Request::AllBooks => Response::books(get_all_books(Ok(shelf.list_all()))),
        Request::AddBook(book) => Response::book(add_book(shelf.insert(book))),
        Request::UpdateBook(id, book) => {
            let count = shelf.update(
                id,
                book.title.as_str(),
                book.author.as_str(),
                book.description.as_str(),
            );
            Response::message(update_book(Ok(count)))
        },
        Request::DeleteBook(id) => Response::message(delete_book(id, Ok(shelf.delete(id)))),
    }
}

/// The service with its shelf in memory.
pub struct DustyShelf {
    pub keys: Keys,
    pub config: ConfigDto,
    pub shelf: Shelf,
}

impl DustyShelf {
    /// Serves one request. `authorization` is the value of the request's
    /// `Authorization` header, if it has one. Whether a token passes is up
    /// to the guard; a request without the header, or with a value that
    /// does not start with the bearer prefix, never does.
    pub fn handle(&mut self, authorization: Option<&str>, request: Request) -> (response: Response)
        ensures
            final(self).keys@ == old(self).keys@,
            final(self).config == old(self).config,
            unique_ids(final(self).shelf@),
            authorization is None || bearer_of(authorization->0@) is None
                ==> response.is_unauthorized() && final(self).shelf@ == old(self).shelf@,
            response.is_unauthorized() && final(self).shelf@ == old(self).shelf@ || answers(
                response,
                old(self).shelf@,
                old(self).config,
                request,
            ) && final(self).shelf@ == rows_after(old(self).shelf@, request),
    {
        let caller = self.keys.authenticate(authorization);
        respond(&mut self.shelf, &self.config, caller, request)
    }

    /// Serves what came in over the wire: a method, a path, the value of
    /// the `Authorization` header if there is one, and the book in the body
    /// if there is one.
    ///
    /// A method and path that have no route are answered as not found. For
    /// one that has, the guard is asked first; then the id in the path has
    /// to read as a number, and a route that takes a book needs one, or the
    /// request goes no further and is answered as not found; then the route
    /// answers.
    pub fn serve(
        &mut self,
        method: Method,
        path: &str,
        authorization: Option<&str>,
        body: Option<Book>,
    ) -> (response: Response)
        ensures
            final(self).keys@ == old(self).keys@,
            final(self).config == old(self).config,
            unique_ids(final(self).shelf@),
            match routed(method, path@) {
                None => response.is_not_found() && final(self).shelf@ == old(self).shelf@,
                Some(found) => {
                    &&& authorization is None || bearer_of(authorization->0@) is None
                        ==> response.is_unauthorized() && final(self).shelf@ == old(
                        self,
                    ).shelf@
                    &&& response.is_unauthorized() && final(self).shelf@ == old(self).shelf@
                        || match request_of(found.0, found.1, body) {
                        None => response.is_not_found() && final(self).shelf@ == old(
                            self,
                        ).shelf@,
                        Some(request) => answers(
                            response,
                            old(self).shelf@,
                            old(self).config,
                            request,
                        ) && final(self).shelf@ == rows_after(old(self).shelf@, request),
                    }
                },
            },
    {
        proof {
            use_type_invariant(&self.shelf);
        }
        let found = match find_route(method, path) {
            Some(found) => found,
            None => {
                return Response::failure(Failure::not_found());
            },
        };
        let caller = self.keys.authenticate(authorization);
        if caller.is_err() {
            return Response::failure(Failure::unauthorized());
        }
        match assemble(found.0, found.1, body) {
            Some(request) => respond(&mut self.shelf, &self.config, caller, request),
            None => Response::failure(Failure::not_found()),
        }
    }
}

/// No route answers a caller it was reached by with the refusal: whoever
/// gets the unauthorized answer was turned away by the guard.
pub proof fn lemma_routes_never_refuse(
    response: Response,
    rows: Seq<BookView>,
    config: ConfigDto,
    request: Request,
)
    requires
        answers(response, rows, config, request),
    ensures
        response.status != Status::Unauthorized,
        !response.is_unauthorized(),
{
}

/// Asking for a book under an id that is not on the shelf is answered as
/// not found, with the body that always goes with it.
pub proof fn lemma_missing_book_is_not_found(
    response: Response,
    rows: Seq<BookView>,
    config: ConfigDto,
    id: i32,
)
    requires
        !has_id(rows, id),
        answers(response, rows, config, Request::BookById(id)),
    ensures
        response.is_failure(Status::NotFound, not_found_body()),
        response.status.code() == 404,
{
}

/// A book that was added is what a later request for its id is answered
/// with, field for field.
pub proof fn lemma_added_book_is_served(
    added: Response,
    served: Response,
    rows: Seq<BookView>,
    config: ConfigDto,
    book: Book,
)
    requires
        unique_ids(rows),
        !has_id(rows, book.id),
        answers(added, rows, config, Request::AddBook(book)),
        answers(
            served,
            rows_after(rows, Request::AddBook(book)),
            config,
            Request::BookById(book.id),
        ),
    ensures
        added.is_book(book@),
        served.is_book(book@),
{
    lemma_insert_then_get(rows, book@);
}

/// Removing a book twice: the second request is answered as not found,
/// whatever the first one found, and leaves the shelf as the first left it.
pub proof fn lemma_second_delete_is_not_found(
    second: Response,
    rows: Seq<BookView>,
    config: ConfigDto,
    id: i32,
)
    requires
        unique_ids(rows),
        answers(second, rows_after(rows, Request::DeleteBook(id)), config, Request::DeleteBook(id)),
    ensures
        second.is_not_found(),
        rows_after(rows_after(rows, Request::DeleteBook(id)), Request::DeleteBook(id))
            == rows_after(rows, Request::DeleteBook(id)),
{
    lemma_delete(rows, id);
}

/// After an update, a request for the same id is answered with a book that
/// has the new title, author and description, and `published` and `encoded`
/// as they were before.
pub proof fn lemma_update_keeps_published_and_encoded(
    served: Response,
    rows: Seq<BookView>,
    config: ConfigDto,
    id: i32,
    book: Book,
)
    requires
        unique_ids(rows),
        has_id(rows, id),
        answers(
            served,
            rows_after(rows, Request::UpdateBook(id, book)),
            config,
            Request::BookById(id),
        ),
    ensures
        served.body is Book,
        served.body->Book_0@.id == id,
        served.body->Book_0@.title == book.title@,
        served.body->Book_0@.author == book.author@,
        served.body->Book_0@.description == book.description@,
        served.body->Book_0@.published == lookup(rows, id)->0.published,
        served.body->Book_0@.encoded == lookup(rows, id)->0.encoded,
{
    lemma_update(rows, id, book.title@, book.author@, book.description@);
}

} // verus!
