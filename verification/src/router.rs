//! Which route a request is for: the table of methods and paths.

use vstd::prelude::*;
use vstd::string::*;
use crate::models::Book;
use crate::service::Request;
use crate::text::{i32_of, parse_i32, same_text, strip_prefix, without_prefix};

verus! {

/// The methods the service has routes for.
#[derive(Debug, Clone, Copy, PartialEq, Eq, Structural)]
pub enum Method {
    Get,
    Post,
    Put,
    Delete,
}

/// The routes of the service.
#[derive(Debug, Clone, Copy, PartialEq, Eq, Structural)]
pub enum Route {
    /// `GET /`
    Index,
    /// `GET /config`
    Config,
    /// `GET /book/random`
    RandomBook,
    /// `GET /book/all`
    AllBooks,
    /// `GET /book/<id>`
    BookById,
    /// `POST /add_book`
    AddBook,
    /// `PUT /update_book/<id>`
    UpdateBook,
    /// `DELETE /delete_book/<id>`
    DeleteBook,
}

/// Whether a text is one path segment: not empty, and without a slash.
pub open spec fn is_segment(text: Seq<char>) -> bool {
    text.len() > 0 && !text.contains('/')
}

/// The one segment that follows `prefix` in `path`, if `path` is `prefix`
/// and one segment.
pub open spec fn segment_after(path: Seq<char>, prefix: Seq<char>) -> Option<Seq<char>> {
    match without_prefix(path, prefix) {
        Some(rest) => if is_segment(rest) {
            Some(rest)
        } else {
            None
        },
        None => None,
    }
}

/// The route for a method and a path, and the text that stands where the
/// route has its id (empty where it has none). A path that is written out
/// in full goes before one with an id in it.
pub open spec fn routed(method: Method, path: Seq<char>) -> Option<(Route, Seq<char>)> {
    match method {
        Method::Get => {
            if path == "/"@ {
                Some((Route::Index, Seq::empty()))
            } else if path == "/config"@ {
                Some((Route::Config, Seq::empty()))
            } else if path == "/book/random"@ {
                Some((Route::RandomBook, Seq::empty()))
            } else if path == "/book/all"@ {
                Some((Route::AllBooks, Seq::empty()))
            } else {
                match segment_after(path, "/book/"@) {
                    Some(id) => Some((Route::BookById, id)),
                    None => None,
                }
            }
        },
        Method::Post => {
            if path == "/add_book"@ {
                Some((Route::AddBook, Seq::empty()))
            } else {
                None
            }
        },
        Method::Put => match segment_after(path, "/update_book/"@) {
            Some(id) => Some((Route::UpdateBook, id)),
            None => None,
        },
        Method::Delete => match segment_after(path, "/delete_book/"@) {
            Some(id) => Some((Route::DeleteBook, id)),
            None => None,
        },
    }
}

/// The request that a route, the text in the place of its id and the book
/// in the body make. There is none where the id does not read as a 32-bit
/// integer, or where the route takes a book and there is none.
pub open spec fn request_of(route: Route, id: Seq<char>, body: Option<Book>) -> Option<Request> {
    match route {
        Route::Index => Some(Request::Index),
        Route::Config => Some(Request::Config),
        Route::RandomBook => Some(Request::RandomBook),
        Route::AllBooks => Some(Request::AllBooks),
        Route::BookById => match i32_of(id) {
            Some(n) => Some(Request::BookById(n)),
            None => None,
        },
        Route::AddBook => match body {
            Some(book) => Some(Request::AddBook(book)),
            None => None,
        },
        Route::UpdateBook => match (i32_of(id), body) {
            (Some(n), Some(book)) => Some(Request::UpdateBook(n, book)),
            _ => None,
        },
        Route::DeleteBook => match i32_of(id) {
            Some(n) => Some(Request::DeleteBook(n)),
            None => None,
        },
    }
}

/// Whether `text` is one path segment.
fn check_segment(text: &str) -> (r: bool)
    ensures
        r == is_segment(text@),
{
    let len: usize = text.unicode_len();
    if len == 0 {
        return false;
    }
    let mut i: usize = 0;
    while i < len
        invariant
            i <= len,
            len == text@.len(),
            forall|k: int| 0 <= k < i ==> text@[k] != '/',
        decreases len - i,
    {
        if text.get_char(i) == '/' {
            assert(text@.contains('/'));
            return false;
        }
        i = i + 1;
    }
    true
}

/// The one segment after `prefix`.
fn take_segment<'a>(path: &'a str, prefix: &str) -> (segment: Option<&'a str>)
    ensures
        match segment {
            Some(s) => segment_after(path@, prefix@) == Some(s@),
            None => segment_after(path@, prefix@) is None,
        },
{
    match strip_prefix(path, prefix) {
        Some(rest) => {
            if check_segment(rest) {
                Some(rest)
            } else {
                None
            }
        },
        None => None,
    }
}

/// A route together with the text in the place of its id.
fn with_id<'a>(route: Route, segment: Option<&'a str>) -> (found: Option<(Route, &'a str)>)
    ensures
        match segment {
            Some(s) => found matches Some(pair) && pair.0 == route && pair.1@ == s@,
            None => found is None,
        },
{
    match segment {
        Some(s) => Some((route, s)),
        None => None,
    }
}

/// Finds the route for a method and a path.
pub fn find_route<'a>(method: Method, path: &'a str) -> (found: Option<(Route, &'a str)>)
    ensures
        match found {
            Some(pair) => routed(method, path@) == Some((pair.0, pair.1@)),
            None => routed(method, path@) is None,
        },
{
    proof {
        reveal_strlit("");
    }
    match method {
        Method::Get => {
            if same_text(path, "/") {
                Some((Route::Index, ""))
            } else if same_text(path, "/config") {
                Some((Route::Config, ""))
            } else if same_text(path, "/book/random") {
                Some((Route::RandomBook, ""))
            } else if same_text(path, "/book/all") {
                Some((Route::AllBooks, ""))
            } else {
                with_id(Route::BookById, take_segment(path, "/book/"))
            }
        },
        Method::Post => {
            if same_text(path, "/add_book") {
                Some((Route::AddBook, ""))
            } else {
                None
            }
        },
        Method::Put => with_id(Route::UpdateBook, take_segment(path, "/update_book/")),
        Method::Delete => with_id(Route::DeleteBook, take_segment(path, "/delete_book/")),
    }
}

/// Puts a request together from its route, the text in the place of the
/// route's id, and the book in its body.
pub fn assemble(route: Route, id: &str, body: Option<Book>) -> (request: Option<Request>)
    ensures
        request == request_of(route, id@, body),
{
    match route {
        Route::Index => Some(Request::Index),
        Route::Config => Some(Request::Config),
        Route::RandomBook => Some(Request::RandomBook),
        Route::AllBooks => Some(Request::AllBooks),
        Route::BookById => match parse_i32(id) {
            Some(n) => Some(Request::BookById(n)),
            None => None,
        },
        Route::AddBook => match body {
            Some(book) => Some(Request::AddBook(book)),
            None => None,
        },
        Route::UpdateBook => match (parse_i32(id), body) {
            (Some(n), Some(book)) => Some(Request::UpdateBook(n, book)),
            _ => None,
        },
        Route::DeleteBook => match parse_i32(id) {
            Some(n) => Some(Request::DeleteBook(n)),
            None => None,
        },
    }
}

} // verus!
