use dusty_shelf::catchers::{not_found, unauthorized};
use dusty_shelf::dtos::{ConfigDto, DSErrorDto, DSResponseDto};
use dusty_shelf::models::{Book, Config, DSError, DSResponse};
use dusty_shelf::router::{assemble, find_route, Method, Route};
use dusty_shelf::routes::{
    add_book, delete_book, get_all_books, get_by_id, get_config, get_random_book, index,
    update_book, Failure,
};
use dusty_shelf::service::Request;
use dusty_shelf::status::Status;
use dusty_shelf::store::StoreError;

fn book(id: i32) -> Book {
    Book {
        id,
        title: String::from("title"),
        author: String::from("author"),
        description: String::from("description"),
        published: false,
        encoded: vec![1, 2, 3],
    }
}

fn assert_not_found(failure: Failure) {
    assert_eq!(failure.status, Status::NotFound);
    assert_eq!(failure.status.code(), 404);
    assert_eq!(failure.body.err, "Not Found");
    assert_eq!(failure.body.msg, Some(String::from("There's just Dust all over here")));
    assert_eq!(failure.body.code, 404);
}

fn assert_internal(failure: Failure) {
    assert_eq!(failure.status, Status::InternalServerError);
    assert_eq!(failure.status.code(), 500);
    assert_eq!(failure.body.err, "Internal Server Error");
    assert_eq!(failure.body.code, 500);
}

#[test]
fn status_codes() {
    assert_eq!(Status::Success.code(), 200);
    assert_eq!(Status::Unauthorized.code(), 401);
    assert_eq!(Status::NotFound.code(), 404);
    assert_eq!(Status::InternalServerError.code(), 500);
    assert_eq!(Status::ServiceUnavailable.code(), 503);
}

#[test]
fn the_unauthorized_body() {
    let body = DSErrorDto::default_401();
    assert_eq!(body.err, "Unauthorized");
    assert_eq!(body.msg, Some(String::from("You are not authorized to perform this action")));
    assert_eq!(body.code, 401);
    let caught = unauthorized();
    assert_eq!((caught.err, caught.msg, caught.code), (body.err, body.msg, body.code));
}

#[test]
fn the_not_found_body() {
    let body = DSErrorDto::default_404();
    assert_eq!(body.err, "Not Found");
    assert_eq!(body.msg, Some(String::from("There's just Dust all over here")));
    assert_eq!(body.code, 404);
    let caught = not_found();
    assert_eq!((caught.err, caught.msg, caught.code), (body.err, body.msg, body.code));
}

#[test]
fn the_bodies_of_the_service_failures() {
    let failed = DSErrorDto::default_500();
    assert_eq!(failed.err, "Internal Server Error");
    assert!(failed.msg.is_some());
    assert_eq!(failed.code, 500);
    let crowded = DSErrorDto::default_503();
    assert_eq!(crowded.err, "Service Unavailable");
    assert!(crowded.msg.is_some());
    assert_eq!(crowded.code, 503);
}

#[test]
fn the_names_away_from_the_wire_are_the_same_types() {
    let error: DSError = DSError::default_404();
    assert_eq!(error.code, 404);
    let error: DSError = DSError::default_401();
    assert_eq!(error.code, 401);
    let response: DSResponse = DSResponseDto { response: String::from("done") };
    assert_eq!(response.response, "done");
    let config: Config = ConfigDto { name: String::from("etch1000"), age: 25 };
    assert_eq!(get_config(&config), "Hello etch1000, welcome to the club 25!");
}

#[test]
fn failures_by_name() {
    assert_not_found(Failure::not_found());
    assert_internal(Failure::internal());
    let refused = Failure::unauthorized();
    assert_eq!(refused.status, Status::Unauthorized);
    assert_eq!(refused.body.code, 401);
}

#[test]
fn index_welcomes() {
    assert_eq!(index(), "Welcome To The Dusty Shelf");
}

#[test]
fn config_greets_by_name_and_age() {
    let greet = |name: &str, age: u8| get_config(&ConfigDto { name: String::from(name), age });
    assert_eq!(greet("etch1000", 24), "Hello etch1000, welcome to the club 24!");
    assert_eq!(greet("", 0), "Hello , welcome to the club 0!");
    assert_eq!(greet("a b", 255), "Hello a b, welcome to the club 255!");
    assert_eq!(greet("x", 9), "Hello x, welcome to the club 9!");
    assert_eq!(greet("x", 100), "Hello x, welcome to the club 100!");
}

#[test]
fn the_random_book_is_always_the_same() {
    let expected = Book {
        id: 0,
        title: String::from("Your Personal Diary"),
        author: String::from("You"),
        description: String::from("You know what this is about! We don't want to know! :)"),
        published: true,
        encoded: vec![0],
    };
    assert_eq!(get_random_book(), expected);
    assert_eq!(get_random_book(), get_random_book());
}

#[test]
fn a_found_book_is_sent() {
    assert_eq!(get_by_id(Ok(book(3))).unwrap(), book(3));
}

#[test]
fn a_book_that_was_not_found_is_not_found() {
    assert_not_found(get_by_id(Err(StoreError::NotFound)).unwrap_err());
    assert_not_found(get_by_id(Err(StoreError::Conflict)).unwrap_err());
    assert_not_found(get_by_id(Err(StoreError::Unavailable)).unwrap_err());
}

#[test]
fn listed_books_are_sent_in_order() {
    assert_eq!(get_all_books(Ok(vec![book(2), book(1)])).unwrap(), vec![book(2), book(1)]);
    assert_eq!(get_all_books(Ok(vec![])).unwrap(), vec![]);
}

#[test]
fn a_list_that_failed_is_the_services_failure() {
    assert_internal(get_all_books(Err(StoreError::Unavailable)).unwrap_err());
}

#[test]
fn an_added_book_is_echoed() {
    assert_eq!(add_book(Ok(book(10))).unwrap(), book(10));
}

#[test]
fn a_book_that_could_not_be_added_is_the_services_failure() {
    assert_internal(add_book(Err(StoreError::Conflict)).unwrap_err());
    assert_internal(add_book(Err(StoreError::Unavailable)).unwrap_err());
}

#[test]
fn a_removed_book_is_confirmed_by_id() {
    let message = |id: i32| delete_book(id, Ok(1)).unwrap().response;
    assert_eq!(message(10), "Book with id: 10 is removed from the Shelf now");
    assert_eq!(message(0), "Book with id: 0 is removed from the Shelf now");
    assert_eq!(message(-7), "Book with id: -7 is removed from the Shelf now");
    assert_eq!(message(i32::MAX), "Book with id: 2147483647 is removed from the Shelf now");
    assert_eq!(message(i32::MIN), "Book with id: -2147483648 is removed from the Shelf now");
}

#[test]
fn a_removal_that_did_not_touch_exactly_one_row_is_not_found() {
    assert_not_found(delete_book(10, Ok(0)).unwrap_err());
    assert_not_found(delete_book(10, Ok(2)).unwrap_err());
    assert_not_found(delete_book(10, Err(StoreError::NotFound)).unwrap_err());
    assert_not_found(delete_book(10, Err(StoreError::Unavailable)).unwrap_err());
}

#[test]
fn an_update_is_confirmed_with_its_count() {
    assert_eq!(
        update_book(Ok(1)).unwrap(),
        DSResponseDto { response: String::from("Book Updated Successfully! RESULT: 1") }
    );
    assert_eq!(update_book(Ok(12)).unwrap().response, "Book Updated Successfully! RESULT: 12");
}

#[test]
fn an_update_that_touched_nothing_is_not_found() {
    assert_not_found(update_book(Ok(0)).unwrap_err());
    assert_not_found(update_book(Err(StoreError::NotFound)).unwrap_err());
    assert_not_found(update_book(Err(StoreError::Unavailable)).unwrap_err());
}

#[test]
fn every_route_is_found_by_method_and_path() {
    assert_eq!(find_route(Method::Get, "/"), Some((Route::Index, "")));
    assert_eq!(find_route(Method::Get, "/config"), Some((Route::Config, "")));
    assert_eq!(find_route(Method::Get, "/book/random"), Some((Route::RandomBook, "")));
    assert_eq!(find_route(Method::Get, "/book/all"), Some((Route::AllBooks, "")));
    assert_eq!(find_route(Method::Get, "/book/0"), Some((Route::BookById, "0")));
    assert_eq!(find_route(Method::Get, "/book/999999"), Some((Route::BookById, "999999")));
    assert_eq!(find_route(Method::Post, "/add_book"), Some((Route::AddBook, "")));
    assert_eq!(find_route(Method::Put, "/update_book/10"), Some((Route::UpdateBook, "10")));
    assert_eq!(find_route(Method::Delete, "/delete_book/10"), Some((Route::DeleteBook, "10")));
}

#[test]
fn a_path_with_an_id_takes_any_one_segment() {
    assert_eq!(find_route(Method::Get, "/book/0.0"), Some((Route::BookById, "0.0")));
    assert_eq!(find_route(Method::Get, "/book/randomly"), Some((Route::BookById, "randomly")));
    assert_eq!(find_route(Method::Get, "/book/"), None);
    assert_eq!(find_route(Method::Get, "/book/1/2"), None);
    assert_eq!(find_route(Method::Get, "/book/1/"), None);
    assert_eq!(find_route(Method::Get, "/book"), None);
    assert_eq!(find_route(Method::Put, "/update_book/"), None);
    assert_eq!(find_route(Method::Delete, "/delete_book"), None);
}

#[test]
fn a_route_is_for_one_method() {
    assert_eq!(find_route(Method::Post, "/"), None);
    assert_eq!(find_route(Method::Post, "/book/0"), None);
    assert_eq!(find_route(Method::Get, "/add_book"), None);
    assert_eq!(find_route(Method::Put, "/add_book"), None);
    assert_eq!(find_route(Method::Get, "/update_book/10"), None);
    assert_eq!(find_route(Method::Delete, "/update_book/10"), None);
    assert_eq!(find_route(Method::Get, "/delete_book/10"), None);
    assert_eq!(find_route(Method::Put, "/delete_book/10"), None);
}

#[test]
fn a_path_that_is_not_in_the_table_has_no_route() {
    for path in ["", "//", "/config/", "/Config", "/books", "/book/all/", "config", "/v1"] {
        assert_eq!(find_route(Method::Get, path), None, "{}", path);
    }
}

#[test]
fn requests_are_put_together_from_route_id_and_body() {
    assert!(matches!(assemble(Route::Index, "", None), Some(Request::Index)));
    assert!(matches!(assemble(Route::Config, "", None), Some(Request::Config)));
    assert!(matches!(assemble(Route::RandomBook, "", None), Some(Request::RandomBook)));
    assert!(matches!(assemble(Route::AllBooks, "", None), Some(Request::AllBooks)));
    assert!(matches!(assemble(Route::BookById, "12", None), Some(Request::BookById(12))));
    assert!(matches!(assemble(Route::BookById, "-12", None), Some(Request::BookById(-12))));
    assert!(matches!(assemble(Route::DeleteBook, "10", None), Some(Request::DeleteBook(10))));
    match assemble(Route::AddBook, "", Some(book(4))) {
        Some(Request::AddBook(b)) => assert_eq!(b, book(4)),
        other => panic!("unexpected: {:?}", other),
    }
    match assemble(Route::UpdateBook, "5", Some(book(4))) {
        Some(Request::UpdateBook(5, b)) => assert_eq!(b, book(4)),
        other => panic!("unexpected: {:?}", other),
    }
}

#[test]
fn no_request_without_a_readable_id_or_a_needed_book() {
    assert!(assemble(Route::BookById, "0.0", None).is_none());
    assert!(assemble(Route::BookById, "", None).is_none());
    assert!(assemble(Route::BookById, "2147483648", None).is_none());
    assert!(assemble(Route::DeleteBook, "ten", None).is_none());
    assert!(assemble(Route::UpdateBook, "ten", Some(book(1))).is_none());
    assert!(assemble(Route::UpdateBook, "10", None).is_none());
    assert!(assemble(Route::AddBook, "", None).is_none());
}
