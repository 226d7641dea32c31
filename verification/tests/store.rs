use dusty_shelf::models::Book;
use dusty_shelf::store::{Shelf, StoreError};

fn book(id: i32, title: &str) -> Book {
    Book {
        id,
        title: String::from(title),
        author: String::from("someone"),
        description: String::from("something"),
        published: id % 2 == 0,
        encoded: vec![id as u8, 1, 2],
    }
}

fn shelf_of(ids: &[i32]) -> Shelf {
    let mut shelf = Shelf::new();
    for id in ids {
        shelf.insert(book(*id, "t")).unwrap();
    }
    shelf
}

fn ids(shelf: &Shelf) -> Vec<i32> {
    shelf.list_all().iter().map(|b| b.id).collect()
}

#[test]
fn a_new_shelf_is_empty() {
    let shelf = Shelf::new();
    assert!(shelf.list_all().is_empty());
    assert_eq!(shelf.get_by_id(0), Err(StoreError::NotFound));
}

#[test]
fn insert_echoes_the_row() {
    let mut shelf = Shelf::new();
    assert_eq!(shelf.insert(book(10, "ten")), Ok(book(10, "ten")));
}

#[test]
fn an_inserted_book_is_found_equal_in_all_fields() {
    let mut shelf = shelf_of(&[1, 2]);
    let inserted = Book {
        id: 10,
        title: String::from("test book"),
        author: String::from("test author"),
        description: String::from("test description"),
        published: true,
        encoded: vec![0],
    };
    shelf.insert(inserted.clone()).unwrap();
    assert_eq!(shelf.get_by_id(10), Ok(inserted));
}

#[test]
fn rows_keep_the_order_in_which_they_came() {
    let shelf = shelf_of(&[5, -1, 3, 0]);
    assert_eq!(ids(&shelf), vec![5, -1, 3, 0]);
}

#[test]
fn an_id_that_is_taken_is_refused() {
    let mut shelf = shelf_of(&[1, 2]);
    assert_eq!(shelf.insert(book(2, "again")), Err(StoreError::Conflict));
    assert_eq!(ids(&shelf), vec![1, 2]);
    assert_eq!(shelf.get_by_id(2), Ok(book(2, "t")));
}

#[test]
fn an_id_that_is_not_there_is_not_found() {
    let shelf = shelf_of(&[1, 2]);
    assert_eq!(shelf.get_by_id(999999), Err(StoreError::NotFound));
    assert_eq!(shelf.get_by_id(-1), Err(StoreError::NotFound));
}

#[test]
fn update_changes_three_fields_of_one_row() {
    let mut shelf = shelf_of(&[1, 2, 3]);
    let before = shelf.get_by_id(2).unwrap();
    assert_eq!(shelf.update(2, "new title", "new author", "new description"), 1);
    let after = shelf.get_by_id(2).unwrap();
    assert_eq!(after.id, 2);
    assert_eq!(after.title, "new title");
    assert_eq!(after.author, "new author");
    assert_eq!(after.description, "new description");
    assert_eq!(after.published, before.published);
    assert_eq!(after.encoded, before.encoded);
    assert_eq!(shelf.get_by_id(1), Ok(book(1, "t")));
    assert_eq!(shelf.get_by_id(3), Ok(book(3, "t")));
    assert_eq!(ids(&shelf), vec![1, 2, 3]);
}

#[test]
fn update_of_an_id_that_is_not_there_touches_nothing() {
    let mut shelf = shelf_of(&[1, 2]);
    assert_eq!(shelf.update(3, "a", "b", "c"), 0);
    assert_eq!(shelf.list_all(), vec![book(1, "t"), book(2, "t")]);
}

#[test]
fn delete_takes_one_row_away() {
    let mut shelf = shelf_of(&[1, 2, 3]);
    assert_eq!(shelf.delete(2), 1);
    assert_eq!(ids(&shelf), vec![1, 3]);
    assert_eq!(shelf.get_by_id(2), Err(StoreError::NotFound));
}

#[test]
fn delete_is_not_idempotent() {
    let mut shelf = shelf_of(&[1, 2, 3]);
    assert_eq!(shelf.delete(3), 1);
    assert_eq!(shelf.delete(3), 0);
    assert_eq!(ids(&shelf), vec![1, 2]);
}

#[test]
fn delete_of_an_id_that_is_not_there_touches_nothing() {
    let mut shelf = shelf_of(&[1]);
    assert_eq!(shelf.delete(2), 0);
    assert_eq!(ids(&shelf), vec![1]);
}

#[test]
fn a_deleted_id_can_be_used_again() {
    let mut shelf = shelf_of(&[1, 2]);
    shelf.delete(1);
    assert_eq!(shelf.insert(book(1, "back")), Ok(book(1, "back")));
    assert_eq!(ids(&shelf), vec![2, 1]);
}

#[test]
fn a_book_is_valid_when_its_texts_are_not_empty() {
    assert!(book(1, "t").is_valid());
    assert!(!book(1, "").is_valid());
    let mut no_author = book(1, "t");
    no_author.author = String::new();
    assert!(!no_author.is_valid());
    let mut no_description = book(1, "t");
    no_description.description = String::new();
    assert!(!no_description.is_valid());
}

#[test]
fn a_copy_of_a_book_is_equal_to_it() {
    let first = book(4, "four");
    assert_eq!(first.clone(), first);
}

#[test]
fn a_book_read_as_bytes_is_its_payload() {
    let with_payload = book(4, "four");
    let bytes: &[u8] = with_payload.as_ref();
    assert_eq!(bytes, &[4u8, 1, 2]);
    let mut empty = book(5, "five");
    empty.encoded = vec![];
    let bytes: &[u8] = empty.as_ref();
    assert!(bytes.is_empty());
}
