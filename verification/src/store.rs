//! The shelf: the table of books, one row per id.

use vstd::prelude::*;
use crate::models::{Book, BookView};

verus! {

/// Why the shelf refused a row.
#[derive(Debug, Clone, Copy, PartialEq, Eq, Structural)]
pub enum StoreError {
    /// No row has the id that was asked for.
    NotFound,
    /// A row with the same id is already there.
    Conflict,
    /// The store could not be asked at all.
    Unavailable,
}

/// The rows of the table, in the order in which they were put there. No two
/// rows have the same id.
pub struct Shelf {
    books: Vec<Book>,
}

/// No two rows share an id.
pub open spec fn unique_ids(rows: Seq<BookView>) -> bool {
    forall|i: int, j: int| 0 <= i < j < rows.len() ==> (#[trigger] rows[i]).id != (#[trigger] rows[j]).id
}

/// Some row has the id.
pub open spec fn has_id(rows: Seq<BookView>, id: i32) -> bool {
    exists|i: int| 0 <= i < rows.len() && (#[trigger] rows[i]).id == id
}

/// The place of a row that has the id. It means something only where
/// `has_id` holds.
pub open spec fn position(rows: Seq<BookView>, id: i32) -> int {
    choose|i: int| 0 <= i < rows.len() && (#[trigger] rows[i]).id == id
}

/// The row with the id, if there is one.
pub open spec fn lookup(rows: Seq<BookView>, id: i32) -> Option<BookView> {
    if has_id(rows, id) {
        Some(rows[position(rows, id)])
    } else {
        None
    }
}

/// A row with new title, author and description, and everything else as it
/// was.
pub open spec fn retitled(
    row: BookView,
    title: Seq<char>,
    author: Seq<char>,
    description: Seq<char>,
) -> BookView {
    BookView {
        id: row.id,
        title,
        author,
        description,
        published: row.published,
        encoded: row.encoded,
    }
}

/// The rows after an update of the row with the id: that row is retitled,
/// the others stay, and so does the order.
pub open spec fn updated(
    rows: Seq<BookView>,
    id: i32,
    title: Seq<char>,
    author: Seq<char>,
    description: Seq<char>,
) -> Seq<BookView> {
    Seq::new(
        rows.len(),
        |i: int|
            if rows[i].id == id {
                retitled(rows[i], title, author, description)
            } else {
                rows[i]
            },
    )
}

/// The rows after the row with the id has been taken away.
pub open spec fn deleted(rows: Seq<BookView>, id: i32) -> Seq<BookView> {
    if has_id(rows, id) {
        rows.remove(position(rows, id))
    } else {
        rows
    }
}

/// How many rows an update or a removal by id touches: one if the id is
/// there, none if it is not.
pub open spec fn affected(rows: Seq<BookView>, id: i32) -> nat {
    if has_id(rows, id) {
        1
    } else {
        0
    }
}

/// The views of a vector of books.
pub open spec fn views(books: Seq<Book>) -> Seq<BookView> {
    Seq::new(books.len(), |i: int| books[i]@)
}

/// Among rows with unique ids, a row is the one that `lookup` finds for
/// its id.
pub proof fn lemma_lookup_at(rows: Seq<BookView>, i: int)
    requires
        unique_ids(rows),
        0 <= i < rows.len(),
    ensures
        has_id(rows, rows[i].id),
        position(rows, rows[i].id) == i,
        lookup(rows, rows[i].id) == Some(rows[i]),
{
    let id = rows[i].id;
    assert(has_id(rows, id));
    let p = position(rows, id);
    if p < i {
        assert(rows[p].id != rows[i].id);
    } else if i < p {
        assert(rows[i].id != rows[p].id);
    }
}

/// A book that was put on the shelf is found under its id, equal in every
/// field to what was put there.
pub proof fn lemma_insert_then_get(rows: Seq<BookView>, book: BookView)
    requires
        unique_ids(rows),
        !has_id(rows, book.id),
    ensures
        unique_ids(rows.push(book)),
        lookup(rows.push(book), book.id) == Some(book),
{
    let after = rows.push(book);
    assert forall|i: int, j: int| 0 <= i < j < after.len() implies (#[trigger] after[i]).id != (
    #[trigger] after[j]).id by {
        if j == rows.len() {
            assert(rows[i].id != book.id);
        } else {
            assert(rows[i].id != rows[j].id);
        }
    }
    assert(after[rows.len() as int] == book);
    lemma_lookup_at(after, rows.len() as int);
}

/// Taking a book away leaves the other rows as they were, and the id is
/// gone.
pub proof fn lemma_delete(rows: Seq<BookView>, id: i32)
    requires
        unique_ids(rows),
    ensures
        unique_ids(deleted(rows, id)),
        !has_id(deleted(rows, id), id),
        forall|other: i32| other != id ==> lookup(deleted(rows, id), other) == lookup(rows, other),
{
    let after = deleted(rows, id);
    if has_id(rows, id) {
        let p = position(rows, id);
        assert forall|i: int, j: int| 0 <= i < j < after.len() implies (#[trigger] after[i]).id != (
        #[trigger] after[j]).id by {
            let oi = if i < p {
                i
            } else {
                i + 1
            };
            let oj = if j < p {
                j
            } else {
                j + 1
            };
            assert(after[i] == rows[oi] && after[j] == rows[oj]);
            assert(rows[oi].id != rows[oj].id);
        }
        if has_id(after, id) {
            let q = position(after, id);
            let oq = if q < p {
                q
            } else {
                q + 1
            };
            assert(after[q] == rows[oq]);
            if oq < p {
                assert(rows[oq].id != rows[p].id);
            } else {
                assert(rows[p].id != rows[oq].id);
            }
        }
        assert forall|other: i32| other != id implies lookup(after, other) == lookup(
            rows,
            other,
        ) by {
            if has_id(rows, other) {
                let k = position(rows, other);
                let nk = if k < p {
                    k
                } else {
                    k - 1
                };
                assert(after[nk] == rows[k]);
                lemma_lookup_at(after, nk);
            } else if has_id(after, other) {
                let q = position(after, other);
                let oq = if q < p {
                    q
                } else {
                    q + 1
                };
                assert(after[q] == rows[oq]);
                assert(rows[oq].id == other);
            }
        }
    }
}

/// Taking a book away a second time touches nothing: the first removal
/// has left no row with that id.
pub proof fn lemma_delete_twice(rows: Seq<BookView>, id: i32)
    requires
        unique_ids(rows),
    ensures
        affected(deleted(rows, id), id) == 0,
        deleted(deleted(rows, id), id) == deleted(rows, id),
{
    lemma_delete(rows, id);
}

/// An update changes title, author and description of the row with the id
/// and nothing else: that row keeps `published` and `encoded`, and every
/// other row is found as before.
pub proof fn lemma_update(
    rows: Seq<BookView>,
    id: i32,
    title: Seq<char>,
    author: Seq<char>,
    description: Seq<char>,
)
    requires
        unique_ids(rows),
    ensures
        unique_ids(updated(rows, id, title, author, description)),
        has_id(rows, id) ==> lookup(updated(rows, id, title, author, description), id) == Some(
            retitled(lookup(rows, id)->0, title, author, description),
        ),
        has_id(rows, id) ==> lookup(updated(rows, id, title, author, description), id)->0.published
            == lookup(rows, id)->0.published,
        has_id(rows, id) ==> lookup(updated(rows, id, title, author, description), id)->0.encoded
            == lookup(rows, id)->0.encoded,
        !has_id(rows, id) ==> updated(rows, id, title, author, description) == rows,
        forall|other: i32|
            other != id ==> lookup(updated(rows, id, title, author, description), other) == lookup(
                rows,
                other,
            ),
{
    let after = updated(rows, id, title, author, description);
    assert forall|i: int| 0 <= i < rows.len() implies (#[trigger] after[i]).id == rows[i].id by {}
    assert forall|i: int, j: int| 0 <= i < j < after.len() implies (#[trigger] after[i]).id != (
    #[trigger] after[j]).id by {
        assert(rows[i].id != rows[j].id);
    }
    if has_id(rows, id) {
        let p = position(rows, id);
        assert(after[p].id == id);
        lemma_lookup_at(after, p);
    } else {
        assert forall|i: int| 0 <= i < rows.len() implies after[i] == rows[i] by {
            if rows[i].id == id {
                assert(has_id(rows, id));
            }
        }
        assert(after =~= rows);
    }
    assert forall|other: i32| other != id implies lookup(after, other) == lookup(rows, other) by {
        if has_id(rows, other) {
            let k = position(rows, other);
            assert(after[k] == rows[k]);
            lemma_lookup_at(after, k);
        } else if has_id(after, other) {
            let q = position(after, other);
            assert(rows[q].id == other);
        }
    }
}

impl View for Shelf {
    type V = Seq<BookView>;

    closed spec fn view(&self) -> Seq<BookView> {
        views(self.books@)
    }
}

impl Shelf {
    /// What holds of every shelf: no two rows share an id.
    #[verifier::type_invariant]
    pub open spec fn rows_have_unique_ids(self) -> bool {
        unique_ids(self@)
    }

    /// An empty shelf.
    pub fn new() -> (shelf: Shelf)
        ensures
            shelf@ == Seq::<BookView>::empty(),
    {
        let shelf = Shelf { books: Vec::new() };
        assert(shelf@ =~= Seq::<BookView>::empty());
        shelf
    }

    /// Where the row with the id stands, if there is one.
    fn find(&self, id: i32) -> (at: Option<usize>)
        ensures
            unique_ids(self@),
            match at {
                Some(i) => i < self.books@.len() && self.books@[i as int].id == id && has_id(
                    self@,
                    id,
                ) && position(self@, id) == i,
                None => !has_id(self@, id),
            },
    {
        proof {
            use_type_invariant(self);
        }
        let mut i: usize = 0;
        while i < self.books.len()
            invariant
                i <= self.books@.len(),
                unique_ids(self@),
                self@ == views(self.books@),
                forall|k: int| 0 <= k < i ==> (#[trigger] self@[k]).id != id,
            decreases self.books.len() - i,
        {
            if self.books[i].id == id {
                proof {
                    assert(self@[i as int].id == id);
                    lemma_lookup_at(self@, i as int);
                }
                return Some(i);
            }
            i = i + 1;
        }
        None
    }

    /// The book with the id, if it is on the shelf.
    pub fn get_by_id(&self, id: i32) -> (found: Result<Book, StoreError>)
        ensures
            unique_ids(self@),
            match found {
                Ok(book) => lookup(self@, id) == Some(book@),
                Err(e) => e == StoreError::NotFound && lookup(self@, id) is None,
            },
    {
        match self.find(id) {
            Some(i) => Ok(self.books[i].clone()),
            None => Err(StoreError::NotFound),
        }
    }

    /// All books, in the order of the rows.
    pub fn list_all(&self) -> (all: Vec<Book>)
        ensures
            unique_ids(self@),
            views(all@) == self@,
    {
        proof {
            use_type_invariant(self);
        }
        let mut all: Vec<Book> = Vec::new();
        let mut i: usize = 0;
        while i < self.books.len()
            invariant
                i <= self.books@.len(),
                all@.len() == i,
                forall|k: int| 0 <= k < i ==> (#[trigger] all@[k])@ == self.books@[k]@,
            decreases self.books.len() - i,
        {
            all.push(self.books[i].clone());
            i = i + 1;
        }
        assert(views(all@) =~= self@);
        all
    }

    /// Puts a book on the shelf, as its last row, and hands back a copy of
    /// the row. A book whose id is taken is refused and the shelf stays as
    /// it was.
    pub fn insert(&mut self, book: Book) -> (echo: Result<Book, StoreError>)
        ensures
            unique_ids(final(self)@),
            match echo {
                Ok(row) => !has_id(old(self)@, book.id) && row@ == book@ && final(self)@ == old(
                    self,
                )@.push(book@),
                Err(e) => e == StoreError::Conflict && has_id(old(self)@, book.id) && final(self)@
                    == old(self)@,
            },
    {
        match self.find(book.id) {
            Some(_) => Err(StoreError::Conflict),
            None => {
                let echo = book.clone();
                let mut books: Vec<Book> = Vec::new();
                core::mem::swap(&mut books, &mut self.books);
                books.push(book);
                proof {
                    lemma_insert_then_get(old(self)@, book@);
                    assert(views(books@) =~= old(self)@.push(book@));
                }
                self.books = books;
                Ok(echo)
            },
        }
    }

    /// Gives the book with the id a new title, author and description, and
    /// says how many rows that touched. `published` and `encoded` are left
    /// as they are.
    pub fn update(&mut self, id: i32, title: &str, author: &str, description: &str) -> (count: usize)
        ensures
            unique_ids(final(self)@),
            count == affected(old(self)@, id),
            final(self)@ == updated(old(self)@, id, title@, author@, description@),
    {
        proof {
            use_type_invariant(&*self);
            lemma_update(old(self)@, id, title@, author@, description@);
        }
        match self.find(id) {
            None => 0,
            Some(i) => {
                let mut books: Vec<Book> = Vec::new();
                core::mem::swap(&mut books, &mut self.books);
                let row = books.remove(i);
                let next = Book {
                    id: row.id,
                    title: title.to_owned(),
                    author: author.to_owned(),
                    description: description.to_owned(),
                    published: row.published,
                    encoded: row.encoded,
                };
                books.insert(i, next);
                proof {
                    let before = old(self)@;
                    let after = updated(before, id, title@, author@, description@);
                    assert forall|k: int| 0 <= k < before.len() implies views(books@)[k]
                        == after[k] by {
                        if k != i {
                            if k < i {
                                assert(before[k].id != before[i as int].id);
                            } else {
                                assert(before[i as int].id != before[k].id);
                            }
                        }
                    }
                    assert(views(books@) =~= after);
                }
                self.books = books;
                1
            },
        }
    }

    /// Takes the book with the id off the shelf and says how many rows
    /// that touched.
    pub fn delete(&mut self, id: i32) -> (count: usize)
        ensures
            unique_ids(final(self)@),
            count == affected(old(self)@, id),
            final(self)@ == deleted(old(self)@, id),
    {
        proof {
            use_type_invariant(&*self);
            lemma_delete(old(self)@, id);
        }
        match self.find(id) {
            None => 0,
            Some(i) => {
                let mut books: Vec<Book> = Vec::new();
                core::mem::swap(&mut books, &mut self.books);
                books.remove(i);
                proof {
                    assert(views(books@) =~= deleted(old(self)@, id));
                }
                self.books = books;
                1
            },
        }
    }
}

} // verus!
