//! The catalog's storage contract and its in-memory backend.
//!
//! The contract is stated over a mathematical model of the store: the
//! sequence of persisted books and the sequence of persisted notes, in
//! backend-stable order. Any backend must behave as the model functions
//! below say; the in-memory backend here is proved to, while a durable
//! backend lives with the transport and answers for itself only through
//! `StorageError`.

use vstd::prelude::*;

use crate::model::Book;
use crate::model::GraphQLError;
use crate::model::Note;
use crate::model::ReadingStatus;
use crate::model::status_of_chars;

verus! {

/// The first book carrying `id`, if any. Under `books_wf` ids are unique,
/// so "first" is "the only one".
pub open spec fn find_book(books: Seq<Book>, id: i32) -> Option<Book>
    decreases books.len(),
{
    if books.len() == 0 {
        None
    } else if books[0].id == id {
        Some(books[0])
    } else {
        find_book(books.drop_first(), id)
    }
}

/// The first book whose title reads exactly `title`; no normalization.
pub open spec fn find_book_by_title(books: Seq<Book>, title: Seq<char>) -> Option<Book>
    decreases books.len(),
{
    if books.len() == 0 {
        None
    } else if books[0].title@ == title {
        Some(books[0])
    } else {
        find_book_by_title(books.drop_first(), title)
    }
}

/// Whether a book's status passes a listing filter; an absent filter
/// passes everything.
pub open spec fn status_matches(filter: Option<ReadingStatus>, st: ReadingStatus) -> bool {
    match filter {
        None => true,
        Some(f) => st == f,
    }
}

/// The books a filtered listing returns: the subsequence passing the
/// filter, in store order.
pub open spec fn filter_books(books: Seq<Book>, filter: Option<ReadingStatus>) -> Seq<Book> {
    books.filter(|b: Book| status_matches(filter, b.status))
}

/// `b` with its status replaced; every other field untouched.
pub open spec fn with_status(b: Book, st: ReadingStatus) -> Book {
    Book { status: st, ..b }
}

/// The store after a status update: the book carrying `id` gets `st`, all
/// other books and the order are untouched.
pub open spec fn set_book_status(books: Seq<Book>, id: i32, st: ReadingStatus) -> Seq<Book> {
    books.map_values(|b: Book| if b.id == id { with_status(b, st) } else { b })
}

/// The notes attached to one book, in store order.
pub open spec fn notes_for_book(notes: Seq<Note>, book_id: i32) -> Seq<Note> {
    notes.filter(|n: Note| n.book_id == book_id)
}

/// `id` is carried by no persisted book.
pub open spec fn fresh_book_id(books: Seq<Book>, id: i32) -> bool {
    forall|i: int| 0 <= i < books.len() ==> (#[trigger] books[i]).id != id
}

/// `id` is carried by no persisted note.
pub open spec fn fresh_note_id(notes: Seq<Note>, id: i32) -> bool {
    forall|i: int| 0 <= i < notes.len() ==> (#[trigger] notes[i]).id != id
}

/// Well-formedness of a persisted book store: identities are unique and
/// every persisted page count is at least one.
pub open spec fn books_wf(books: Seq<Book>) -> bool {
    &&& forall|i: int, j: int|
        0 <= i < j < books.len() ==> (#[trigger] books[i]).id != (#[trigger] books[j]).id
    &&& forall|i: int| 0 <= i < books.len() ==> (#[trigger] books[i]).pages >= 1
}

/// Capability contract every storage backend implements.
///
/// Each operation either returns its result or fails with `StorageError`
/// for a backend fault; `update_book_status` alone also reports `NotFound`.
/// The contract demands pre-validated input (page counts at least one), so
/// validation stays centralized in the service layer above.
pub trait CatalogRepo: Sized {
    /// The persisted books, in the backend's stable listing order.
    spec fn books(&self) -> Seq<Book>;

    /// The persisted notes, in the backend's stable listing order.
    spec fn notes(&self) -> Seq<Note>;

    /// The backend's internal invariant.
    spec fn inv(&self) -> bool;

    /// A backend satisfying its invariant holds a well-formed book store.
    proof fn inv_books_wf(&self)
        requires
            self.inv(),
        ensures
            books_wf(self.books()),
    ;

    /// Looks a book up by identity; absence is not an error.
    fn get_book_by_id(&self, book_id: i32) -> (r: Result<Option<Book>, GraphQLError>)
        requires
            self.inv(),
        ensures
            match r {
                Ok(found) => found == find_book(self.books(), book_id),
                Err(e) => e is StorageError,
            },
    ;

    /// Looks a book up by exact title; absence is not an error.
    fn get_book_by_title(&self, title: String) -> (r: Result<Option<Book>, GraphQLError>)
        requires
            self.inv(),
        ensures
            match r {
                Ok(found) => found == find_book_by_title(self.books(), title@),
                Err(e) => e is StorageError,
            },
    ;

    /// Lists books, optionally restricted to one status, in stable order.
    fn get_books(&self, status: Option<ReadingStatus>) -> (r: Result<Vec<Book>, GraphQLError>)
        requires
            self.inv(),
        ensures
            match r {
                Ok(v) => v@ == filter_books(self.books(), status),
                Err(e) => e is StorageError,
            },
    ;

    /// Persists a pre-validated book, assigning it a previously unseen
    /// identity and appending it in listing order.
    fn add_book(&mut self, input: crate::model::AddBookInput) -> (r: Result<Book, GraphQLError>)
        requires
            old(self).inv(),
            input.pages >= 1,
        ensures
            final(self).inv(),
            match r {
                Ok(b) => {
                    &&& crate::model::book_has_input_fields(b, input)
                    &&& fresh_book_id(old(self).books(), b.id)
                    &&& final(self).books() == old(self).books().push(b)
                    &&& final(self).notes() == old(self).notes()
                },
                Err(e) => {
                    &&& e is StorageError
                    &&& final(self).books() == old(self).books()
                    &&& final(self).notes() == old(self).notes()
                },
            },
    ;

    /// Applies a status atomically and returns the updated book; fails
    /// with `NotFound` when no book carries the identity.
    fn update_book_status(&mut self, book_id: i32, status: ReadingStatus) -> (r: Result<
        Book,
        GraphQLError,
    >)
        requires
            old(self).inv(),
        ensures
            final(self).inv(),
            match r {
                Ok(b) => {
                    &&& find_book(old(self).books(), book_id) matches Some(b0) && b == with_status(
                        b0,
                        status,
                    )
                    &&& final(self).books() == set_book_status(
                        old(self).books(),
                        book_id,
                        status,
                    )
                    &&& final(self).notes() == old(self).notes()
                },
                Err(e) => {
                    &&& final(self).books() == old(self).books()
                    &&& final(self).notes() == old(self).notes()
                    &&& (e is NotFound && find_book(old(self).books(), book_id) is None)
                        || e is StorageError
                },
            },
    ;

    /// Lists the notes of one book; an unknown book yields an empty list.
    fn get_notes_by_book(&self, book_id: i32) -> (r: Result<Vec<Note>, GraphQLError>)
        requires
            self.inv(),
        ensures
            match r {
                Ok(v) => v@ == notes_for_book(self.notes(), book_id),
                Err(e) => e is StorageError,
            },
    ;

    /// Persists a note, assigning it a previously unseen identity and
    /// appending it in listing order. The page bound is the service's
    /// responsibility, not checked here.
    fn add_note(&mut self, input: crate::model::AddNoteInput) -> (r: Result<Note, GraphQLError>)
        requires
            old(self).inv(),
        ensures
            final(self).inv(),
            match r {
                Ok(n) => {
                    &&& n.book_id == input.book_id
                    &&& n.note == input.note
                    &&& n.page == input.page
                    &&& fresh_note_id(old(self).notes(), n.id)
                    &&& final(self).notes() == old(self).notes().push(n)
                    &&& final(self).books() == old(self).books()
                },
                Err(e) => {
                    &&& e is StorageError
                    &&& final(self).books() == old(self).books()
                    &&& final(self).notes() == old(self).notes()
                },
            },
    ;
}

/// In-memory backend: the reference store for tests and for running
/// without a database. Books and notes are kept in insertion order;
/// identities come from monotonically increasing counters, so an identity
/// is never reused.
#[derive(Debug)]
pub struct MemoryRepository {
    books: Vec<Book>,
    notes: Vec<Note>,
    next_book_id: i32,
    next_note_id: i32,
}

impl MemoryRepository {
    /// An empty store; identity assignment starts at one.
    pub fn new() -> (r: Self)
        ensures
            r.inv(),
            r.books() == Seq::<Book>::empty(),
            r.notes() == Seq::<Note>::empty(),
    {
        MemoryRepository { books: Vec::new(), notes: Vec::new(), next_book_id: 1, next_note_id: 1 }
    }

    /// Index of the book carrying `book_id`, when the store holds one.
    fn find_index(books: &Vec<Book>, book_id: i32) -> (r: Option<usize>)
        ensures
            match r {
                Some(i) => i < books@.len() && books@[i as int].id == book_id && find_book(
                    books@,
                    book_id,
                ) == Some(books@[i as int]),
                None => find_book(books@, book_id) is None,
            },
    {
        let mut i: usize = 0;
        assert(books@.skip(0) =~= books@);
        while i < books.len()
            invariant
                i <= books@.len(),
                find_book(books@, book_id) == find_book(books@.skip(i as int), book_id),
                forall|j: int| 0 <= j < i ==> (#[trigger] books@[j]).id != book_id,
            decreases books@.len() - i,
        {
            if books[i].id == book_id {
                assert(books@.skip(i as int)[0] == books@[i as int]);
                return Some(i);
            }
            assert(books@.skip(i as int).drop_first() =~= books@.skip(i as int + 1));
            i += 1;
        }
        assert(books@.skip(books@.len() as int) =~= Seq::<Book>::empty());
        None
    }
}

impl CatalogRepo for MemoryRepository {
    closed spec fn books(&self) -> Seq<Book> {
        self.books@
    }

    closed spec fn notes(&self) -> Seq<Note> {
        self.notes@
    }

    closed spec fn inv(&self) -> bool {
        &&& books_wf(self.books@)
        &&& forall|i: int|
            0 <= i < self.books@.len() ==> (#[trigger] self.books@[i]).id < self.next_book_id
        &&& forall|i: int|
            0 <= i < self.notes@.len() ==> (#[trigger] self.notes@[i]).id < self.next_note_id
    }

    proof fn inv_books_wf(&self) {
    }

    fn get_book_by_id(&self, book_id: i32) -> (r: Result<Option<Book>, GraphQLError>) {
        match Self::find_index(&self.books, book_id) {
            Some(i) => Ok(Some(self.books[i].clone())),
            None => Ok(None),
        }
    }

    fn get_book_by_title(&self, title: String) -> (r: Result<Option<Book>, GraphQLError>) {
        let mut i: usize = 0;
        assert(self.books@.skip(0) =~= self.books@);
        while i < self.books.len()
            invariant
                i <= self.books@.len(),
                find_book_by_title(self.books@, title@) == find_book_by_title(
                    self.books@.skip(i as int),
                    title@,
                ),
            decreases self.books@.len() - i,
        {
            if self.books[i].title == title {
                assert(self.books@.skip(i as int)[0] == self.books@[i as int]);
                return Ok(Some(self.books[i].clone()));
            }
            assert(self.books@.skip(i as int).drop_first() =~= self.books@.skip(i as int + 1));
            i += 1;
        }
        assert(self.books@.skip(self.books@.len() as int) =~= Seq::<Book>::empty());
        Ok(None)
    }

    fn get_books(&self, status: Option<ReadingStatus>) -> (r: Result<Vec<Book>, GraphQLError>) {
        let mut out: Vec<Book> = Vec::new();
        let mut i: usize = 0;
        assert(filter_books(self.books@.take(0), status) == Seq::<Book>::empty()) by {
            assert(self.books@.take(0) =~= Seq::<Book>::empty());
        }
        while i < self.books.len()
            invariant
                i <= self.books@.len(),
                out@ == filter_books(self.books@.take(i as int), status),
            decreases self.books@.len() - i,
        {
            let b = &self.books[i];
            let keep = match status {
                None => true,
                Some(f) => b.status == f,
            };
            if keep {
                out.push(b.clone());
            }
            proof {
                broadcast use Seq::lemma_filter_push;

                self.books@.lemma_take_succ_push(i as int);
                assert(out@ == filter_books(self.books@.take(i as int + 1), status));
            }
            i += 1;
        }
        assert(self.books@.take(self.books@.len() as int) =~= self.books@);
        Ok(out)
    }

    fn add_book(&mut self, input: crate::model::AddBookInput) -> (r: Result<Book, GraphQLError>) {
        if self.next_book_id == i32::MAX {
            return Err(GraphQLError::StorageError);
        }
        let id = self.next_book_id;
        self.next_book_id = id + 1;
        let book = Book {
            id,
            title: input.title,
            author: input.author,
            image_url: input.image_url,
            year: input.year,
            pages: input.pages,
            status: match input.status {
                Some(st) => st,
                None => ReadingStatus::Unread,
            },
        };
        let ret = book.clone();
        self.books.push(book);
        Ok(ret)
    }

    fn update_book_status(&mut self, book_id: i32, status: ReadingStatus) -> (r: Result<
        Book,
        GraphQLError,
    >) {
        match Self::find_index(&self.books, book_id) {
            None => Err(GraphQLError::NotFound),
            Some(idx) => {
                let ghost prior = self.books@;
                let old_book = self.books[idx].clone();
                let updated = Book {
                    id: old_book.id,
                    title: old_book.title,
                    author: old_book.author,
                    image_url: old_book.image_url,
                    year: old_book.year,
                    pages: old_book.pages,
                    status,
                };
                let ret = updated.clone();
                self.books[idx] = updated;
                proof {
                    assert forall|j: int| 0 <= j < prior.len() && j != idx implies (
                    #[trigger] prior[j]).id != book_id by {
                        assert(prior[idx as int].id == book_id);
                    }
                    assert(self.books@ =~= set_book_status(prior, book_id, status));
                }
                Ok(ret)
            },
        }
    }

    fn get_notes_by_book(&self, book_id: i32) -> (r: Result<Vec<Note>, GraphQLError>) {
        let mut out: Vec<Note> = Vec::new();
        let mut i: usize = 0;
        assert(notes_for_book(self.notes@.take(0), book_id) == Seq::<Note>::empty()) by {
            assert(self.notes@.take(0) =~= Seq::<Note>::empty());
        }
        while i < self.notes.len()
            invariant
                i <= self.notes@.len(),
                out@ == notes_for_book(self.notes@.take(i as int), book_id),
            decreases self.notes@.len() - i,
        {
            let n = &self.notes[i];
            if n.book_id == book_id {
                out.push(n.clone());
            }
            proof {
                broadcast use Seq::lemma_filter_push;

                self.notes@.lemma_take_succ_push(i as int);
                assert(out@ == notes_for_book(self.notes@.take(i as int + 1), book_id));
            }
            i += 1;
        }
        assert(self.notes@.take(self.notes@.len() as int) =~= self.notes@);
        Ok(out)
    }

    fn add_note(&mut self, input: crate::model::AddNoteInput) -> (r: Result<Note, GraphQLError>) {
        if self.next_note_id == i32::MAX {
            return Err(GraphQLError::StorageError);
        }
        let id = self.next_note_id;
        self.next_note_id = id + 1;
        let note = Note { id, book_id: input.book_id, note: input.note, page: input.page };
        let ret = note.clone();
        self.notes.push(note);
        Ok(ret)
    }
}

/// Row of the durable backend's book table. The status column carries the
/// canonical string, decoded here when a row becomes a domain book.
#[derive(Debug)]
pub struct SqlBook {
    pub id: i32,
    pub title: String,
    pub author: String,
    pub image_url: Option<String>,
    pub year: i32,
    pub pages: i32,
    pub status: String,
}

impl SqlBook {
    /// Turns a database row into a domain book, decoding the status
    /// column; a status string outside the closed enumeration is fatal.
    pub fn into_book(self) -> (r: Result<Book, GraphQLError>)
        ensures
            match r {
                Ok(b) => {
                    &&& status_of_chars(self.status@) == Some(b.status)
                    &&& b.id == self.id
                    &&& b.title == self.title
                    &&& b.author == self.author
                    &&& b.image_url == self.image_url
                    &&& b.year == self.year
                    &&& b.pages == self.pages
                },
                Err(e) => status_of_chars(self.status@) is None && e is InvalidStatus,
            },
    {
        let status = match ReadingStatus::from_str(self.status.as_str()) {
            Ok(st) => st,
            Err(e) => {
                return Err(e);
            },
        };
        Ok(
            Book {
                id: self.id,
                title: self.title,
                author: self.author,
                image_url: self.image_url,
                year: self.year,
                pages: self.pages,
                status,
            },
        )
    }
}

/// Row of the durable backend's note table.
#[derive(Debug)]
pub struct SqlNote {
    pub id: i32,
    pub book_id: i32,
    pub note: String,
    pub page: Option<i32>,
}

impl SqlNote {
    /// Turns a database row into a domain note, field for field.
    pub fn into_note(self) -> (r: Note)
        ensures
            r.id == self.id,
            r.book_id == self.book_id,
            r.note == self.note,
            r.page == self.page,
    {
        Note { id: self.id, book_id: self.book_id, note: self.note, page: self.page }
    }
}

} // verus!
