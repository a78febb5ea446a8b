//! Entity model of the catalog: books, notes, reading statuses, the input
//! records that mutations validate, and the error kinds every operation
//! reports.

use vstd::prelude::*;
use vstd::string::StringExecFns;

verus! {

/// Reading lifecycle of a catalogued book. The enumeration is closed: the
/// storage boundary only ever sees the three canonical lowercase strings.
#[derive(Clone, Copy, Debug, PartialEq, Eq, Structural)]
pub enum ReadingStatus {
    Unread,
    Reading,
    Read,
}

impl Default for ReadingStatus {
    /// A book starts out unread unless a status is supplied.
    fn default() -> (r: Self)
        ensures
            r == ReadingStatus::Unread,
    {
        ReadingStatus::Unread
    }
}

/// Canonical lowercase encoding of a status, used whenever a status crosses
/// the storage boundary.
pub open spec fn status_chars(s: ReadingStatus) -> Seq<char> {
    match s {
        ReadingStatus::Unread => "unread"@,
        ReadingStatus::Reading => "reading"@,
        ReadingStatus::Read => "read"@,
    }
}

/// Which status a storage-boundary string denotes, if any. Matching is
/// case-sensitive and exact; anything else is rejected, never defaulted.
pub open spec fn status_of_chars(s: Seq<char>) -> Option<ReadingStatus> {
    if s == "unread"@ {
        Some(ReadingStatus::Unread)
    } else if s == "reading"@ {
        Some(ReadingStatus::Reading)
    } else if s == "read"@ {
        Some(ReadingStatus::Read)
    } else {
        None
    }
}

impl ReadingStatus {
    /// The canonical string written at the storage boundary.
    pub fn canonical(&self) -> (r: String)
        ensures
            r@ == status_chars(*self),
    {
        match self {
            ReadingStatus::Unread => String::from_str("unread"),
            ReadingStatus::Reading => String::from_str("reading"),
            ReadingStatus::Read => String::from_str("read"),
        }
    }

    /// Decodes a storage-boundary string; an unrecognized string is fatal
    /// input and yields `InvalidStatus`, never a fallback value.
    pub fn from_str(s: &str) -> (r: Result<ReadingStatus, GraphQLError>)
        ensures
            match r {
                Ok(st) => status_of_chars(s@) == Some(st),
                Err(e) => status_of_chars(s@) is None && e is InvalidStatus,
            },
    {
        let t = s.to_owned();
        if t == String::from_str("unread") {
            Ok(ReadingStatus::Unread)
        } else if t == String::from_str("reading") {
            Ok(ReadingStatus::Reading)
        } else if t == String::from_str("read") {
            Ok(ReadingStatus::Read)
        } else {
            Err(GraphQLError::InvalidStatus)
        }
    }
}

/// Every value round-trips through its canonical string: encoding a status
/// and decoding the result gives the status back.
pub proof fn lemma_status_round_trip(s: ReadingStatus)
    ensures
        status_of_chars(status_chars(s)) == Some(s),
{
    reveal_strlit("unread");
    reveal_strlit("reading");
    reveal_strlit("read");
    assert("unread"@.len() == 6);
    assert("reading"@.len() == 7);
    assert("read"@.len() == 4);
}

/// Error kinds surfaced by catalog operations.
///
/// `InvalidInput` carries a caller-facing reason and is always recoverable
/// by correcting the request; `NotFound` reports the absence of a
/// specifically-addressed entity (filtered listings return empty instead);
/// `StorageError` is a backend fault, fatal for the operation and never
/// retried here; `ExternalLookupFailed` means the metadata collaborator
/// could not produce a result; `InvalidStatus` reports a storage-boundary
/// status string outside the closed enumeration.
#[derive(Debug, PartialEq, Eq)]
pub enum GraphQLError {
    InvalidInput(String),
    NotFound,
    StorageError,
    ExternalLookupFailed,
    InvalidStatus,
}

/// Holds when `e` is an `InvalidInput` carrying exactly the reason `m`.
pub open spec fn is_invalid_input(e: GraphQLError, m: Seq<char>) -> bool {
    match e {
        GraphQLError::InvalidInput(s) => s@ == m,
        _ => false,
    }
}

impl GraphQLError {
    /// Caller-facing description of the error.
    pub fn message(&self) -> (r: String)
        ensures
            match self {
                GraphQLError::InvalidInput(m) => r@ == m@,
                GraphQLError::NotFound => r@ == "not found"@,
                GraphQLError::StorageError => r@ == "storage error"@,
                GraphQLError::ExternalLookupFailed => r@ == "external lookup failed"@,
                GraphQLError::InvalidStatus => r@ == "invalid reading status"@,
            },
    {
        match self {
            GraphQLError::InvalidInput(m) => m.clone(),
            GraphQLError::NotFound => String::from_str("not found"),
            GraphQLError::StorageError => String::from_str("storage error"),
            GraphQLError::ExternalLookupFailed => String::from_str("external lookup failed"),
            GraphQLError::InvalidStatus => String::from_str("invalid reading status"),
        }
    }
}

/// A catalogued book. The backend assigns `id` on insert and never changes
/// it; `pages` is at least 1 once the book is persisted; `year` may be zero
/// for an unknown publication year.
#[derive(Debug)]
pub struct Book {
    /// The book ID
    pub id: i32,
    /// The title of the book
    pub title: String,
    /// The author of the book
    pub author: String,
    /// A link to an image of the book cover
    pub image_url: Option<String>,
    /// The year the book was published
    pub year: i32,
    /// The number of pages in the book
    pub pages: i32,
    /// The reading status of the book
    pub status: ReadingStatus,
}

impl Clone for Book {
    fn clone(&self) -> (r: Self)
        ensures
            r == *self,
    {
        Book {
            id: self.id,
            title: self.title.clone(),
            author: self.author.clone(),
            image_url: clone_optional_string(&self.image_url),
            year: self.year,
            pages: self.pages,
            status: self.status,
        }
    }
}

/// A free-form note attached to a book. Its lifecycle is independent once
/// created; `page`, when present, was within the referenced book's page
/// bound at creation time.
#[derive(Debug)]
pub struct Note {
    /// The note ID
    pub id: i32,
    /// The ID of the book this note references
    pub book_id: i32,
    /// The note content for a book
    pub note: String,
    /// An optional page number the note refers to
    pub page: Option<i32>,
}

impl Clone for Note {
    fn clone(&self) -> (r: Self)
        ensures
            r == *self,
    {
        Note {
            id: self.id,
            book_id: self.book_id,
            note: self.note.clone(),
            page: self.page,
        }
    }
}

/// Clones an optional string, preserving the value exactly.
fn clone_optional_string(s: &Option<String>) -> (r: Option<String>)
    ensures
        r == *s,
{
    match s {
        Some(u) => Some(u.clone()),
        None => None,
    }
}

/// Construction record for adding a book by hand; validated and converted
/// to a `Book` before insertion, never persisted itself.
#[derive(Debug)]
pub struct AddBookInput {
    /// The title of the book
    pub title: String,
    /// The author of the book
    pub author: String,
    /// A link to an image of the book cover
    pub image_url: Option<String>,
    /// The year the book was published
    pub year: i32,
    /// The number of pages in the book
    pub pages: i32,
    /// The reading status of the book; a book is unread when none is given
    pub status: Option<ReadingStatus>,
}

impl Clone for AddBookInput {
    fn clone(&self) -> (r: Self)
        ensures
            r == *self,
    {
        AddBookInput {
            title: self.title.clone(),
            author: self.author.clone(),
            image_url: clone_optional_string(&self.image_url),
            year: self.year,
            pages: self.pages,
            status: self.status,
        }
    }
}

/// Construction record for importing a book from the external metadata
/// collaborator. Every optional field overrides the corresponding external
/// value; an absent field falls back to it.
#[derive(Debug)]
pub struct AddGoogleBookInput {
    /// The external catalog's identifier of the book
    pub google_books_id: String,
    /// Overrides the externally supplied title when present
    pub title: Option<String>,
    /// Overrides the externally supplied author when present
    pub author: Option<String>,
    /// Overrides the externally supplied cover image URL when present
    pub image_url: Option<String>,
    /// Overrides the externally derived publication year when present
    pub year: Option<i32>,
    /// Overrides the externally supplied page count when present
    pub pages: Option<i32>,
    /// The reading status of the book; a book is unread when none is given
    pub status: Option<ReadingStatus>,
}

/// Payload returned by a successful book insertion.
#[derive(Debug)]
pub struct AddBookPayload {
    /// The book that was added
    pub book: Book,
    /// Did the operation succeed?
    pub success: bool,
}

/// Construction record for attaching a note to a book.
#[derive(Debug)]
pub struct AddNoteInput {
    /// The ID of the book this note references
    pub book_id: i32,
    /// The note content for a book
    pub note: String,
    /// An optional page number the note refers to
    pub page: Option<i32>,
}

impl Clone for AddNoteInput {
    fn clone(&self) -> (r: Self)
        ensures
            r == *self,
    {
        AddNoteInput {
            book_id: self.book_id,
            note: self.note.clone(),
            page: self.page,
        }
    }
}

/// Payload returned by a successful note insertion.
#[derive(Debug)]
pub struct AddNotePayload {
    /// The note that was added
    pub note: Note,
    /// Did the operation succeed?
    pub success: bool,
}

/// Input for changing a book's reading status.
#[derive(Debug)]
pub struct UpdateBookStatusInput {
    /// The ID of the book to update
    pub book_id: i32,
    /// The reading status to apply
    pub status: ReadingStatus,
}

/// Payload returned by a successful status update.
#[derive(Debug)]
pub struct UpdateBookStatusPayload {
    /// The book that was updated
    pub book: Book,
    /// Did the operation succeed?
    pub success: bool,
}

/// One hit from the external metadata collaborator's search; transient and
/// never persisted, only used to seed a book import.
#[derive(Debug)]
pub struct SearchResult {
    /// The external catalog's identifier of the hit
    pub id: String,
    /// The title of the book
    pub title: String,
    /// The authors of the book; the first entry is the canonical author
    pub authors: Vec<String>,
    /// The page count
    pub pages: i32,
    /// The year the book was published
    pub year: i32,
    /// An image URL of the book cover
    pub image_url: Option<String>,
}

/// The status a freshly inserted book carries: the supplied one, or unread
/// when none was supplied.
pub open spec fn effective_status(s: Option<ReadingStatus>) -> ReadingStatus {
    match s {
        Some(st) => st,
        None => ReadingStatus::Unread,
    }
}

/// Holds when `b` is exactly the book that persisting `input` must produce,
/// apart from the backend-assigned identity.
pub open spec fn book_has_input_fields(b: Book, input: AddBookInput) -> bool {
    &&& b.title == input.title
    &&& b.author == input.author
    &&& b.image_url == input.image_url
    &&& b.year == input.year
    &&& b.pages == input.pages
    &&& b.status == effective_status(input.status)
}

} // verus!
