//! The catalog service: every observable business rule lives here.
//!
//! Each operation validates its input, invokes the repository contract,
//! and surfaces the first failure without a partial write. The validation
//! kernels (`validate_add_book`, `validate_note_target`,
//! `merge_google_book`) are public on their own so that a caller driving a
//! backend the service cannot hold — one reached over a network — applies
//! exactly the same rules.

use vstd::prelude::*;
use vstd::string::StringExecFns;

use crate::books_api::BooksApi;
use crate::books_api::Volume;
use crate::books_api::spec_parse_year;
use crate::model::AddBookInput;
use crate::model::AddBookPayload;
use crate::model::AddGoogleBookInput;
use crate::model::AddNoteInput;
use crate::model::AddNotePayload;
use crate::model::Book;
use crate::model::GraphQLError;
use crate::model::Note;
use crate::model::ReadingStatus;
use crate::model::UpdateBookStatusInput;
use crate::model::UpdateBookStatusPayload;
use crate::model::book_has_input_fields;
use crate::model::effective_status;
use crate::model::is_invalid_input;
use crate::repository::CatalogRepo;
use crate::repository::filter_books;
use crate::repository::find_book;
use crate::repository::find_book_by_title;
use crate::repository::fresh_book_id;
use crate::repository::fresh_note_id;
use crate::repository::notes_for_book;
use crate::repository::set_book_status;
use crate::repository::with_status;

verus! {

/// A note page is acceptable against a book of `pages` pages when it is
/// absent, or within one and the page count inclusively.
pub open spec fn note_page_ok(page: Option<i32>, pages: i32) -> bool {
    match page {
        None => true,
        Some(p) => 1 <= p <= pages,
    }
}

/// The supplied page-count override exists and is below one.
pub open spec fn pages_override_invalid(input: AddGoogleBookInput) -> bool {
    match input.pages {
        Some(p) => p < 1,
        None => false,
    }
}

/// An author can be settled for an import: an override is present, or the
/// external record names at least one author to fall back on.
pub open spec fn google_author_ok(input: AddGoogleBookInput, v: Volume) -> bool {
    input.author is Some || v.authors@.len() > 0
}

/// Effective title of an import: the override, else the external one.
pub open spec fn merged_title(input: AddGoogleBookInput, v: Volume) -> String {
    match input.title {
        Some(t) => t,
        None => v.title,
    }
}

/// Effective author of an import: the override, else the first externally
/// named author.
pub open spec fn merged_author(input: AddGoogleBookInput, v: Volume) -> String {
    match input.author {
        Some(a) => a,
        None => v.authors@[0],
    }
}

/// Effective publication year of an import: the override, else the year
/// read from the external date string.
pub open spec fn merged_year(input: AddGoogleBookInput, v: Volume) -> int {
    match input.year {
        Some(y) => y as int,
        None => spec_parse_year(v.published_date@),
    }
}

/// Effective page count of an import: the override, else the external one.
pub open spec fn merged_pages(input: AddGoogleBookInput, v: Volume) -> int {
    match input.pages {
        Some(p) => p as int,
        None => v.page_count as int,
    }
}

/// Effective cover image of an import: the override, else the external
/// thumbnail, else an empty URL; never absent.
pub open spec fn merged_image_ok(u: Option<String>, input: AddGoogleBookInput, v: Volume) -> bool {
    match input.image_url {
        Some(o) => u == Some(o),
        None => match v.image_links {
            Some(links) => u == Some(links.thumbnail),
            None => u matches Some(s) && s@ == Seq::<char>::empty(),
        },
    }
}

/// Holds when `out` is the construction record an import of `v` under the
/// overrides of `input` must produce.
pub open spec fn merged_input_ok(out: AddBookInput, input: AddGoogleBookInput, v: Volume) -> bool {
    &&& out.title == merged_title(input, v)
    &&& out.author == merged_author(input, v)
    &&& merged_image_ok(out.image_url, input, v)
    &&& out.year as int == merged_year(input, v)
    &&& out.pages as int == merged_pages(input, v)
    &&& out.status == input.status
}

/// Holds when `b` is the book an import of `v` under the overrides of
/// `input` must persist, apart from the backend-assigned identity.
pub open spec fn google_book_fields(b: Book, input: AddGoogleBookInput, v: Volume) -> bool {
    &&& b.title == merged_title(input, v)
    &&& b.author == merged_author(input, v)
    &&& merged_image_ok(b.image_url, input, v)
    &&& b.year as int == merged_year(input, v)
    &&& b.pages as int == merged_pages(input, v)
    &&& b.status == effective_status(input.status)
}

/// Admits a book for insertion exactly when its page count is at least
/// one.
pub fn validate_add_book(input: &AddBookInput) -> (r: Result<(), GraphQLError>)
    ensures
        input.pages >= 1 <==> r is Ok,
        match r {
            Ok(u) => true,
            Err(e) => is_invalid_input(e, "pages < 1"@),
        },
{
    if input.pages < 1 {
        Err(GraphQLError::InvalidInput(String::from_str("pages < 1")))
    } else {
        Ok(())
    }
}

/// Admits a note against the looked-up book it references: the book must
/// exist and a supplied page must lie within its page bound. The upper
/// bound is checked before the lower, so the reported reason is
/// deterministic.
pub fn validate_note_target(book: &Option<Book>, page: Option<i32>) -> (r: Result<
    (),
    GraphQLError,
>)
    ensures
        match r {
            Ok(u) => book matches Some(b) && note_page_ok(page, b.pages),
            Err(e) => match book {
                None => is_invalid_input(e, "book not found"@),
                Some(b) => match page {
                    Some(p) => {
                        &&& !note_page_ok(page, b.pages)
                        &&& (p > b.pages ==> is_invalid_input(e, "page too high"@))
                        &&& (p <= b.pages ==> p < 1 && is_invalid_input(e, "page too low"@))
                    },
                    None => false,
                },
            },
        },
{
    let b = match book {
        Some(b) => b,
        None => {
            return Err(GraphQLError::InvalidInput(String::from_str("book not found")));
        },
    };
    if let Some(p) = page {
        if p > b.pages {
            return Err(GraphQLError::InvalidInput(String::from_str("page too high")));
        }
        if p < 1 {
            return Err(GraphQLError::InvalidInput(String::from_str("page too low")));
        }
    }
    Ok(())
}

/// Builds the effective construction record of an import: every supplied
/// override wins over the corresponding external value, absent overrides
/// fall back to it, and the effective page count passes the same
/// validation as a hand-entered book. The checks run in a fixed order —
/// invalid override, failed lookup, missing author, invalid effective page
/// count — and the first failure is the one reported.
pub fn merge_google_book(input: AddGoogleBookInput, fetched: Option<Volume>) -> (r: Result<
    AddBookInput,
    GraphQLError,
>)
    ensures
        pages_override_invalid(input) ==> (r matches Err(e) && is_invalid_input(
            e,
            "pages < 1"@,
        )),
        !pages_override_invalid(input) && fetched is None ==> (r matches Err(e)
            && e is ExternalLookupFailed),
        !pages_override_invalid(input) ==> match fetched {
            Some(v) => {
                &&& !google_author_ok(input, v) ==> (r matches Err(e) && is_invalid_input(
                    e,
                    "no author"@,
                ))
                &&& google_author_ok(input, v) && merged_pages(input, v) < 1 ==> (r matches Err(e)
                    && is_invalid_input(e, "pages < 1"@))
                &&& google_author_ok(input, v) && merged_pages(input, v) >= 1 ==> (r matches Ok(
                    out,
                ) && merged_input_ok(out, input, v) && out.pages >= 1)
            },
            None => true,
        },
{
    if let Some(p) = input.pages {
        if p < 1 {
            return Err(GraphQLError::InvalidInput(String::from_str("pages < 1")));
        }
    }
    let v = match fetched {
        Some(v) => v,
        None => {
            return Err(GraphQLError::ExternalLookupFailed);
        },
    };
    let author = match input.author {
        Some(a) => a,
        None => {
            if v.authors.len() == 0 {
                return Err(GraphQLError::InvalidInput(String::from_str("no author")));
            }
            v.authors[0].clone()
        },
    };
    let title = match input.title {
        Some(t) => t,
        None => v.title,
    };
    let image = match input.image_url {
        Some(u) => u,
        None => match v.image_links {
            Some(links) => links.thumbnail,
            None => String::new(),
        },
    };
    let year = match input.year {
        Some(y) => y,
        None => BooksApi::parse_year(v.published_date),
    };
    let pages = match input.pages {
        Some(p) => p,
        None => v.page_count,
    };
    if pages < 1 {
        return Err(GraphQLError::InvalidInput(String::from_str("pages < 1")));
    }
    Ok(
        AddBookInput {
            title,
            author,
            image_url: Some(image),
            year,
            pages,
            status: input.status,
        },
    )
}

/// Read operations of the catalog service; pure delegation after argument
/// validation.
pub struct Query;

/// Write operations of the catalog service; each validates, performs at
/// most one repository write, and fails without partial effects.
pub struct Mutation;

impl Query {
    /// Fetches a book by identity or by exact title. Exactly one selector
    /// is needed; when both are supplied, the identity lookup wins.
    pub fn book<R: CatalogRepo>(
        &self,
        repo: &R,
        book_id: Option<i32>,
        title: Option<String>,
    ) -> (r: Result<Option<Book>, GraphQLError>)
        requires
            repo.inv(),
        ensures
            match book_id {
                Some(id) => match r {
                    Ok(found) => found == find_book(repo.books(), id),
                    Err(e) => e is StorageError,
                },
                None => match title {
                    Some(t) => match r {
                        Ok(found) => found == find_book_by_title(repo.books(), t@),
                        Err(e) => e is StorageError,
                    },
                    None => r matches Err(e) && is_invalid_input(e, "missing selector"@),
                },
            },
    {
        if let Some(id) = book_id {
            repo.get_book_by_id(id)
        } else if let Some(t) = title {
            repo.get_book_by_title(t)
        } else {
            Err(GraphQLError::InvalidInput(String::from_str("missing selector")))
        }
    }

    /// Lists books, optionally restricted to one status; pure delegation.
    pub fn books<R: CatalogRepo>(&self, repo: &R, status: Option<ReadingStatus>) -> (r: Result<
        Vec<Book>,
        GraphQLError,
    >)
        requires
            repo.inv(),
        ensures
            match r {
                Ok(v) => v@ == filter_books(repo.books(), status),
                Err(e) => e is StorageError,
            },
    {
        repo.get_books(status)
    }
}

impl Mutation {
    /// Adds a hand-entered book: rejects a page count below one, then
    /// delegates to the repository insert.
    pub fn add_book<R: CatalogRepo>(&self, repo: &mut R, input: AddBookInput) -> (r: Result<
        AddBookPayload,
        GraphQLError,
    >)
        requires
            old(repo).inv(),
        ensures
            final(repo).inv(),
            final(repo).notes() == old(repo).notes(),
            input.pages < 1 ==> (r matches Err(e) && is_invalid_input(e, "pages < 1"@)
                && final(repo).books() == old(repo).books()),
            input.pages >= 1 ==> match r {
                Ok(p) => {
                    &&& p.success
                    &&& book_has_input_fields(p.book, input)
                    &&& fresh_book_id(old(repo).books(), p.book.id)
                    &&& final(repo).books() == old(repo).books().push(p.book)
                },
                Err(e) => e is StorageError && final(repo).books() == old(repo).books(),
            },
    {
        match validate_add_book(&input) {
            Err(e) => Err(e),
            Ok(u) => match repo.add_book(input) {
                Ok(book) => Ok(AddBookPayload { book, success: true }),
                Err(e) => Err(e),
            },
        }
    }

    /// Imports a book from the external metadata collaborator. The caller
    /// performs the lookup and hands in its outcome; this operation merges
    /// overrides, validates the effective record, and persists it.
    pub fn add_google_book<R: CatalogRepo>(
        &self,
        repo: &mut R,
        input: AddGoogleBookInput,
        fetched: Option<Volume>,
    ) -> (r: Result<AddBookPayload, GraphQLError>)
        requires
            old(repo).inv(),
        ensures
            final(repo).inv(),
            final(repo).notes() == old(repo).notes(),
            match r {
                Ok(p) => {
                    &&& p.success
                    &&& !pages_override_invalid(input)
                    &&& fetched matches Some(v) && google_author_ok(input, v) && merged_pages(
                        input,
                        v,
                    ) >= 1 && google_book_fields(p.book, input, v)
                    &&& fresh_book_id(old(repo).books(), p.book.id)
                    &&& final(repo).books() == old(repo).books().push(p.book)
                },
                Err(e) => {
                    &&& final(repo).books() == old(repo).books()
                    &&& {
                        ||| (pages_override_invalid(input) && is_invalid_input(e, "pages < 1"@))
                        ||| (!pages_override_invalid(input) && fetched is None
                            && e is ExternalLookupFailed)
                        ||| (!pages_override_invalid(input) && (fetched matches Some(v)
                            && !google_author_ok(input, v)) && is_invalid_input(e, "no author"@))
                        ||| (!pages_override_invalid(input) && (fetched matches Some(v)
                            && google_author_ok(input, v) && merged_pages(input, v) < 1)
                            && is_invalid_input(e, "pages < 1"@))
                        ||| e is StorageError
                    }
                },
            },
            !pages_override_invalid(input) && (fetched matches Some(v) && google_author_ok(
                input,
                v,
            ) && merged_pages(input, v) >= 1) ==> (r is Ok || (r matches Err(e)
                && e is StorageError)),
            pages_override_invalid(input) ==> (r matches Err(e) && is_invalid_input(
                e,
                "pages < 1"@,
            )),
            !pages_override_invalid(input) && fetched is None ==> (r matches Err(e)
                && e is ExternalLookupFailed),
            !pages_override_invalid(input) ==> match fetched {
                Some(v) => {
                    &&& !google_author_ok(input, v) ==> (r matches Err(e) && is_invalid_input(
                        e,
                        "no author"@,
                    ))
                    &&& google_author_ok(input, v) && merged_pages(input, v) < 1 ==> (
                    r matches Err(e) && is_invalid_input(e, "pages < 1"@))
                },
                None => true,
            },
    {
        match merge_google_book(input, fetched) {
            Err(e) => Err(e),
            Ok(book_input) => match repo.add_book(book_input) {
                Ok(book) => Ok(AddBookPayload { book, success: true }),
                Err(e) => Err(e),
            },
        }
    }

    /// Updates a book's reading status; pure delegation, `NotFound`
    /// propagates unchanged.
    pub fn update_book_status<R: CatalogRepo>(
        &self,
        repo: &mut R,
        input: UpdateBookStatusInput,
    ) -> (r: Result<UpdateBookStatusPayload, GraphQLError>)
        requires
            old(repo).inv(),
        ensures
            final(repo).inv(),
            final(repo).notes() == old(repo).notes(),
            match r {
                Ok(p) => {
                    &&& p.success
                    &&& find_book(old(repo).books(), input.book_id) matches Some(b0) && p.book
                        == with_status(b0, input.status)
                    &&& final(repo).books() == set_book_status(
                        old(repo).books(),
                        input.book_id,
                        input.status,
                    )
                },
                Err(e) => {
                    &&& final(repo).books() == old(repo).books()
                    &&& (e is NotFound && find_book(old(repo).books(), input.book_id) is None)
                        || e is StorageError
                },
            },
    {
        match repo.update_book_status(input.book_id, input.status) {
            Ok(book) => Ok(UpdateBookStatusPayload { book, success: true }),
            Err(e) => Err(e),
        }
    }

    /// Adds a note: resolves the referenced book, validates the page
    /// against its bound, and only then delegates to the repository
    /// insert.
    pub fn add_note<R: CatalogRepo>(&self, repo: &mut R, input: AddNoteInput) -> (r: Result<
        AddNotePayload,
        GraphQLError,
    >)
        requires
            old(repo).inv(),
        ensures
            final(repo).inv(),
            final(repo).books() == old(repo).books(),
            match r {
                Ok(p) => {
                    &&& p.success
                    &&& find_book(old(repo).books(), input.book_id) matches Some(b)
                        && note_page_ok(input.page, b.pages)
                    &&& p.note.book_id == input.book_id
                    &&& p.note.note == input.note
                    &&& p.note.page == input.page
                    &&& fresh_note_id(old(repo).notes(), p.note.id)
                    &&& final(repo).notes() == old(repo).notes().push(p.note)
                },
                Err(e) => {
                    &&& final(repo).notes() == old(repo).notes()
                    &&& {
                        ||| e is StorageError
                        ||| match find_book(old(repo).books(), input.book_id) {
                            None => is_invalid_input(e, "book not found"@),
                            Some(b) => match input.page {
                                Some(p) => {
                                    &&& !note_page_ok(input.page, b.pages)
                                    &&& (p > b.pages ==> is_invalid_input(e, "page too high"@))
                                    &&& (p <= b.pages ==> p < 1 && is_invalid_input(
                                        e,
                                        "page too low"@,
                                    ))
                                },
                                None => false,
                            },
                        }
                    }
                },
            },
            (find_book(old(repo).books(), input.book_id) matches Some(b) && note_page_ok(
                input.page,
                b.pages,
            )) ==> (r is Ok || (r matches Err(e) && e is StorageError)),
    {
        let looked = match repo.get_book_by_id(input.book_id) {
            Ok(found) => found,
            Err(e) => {
                return Err(e);
            },
        };
        match validate_note_target(&looked, input.page) {
            Err(e) => Err(e),
            Ok(u) => match repo.add_note(input) {
                Ok(note) => Ok(AddNotePayload { note, success: true }),
                Err(e) => Err(e),
            },
        }
    }
}

impl Book {
    /// All notes attached to this book, in store order.
    pub fn notes<R: CatalogRepo>(&self, repo: &R) -> (r: Result<Vec<Note>, GraphQLError>)
        requires
            repo.inv(),
        ensures
            match r {
                Ok(v) => v@ == notes_for_book(repo.notes(), self.id),
                Err(e) => e is StorageError,
            },
    {
        repo.get_notes_by_book(self.id)
    }
}

} // verus!


