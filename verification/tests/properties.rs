//! Scenario coverage for the catalog's stated behavior: insert
//! validation, import merging, year parsing, status filtering, selector
//! rules, and the status string codec.

use borges::books_api::BooksApi;
use borges::books_api::ImageLinks;
use borges::books_api::Volume;
use borges::books_api::page_count_default;
use borges::model::AddBookInput;
use borges::model::AddGoogleBookInput;
use borges::model::AddNoteInput;
use borges::model::GraphQLError;
use borges::model::ReadingStatus;
use borges::repository::CatalogRepo;
use borges::repository::MemoryRepository;
use borges::repository::SqlBook;
use borges::repository::SqlNote;
use borges::service::Mutation;
use borges::service::Query;

fn plain_book(title: &str, pages: i32, status: Option<ReadingStatus>) -> AddBookInput {
    AddBookInput {
        title: title.to_string(),
        author: "someone".to_string(),
        image_url: None,
        year: 2000,
        pages,
        status,
    }
}

fn sample_volume() -> Volume {
    Volume {
        title: "External Title".to_string(),
        authors: vec!["First Author".to_string(), "Second Author".to_string()],
        page_count: 321,
        published_date: "1973-01-01".to_string(),
        image_links: Some(ImageLinks { thumbnail: "http://example.net/t.jpg".to_string() }),
    }
}

fn no_overrides(id: &str) -> AddGoogleBookInput {
    AddGoogleBookInput {
        google_books_id: id.to_string(),
        title: None,
        author: None,
        image_url: None,
        year: None,
        pages: None,
        status: None,
    }
}

#[test]
fn add_book_returns_input_fields_and_fresh_ids() {
    let mut repo = MemoryRepository::new();
    let m = Mutation;
    let first = m.add_book(&mut repo, plain_book("a", 10, None)).unwrap();
    assert!(first.success);
    assert_eq!(first.book.title, "a");
    assert_eq!(first.book.author, "someone");
    assert_eq!(first.book.year, 2000);
    assert_eq!(first.book.pages, 10);
    assert_eq!(first.book.status, ReadingStatus::Unread);
    let second = m
        .add_book(&mut repo, plain_book("b", 20, Some(ReadingStatus::Read)))
        .unwrap();
    assert_eq!(second.book.status, ReadingStatus::Read);
    assert_ne!(first.book.id, second.book.id);
    let third = m.add_book(&mut repo, plain_book("c", 1, None)).unwrap();
    assert_ne!(third.book.id, first.book.id);
    assert_ne!(third.book.id, second.book.id);
}

#[test]
fn add_book_rejects_page_counts_below_one() {
    let mut repo = MemoryRepository::new();
    let m = Mutation;
    let q = Query;
    m.add_book(&mut repo, plain_book("kept", 5, None)).unwrap();
    for bad_pages in [0, -1, -100] {
        let r = m.add_book(&mut repo, plain_book("rejected", bad_pages, None));
        assert_eq!(
            r.unwrap_err(),
            GraphQLError::InvalidInput("pages < 1".to_string())
        );
    }
    let books = q.books(&repo, None).unwrap();
    assert_eq!(books.len(), 1);
    assert_eq!(books[0].title, "kept");
}

#[test]
fn note_rejected_when_book_missing() {
    let mut repo = MemoryRepository::new();
    let m = Mutation;
    m.add_book(&mut repo, plain_book("only", 50, None)).unwrap();
    let r = m.add_note(
        &mut repo,
        AddNoteInput { book_id: 9999, note: "orphan".to_string(), page: None },
    );
    assert_eq!(
        r.unwrap_err(),
        GraphQLError::InvalidInput("book not found".to_string())
    );
    assert_eq!(repo.get_notes_by_book(9999).unwrap().len(), 0);
    assert_eq!(repo.get_notes_by_book(1).unwrap().len(), 0);
}

#[test]
fn note_page_bounds_follow_the_book() {
    let mut repo = MemoryRepository::new();
    let m = Mutation;
    m.add_book(&mut repo, plain_book("hundred", 100, None)).unwrap();
    let note = |page| AddNoteInput { book_id: 1, note: "n".to_string(), page };
    assert_eq!(
        m.add_note(&mut repo, note(Some(101))).unwrap_err(),
        GraphQLError::InvalidInput("page too high".to_string())
    );
    assert_eq!(
        m.add_note(&mut repo, note(Some(0))).unwrap_err(),
        GraphQLError::InvalidInput("page too low".to_string())
    );
    assert_eq!(
        m.add_note(&mut repo, note(Some(-3))).unwrap_err(),
        GraphQLError::InvalidInput("page too low".to_string())
    );
    assert!(m.add_note(&mut repo, note(Some(100))).unwrap().success);
    assert!(m.add_note(&mut repo, note(Some(1))).unwrap().success);
    assert!(m.add_note(&mut repo, note(None)).unwrap().success);
    assert_eq!(repo.get_notes_by_book(1).unwrap().len(), 3);
}

#[test]
fn google_import_overrides_title_and_falls_back_elsewhere() {
    let mut repo = MemoryRepository::new();
    let m = Mutation;
    let mut input = no_overrides("vol-1");
    input.title = Some("X".to_string());
    let payload = m
        .add_google_book(&mut repo, input, Some(sample_volume()))
        .unwrap();
    assert!(payload.success);
    assert_eq!(payload.book.title, "X");
    assert_eq!(payload.book.author, "First Author");
    assert_eq!(payload.book.pages, 321);
    assert_eq!(payload.book.year, 1973);
    assert_eq!(
        payload.book.image_url,
        Some("http://example.net/t.jpg".to_string())
    );
    assert_eq!(payload.book.status, ReadingStatus::Unread);
}

#[test]
fn google_import_year_is_lenient() {
    let m = Mutation;
    for (date, expected) in [("1973-01-01", 1973), ("bad", 0), ("", 0)] {
        let mut repo = MemoryRepository::new();
        let mut volume = sample_volume();
        volume.published_date = date.to_string();
        let payload = m
            .add_google_book(&mut repo, no_overrides("vol-2"), Some(volume))
            .unwrap();
        assert_eq!(payload.book.year, expected);
    }
}

#[test]
fn google_import_failure_modes() {
    let m = Mutation;

    let mut repo = MemoryRepository::new();
    let r = m.add_google_book(&mut repo, no_overrides("vol-3"), None);
    assert_eq!(r.unwrap_err(), GraphQLError::ExternalLookupFailed);

    let mut volume = sample_volume();
    volume.authors = Vec::new();
    let r = m.add_google_book(&mut repo, no_overrides("vol-4"), Some(volume));
    assert_eq!(
        r.unwrap_err(),
        GraphQLError::InvalidInput("no author".to_string())
    );

    let mut bad_pages = no_overrides("vol-5");
    bad_pages.pages = Some(0);
    let r = m.add_google_book(&mut repo, bad_pages, Some(sample_volume()));
    assert_eq!(
        r.unwrap_err(),
        GraphQLError::InvalidInput("pages < 1".to_string())
    );

    let mut volume = sample_volume();
    volume.page_count = 0;
    let r = m.add_google_book(&mut repo, no_overrides("vol-6"), Some(volume));
    assert_eq!(
        r.unwrap_err(),
        GraphQLError::InvalidInput("pages < 1".to_string())
    );

    let q = Query;
    assert_eq!(q.books(&repo, None).unwrap().len(), 0);
}

#[test]
fn google_import_missing_cover_becomes_empty_url() {
    let mut repo = MemoryRepository::new();
    let m = Mutation;
    let mut volume = sample_volume();
    volume.image_links = None;
    let payload = m
        .add_google_book(&mut repo, no_overrides("vol-7"), Some(volume))
        .unwrap();
    assert_eq!(payload.book.image_url, Some(String::new()));
}

#[test]
fn update_status_changes_only_the_status() {
    let mut repo = MemoryRepository::new();
    let m = Mutation;
    let q = Query;
    m.add_book(&mut repo, plain_book("one", 11, None)).unwrap();
    m.add_book(&mut repo, plain_book("two", 22, None)).unwrap();
    let r = m.update_book_status(
        &mut repo,
        borges::model::UpdateBookStatusInput { book_id: 77, status: ReadingStatus::Reading },
    );
    assert_eq!(r.unwrap_err(), GraphQLError::NotFound);
    let payload = m
        .update_book_status(
            &mut repo,
            borges::model::UpdateBookStatusInput { book_id: 1, status: ReadingStatus::Reading },
        )
        .unwrap();
    assert_eq!(payload.book.status, ReadingStatus::Reading);
    let one = q.book(&repo, Some(1), None).unwrap().unwrap();
    assert_eq!(one.status, ReadingStatus::Reading);
    assert_eq!(one.title, "one");
    assert_eq!(one.pages, 11);
    let two = q.book(&repo, Some(2), None).unwrap().unwrap();
    assert_eq!(two.status, ReadingStatus::Unread);
}

#[test]
fn status_filters_partition_the_store() {
    let mut repo = MemoryRepository::new();
    let m = Mutation;
    let q = Query;
    let statuses = [
        Some(ReadingStatus::Unread),
        Some(ReadingStatus::Reading),
        Some(ReadingStatus::Read),
        None,
        Some(ReadingStatus::Read),
        Some(ReadingStatus::Unread),
    ];
    for (i, st) in statuses.iter().enumerate() {
        m.add_book(&mut repo, plain_book(&format!("b{}", i), 10, *st)).unwrap();
    }
    let unread = q.books(&repo, Some(ReadingStatus::Unread)).unwrap();
    let reading = q.books(&repo, Some(ReadingStatus::Reading)).unwrap();
    let read = q.books(&repo, Some(ReadingStatus::Read)).unwrap();
    let all = q.books(&repo, None).unwrap();
    assert_eq!(all.len(), 6);
    assert_eq!(unread.len() + reading.len() + read.len(), 6);
    assert_eq!(unread.len(), 3);
    assert_eq!(reading.len(), 1);
    assert_eq!(read.len(), 2);
    for b in &unread {
        assert_eq!(b.status, ReadingStatus::Unread);
    }
    for b in &read {
        assert_eq!(b.status, ReadingStatus::Read);
    }
    // backend-stable order: filtered listings keep insertion order
    assert_eq!(read[0].title, "b2");
    assert_eq!(read[1].title, "b4");
    assert_eq!(unread[0].title, "b0");
    assert_eq!(unread[1].title, "b3");
    assert_eq!(unread[2].title, "b5");
}

#[test]
fn get_book_selector_rules() {
    let mut repo = MemoryRepository::new();
    let m = Mutation;
    let q = Query;
    m.add_book(&mut repo, plain_book("first", 10, None)).unwrap();
    m.add_book(&mut repo, plain_book("second", 10, None)).unwrap();
    let r = q.book(&repo, None, None);
    assert_eq!(
        r.unwrap_err(),
        GraphQLError::InvalidInput("missing selector".to_string())
    );
    // both selectors supplied: the id lookup wins over a different title
    let found = q
        .book(&repo, Some(1), Some("second".to_string()))
        .unwrap()
        .unwrap();
    assert_eq!(found.id, 1);
    assert_eq!(found.title, "first");
    // an unknown id is an absent result, not an error
    assert!(q.book(&repo, Some(42), None).unwrap().is_none());
}

#[test]
fn status_strings_round_trip() {
    let cases = [
        (ReadingStatus::Unread, "unread"),
        (ReadingStatus::Reading, "reading"),
        (ReadingStatus::Read, "read"),
    ];
    for (st, text) in cases {
        assert_eq!(st.canonical(), text);
        assert_eq!(ReadingStatus::from_str(text).unwrap(), st);
    }
    assert_eq!(
        ReadingStatus::from_str("Unread").unwrap_err(),
        GraphQLError::InvalidStatus
    );
    assert_eq!(
        ReadingStatus::from_str("").unwrap_err(),
        GraphQLError::InvalidStatus
    );
    assert_eq!(ReadingStatus::default(), ReadingStatus::Unread);
}

#[test]
fn sql_rows_become_domain_values() {
    let row = SqlBook {
        id: 7,
        title: "t".to_string(),
        author: "a".to_string(),
        image_url: None,
        year: 1990,
        pages: 12,
        status: "reading".to_string(),
    };
    let book = row.into_book().unwrap();
    assert_eq!(book.id, 7);
    assert_eq!(book.status, ReadingStatus::Reading);

    let bad = SqlBook {
        id: 8,
        title: "t".to_string(),
        author: "a".to_string(),
        image_url: None,
        year: 1990,
        pages: 12,
        status: "READ".to_string(),
    };
    assert_eq!(bad.into_book().unwrap_err(), GraphQLError::InvalidStatus);

    let note_row = SqlNote { id: 3, book_id: 7, note: "n".to_string(), page: Some(2) };
    let note = note_row.into_note();
    assert_eq!(note.id, 3);
    assert_eq!(note.book_id, 7);
    assert_eq!(note.note, "n");
    assert_eq!(note.page, Some(2));
}

#[test]
fn search_results_shape_fetched_volumes() {
    let with_cover = sample_volume();
    let mut without_cover = sample_volume();
    without_cover.image_links = None;
    without_cover.published_date = "bad".to_string();
    let items = vec![
        ("id-1".to_string(), with_cover),
        ("id-2".to_string(), without_cover),
    ];
    let results = BooksApi::search_results(items);
    assert_eq!(results.len(), 2);
    assert_eq!(results[0].id, "id-1");
    assert_eq!(results[0].title, "External Title");
    assert_eq!(results[0].authors.len(), 2);
    assert_eq!(results[0].authors[0], "First Author");
    assert_eq!(results[0].pages, 321);
    assert_eq!(results[0].year, 1973);
    assert_eq!(
        results[0].image_url,
        Some("http://example.net/t.jpg".to_string())
    );
    assert_eq!(results[1].id, "id-2");
    assert_eq!(results[1].year, 0);
    assert_eq!(results[1].image_url, Some(String::new()));
    assert_eq!(page_count_default(), 0);
}

#[test]
fn error_messages_are_caller_facing() {
    assert_eq!(
        GraphQLError::InvalidInput("pages < 1".to_string()).message(),
        "pages < 1"
    );
    assert_eq!(GraphQLError::NotFound.message(), "not found");
    assert_eq!(GraphQLError::StorageError.message(), "storage error");
    assert_eq!(
        GraphQLError::ExternalLookupFailed.message(),
        "external lookup failed"
    );
    assert_eq!(
        GraphQLError::InvalidStatus.message(),
        "invalid reading status"
    );
}
