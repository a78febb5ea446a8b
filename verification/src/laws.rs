//! Catalog-wide properties, proved over the storage model that the
//! repository contract and the service contracts are stated in.

use vstd::prelude::*;

use crate::model::Book;
use crate::model::ReadingStatus;
use crate::repository::books_wf;
use crate::repository::filter_books;
use crate::repository::find_book;
use crate::repository::fresh_book_id;
use crate::repository::set_book_status;
use crate::repository::with_status;

verus! {

/// A freshly appended book is found under its own identity, and looking
/// up any other identity is unaffected by the append. Together with the
/// repository contract this says an insert creates exactly one row.
pub proof fn lemma_find_book_push(books: Seq<Book>, b: Book, id: i32)
    ensures
        fresh_book_id(books, b.id) && id == b.id ==> find_book(books.push(b), id) == Some(b),
        id != b.id ==> find_book(books.push(b), id) == find_book(books, id),
    decreases books.len(),
{
    if books.len() == 0 {
        assert(books.push(b)[0] == b);
        assert(books.push(b).drop_first() =~= Seq::<Book>::empty());
    } else {
        assert(books.push(b)[0] == books[0]);
        assert(books.push(b).drop_first() =~= books.drop_first().push(b));
        assert(fresh_book_id(books, b.id) ==> fresh_book_id(books.drop_first(), b.id)) by {
            assert(forall|i: int|
                0 <= i < books.drop_first().len() ==> #[trigger] books.drop_first()[i] == books[i
                    + 1]);
        }
        lemma_find_book_push(books.drop_first(), b, id);
    }
}

/// After a status update, looking the updated book up yields it with the
/// new status and every other field unchanged, and looking up any other
/// identity yields exactly what it yielded before.
pub proof fn lemma_update_status_lookup(books: Seq<Book>, id: i32, st: ReadingStatus)
    ensures
        find_book(set_book_status(books, id, st), id) == match find_book(books, id) {
            Some(b) => Some(with_status(b, st)),
            None => None::<Book>,
        },
        forall|other: i32|
            other != id ==> find_book(set_book_status(books, id, st), other) == find_book(
                books,
                other,
            ),
    decreases books.len(),
{
    let updated = set_book_status(books, id, st);
    if books.len() == 0 {
        assert(updated =~= Seq::<Book>::empty());
    } else {
        assert(updated.len() == books.len());
        assert(updated[0] == if books[0].id == id {
            with_status(books[0], st)
        } else {
            books[0]
        });
        assert(updated.drop_first() =~= set_book_status(books.drop_first(), id, st));
        lemma_update_status_lookup(books.drop_first(), id, st);
        assert(updated[0].id == books[0].id);
        assert forall|other: i32|
            other != id implies find_book(updated, other) == find_book(books, other) by {
            if books[0].id == other {
                assert(updated[0] == books[0]);
                assert(find_book(updated, other) == Some(books[0]));
            } else {
                assert(find_book(updated, other) == find_book(updated.drop_first(), other));
                assert(find_book(books, other) == find_book(books.drop_first(), other));
            }
        }
    }
}

/// An unfiltered listing returns every book; filtering by the three
/// statuses partitions the store: the counts add up to the whole store
/// (no omission), each filtered listing holds exactly the books of its
/// status, and no book appears under two filters (no overlap). Order is
/// preserved because a filtered listing is a subsequence of the store.
pub proof fn lemma_list_books_partition(books: Seq<Book>)
    ensures
        filter_books(books, None) == books,
        filter_books(books, Some(ReadingStatus::Unread)).len() + filter_books(
            books,
            Some(ReadingStatus::Reading),
        ).len() + filter_books(books, Some(ReadingStatus::Read)).len() == books.len(),
        forall|st: ReadingStatus, i: int|
            0 <= i < filter_books(books, Some(st)).len() ==> (#[trigger] filter_books(
                books,
                Some(st),
            )[i]).status == st,
        forall|i: int|
            0 <= i < books.len() ==> filter_books(books, Some((#[trigger] books[i]).status)).contains(
                books[i],
            ),
        forall|b: Book, st1: ReadingStatus, st2: ReadingStatus|
            st1 != st2 ==> !(#[trigger] filter_books(books, Some(st1)).contains(b)
                && #[trigger] filter_books(books, Some(st2)).contains(b)),
    decreases books.len(),
{
    broadcast use Seq::lemma_filter_push;
    broadcast use Seq::lemma_filter_pred;
    broadcast use Seq::lemma_filter_contains;

    if books.len() > 0 {
        lemma_list_books_partition(books.drop_last());
        assert(books.drop_last().push(books.last()) =~= books);
    }
    assert forall|b: Book, st1: ReadingStatus, st2: ReadingStatus|
        st1 != st2 implies !(#[trigger] filter_books(books, Some(st1)).contains(b)
        && #[trigger] filter_books(books, Some(st2)).contains(b)) by {
        if filter_books(books, Some(st1)).contains(b) && filter_books(books, Some(st2)).contains(
            b,
        ) {
            let i = choose|i: int|
                0 <= i < filter_books(books, Some(st1)).len() && filter_books(books, Some(st1))[i]
                    == b;
            let j = choose|j: int|
                0 <= j < filter_books(books, Some(st2)).len() && filter_books(books, Some(st2))[j]
                    == b;
            assert(b.status == st1 && b.status == st2);
        }
    }
}

/// Under a well-formed store an insert with a fresh identity leaves every
/// previously persisted book untouched: each old identity still resolves
/// to the very book it resolved to before.
pub proof fn lemma_insert_preserves_lookups(books: Seq<Book>, b: Book)
    requires
        books_wf(books),
        fresh_book_id(books, b.id),
    ensures
        find_book(books.push(b), b.id) == Some(b),
        forall|id: i32| id != b.id ==> find_book(books.push(b), id) == find_book(books, id),
{
    lemma_find_book_push(books, b, b.id);
    assert forall|id: i32| id != b.id implies find_book(books.push(b), id) == find_book(
        books,
        id,
    ) by {
        lemma_find_book_push(books, b, id);
    }
}

} // verus!
