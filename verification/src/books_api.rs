//! Pure parts of the external metadata lookup: the volume records the
//! collaborator returns, publication-year parsing, and the shaping of
//! fetched volumes into search results. The fetch itself is transport work
//! and stays outside the library.

use vstd::prelude::*;

use crate::model::SearchResult;

verus! {

/// Cover-image links of an externally catalogued volume.
#[derive(Debug)]
pub struct ImageLinks {
    pub thumbnail: String,
}

impl Clone for ImageLinks {
    fn clone(&self) -> (r: Self)
        ensures
            r == *self,
    {
        ImageLinks { thumbnail: self.thumbnail.clone() }
    }
}

/// Metadata of one volume as the external collaborator reports it.
#[derive(Debug)]
pub struct Volume {
    pub title: String,
    pub authors: Vec<String>,
    pub page_count: i32,
    pub published_date: String,
    pub image_links: Option<ImageLinks>,
}

impl Clone for Volume {
    fn clone(&self) -> (r: Self)
        ensures
            r.title == self.title,
            r.authors@ == self.authors@,
            r.page_count == self.page_count,
            r.published_date == self.published_date,
            r.image_links == self.image_links,
    {
        Volume {
            title: self.title.clone(),
            authors: clone_string_vec(&self.authors),
            page_count: self.page_count,
            published_date: self.published_date.clone(),
            image_links: match &self.image_links {
                Some(links) => Some(links.clone()),
                None => None,
            },
        }
    }
}

/// Clones a vector of strings, preserving the sequence exactly.
fn clone_string_vec(v: &Vec<String>) -> (r: Vec<String>)
    ensures
        r@ == v@,
{
    let mut r: Vec<String> = Vec::new();
    let mut i: usize = 0;
    while i < v.len()
        invariant
            i <= v.len(),
            r@ == v@.take(i as int),
        decreases v.len() - i,
    {
        r.push(v[i].clone());
        assert(v@.take(i + 1 as int) =~= v@.take(i as int).push(v@[i as int]));
        i += 1;
    }
    assert(v@.take(v@.len() as int) =~= v@);
    r
}

/// Page count recorded when the external collaborator reports none.
pub fn page_count_default() -> (r: i32)
    ensures
        r == 0,
{
    0
}

/// A decimal digit.
pub open spec fn is_ascii_digit(c: char) -> bool {
    48 <= c as u32 <= 57
}

/// Numeric value of a decimal digit character.
pub open spec fn digit_value(c: char) -> int {
    c as u32 - 48
}

/// A leading sign character.
pub open spec fn is_sign(c: char) -> bool {
    c as u32 == 45 || c as u32 == 43
}

/// Every character of `s` is a decimal digit.
pub open spec fn all_digits(s: Seq<char>) -> bool {
    forall|i: int| 0 <= i < s.len() ==> is_ascii_digit(#[trigger] s[i])
}

/// Value of a string of decimal digits, most significant first.
pub open spec fn digits_val(s: Seq<char>) -> int
    decreases s.len(),
{
    if s.len() == 0 {
        0
    } else {
        digits_val(s.drop_last()) * 10 + digit_value(s.last())
    }
}

/// The prefix of a date string that the year is read from: the first four
/// characters, or the whole string when it is shorter.
pub open spec fn year_prefix(s: Seq<char>) -> Seq<char> {
    if s.len() <= 4 { s } else { s.take(4) }
}

/// The year denoted by a date string: its year prefix read as a decimal
/// integer with an optional sign, and zero when that prefix is not an
/// integer. The lenient zero keeps malformed dates from aborting an
/// otherwise-valid import.
pub open spec fn spec_parse_year(s: Seq<char>) -> int {
    let t = year_prefix(s);
    if t.len() > 0 && all_digits(t) {
        digits_val(t)
    } else if t.len() > 1 && is_sign(t[0]) && all_digits(t.skip(1)) {
        if t[0] as u32 == 45 {
            -digits_val(t.skip(1))
        } else {
            digits_val(t.skip(1))
        }
    } else {
        0
    }
}

/// Holds when `r` is the search result shaped from volume `v` under the
/// external identifier `id`: fields are carried over unchanged, the year is
/// read from the published date, and a missing cover becomes an empty URL.
pub open spec fn is_search_result_of(r: SearchResult, id: String, v: Volume) -> bool {
    &&& r.id == id
    &&& r.title == v.title
    &&& r.authors@ == v.authors@
    &&& r.pages == v.page_count
    &&& r.year as int == spec_parse_year(v.published_date@)
    &&& match v.image_links {
        Some(links) => r.image_url == Some(links.thumbnail),
        None => r.image_url matches Some(u) && u@ == Seq::<char>::empty(),
    }
}

/// Client of the external metadata collaborator. The network calls live
/// with the transport; the computations they need live here.
pub struct BooksApi {}

impl BooksApi {
    /// Reads the publication year from the first four characters of a date
    /// string, yielding zero when they do not form an integer.
    pub fn parse_year(year: String) -> (r: i32)
        ensures
            r as int == spec_parse_year(year@),
    {
        let s = year.as_str();
        let n = s.unicode_len();
        let k: usize = if n < 4 { n } else { 4 };
        let ghost t = year_prefix(year@);
        assert(t =~= year@.subrange(0, k as int));
        if k == 0 {
            return 0;
        }
        let first = s.get_char(0);
        let start: usize = if first as u32 == 45 || first as u32 == 43 { 1 } else { 0 };
        let neg = first as u32 == 45;
        let mut val: i32 = 0;
        let mut i: usize = start;
        while i < k
            invariant
                start <= i <= k,
                0 < k <= 4,
                k <= year@.len(),
                s@ == year@,
                t == year_prefix(year@),
                t == year@.subrange(0, k as int),
                t.len() == k as int,
                first == year@[0],
                start == 1 <==> (first as u32 == 45 || first as u32 == 43),
                start <= 1,
                neg == (first as u32 == 45),
                val == digits_val(year@.subrange(start as int, i as int)),
                all_digits(year@.subrange(start as int, i as int)),
                0 <= val < 10000,
            decreases k - i,
        {
            let c = s.get_char(i);
            let d = c as u32;
            if d < 48 || d > 57 {
                proof {
                    assert(t[i as int] == year@[i as int]);
                    assert(!is_ascii_digit(t[i as int]));
                    assert(!all_digits(t));
                    if start == 1 {
                        assert(t.skip(1)[i - 1] == t[i as int]);
                        assert(!all_digits(t.skip(1)));
                    } else if i > 0 {
                        assert(is_ascii_digit(year@.subrange(0, i as int)[0]));
                        assert(t[0] == year@[0]);
                        assert(!is_sign(t[0]));
                    } else {
                        assert(t[0] == first);
                        assert(!is_sign(t[0]));
                    }
                    assert(spec_parse_year(year@) == 0);
                }
                return 0;
            }
            let ghost prev = year@.subrange(start as int, i as int);
            let ghost cur = year@.subrange(start as int, i + 1 as int);
            proof {
                assert(cur.drop_last() =~= prev);
                assert(cur.last() == year@[i as int]);
                assert(prev.len() <= 3);
                lemma_digits_val_bound(prev);
            }
            val = val * 10 + (d - 48) as i32;
            i += 1;
        }
        let signed = if neg { -val } else { val };
        proof {
            if start == 0 {
                assert(t =~= year@.subrange(0, k as int));
                assert(t.len() > 0 && all_digits(t));
                assert(spec_parse_year(year@) == digits_val(t));
            } else {
                assert(t[0] == first);
                assert(!is_ascii_digit(t[0]));
                assert(!all_digits(t));
                assert(t.skip(1) =~= year@.subrange(1, k as int));
                if k == 1 {
                    assert(spec_parse_year(year@) == 0);
                } else {
                    assert(spec_parse_year(year@) == if neg {
                        -digits_val(t.skip(1))
                    } else {
                        digits_val(t.skip(1))
                    });
                }
            }
        }
        signed
    }

    /// Shapes a batch of fetched volumes, each under its external
    /// identifier, into the search results handed back to clients.
    pub fn search_results(items: Vec<(String, Volume)>) -> (r: Vec<SearchResult>)
        ensures
            r@.len() == items@.len(),
            forall|i: int|
                0 <= i < items@.len() ==> is_search_result_of(
                    #[trigger] r@[i],
                    items@[i].0,
                    items@[i].1,
                ),
    {
        let mut r: Vec<SearchResult> = Vec::new();
        let mut i: usize = 0;
        while i < items.len()
            invariant
                i <= items.len(),
                r@.len() == i,
                forall|j: int|
                    0 <= j < i ==> is_search_result_of(#[trigger] r@[j], items@[j].0, items@[j].1),
            decreases items.len() - i,
        {
            let item = &items[i];
            r.push(item.1.to_search_result(item.0.clone()));
            i += 1;
        }
        r
    }
}

/// Digit strings of at most `s.len()` digits stay below `10^s.len()`.
proof fn lemma_digits_val_bound(s: Seq<char>)
    requires
        all_digits(s),
        s.len() <= 3,
    ensures
        0 <= digits_val(s),
        s.len() == 0 ==> digits_val(s) == 0,
        s.len() <= 1 ==> digits_val(s) < 10,
        s.len() <= 2 ==> digits_val(s) < 100,
        s.len() <= 3 ==> digits_val(s) < 1000,
    decreases s.len(),
{
    if s.len() > 0 {
        assert(all_digits(s.drop_last())) by {
            assert(forall|i: int|
                0 <= i < s.len() - 1 ==> #[trigger] s.drop_last()[i] == s[i]);
        }
        lemma_digits_val_bound(s.drop_last());
    }
}

impl Volume {
    /// Shapes this volume into the search result shown for it. A missing
    /// cover image is reported as an empty URL rather than an absent one.
    pub fn to_search_result(&self, id: String) -> (r: SearchResult)
        ensures
            is_search_result_of(r, id, *self),
    {
        let image_url = match &self.image_links {
            Some(links) => links.thumbnail.clone(),
            None => String::new(),
        };
        SearchResult {
            id,
            title: self.title.clone(),
            authors: clone_string_vec(&self.authors),
            pages: self.page_count,
            year: BooksApi::parse_year(self.published_date.clone()),
            image_url: Some(image_url),
        }
    }
}

} // verus!
