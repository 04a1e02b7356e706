//! Addresses of the services, and what the photo service reports in its response headers.
use vstd::prelude::*;
use vstd::string::StrSliceExecFns;
use vstd::string::StringExecFns;

use crate::text::{all_digits, digits_value, parse_digits};
use crate::unsplash::{CollectionPhotos, Photo};

verus! {

/// The address of `route` on the forecast or geocoding host `host`; a keyed client talks to the
/// customer host.
pub open spec fn meteo_url_spec(host: Seq<char>, route: Seq<char>, keyed: bool) -> Seq<char> {
    "https://"@ + (if keyed {
        "customer-"@
    } else {
        Seq::empty()
    }) + host + "/v1/"@ + route
}

/// The address of `route` on the forecast or geocoding host `host`.
pub fn meteo_url(host: &str, route: &str, keyed: bool) -> (r: String)
    ensures
        r@ == meteo_url_spec(host@, route@, keyed),
{
    let mut s = String::from_str("https://");
    if keyed {
        s.append("customer-");
    }
    s.append(host);
    s.append("/v1/");
    s.append(route);
    assert(s@ =~= meteo_url_spec(host@, route@, keyed));
    s
}

/// The address of `route` below the photo service's base address `base`.
pub fn unsplash_url(base: &str, route: &str) -> (r: String)
    ensures
        r@ == base@ + "/"@ + route@,
{
    let mut s = String::from_str(base);
    s.append("/");
    s.append(route);
    s
}

/// The route of a collection.
pub fn collection_route(id: &str) -> (r: String)
    ensures
        r@ == "collections/"@ + id@,
{
    let mut s = String::from_str("collections/");
    s.append(id);
    s
}

/// The route of the photos of a collection.
pub fn collection_photos_route(id: &str) -> (r: String)
    ensures
        r@ == "collections/"@ + id@ + "/photos"@,
{
    let mut s = collection_route(id);
    s.append("/photos");
    s
}

/// The digits of a count, without the `+` sign that may lead them.
pub open spec fn unsigned_digits(t: Seq<char>) -> Seq<char> {
    if t.len() > 0 && t[0] == '+' {
        t.skip(1)
    } else {
        t
    }
}

/// The count that `t` writes in base ten, with an optional leading `+`, if it fits in `usize`.
pub open spec fn count_of(t: Seq<char>) -> Option<usize> {
    let d = unsigned_digits(t);
    if d.len() > 0 && all_digits(d) && digits_value(d) <= usize::MAX {
        Some(digits_value(d) as usize)
    } else {
        None
    }
}

/// Reads a count written in base ten, with an optional leading `+`.
pub fn parse_count(t: &str) -> (r: Option<usize>)
    ensures
        r == count_of(t@),
{
    let n = t.unicode_len();
    let start: usize = if n > 0 && t.get_char(0) == '+' {
        1
    } else {
        0
    };
    if start == n {
        return None;
    }
    assert(t@.subrange(start as int, n as int) =~= unsigned_digits(t@));
    parse_digits(t, start, n)
}

/// Why a page of collection photos could not be read from a response.
#[derive(Debug, Clone, PartialEq, Eq)]
pub enum PageError {
    /// The response lacks the named header.
    MissingHeader(String),
    /// A header does not hold a count.
    MalformedResponse,
}

/// The count that an optional header holds, or why it holds none.
pub open spec fn header_count(name: Seq<char>, value: Option<Seq<char>>, r: Result<usize, PageError>) -> bool {
    match value {
        None => match r {
            Err(PageError::MissingHeader(s)) => s@ == name,
            _ => false,
        },
        Some(t) => match count_of(t) {
            Some(n) => r == Ok::<usize, PageError>(n),
            None => r == Err::<usize, PageError>(PageError::MalformedResponse),
        },
    }
}

/// The view of an optional header.
pub open spec fn header_view(h: Option<&str>) -> Option<Seq<char>> {
    match h {
        Some(t) => Some(t@),
        None => None,
    }
}

/// Reads the count in header `name`.
fn read_header(name: &str, value: Option<&str>) -> (r: Result<usize, PageError>)
    ensures
        header_count(name@, header_view(value), r),
{
    match value {
        None => Err(PageError::MissingHeader(String::from_str(name))),
        Some(t) => match parse_count(t) {
            Some(n) => Ok(n),
            None => Err(PageError::MalformedResponse),
        },
    }
}

/// A page of collection photos, with the totals that the `X-Total` and `X-Per-Page` headers
/// report; the first header that is missing or holds no count decides the error.
pub fn collection_photos_page(total: Option<&str>, per_page: Option<&str>, photos: Vec<Photo>) -> (r:
    Result<CollectionPhotos, PageError>)
    ensures
        ({
            let total_name = "X-Total"@;
            let per_page_name = "X-Per-Page"@;
            match r {
                Ok(page) => header_count(total_name, header_view(total), Ok(page.collection_total))
                    && header_count(per_page_name, header_view(per_page), Ok(page.per_page))
                    && page.photos == photos,
                Err(e) => header_count(total_name, header_view(total), Err(e)) || (exists|n: usize|
                    header_count(total_name, header_view(total), Ok(n))) && header_count(
                    per_page_name,
                    header_view(per_page),
                    Err(e),
                ),
            }
        }),
{
    let collection_total = match read_header("X-Total", total) {
        Ok(n) => n,
        Err(e) => {
            return Err(e);
        },
    };
    let count = match read_header("X-Per-Page", per_page) {
        Ok(n) => n,
        Err(e) => {
            return Err(e);
        },
    };
    Ok(CollectionPhotos { collection_total, per_page: count, photos })
}

} // verus!
