//! The replies that carry pages.
use vstd::prelude::*;

use crate::status::StatusCode;

verus! {

/// What headers hold: names and values, in order.
pub open spec fn header_texts(headers: Seq<(&'static str, &'static str)>) -> Seq<
    (Seq<char>, Seq<char>),
> {
    headers.map_values(|header: (&'static str, &'static str)| (header.0@, header.1@))
}

/// A page with its status and the headers that go with it.
pub struct Page {
    pub status: StatusCode,
    pub headers: Vec<(&'static str, &'static str)>,
    pub html: &'static str,
}

/// The headers of the main page. It is what the portal shows in place of any
/// other page, so no browser may keep it, and its connection is closed.
pub open spec fn portal_headers() -> Seq<(Seq<char>, Seq<char>)> {
    seq![
        ("cache-control"@, "no-store, no-cache, must-revalidate, max-age=0"@),
        ("pragma"@, "no-cache"@),
        ("expires"@, "-1"@),
        ("connection"@, "close"@),
    ]
}

/// The reply with the main page, to its own path and to every path that no other
/// reply is for.
pub fn index(html: &'static str) -> (page: Page)
    ensures
        page.status == StatusCode::Success,
        header_texts(page.headers@) == portal_headers(),
        page.headers@.len() == 4,
        page.headers@[0].0@ == "cache-control"@,
        page.headers@[0].1@ == "no-store, no-cache, must-revalidate, max-age=0"@,
        page.headers@[1].0@ == "pragma"@ && page.headers@[1].1@ == "no-cache"@,
        page.headers@[2].0@ == "expires"@ && page.headers@[2].1@ == "-1"@,
        page.headers@[3].0@ == "connection"@ && page.headers@[3].1@ == "close"@,
        page.html == html,
        page.html@ == html@,
{
    let headers = vec![
        ("cache-control", "no-store, no-cache, must-revalidate, max-age=0"),
        ("pragma", "no-cache"),
        ("expires", "-1"),
        ("connection", "close"),
    ];
    assert(header_texts(headers@) =~= portal_headers());
    Page { status: StatusCode::Success, headers, html }
}

/// The reply with the page on which a new profile is filled in.
pub fn form(html: &'static str) -> (page: Page)
    ensures
        page.status == StatusCode::Success,
        page.headers@.len() == 0,
        page.html == html,
        page.html@ == html@,
{
    Page { status: StatusCode::Success, headers: Vec::new(), html }
}

/// Headers are read as they are: each name with its own value, in order.
pub proof fn headers_are_read_as_they_are(headers: Seq<(&'static str, &'static str)>)
    ensures
        header_texts(headers).len() == headers.len(),
        forall|i: int|
            0 <= i < headers.len() ==> (#[trigger] header_texts(headers)[i]).0 == headers[i].0@
                && header_texts(headers)[i].1 == headers[i].1@,
{
}

} // verus!
