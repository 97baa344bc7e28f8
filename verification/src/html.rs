//! Trusted bridge to the HTML query engine.
//!
//! The engine is agnostic to markup details: everything it needs from a page
//! is the raw cell text of its rows, each row's entity link, the next-page
//! link, and a player page's header fields. Each query below parses the page
//! text with the `select` crate and hands those values back as plain strings;
//! what each returns is named by an uninterpreted function of the page text,
//! since parsing is a pure function of the markup alone.

use vstd::prelude::*;

use select::document::Document;
use select::predicate::{Class, Name, Predicate};

use crate::FetchResult;

verus! {

/// The largest page body the queries accept, in characters. The query
/// engine's 32-bit buffers assert that a whole body fits, and their growth
/// path rounds a single text node's capacity up to the next power of two
/// below 2^31 bytes, so a text node over 2^31 bytes aborts. A character
/// encodes to at most four bytes; with fewer than 2^29 characters the whole
/// body — and so any one text node — stays under 2^31 bytes. Bodies at or
/// over the bound are excluded by precondition rather than risking those
/// assertions.
pub const MAX_BODY_CHARS: usize = 0x2000_0000;

/// A fetch outcome whose body, if any, the queries accept.
pub open spec fn body_within_limit(p: FetchResult) -> bool {
    p is Body ==> p->Body_0@.len() < MAX_BODY_CHARS
}

/// A fetch transcript all of whose bodies the queries accept.
pub open spec fn transcript_within_limit(fetches: Seq<FetchResult>) -> bool {
    forall|i: int| 0 <= i < fetches.len() ==> body_within_limit(#[trigger] fetches[i])
}

/// The rows of the page's tables: the raw `td` cell texts of every `tr`
/// inside a `table`, in document order.
pub uninterp spec fn table_rows_of(body: Seq<char>) -> Seq<Seq<Seq<char>>>;

/// Every `tr` of the page, in document order: its raw `td` cell texts, and
/// the target of its first entity link (`a.d3-o-player-fullname`), if any.
pub uninterp spec fn entity_rows_of(body: Seq<char>) -> Seq<(Seq<Seq<char>>, Option<Seq<char>>)>;

/// The target of the page's next-page link
/// (`.nfl-o-table-pagination__next`), if any.
pub uninterp spec fn next_href_of(body: Seq<char>) -> Option<Seq<char>>;

/// The raw text of the page's player-name header (`.nfl-c-player-header__title`), if any.
pub uninterp spec fn header_name_of(body: Seq<char>) -> Option<Seq<char>>;

/// The raw text of the page's position header (`.nfl-c-player-header__position`), if any.
pub uninterp spec fn header_position_of(body: Seq<char>) -> Option<Seq<char>>;

/// The raw text of the page's player-data header (`.nfl-c-player-header__player-data`), if any.
pub uninterp spec fn header_data_of(body: Seq<char>) -> Option<Seq<char>>;

/// The raw text of the page's team header (`.nfl-c-player-header__team`), if any.
pub uninterp spec fn header_team_of(body: Seq<char>) -> Option<Seq<char>>;

/// The raw text of the page's roster-status header (`.nfl-c-player-header__roster-status`), if any.
pub uninterp spec fn header_status_of(body: Seq<char>) -> Option<Seq<char>>;

/// A profile page whose five header fields are all present.
pub open spec fn header_complete(b: Seq<char>) -> bool {
    header_name_of(b) is Some && header_position_of(b) is Some && header_data_of(b) is Some
        && header_team_of(b) is Some && header_status_of(b) is Some
}

/// Relies on select's `Document` parsing and its `Name` queries: parsing is a
/// pure function of the markup text, `find` yields matching nodes in document
/// order, and `text` concatenates a node's descendant text.
#[verifier::external_body]
pub(crate) fn table_rows(body: &str) -> (r: Vec<Vec<String>>)
    requires
        body@.len() < MAX_BODY_CHARS,
    ensures
        r.deep_view() == table_rows_of(body@),
{
    let doc = Document::from(body);
    doc.find(Name("table"))
        .flat_map(|table| table.find(Name("tr")))
        .map(|row| row.find(Name("td")).map(|cell| cell.text()).collect())
        .collect()
}

/// Relies on select's `Document` parsing, its `Name`, `Class` and `And`
/// queries, and `attr`, which returns the value of a node's attribute.
#[verifier::external_body]
pub(crate) fn entity_rows(body: &str) -> (r: Vec<(Vec<String>, Option<String>)>)
    requires
        body@.len() < MAX_BODY_CHARS,
    ensures
        r.deep_view() == entity_rows_of(body@),
{
    let doc = Document::from(body);
    doc.find(Name("tr"))
        .map(|row| (
            row.find(Name("td")).map(|cell| cell.text()).collect(),
            row.find(Name("a").and(Class("d3-o-player-fullname")))
                .next()
                .and_then(|link| link.attr("href").map(String::from)),
        ))
        .collect()
}

/// Relies on select's `Document` parsing, its `Class` query and `attr`.
#[verifier::external_body]
pub(crate) fn next_page_href(body: &str) -> (r: Option<String>)
    requires
        body@.len() < MAX_BODY_CHARS,
    ensures
        r.deep_view() == next_href_of(body@),
{
    Document::from(body)
        .find(Class("nfl-o-table-pagination__next"))
        .next()
        .and_then(|node| node.attr("href").map(String::from))
}

/// Relies on select's `Document` parsing, its `Class` query and `text`: the
/// five header fields of a player profile page, each the raw text of the
/// first node of its class.
#[verifier::external_body]
pub(crate) fn player_header(body: &str) -> (r: (
    Option<String>,
    Option<String>,
    Option<String>,
    Option<String>,
    Option<String>,
))
    requires
        body@.len() < MAX_BODY_CHARS,
    ensures
        r.0.deep_view() == header_name_of(body@),
        r.1.deep_view() == header_position_of(body@),
        r.2.deep_view() == header_data_of(body@),
        r.3.deep_view() == header_team_of(body@),
        r.4.deep_view() == header_status_of(body@),
{
    let doc = Document::from(body);
    let grab = |class: &str| doc.find(Class(class)).next().map(|node| node.text());
    (
        grab("nfl-c-player-header__title"),
        grab("nfl-c-player-header__position"),
        grab("nfl-c-player-header__player-data"),
        grab("nfl-c-player-header__team"),
        grab("nfl-c-player-header__roster-status"),
    )
}

} // verus!
