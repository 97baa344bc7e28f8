//! The table crawler: entity-key extraction, per-page row decoding, and the
//! paginated crawl with its hard fetch bound.

use vstd::prelude::*;

use crate::decode::RowDecode;
use crate::html::{
    body_within_limit, entity_rows, entity_rows_of, next_href_of, next_page_href, table_rows,
    table_rows_of, transcript_within_limit, MAX_BODY_CHARS,
};
use crate::table::StatTable;
use crate::text::{
    find_char, find_char_spec, normalize_cell, normalize_spec, str_eq, trim_spec, trim_str,
};
use crate::{FetchResult, HarvestError};

verus! {

// ---------------------------------------------------------------------------
// Entity Key Extractor
// ---------------------------------------------------------------------------

/// Team-code mode: the key is the first cell's text up to its first space,
/// trimmed; a first cell without a space yields no key and drops the row.
pub open spec fn team_key_spec(cell0: Seq<char>) -> Option<Seq<char>> {
    match find_char_spec(cell0, ' ') {
        None => None,
        Some(i) => Some(trim_spec(cell0.take(i))),
    }
}

/// Extracts the team-code key from a row's first (normalized) cell.
pub fn team_key(cell0: &str) -> (r: Option<String>)
    ensures
        match r {
            Some(k) => team_key_spec(cell0@) == Some(k@),
            None => team_key_spec(cell0@) is None,
        },
{
    match find_char(cell0, ' ') {
        None => None,
        Some(i) => {
            let prefix = cell0.substring_char(0, i);
            proof {
                assert(prefix@ =~= cell0@.take(i as int));
            }
            Some(trim_str(prefix))
        },
    }
}

/// Entity-slug mode, applied to a row's entity-link target: the leading
/// `/players/` segment is stripped if present, then trailing path separators
/// are dropped; what remains is the key.
pub open spec fn strip_players_prefix(h: Seq<char>) -> Seq<char> {
    if h.len() >= 9 && h.take(9) == "/players/"@ {
        h.skip(9)
    } else {
        h
    }
}

pub open spec fn trim_trailing_slash(h: Seq<char>) -> Seq<char>
    decreases h.len(),
{
    if h.len() > 0 && h.last() == '/' {
        trim_trailing_slash(h.drop_last())
    } else {
        h
    }
}

pub open spec fn slug_key_spec(h: Seq<char>) -> Seq<char> {
    trim_trailing_slash(strip_players_prefix(h))
}

proof fn lemma_trim_slash_at(s: Seq<char>, k: int)
    requires
        0 <= k <= s.len(),
        forall|j: int| k <= j < s.len() ==> s[j] == '/',
        k > 0 ==> s[k - 1] != '/',
    ensures
        trim_trailing_slash(s) == s.take(k),
    decreases s.len(),
{
    if k == s.len() {
        assert(s.take(k) =~= s);
    } else {
        assert(s.last() == '/');
        assert(forall|j: int| k <= j < s.len() - 1 ==> s.drop_last()[j] == s[j]);
        lemma_trim_slash_at(s.drop_last(), k);
        assert(s.drop_last().take(k) =~= s.take(k));
    }
}

/// Extracts the entity-slug key from a row's entity-link target.
pub fn slug_key(href: &str) -> (r: String)
    ensures
        r@ == slug_key_spec(href@),
{
    let n = href.unicode_len();
    let mut start: usize = 0;
    if n >= 9 {
        let head = href.substring_char(0, 9);
        proof {
            assert(head@ =~= href@.take(9));
        }
        if str_eq(head, "/players/") {
            start = 9;
        }
    }
    let ghost stripped = strip_players_prefix(href@);
    proof {
        assert(stripped =~= href@.skip(start as int));
    }
    let mut end: usize = n;
    while end > start && href.get_char(end - 1) == '/'
        invariant
            n == href@.len(),
            start <= end <= n,
            forall|j: int| end <= j < n ==> href@[j] == '/',
        decreases end,
    {
        end -= 1;
    }
    proof {
        assert(forall|j: int|
            end - start <= j < stripped.len() ==> stripped[j] == href@[j + start]);
        if end > start {
            assert(stripped[end - start - 1] == href@[end - 1]);
        }
        lemma_trim_slash_at(stripped, end - start);
        assert(stripped.take(end - start) =~= href@.subrange(start as int, end as int));
    }
    let out = href.substring_char(start, end);
    String::from_str(out)
}

// ---------------------------------------------------------------------------
// Per-page row decoding
// ---------------------------------------------------------------------------

/// A row's cells, each normalized.
pub open spec fn norm_cells(row: Seq<Seq<char>>) -> Seq<Seq<char>> {
    row.map_values(|c: Seq<char>| normalize_spec(c))
}

/// Decoding a team-mode page's rows into `acc`, in row order, later rows
/// overwriting earlier ones on a key collision. A row with no cells is
/// skipped outright; a row whose first cell yields no key is dropped.
pub open spec fn team_rows_into<T: RowDecode>(
    acc: Map<Seq<char>, T>,
    rows: Seq<Seq<Seq<char>>>,
) -> Map<Seq<char>, T>
    decreases rows.len(),
{
    if rows.len() == 0 {
        acc
    } else {
        let m = team_rows_into::<T>(acc, rows.drop_last());
        let row = norm_cells(rows.last());
        if row.len() == 0 {
            m
        } else {
            match team_key_spec(row[0]) {
                None => m,
                Some(k) => m.insert(k, T::spec_from(row.skip(1))),
            }
        }
    }
}

/// The table a team-mode page decodes to.
pub open spec fn team_page_map<T: RowDecode>(body: Seq<char>) -> Map<Seq<char>, T> {
    team_rows_into(Map::empty(), table_rows_of(body))
}

/// Decoding an entity-mode page's rows into `acc`, in row order. A row with
/// no cells is skipped outright; a row without an entity link is dropped; the
/// key cell is not part of the decoded data.
pub open spec fn entity_rows_into<T: RowDecode>(
    acc: Map<Seq<char>, T>,
    rows: Seq<(Seq<Seq<char>>, Option<Seq<char>>)>,
) -> Map<Seq<char>, T>
    decreases rows.len(),
{
    if rows.len() == 0 {
        acc
    } else {
        let m = entity_rows_into::<T>(acc, rows.drop_last());
        let row = rows.last();
        if row.0.len() == 0 {
            m
        } else {
            match row.1 {
                None => m,
                Some(h) => m.insert(slug_key_spec(h), T::spec_from(norm_cells(row.0).skip(1))),
            }
        }
    }
}

/// Decodes a single team-mode page into a table: every row's cells are
/// normalized, the team code keys the row, and the remaining cells decode
/// positionally. A fetch failure is fatal and propagates. The page body must
/// stay under the query engine's buffer bound, a machine limit the caller
/// enforces.
pub fn parse_table<T: RowDecode>(page: &FetchResult) -> (r: Result<StatTable<T>, HarvestError>)
    requires
        body_within_limit(*page),
    ensures
        match *page {
            FetchResult::Body(b) => match r {
                Ok(t) => t.wf() && t@ == team_page_map::<T>(b@),
                Err(_) => false,
            },
            FetchResult::Failed => r == Err::<StatTable<T>, HarvestError>(HarvestError::Transport),
        },
{
    let b: &String = match page {
        FetchResult::Body(b) => b,
        FetchResult::Failed => {
            return Err(HarvestError::Transport);
        },
    };
    let rows = table_rows(b.as_str());
    let ghost rws = table_rows_of(b@);
    let mut out = StatTable::<T>::new();
    let n = rows.len();
    let mut i: usize = 0;
    while i < n
        invariant
            n == rows@.len(),
            0 <= i <= n,
            rows.deep_view() == rws,
            out.wf(),
            out@ == team_rows_into::<T>(Map::empty(), rws.take(i as int)),
        decreases n - i,
    {
        let ghost pre = out@;
        let row = &rows[i];
        let ghost rv = rws[i as int];
        proof {
            assert(rv == rows@[i as int].deep_view());
            assert(rws.take(i as int + 1).drop_last() =~= rws.take(i as int));
            assert(rws.take(i as int + 1).last() == rv);
        }
        if row.len() > 0 {
            let first = normalize_cell(row[0].as_str());
            proof {
                assert(rv[0] == rows@[i as int]@[0]@);
                assert(norm_cells(rv)[0] == first@);
            }
            match team_key(first.as_str()) {
                None => {},
                Some(key) => {
                    let mut stats: Vec<String> = Vec::new();
                    let rlen = row.len();
                    let mut j: usize = 1;
                    while j < rlen
                        invariant
                            1 <= j <= rlen,
                            rlen == row@.len(),
                            rv == row.deep_view(),
                            stats@.len() == j - 1,
                            forall|t: int|
                                0 <= t < j - 1 ==> (#[trigger] stats.deep_view()[t])
                                    == normalize_spec(rv[t + 1]),
                        decreases rlen - j,
                    {
                        let cell = normalize_cell(row[j].as_str());
                        proof {
                            assert(rv[j as int] == row@[j as int]@);
                        }
                        let ghost prev = stats.deep_view();
                        stats.push(cell);
                        proof {
                            assert(forall|t: int|
                                0 <= t < j - 1 ==> (#[trigger] stats.deep_view()[t]) == prev[t]);
                            assert(stats.deep_view()[j - 1] == normalize_spec(rv[j as int]));
                        }
                        j += 1;
                    }
                    proof {
                        assert(stats.deep_view() =~= norm_cells(rv).skip(1));
                    }
                    let rec = T::from(&stats);
                    out.insert(key, rec);
                },
            }
        }
        proof {
            assert(out@ == team_rows_into::<T>(Map::empty(), rws.take(i as int + 1)));
        }
        i += 1;
    }
    proof {
        assert(rws.take(n as int) =~= rws);
    }
    Ok(out)
}

// ---------------------------------------------------------------------------
// The paginated crawl
// ---------------------------------------------------------------------------

/// The hard circuit breaker: at most this many page fetches per category
/// fetch (one initial page and six continuations), however many further
/// next-page links exist.
pub const MAX_PAGE_FETCHES: u8 = 7;

/// The absolute URL a next-page link target resolves to.
pub open spec fn abs_next_url(href: Seq<char>) -> Seq<char> {
    "https://www.nfl.com"@ + href
}

/// Decodes one entity-mode page's rows into an accumulator table.
fn decode_entity_page<T: RowDecode>(out: &mut StatTable<T>, body: &str)
    requires
        old(out).wf(),
        body@.len() < MAX_BODY_CHARS,
    ensures
        final(out).wf(),
        final(out)@ == entity_rows_into::<T>(old(out)@, entity_rows_of(body@)),
{
    let ghost m0 = out@;
    let rows = entity_rows(body);
    let ghost rws = entity_rows_of(body@);
    let n = rows.len();
    let mut i: usize = 0;
    while i < n
        invariant
            n == rows@.len(),
            0 <= i <= n,
            rows.deep_view() == rws,
            out.wf(),
            out@ == entity_rows_into::<T>(m0, rws.take(i as int)),
        decreases n - i,
    {
        let cells = &rows[i].0;
        let ghost rv = rws[i as int];
        proof {
            assert(rv == rows@[i as int].deep_view());
            assert(rv.0 == rows@[i as int].0.deep_view());
            assert(rv.1 == rows@[i as int].1.deep_view());
            assert(rws.take(i as int + 1).drop_last() =~= rws.take(i as int));
            assert(rws.take(i as int + 1).last() == rv);
        }
        if cells.len() > 0 {
            match &rows[i].1 {
                None => {},
                Some(href) => {
                    let key = slug_key(href.as_str());
                    let mut stats: Vec<String> = Vec::new();
                    let clen = cells.len();
                    let mut j: usize = 1;
                    while j < clen
                        invariant
                            1 <= j <= clen,
                            clen == cells@.len(),
                            rv.0 == cells.deep_view(),
                            stats@.len() == j - 1,
                            forall|t: int|
                                0 <= t < j - 1 ==> (#[trigger] stats.deep_view()[t])
                                    == normalize_spec(rv.0[t + 1]),
                        decreases clen - j,
                    {
                        let cell = normalize_cell(cells[j].as_str());
                        proof {
                            assert(rv.0[j as int] == cells@[j as int]@);
                        }
                        let ghost prev = stats.deep_view();
                        stats.push(cell);
                        proof {
                            assert(forall|t: int|
                                0 <= t < j - 1 ==> (#[trigger] stats.deep_view()[t]) == prev[t]);
                            assert(stats.deep_view()[j - 1] == normalize_spec(rv.0[j as int]));
                        }
                        j += 1;
                    }
                    proof {
                        assert(stats.deep_view() =~= norm_cells(rv.0).skip(1));
                    }
                    let rec = T::from(&stats);
                    out.insert(key, rec);
                },
            }
        }
        proof {
            assert(out@ == entity_rows_into::<T>(m0, rws.take(i as int + 1)));
        }
        i += 1;
    }
    proof {
        assert(rws.take(n as int) =~= rws);
    }
}

/// The absolute URL of the page's next-page link, if any.
pub fn next_page_url(body: &str) -> (r: Option<String>)
    requires
        body@.len() < MAX_BODY_CHARS,
    ensures
        match r {
            Some(u) => next_href_of(body@) is Some && u@ == abs_next_url(
                next_href_of(body@)->Some_0,
            ),
            None => next_href_of(body@) is None,
        },
{
    match next_page_href(body) {
        Some(h) => {
            let mut u = String::from_str("https://www.nfl.com");
            u.append(h.as_str());
            Some(u)
        },
        None => None,
    }
}

/// One category fetch's transient crawl state: the accumulated table and the
/// count of pages fetched so far. It lives for one category fetch; the
/// caller fetches each page body and feeds it in, following the returned
/// next-page URL until the crawl declines to continue.
pub struct CrawlState<T> {
    table: StatTable<T>,
    fetched: u8,
}

impl<T: RowDecode> CrawlState<T> {
    /// Well-formed: the table's keys are unique and the fetch bound holds.
    pub closed spec fn wf(self) -> bool {
        self.table.wf() && self.fetched <= MAX_PAGE_FETCHES
    }

    /// The records harvested so far.
    pub closed spec fn harvested(self) -> Map<Seq<char>, T> {
        self.table@
    }

    /// How many pages this crawl has consumed.
    pub closed spec fn fetched_count(self) -> int {
        self.fetched as int
    }

    /// A fresh crawl: nothing harvested, nothing fetched.
    pub fn start() -> (r: Self)
        ensures
            r.wf(),
            r.harvested() == Map::<Seq<char>, T>::empty(),
            r.fetched_count() == 0,
    {
        CrawlState { table: StatTable::new(), fetched: 0 }
    }

    /// Consumes one fetched page: decodes its rows into the table (later
    /// pages overwriting earlier ones on key collisions) and reports the
    /// absolute URL of the next page — `Some` exactly when the page has a
    /// next-page link and the fetch bound still allows another fetch.
    pub fn ingest(&mut self, body: &str) -> (next: Option<String>)
        requires
            old(self).wf(),
            old(self).fetched_count() < MAX_PAGE_FETCHES,
            body@.len() < MAX_BODY_CHARS,
        ensures
            final(self).wf(),
            final(self).fetched_count() == old(self).fetched_count() + 1,
            final(self).harvested() == entity_rows_into::<T>(
                old(self).harvested(),
                entity_rows_of(body@),
            ),
            match next {
                Some(u) => next_href_of(body@) is Some && final(self).fetched_count()
                    < MAX_PAGE_FETCHES && u@ == abs_next_url(next_href_of(body@)->Some_0),
                None => next_href_of(body@) is None || final(self).fetched_count()
                    == MAX_PAGE_FETCHES,
            },
    {
        decode_entity_page(&mut self.table, body);
        self.fetched = self.fetched + 1;
        if self.fetched < MAX_PAGE_FETCHES {
            next_page_url(body)
        } else {
            None
        }
    }

    /// How many pages this crawl has consumed so far.
    pub fn pages_fetched(&self) -> (r: u8)
        ensures
            r as int == self.fetched_count(),
    {
        self.fetched
    }

    /// Ends the crawl, yielding the accumulated table.
    pub fn finish(self) -> (r: StatTable<T>)
        requires
            self.wf(),
        ensures
            r.wf(),
            r@ == self.harvested(),
    {
        self.table
    }
}

/// The crawl over a transcript of page fetches, from position `i` with
/// `budget` fetches left: each consumed page's rows decode into the
/// accumulator; a fetch failure — or a page the transcript does not supply —
/// aborts the whole crawl; the crawl continues past a page exactly when the
/// page has a next-page link and the budget allows another fetch.
pub open spec fn crawl_pages<T: RowDecode>(
    fetches: Seq<FetchResult>,
    i: int,
    budget: int,
    acc: Map<Seq<char>, T>,
) -> Result<Map<Seq<char>, T>, HarvestError>
    decreases budget,
{
    if budget <= 0 {
        Ok(acc)
    } else if !(0 <= i < fetches.len()) {
        Err(HarvestError::Transport)
    } else {
        match fetches[i] {
            FetchResult::Failed => Err(HarvestError::Transport),
            FetchResult::Body(b) => {
                let acc2 = entity_rows_into::<T>(acc, entity_rows_of(b@));
                if next_href_of(b@) is Some && budget > 1 {
                    crawl_pages::<T>(fetches, i + 1, budget - 1, acc2)
                } else {
                    Ok(acc2)
                }
            },
        }
    }
}

/// A whole crawl: from the first page of the transcript, with the full fetch
/// bound.
pub open spec fn crawl_spec<T: RowDecode>(fetches: Seq<FetchResult>) -> Result<
    Map<Seq<char>, T>,
    HarvestError,
> {
    crawl_pages::<T>(fetches, 0, MAX_PAGE_FETCHES as int, Map::empty())
}

/// How many transcript pages a crawl from position `i` with `budget` fetches
/// left consumes.
pub open spec fn crawl_visits(fetches: Seq<FetchResult>, i: int, budget: int) -> int
    decreases budget,
{
    if budget <= 0 || !(0 <= i < fetches.len()) {
        0
    } else {
        match fetches[i] {
            FetchResult::Failed => 1,
            FetchResult::Body(b) => {
                if next_href_of(b@) is Some && budget > 1 {
                    1 + crawl_visits(fetches, i + 1, budget - 1)
                } else {
                    1
                }
            },
        }
    }
}

/// Crawls a whole entity-mode table over a transcript of page fetches: the
/// first element is the first page's fetch outcome, each later element the
/// outcome of fetching the previous page's next-page link. Any failed fetch
/// — or a fetch the transcript does not supply — is fatal to the whole
/// category fetch; rows merge across pages with last-write-wins keys; no
/// more pages are consumed than the fetch bound allows. Every supplied body
/// must stay under the query engine's buffer bound, a machine limit the
/// caller enforces.
pub fn parse_player_table<T: RowDecode>(fetches: &Vec<FetchResult>) -> (r: Result<
    StatTable<T>,
    HarvestError,
>)
    requires
        transcript_within_limit(fetches@),
    ensures
        match crawl_spec::<T>(fetches@) {
            Ok(m) => match r {
                Ok(t) => t.wf() && t@ == m,
                Err(_) => false,
            },
            Err(e) => r == Err::<StatTable<T>, HarvestError>(e),
        },
{
    let mut st = CrawlState::<T>::start();
    let mut i: usize = 0;
    let mut more = true;
    while more
        invariant
            transcript_within_limit(fetches@),
            st.wf(),
            more ==> st.fetched_count() < 7,
            more ==> i as int == st.fetched_count(),
            more ==> crawl_spec::<T>(fetches@) == crawl_pages::<T>(
                fetches@,
                i as int,
                7 - st.fetched_count(),
                st.harvested(),
            ),
            !more ==> crawl_spec::<T>(fetches@) == Ok::<Map<Seq<char>, T>, HarvestError>(
                st.harvested(),
            ),
        decreases 8 - st.fetched_count(),
    {
        if i >= fetches.len() {
            return Err(HarvestError::Transport);
        }
        match &fetches[i] {
            FetchResult::Failed => {
                return Err(HarvestError::Transport);
            },
            FetchResult::Body(b) => {
                proof {
                    assert(body_within_limit(fetches@[i as int]));
                    assert(fetches@[i as int]->Body_0 == *b);
                }
                let next = st.ingest(b.as_str());
                i += 1;
                if next.is_none() {
                    more = false;
                }
            },
        }
    }
    Ok(st.finish())
}

// ---------------------------------------------------------------------------
// Crawl laws
// ---------------------------------------------------------------------------

/// A row with no cells leaves the decoded team-mode page unchanged: neither
/// the Row Decoder nor the Entity Key Extractor sees it.
pub proof fn lemma_empty_row_skipped_team<T: RowDecode>(
    acc: Map<Seq<char>, T>,
    rows: Seq<Seq<Seq<char>>>,
    row: Seq<Seq<char>>,
)
    requires
        row.len() == 0,
    ensures
        team_rows_into::<T>(acc, rows.push(row)) == team_rows_into::<T>(acc, rows),
{
    assert(rows.push(row).drop_last() =~= rows);
    assert(rows.push(row).last() == row);
}

/// A row with no cells leaves the decoded entity-mode page unchanged: neither
/// the Row Decoder nor the Entity Key Extractor sees it.
pub proof fn lemma_empty_row_skipped_entity<T: RowDecode>(
    acc: Map<Seq<char>, T>,
    rows: Seq<(Seq<Seq<char>>, Option<Seq<char>>)>,
    row: (Seq<Seq<char>>, Option<Seq<char>>),
)
    requires
        row.0.len() == 0,
    ensures
        entity_rows_into::<T>(acc, rows.push(row)) == entity_rows_into::<T>(acc, rows),
{
    assert(rows.push(row).drop_last() =~= rows);
    assert(rows.push(row).last() == row);
}

/// A crawl is bounded: however the transcript continues — even when every
/// page links to a further page — a crawl from position `i` consumes at most
/// `budget` pages, so a whole crawl consumes at most seven.
proof fn lemma_crawl_visits_le(fetches: Seq<FetchResult>, i: int, budget: int)
    ensures
        crawl_visits(fetches, i, budget) <= if budget >= 0 {
            budget
        } else {
            0
        },
    decreases budget,
{
    if budget > 0 && 0 <= i < fetches.len() {
        if fetches[i] is Body {
            lemma_crawl_visits_le(fetches, i + 1, budget - 1);
        }
    }
}

/// A crawl is bounded: however the transcript continues — even when every
/// page links to a further page — a whole crawl consumes at most seven
/// pages.
pub proof fn lemma_crawl_bounded(fetches: Seq<FetchResult>)
    ensures
        crawl_visits(fetches, 0, MAX_PAGE_FETCHES as int) <= 7,
{
    lemma_crawl_visits_le(fetches, 0, MAX_PAGE_FETCHES as int);
}

/// Every failure a crawl reports is a transport failure.
pub proof fn lemma_crawl_err_transport<T: RowDecode>(
    fetches: Seq<FetchResult>,
    i: int,
    budget: int,
    acc: Map<Seq<char>, T>,
)
    ensures
        crawl_pages::<T>(fetches, i, budget, acc) is Err ==> crawl_pages::<T>(
            fetches,
            i,
            budget,
            acc,
        ) == Err::<Map<Seq<char>, T>, HarvestError>(HarvestError::Transport),
    decreases budget,
{
    if budget > 0 && 0 <= i < fetches.len() {
        if fetches[i] is Body {
            let b = fetches[i]->Body_0;
            lemma_crawl_err_transport::<T>(
                fetches,
                i + 1,
                budget - 1,
                entity_rows_into::<T>(acc, entity_rows_of(b@)),
            );
        }
    }
}

/// The harvest of the successful pages `0..=upto` of a transcript, merged in
/// page order with last-write-wins keys.
pub open spec fn chain_harvest<T: RowDecode>(
    acc: Map<Seq<char>, T>,
    fetches: Seq<FetchResult>,
    i: int,
    upto: int,
) -> Map<Seq<char>, T>
    decreases upto - i + 1,
{
    if i > upto {
        acc
    } else {
        chain_harvest(
            entity_rows_into::<T>(acc, entity_rows_of(fetches[i]->Body_0@)),
            fetches,
            i + 1,
            upto,
        )
    }
}

proof fn lemma_crawl_linked_chain_from<T: RowDecode>(
    fetches: Seq<FetchResult>,
    acc: Map<Seq<char>, T>,
    i: int,
    k: int,
    budget: int,
)
    requires
        0 <= i <= k < fetches.len(),
        k - i + 1 <= budget,
        forall|j: int| i <= j <= k ==> fetches[j] is Body,
        forall|j: int| i <= j < k ==> next_href_of((#[trigger] fetches[j])->Body_0@) is Some,
        next_href_of(fetches[k]->Body_0@) is None,
    ensures
        crawl_pages::<T>(fetches, i, budget, acc) == Ok::<Map<Seq<char>, T>, HarvestError>(
            chain_harvest::<T>(acc, fetches, i, k),
        ),
        crawl_visits(fetches, i, budget) == k - i + 1,
    decreases k - i,
{
    let acc2 = entity_rows_into::<T>(acc, entity_rows_of(fetches[i]->Body_0@));
    if i == k {
        assert(chain_harvest::<T>(acc2, fetches, i + 1, k) == acc2);
    } else {
        lemma_crawl_linked_chain_from::<T>(fetches, acc2, i + 1, k, budget - 1);
    }
}

/// A crawl over a chain of `k + 1` linked pages (`k ≤ 6` continuations: each
/// page but the last links onward, the last does not) succeeds, consumes
/// exactly `k + 1` pages, and harvests every page's rows merged in page
/// order. With `k == 0` — a first page with no next-page link — exactly one
/// page is consumed.
pub proof fn lemma_crawl_linked_chain<T: RowDecode>(fetches: Seq<FetchResult>, k: int)
    requires
        0 <= k <= 6,
        k < fetches.len(),
        forall|j: int| 0 <= j <= k ==> fetches[j] is Body,
        forall|j: int| 0 <= j < k ==> next_href_of((#[trigger] fetches[j])->Body_0@) is Some,
        next_href_of(fetches[k]->Body_0@) is None,
    ensures
        crawl_spec::<T>(fetches) == Ok::<Map<Seq<char>, T>, HarvestError>(
            chain_harvest::<T>(Map::empty(), fetches, 0, k),
        ),
        crawl_visits(fetches, 0, MAX_PAGE_FETCHES as int) == k + 1,
{
    lemma_crawl_linked_chain_from::<T>(fetches, Map::empty(), 0, k, MAX_PAGE_FETCHES as int);
}

} // verus!
