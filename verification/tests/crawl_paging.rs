//! The paginated entity-mode crawl: row decoding with entity links, the
//! next-page chain, the hard fetch bound, and transport failures.

use statharvest::crawl::parse_table;
use statharvest::FetchResult;
use statharvest::HarvestError;

fn player_row(href: Option<&str>, name: &str, cells: &[&str]) -> String {
    let mut row = String::from("<tr><td>");
    match href {
        Some(h) => row.push_str(&format!(
            "<a class=\"d3-o-player-fullname\" href=\"{}\">{}</a>",
            h, name
        )),
        None => row.push_str(name),
    }
    row.push_str("</td>");
    for cell in cells {
        row.push_str(&format!("<td>{}</td>", cell));
    }
    row.push_str("</tr>");
    row
}

fn player_page(rows: &[String], next: Option<&str>) -> String {
    let mut body = String::from("<html><body><table>");
    for row in rows {
        body.push_str(row);
    }
    body.push_str("</table>");
    if let Some(n) = next {
        body.push_str(&format!(
            "<a class=\"nfl-o-table-pagination__next\" href=\"{}\">next</a>",
            n
        ));
    }
    body.push_str("</body></html>");
    body
}

fn rushing_cells() -> Vec<&'static str> {
    vec!["120", "25", "1", "2", "1", "30", "7", "28.0", "1"]
}

#[test]
fn player_table_single_page() {
    // an empty row and a row without an entity link are skipped; a crawl
    // whose first page has no next link visits exactly one page
    let rows = vec![
        String::from("<tr></tr>"),
        player_row(None, "No Link", &rushing_cells()),
        player_row(Some("/players/john-smith/"), "John Smith", &rushing_cells()),
    ];
    let page = player_page(&rows, None);
    let t = statharvest::league::get_league_rushing(&vec![FetchResult::Body(page)]).unwrap();
    assert_eq!(t.len(), 1);
    let r = t.get("john-smith").copied().unwrap();
    assert_eq!(r.rush_yds, 120);
    assert_eq!(r.att, 25);
}

#[test]
fn crawl_follows_next_links() {
    // three linked pages: all three rows are merged; a fourth supplied page
    // is never visited because the third page has no next link
    let p1 = player_page(
        &[player_row(Some("/players/a/"), "A", &rushing_cells())],
        Some("/page2"),
    );
    let p2 = player_page(
        &[player_row(Some("/players/b/"), "B", &rushing_cells())],
        Some("/page3"),
    );
    let p3 = player_page(&[player_row(Some("/players/c/"), "C", &rushing_cells())], None);
    let p4 = player_page(&[player_row(Some("/players/d/"), "D", &rushing_cells())], None);
    let t = statharvest::league::get_league_rushing(&vec![
        FetchResult::Body(p1),
        FetchResult::Body(p2),
        FetchResult::Body(p3),
        FetchResult::Body(p4),
    ])
    .unwrap();
    assert_eq!(t.len(), 3);
    assert!(t.get("a").is_some());
    assert!(t.get("b").is_some());
    assert!(t.get("c").is_some());
    assert!(t.get("d").is_none());
}

#[test]
fn crawl_is_bounded() {
    // every page links onward, but no more than seven pages are consumed
    let mut pages = Vec::new();
    for i in 0..10 {
        let page = player_page(
            &[player_row(
                Some(&format!("/players/p{}/", i)),
                "P",
                &rushing_cells(),
            )],
            Some("/more"),
        );
        pages.push(FetchResult::Body(page));
    }
    let t = statharvest::league::get_league_rushing(&pages).unwrap();
    assert_eq!(t.len(), 7);
    assert!(t.get("p6").is_some());
    assert!(t.get("p7").is_none());
}

#[test]
fn crawl_transport_failure_is_fatal() {
    let p1 = player_page(
        &[player_row(Some("/players/a/"), "A", &rushing_cells())],
        Some("/page2"),
    );
    let r = statharvest::league::get_league_rushing(&vec![
        FetchResult::Body(p1.clone()),
        FetchResult::Failed,
    ]);
    assert!(matches!(r, Err(HarvestError::Transport)));
    // a demanded page the transcript does not supply is a transport failure too
    let r2 = statharvest::league::get_league_rushing(&vec![FetchResult::Body(p1)]);
    assert!(matches!(r2, Err(HarvestError::Transport)));
}

#[test]
fn parse_table_transport_failure() {
    let r = parse_table::<statharvest::offense::Passing>(&FetchResult::Failed);
    assert!(matches!(r, Err(HarvestError::Transport)));
}

#[test]
fn duplicate_keys_overwrite() {
    // two pages carrying the same slug: the later page wins
    let p1 = player_page(
        &[player_row(Some("/players/a/"), "A", &rushing_cells())],
        Some("/page2"),
    );
    let p2 = player_page(
        &[player_row(
            Some("/players/a/"),
            "A",
            &["999", "25", "1", "2", "1", "30", "7", "28.0", "1"],
        )],
        None,
    );
    let t = statharvest::league::get_league_rushing(&vec![
        FetchResult::Body(p1),
        FetchResult::Body(p2),
    ])
    .unwrap();
    assert_eq!(t.len(), 1);
    assert_eq!(t.get("a").copied().unwrap().rush_yds, 999);
}

#[test]
fn short_rows_decode_to_defaults() {
    // a row shorter than the schema fills the missing fields with zeroes
    let rows = vec![player_row(Some("/players/a/"), "A", &["120"])];
    let page = player_page(&rows, None);
    let t = statharvest::league::get_league_rushing(&vec![FetchResult::Body(page)]).unwrap();
    let r = t.get("a").copied().unwrap();
    assert_eq!(r.rush_yds, 120);
    assert_eq!(r.att, 0);
    assert_eq!(r.rush_first_pct, statharvest::text::Decimal { neg: false, milli: 0 });
}

#[test]
fn crawl_state_stepwise_drive() {
    // the caller-facing crawl: feed pages one at a time, following the
    // absolute next-page URL the state reports
    let mut st = statharvest::crawl::CrawlState::<statharvest::players::Rushing>::start();
    assert_eq!(st.pages_fetched(), 0);
    let p1 = player_page(
        &[player_row(Some("/players/a/"), "A", &rushing_cells())],
        Some("/page2"),
    );
    let next = st.ingest(&p1);
    assert_eq!(next.as_deref(), Some("https://www.nfl.com/page2"));
    let p2 = player_page(&[player_row(Some("/players/b/"), "B", &rushing_cells())], None);
    assert_eq!(st.ingest(&p2), None);
    assert_eq!(st.pages_fetched(), 2);
    let t = st.finish();
    assert_eq!(t.len(), 2);
    assert!(t.get("a").is_some());
    assert!(t.get("b").is_some());
}
