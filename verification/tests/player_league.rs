//! The entity-mode harvest end to end: a category crawl, the league player
//! summary, the roster build, and a profile-page read.

use statharvest::crawl::parse_player_table;
use statharvest::league::{get_league_player_summary, get_league_players, get_player_team};
use statharvest::players;
use statharvest::FetchResult;

fn league_stat_row(href: &str, cells: &[&str]) -> String {
    let mut row = format!(
        "<tr><td><a class=\"d3-o-player-fullname\" href=\"{}\">X</a></td>",
        href
    );
    for cell in cells {
        row.push_str(&format!("<td>{}</td>", cell));
    }
    row.push_str("</tr>");
    row
}

fn table_page(rows: &str) -> String {
    format!("<html><body><table>{}</table></body></html>", rows)
}

fn one_player_transcript(slug: &str, cells: &[&str]) -> Vec<FetchResult> {
    let href = format!("/players/{}/", slug);
    vec![FetchResult::Body(table_page(&league_stat_row(&href, cells)))]
}

fn empty_transcript() -> Vec<FetchResult> {
    vec![FetchResult::Body(String::from("<html><body></body></html>"))]
}

#[test]
fn test_get_player_table() {
    let transcript = one_player_transcript(
        "derius-davis",
        &["120", "25", "1", "2", "1", "30", "7", "28.0", "1"],
    );
    let data = parse_player_table::<players::Rushing>(&transcript).unwrap();
    for key in data.keys() {
        println!("{}", key)
    }
    assert_eq!(data.len(), 1);
    assert_eq!(data.get("derius-davis").copied().unwrap().rush_yds, 120);
}

#[test]
fn test_get_player_summaries() {
    let league = get_league_player_summary(
        &one_player_transcript(
            "tom-brady",
            &[
                "300", "7.5", "30", "20", "66.7", "3", "1", "101.3", "15", "50.0", "4", "2",
                "45", "2", "15",
            ],
        ),
        &empty_transcript(),
        &empty_transcript(),
        &empty_transcript(),
        &empty_transcript(),
        &empty_transcript(),
        &empty_transcript(),
        &empty_transcript(),
        &empty_transcript(),
        &empty_transcript(),
        &empty_transcript(),
    );
    let league = league.unwrap();
    assert_eq!(league.len(), 1);
    let s = *league.get("tom-brady").unwrap();
    assert_eq!(s.passing.pass_yds, 300);
    assert_eq!(s.rushing, players::Rushing {
        rush_yds: 0,
        att: 0,
        td: 0,
        twenty_plus: 0,
        fourty_plus: 0,
        lng: 0,
        rush_first: 0,
        rush_first_pct: statharvest::text::Decimal { neg: false, milli: 0 },
        rush_fum: 0,
    });
}

fn profile(name: &str, position: &str, data: &str, team: &str, status: &str) -> String {
    format!(
        "<html><body>\
         <h1 class=\"nfl-c-player-header__title\">{}</h1>\
         <span class=\"nfl-c-player-header__position\">{}</span>\
         <div class=\"nfl-c-player-header__player-data\">{}</div>\
         <div class=\"nfl-c-player-header__team\">{}</div>\
         <div class=\"nfl-c-player-header__roster-status\">{}</div>\
         </body></html>",
        name, position, data, team, status
    )
}

#[test]
fn test_get_players() {
    let summary = get_league_player_summary(
        &one_player_transcript(
            "tom-brady",
            &[
                "300", "7.5", "30", "20", "66.7", "3", "1", "101.3", "15", "50.0", "4", "2",
                "45", "2", "15",
            ],
        ),
        &empty_transcript(),
        &empty_transcript(),
        &empty_transcript(),
        &empty_transcript(),
        &empty_transcript(),
        &empty_transcript(),
        &empty_transcript(),
        &empty_transcript(),
        &empty_transcript(),
        &empty_transcript(),
    )
    .unwrap();
    let profiles = vec![(
        String::from("tom-brady"),
        FetchResult::Body(profile("Tom Brady", "QB", "Info\n#12", "New England Patriots", "ACT")),
    )];
    let roster = get_league_players(&summary, &profiles).unwrap();
    assert_eq!(roster.len(), 1);
    let p = roster.get("tom-brady").unwrap();
    assert_eq!(p.name, "Tom Brady");
    assert_eq!(p.jersey_num, 12);
    assert_eq!(p.stats.passing.pass_yds, 300);
}

#[test]
fn test_get_player_team() {
    let page = profile("Derius Davis", "WR", "Info\n#12", "Los Angeles Chargers", "ACT");
    let data = get_player_team(&FetchResult::Body(page)).unwrap();
    println!("{:?}", data);
    assert_eq!(data, vec!["Derius Davis", "WR", "#12", "Los Angeles Chargers", "ACT"]);
}
