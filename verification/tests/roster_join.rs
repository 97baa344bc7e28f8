//! The multi-category join over player tables and the roster assembly from
//! profile pages.

use statharvest::decode::RowDecode;
use statharvest::league::{
    build_player, get_league_player_summary, get_league_players, get_player, get_player_passing,
    get_player_team,
};
use statharvest::players;
use statharvest::table::StatTable;
use statharvest::FetchResult;
use statharvest::HarvestError;

fn rows_page(rows: &str) -> String {
    format!("<html><body><table>{}</table></body></html>", rows)
}

fn join_stat_row(href: &str, cells: &[&str]) -> String {
    let mut row = format!(
        "<tr><td><a class=\"d3-o-player-fullname\" href=\"{}\">X</a></td>",
        href
    );
    for cell in cells {
        row.push_str(&format!("<td>{}</td>", cell));
    }
    row.push_str("</tr>");
    row
}

fn blank_transcript() -> Vec<FetchResult> {
    vec![FetchResult::Body(String::from("<html><body></body></html>"))]
}

fn profile_page(name: &str, position: &str, data: &str, team: &str, status: &str) -> String {
    format!(
        "<html><body>\
         <h1 class=\"nfl-c-player-header__title\">{}</h1>\
         <span class=\"nfl-c-player-header__position\">{}</span>\
         <div class=\"nfl-c-player-header__player-data\">{}</div>\
         <div class=\"nfl-c-player-header__team\">{}</div>\
         <div class=\"nfl-c-player-header__roster-status\">{}</div>\
         </body></html>",
        name, position, data, team, status
    )
}

#[test]
fn league_summary_union_join() {
    // passing lists only "a"; rushing lists "a" and "b": the union keeps
    // both, and "b"'s passing slot takes the category's zero default
    let passing = vec![FetchResult::Body(rows_page(&join_stat_row(
        "/players/a/",
        &[
            "300", "7.5", "30", "20", "66.7", "3", "1", "101.3", "15", "50.0", "4", "2", "45",
            "2", "15",
        ],
    )))];
    let rushing_rows = format!(
        "{}{}",
        join_stat_row("/players/a/", &["120", "25", "1", "2", "1", "30", "7", "28.0", "1"]),
        join_stat_row("/players/b/", &["80", "20", "0", "1", "0", "15", "4", "20.0", "0"])
    );
    let rushing = vec![FetchResult::Body(rows_page(&rushing_rows))];
    let summary = get_league_player_summary(
        &passing,
        &rushing,
        &blank_transcript(),
        &blank_transcript(),
        &blank_transcript(),
        &blank_transcript(),
        &blank_transcript(),
        &blank_transcript(),
        &blank_transcript(),
        &blank_transcript(),
        &blank_transcript(),
    )
    .unwrap();
    assert_eq!(summary.len(), 2);
    let a = *summary.get("a").unwrap();
    assert_eq!(a.passing.pass_yds, 300);
    assert_eq!(a.rushing.rush_yds, 120);
    let b = *summary.get("b").unwrap();
    assert_eq!(b.rushing.rush_yds, 80);
    assert_eq!(b.passing, players::Passing::zero());
    assert_eq!(b.tackles, players::Tackles::zero());
}

#[test]
fn league_summary_transport_failure() {
    // one failed category fetch aborts the whole join
    let r = get_league_player_summary(
        &blank_transcript(),
        &vec![FetchResult::Failed],
        &blank_transcript(),
        &blank_transcript(),
        &blank_transcript(),
        &blank_transcript(),
        &blank_transcript(),
        &blank_transcript(),
        &blank_transcript(),
        &blank_transcript(),
        &blank_transcript(),
    );
    assert!(matches!(r, Err(HarvestError::Transport)));
}

#[test]
fn player_profile_header_fields() {
    let page = profile_page("  John Smith ", " QB ", "Info\n#12", "New England Patriots", "ACT");
    let info = get_player_team(&FetchResult::Body(page)).unwrap();
    assert_eq!(info, vec!["John Smith", "QB", "#12", "New England Patriots", "ACT"]);
    // a page missing a header field is malformed
    let bare = String::from("<html><body></body></html>");
    assert!(matches!(
        get_player_team(&FetchResult::Body(bare)),
        Err(HarvestError::Malformed)
    ));
    assert!(matches!(
        get_player_team(&FetchResult::Failed),
        Err(HarvestError::Transport)
    ));
}

#[test]
fn roster_assembly() {
    let mut summary: StatTable<players::Summary> = StatTable::new();
    let zero_summary = players::Summary {
        passing: players::Passing::zero(),
        rushing: players::Rushing::zero(),
        receiving: players::Receiving::zero(),
        fumbles: players::Fumbles::zero(),
        tackles: players::Tackles::zero(),
        interceptions: players::Interceptions::zero(),
        field_goals: players::FieldGoals::zero(),
        kickoffs: players::Kickoffs::zero(),
        kickoff_returns: players::KickoffReturns::zero(),
        punting: players::Punting::zero(),
        punt_returns: players::PuntReturns::zero(),
    };
    summary.insert(String::from("john-smith"), zero_summary);
    summary.insert(String::from("jane-doe"), zero_summary);
    summary.insert(String::from("lost"), zero_summary);
    let profiles = vec![
        (
            String::from("john-smith"),
            FetchResult::Body(profile_page(
                "John Smith",
                "QB",
                "Info\n\u{2022}#12",
                "New England Patriots",
                "ACT",
            )),
        ),
        (
            String::from("jane-doe"),
            // an unknown position abbreviation drops only this player
            FetchResult::Body(profile_page("Jane Doe", "ZZ", "#9", "Chiefs", "ACT")),
        ),
        (String::from("lost"), FetchResult::Failed),
    ];
    let roster = get_league_players(&summary, &profiles).unwrap();
    assert_eq!(roster.len(), 1);
    let p = roster.get("john-smith").unwrap().clone();
    assert_eq!(p.name, "John Smith");
    assert_eq!(p.position, players::Position::QB);
    assert_eq!(p.jersey_num, 12);
    assert_eq!(p.team, "Patriots");
    assert_eq!(p.status, "ACT");
    assert!(roster.get("jane-doe").is_none());
    assert!(roster.get("lost").is_none());

    // the single-player lookups
    let looked = get_player("john-smith", &roster).unwrap();
    assert_eq!(looked.name, "John Smith");
    assert!(matches!(
        get_player("nobody", &roster),
        Err(HarvestError::NotFound)
    ));
    assert_eq!(get_player_passing("john-smith", &summary).unwrap(), players::Passing::zero());
    assert!(matches!(
        get_player_passing("nobody", &summary),
        Err(HarvestError::NotFound)
    ));
}

#[test]
fn build_player_rejects_unknown_position() {
    let info = vec![
        String::from("Jane Doe"),
        String::from("ZZ"),
        String::from("#9"),
        String::from("Kansas City Chiefs"),
        String::from("ACT"),
    ];
    let zero_summary = players::Summary {
        passing: players::Passing::zero(),
        rushing: players::Rushing::zero(),
        receiving: players::Receiving::zero(),
        fumbles: players::Fumbles::zero(),
        tackles: players::Tackles::zero(),
        interceptions: players::Interceptions::zero(),
        field_goals: players::FieldGoals::zero(),
        kickoffs: players::Kickoffs::zero(),
        kickoff_returns: players::KickoffReturns::zero(),
        punting: players::Punting::zero(),
        punt_returns: players::PuntReturns::zero(),
    };
    assert!(matches!(
        build_player(&info, zero_summary),
        Err(HarvestError::Malformed)
    ));
    let ok = vec![
        String::from("Jane Doe"),
        String::from("WR"),
        String::from("#9"),
        String::from("Kansas City Chiefs"),
        String::from("ACT"),
    ];
    let p = build_player(&ok, zero_summary).unwrap();
    assert_eq!(p.position, players::Position::WR);
    assert_eq!(p.jersey_num, 9);
    assert_eq!(p.team, "Chiefs");
}
