//! The team-mode harvest, exercised on small table pages: every category
//! decoder, the league joins and the per-team lookups.

use statharvest::text::Decimal;
use statharvest::FetchResult;
use statharvest::HarvestError;

fn team_page(rows: &[Vec<&str>]) -> String {
    let mut body = String::from("<html><body><table>");
    for row in rows {
        body.push_str("<tr>");
        for cell in row {
            body.push_str(&format!("<td>{}</td>", cell));
        }
        body.push_str("</tr>");
    }
    body.push_str("</table></body></html>");
    body
}

fn one_row_page(first: &str, cells: &[&str]) -> String {
    let mut row = vec![first];
    row.extend_from_slice(cells);
    team_page(&[row])
}

#[test]
fn test_get_offense_passing() {
    let page = team_page(&[vec!["NE New England Patriots", "10", "11", "2.25", "3.25", "14", "15", "16", "7.25", "18", "9.25", "20", "21", "22", "23", "24"]]);
    let t = statharvest::teams::get_offense_passing(&FetchResult::Body(page)).unwrap();
    assert_eq!(t.len(), 1);
    let r = t.get("NE").copied().unwrap();
    assert_eq!(r.att, 10);
    assert_eq!(r.cmp, 11);
    assert_eq!(r.cmp_pct, Decimal { neg: false, milli: 2250 });
    assert_eq!(r.yds_per_att, Decimal { neg: false, milli: 3250 });
    assert_eq!(r.yds, 14);
    assert_eq!(r.td, 15);
    assert_eq!(r.ints, 16);
    assert_eq!(r.rate, Decimal { neg: false, milli: 7250 });
    assert_eq!(r.first, 18);
    assert_eq!(r.first_pct, Decimal { neg: false, milli: 9250 });
    assert_eq!(r.twenty_plus, 20);
    assert_eq!(r.fourty_plus, 21);
    assert_eq!(r.lng, 22);
    assert_eq!(r.sck, 23);
    assert_eq!(r.sck_yards, 24);
}

#[test]
fn test_get_offense_rushing() {
    let page = team_page(&[vec!["NE New England Patriots", "10", "11", "2.25", "13", "14", "15", "16", "17", "8.25", "19"]]);
    let t = statharvest::teams::get_offense_rushing(&FetchResult::Body(page)).unwrap();
    assert_eq!(t.len(), 1);
    let r = t.get("NE").copied().unwrap();
    assert_eq!(r.att, 10);
    assert_eq!(r.yds, 11);
    assert_eq!(r.yards_per_carry, Decimal { neg: false, milli: 2250 });
    assert_eq!(r.td, 13);
    assert_eq!(r.twenty_plus, 14);
    assert_eq!(r.fourty_plus, 15);
    assert_eq!(r.lng, 16);
    assert_eq!(r.rush_first, 17);
    assert_eq!(r.rush_first_pct, Decimal { neg: false, milli: 8250 });
    assert_eq!(r.fum, 19);
}

#[test]
fn test_get_offense_recieving() {
    let page = team_page(&[vec!["NE New England Patriots", "10", "11", "2.25", "13", "14", "15", "16", "17", "8.25", "19"]]);
    let t = statharvest::teams::get_offense_receiving(&FetchResult::Body(page)).unwrap();
    assert_eq!(t.len(), 1);
    let r = t.get("NE").copied().unwrap();
    assert_eq!(r.rec, 10);
    assert_eq!(r.yds, 11);
    assert_eq!(r.yds_per_rec, Decimal { neg: false, milli: 2250 });
    assert_eq!(r.td, 13);
    assert_eq!(r.twenty_plus, 14);
    assert_eq!(r.fourty_plus, 15);
    assert_eq!(r.lng, 16);
    assert_eq!(r.rec_first, 17);
    assert_eq!(r.rec_first_pct, Decimal { neg: false, milli: 8250 });
    assert_eq!(r.fum, 19);
}

#[test]
fn test_get_offense_scoring() {
    let page = team_page(&[vec!["NE New England Patriots", "10", "11", "12", "13"]]);
    let t = statharvest::teams::get_offense_scoring(&FetchResult::Body(page)).unwrap();
    assert_eq!(t.len(), 1);
    let r = t.get("NE").copied().unwrap();
    assert_eq!(r.rsh_td, 10);
    assert_eq!(r.rec_td, 11);
    assert_eq!(r.total_td, 12);
    assert_eq!(r.two_pt, 13);
}

#[test]
fn test_get_offense_downs() {
    let page = team_page(&[vec!["NE New England Patriots", "10", "11", "12", "13", "14", "5.25", "16", "7.25", "18"]]);
    let t = statharvest::teams::get_offense_downs(&FetchResult::Body(page)).unwrap();
    assert_eq!(t.len(), 1);
    let r = t.get("NE").copied().unwrap();
    assert_eq!(r.third_att, 10);
    assert_eq!(r.third_md, 11);
    assert_eq!(r.fourth_att, 12);
    assert_eq!(r.fourth_md, 13);
    assert_eq!(r.rec_first, 14);
    assert_eq!(r.rec_first_pct, Decimal { neg: false, milli: 5250 });
    assert_eq!(r.rush_first, 16);
    assert_eq!(r.rush_first_pct, Decimal { neg: false, milli: 7250 });
    assert_eq!(r.scrm_plays, 18);
}

#[test]
fn test_get_defense_passing() {
    let page = team_page(&[vec!["NE New England Patriots", "10", "11", "2.25", "3.25", "14", "15", "16", "7.25", "18", "9.25", "20", "21", "22", "23"]]);
    let t = statharvest::teams::get_defense_passing(&FetchResult::Body(page)).unwrap();
    assert_eq!(t.len(), 1);
    let r = t.get("NE").copied().unwrap();
    assert_eq!(r.att, 10);
    assert_eq!(r.cmp, 11);
    assert_eq!(r.cmp_pct, Decimal { neg: false, milli: 2250 });
    assert_eq!(r.yds_per_att, Decimal { neg: false, milli: 3250 });
    assert_eq!(r.yds, 14);
    assert_eq!(r.td, 15);
    assert_eq!(r.ints, 16);
    assert_eq!(r.rate, Decimal { neg: false, milli: 7250 });
    assert_eq!(r.first, 18);
    assert_eq!(r.first_pct, Decimal { neg: false, milli: 9250 });
    assert_eq!(r.twenty_plus, 20);
    assert_eq!(r.fourty_plus, 21);
    assert_eq!(r.lng, 22);
    assert_eq!(r.sck, 23);
}

#[test]
fn test_get_defense_rushing() {
    let page = team_page(&[vec!["NE New England Patriots", "10", "11", "2.25", "13", "14", "15", "16", "17", "8.25", "19"]]);
    let t = statharvest::teams::get_defense_rushing(&FetchResult::Body(page)).unwrap();
    assert_eq!(t.len(), 1);
    let r = t.get("NE").copied().unwrap();
    assert_eq!(r.att, 10);
    assert_eq!(r.yds, 11);
    assert_eq!(r.yards_per_carry, Decimal { neg: false, milli: 2250 });
    assert_eq!(r.td, 13);
    assert_eq!(r.twenty_plus, 14);
    assert_eq!(r.fourty_plus, 15);
    assert_eq!(r.lng, 16);
    assert_eq!(r.rush_first, 17);
    assert_eq!(r.rush_first_pct, Decimal { neg: false, milli: 8250 });
    assert_eq!(r.fum, 19);
}

#[test]
fn test_get_defense_receiving() {
    let page = team_page(&[vec!["NE New England Patriots", "10", "11", "2.25", "13", "14", "15", "16", "17", "8.25", "19", "20"]]);
    let t = statharvest::teams::get_defense_receiving(&FetchResult::Body(page)).unwrap();
    assert_eq!(t.len(), 1);
    let r = t.get("NE").copied().unwrap();
    assert_eq!(r.rec, 10);
    assert_eq!(r.yds, 11);
    assert_eq!(r.yds_per_rec, Decimal { neg: false, milli: 2250 });
    assert_eq!(r.td, 13);
    assert_eq!(r.twenty_plus, 14);
    assert_eq!(r.fourty_plus, 15);
    assert_eq!(r.lng, 16);
    assert_eq!(r.rec_first, 17);
    assert_eq!(r.rec_first_pct, Decimal { neg: false, milli: 8250 });
    assert_eq!(r.fum, 19);
    assert_eq!(r.pdef, 20);
}

#[test]
fn test_get_defense_scoring() {
    let page = team_page(&[vec!["NE New England Patriots", "10", "11", "12"]]);
    let t = statharvest::teams::get_defense_scoring(&FetchResult::Body(page)).unwrap();
    assert_eq!(t.len(), 1);
    let r = t.get("NE").copied().unwrap();
    assert_eq!(r.fr_td, 10);
    assert_eq!(r.safety, 11);
    assert_eq!(r.int_td, 12);
}

#[test]
fn test_get_defense_tackles() {
    let page = team_page(&[vec!["NE New England Patriots", "10", "11", "12", "13"]]);
    let t = statharvest::teams::get_defense_tackles(&FetchResult::Body(page)).unwrap();
    assert_eq!(t.len(), 1);
    let r = t.get("NE").copied().unwrap();
    assert_eq!(r.sck, 10);
    assert_eq!(r.comb, 11);
    assert_eq!(r.asst, 12);
    assert_eq!(r.solo, 13);
}

#[test]
fn test_get_defense_downs() {
    let page = team_page(&[vec!["NE New England Patriots", "10", "11", "12", "13", "14", "5.25", "16", "7.25", "18"]]);
    let t = statharvest::teams::get_defense_downs(&FetchResult::Body(page)).unwrap();
    assert_eq!(t.len(), 1);
    let r = t.get("NE").copied().unwrap();
    assert_eq!(r.third_att, 10);
    assert_eq!(r.third_md, 11);
    assert_eq!(r.fourth_att, 12);
    assert_eq!(r.fourth_md, 13);
    assert_eq!(r.rec_first, 14);
    assert_eq!(r.rec_first_pct, Decimal { neg: false, milli: 5250 });
    assert_eq!(r.rush_first, 16);
    assert_eq!(r.rush_first_pct, Decimal { neg: false, milli: 7250 });
    assert_eq!(r.scrm_plays, 18);
}

#[test]
fn test_get_defense_fumbles() {
    let page = team_page(&[vec!["NE New England Patriots", "10", "11", "12", "13", "14"]]);
    let t = statharvest::teams::get_defense_fumbles(&FetchResult::Body(page)).unwrap();
    assert_eq!(t.len(), 1);
    let r = t.get("NE").copied().unwrap();
    assert_eq!(r.ff, 10);
    assert_eq!(r.fr, 11);
    assert_eq!(r.fr_td, 12);
    assert_eq!(r.rec_fum, 13);
    assert_eq!(r.rush_fum, 14);
}

#[test]
fn test_get_defense_interceptions() {
    let page = team_page(&[vec!["NE New England Patriots", "10", "11", "12", "13"]]);
    let t = statharvest::teams::get_defense_interceptions(&FetchResult::Body(page)).unwrap();
    assert_eq!(t.len(), 1);
    let r = t.get("NE").copied().unwrap();
    assert_eq!(r.ints, 10);
    assert_eq!(r.int_td, 11);
    assert_eq!(r.int_yds, 12);
    assert_eq!(r.lng, 13);
}

#[test]
fn test_get_special_teams_field_goal() {
    let page = team_page(&[vec!["NE New England Patriots", "10", "11", "2.25", "3_4", "4_5", "5_6", "6_7", "7_8", "8_9", "19", "20"]]);
    let t = statharvest::teams::get_special_teams_field_goal(&FetchResult::Body(page)).unwrap();
    assert_eq!(t.len(), 1);
    let r = t.get("NE").copied().unwrap();
    assert_eq!(r.fgm, 10);
    assert_eq!(r.att, 11);
    assert_eq!(r.fg_pct, Decimal { neg: false, milli: 2250 });
    assert_eq!(r.fg_A, statharvest::special_teams::A_M(3, 4));
    assert_eq!(r.fg_B, statharvest::special_teams::A_M(4, 5));
    assert_eq!(r.fg_C, statharvest::special_teams::A_M(5, 6));
    assert_eq!(r.fg_D, statharvest::special_teams::A_M(6, 7));
    assert_eq!(r.fg_E, statharvest::special_teams::A_M(7, 8));
    assert_eq!(r.fg_F, statharvest::special_teams::A_M(8, 9));
    assert_eq!(r.lng, 19);
    assert_eq!(r.fg_blk, 20);
}

#[test]
fn test_get_special_teams_scoring() {
    let page = team_page(&[vec!["NE New England Patriots", "10", "1.25", "12", "3.25", "14", "15"]]);
    let t = statharvest::teams::get_special_teams_scoring(&FetchResult::Body(page)).unwrap();
    assert_eq!(t.len(), 1);
    let r = t.get("NE").copied().unwrap();
    assert_eq!(r.fgm, 10);
    assert_eq!(r.fg_pct, Decimal { neg: false, milli: 1250 });
    assert_eq!(r.xpm, 12);
    assert_eq!(r.xp_pct, Decimal { neg: false, milli: 3250 });
    assert_eq!(r.kret_td, 14);
    assert_eq!(r.pret_t, 15);
}

#[test]
fn test_get_special_teams_kickoffs() {
    let page = team_page(&[vec!["NE New England Patriots", "10", "11", "12", "3.25", "14", "5.25", "16", "17", "18", "19"]]);
    let t = statharvest::teams::get_special_teams_kickoffs(&FetchResult::Body(page)).unwrap();
    assert_eq!(t.len(), 1);
    let r = t.get("NE").copied().unwrap();
    assert_eq!(r.ko, 10);
    assert_eq!(r.yds, 11);
    assert_eq!(r.tb, 12);
    assert_eq!(r.tb_pct, Decimal { neg: false, milli: 3250 });
    assert_eq!(r.ret, 14);
    assert_eq!(r.ret_avg, Decimal { neg: false, milli: 5250 });
    assert_eq!(r.osk, 16);
    assert_eq!(r.osk_rec, 17);
    assert_eq!(r.oob, 18);
    assert_eq!(r.td, 19);
}

#[test]
fn test_get_special_teams_kickoff_return() {
    let page = team_page(&[vec!["NE New England Patriots", "0.25", "11", "12", "13", "14", "15", "16", "17", "18", "19", "20"]]);
    let t = statharvest::teams::get_special_teams_kickoff_return(&FetchResult::Body(page)).unwrap();
    assert_eq!(t.len(), 1);
    let r = t.get("NE").copied().unwrap();
    assert_eq!(r.avg, Decimal { neg: false, milli: 250 });
    assert_eq!(r.ret, 11);
    assert_eq!(r.yds, 12);
    assert_eq!(r.ret_td, 13);
    assert_eq!(r.twenty_plus, 14);
    assert_eq!(r.fourty_plus, 15);
    assert_eq!(r.lng, 16);
    assert_eq!(r.fc, 17);
    assert_eq!(r.fum, 18);
    assert_eq!(r.fg_blk, 19);
    assert_eq!(r.xp_blk, 20);
}

#[test]
fn test_get_special_teams_punting() {
    let page = team_page(&[vec!["NE New England Patriots", "0.25", "11", "12", "3.25", "14", "15", "16", "17", "18", "19", "20", "21", "22", "23", "24"]]);
    let t = statharvest::teams::get_special_teams_punting(&FetchResult::Body(page)).unwrap();
    assert_eq!(t.len(), 1);
    let r = t.get("NE").copied().unwrap();
    assert_eq!(r.net_avg, Decimal { neg: false, milli: 250 });
    assert_eq!(r.net_yds, 11);
    assert_eq!(r.punts, 12);
    assert_eq!(r.avg, Decimal { neg: false, milli: 3250 });
    assert_eq!(r.lng, 14);
    assert_eq!(r.yds, 15);
    assert_eq!(r.in_twenty, 16);
    assert_eq!(r.oob, 17);
    assert_eq!(r.dn, 18);
    assert_eq!(r.tb, 19);
    assert_eq!(r.fc, 20);
    assert_eq!(r.ret, 21);
    assert_eq!(r.ret_yds, 22);
    assert_eq!(r.td, 23);
    assert_eq!(r.p_blk, 24);
}

#[test]
fn test_get_special_teams_punt_returns() {
    let page = team_page(&[vec!["NE New England Patriots", "0.25", "11", "12", "13", "14", "15", "16", "17", "18", "19"]]);
    let t = statharvest::teams::get_special_teams_punt_returns(&FetchResult::Body(page)).unwrap();
    assert_eq!(t.len(), 1);
    let r = t.get("NE").copied().unwrap();
    assert_eq!(r.avg, Decimal { neg: false, milli: 250 });
    assert_eq!(r.ret, 11);
    assert_eq!(r.yds, 12);
    assert_eq!(r.pret_tot, 13);
    assert_eq!(r.twenty_plus, 14);
    assert_eq!(r.fourty_plus, 15);
    assert_eq!(r.lng, 16);
    assert_eq!(r.fc, 17);
    assert_eq!(r.fum, 18);
    assert_eq!(r.p_blk, 19);
}

#[test]
fn test_get_league_offense() {
    // NE appears in every category; KC only in scoring, so KC's other slots
    // take the zero defaults.
    let passing = one_row_page(
        "NE New England Patriots",
        &["30", "20", "66.7", "7.5", "300", "3", "1", "101.3", "15", "50.0", "4", "2", "45", "2", "15"],
    );
    let rushing = one_row_page("NE New England Patriots", &["25", "120", "4.8", "1", "2", "1", "30", "7", "28.0", "1"]);
    let receiving = one_row_page("NE New England Patriots", &["20", "300", "15.0", "3", "4", "2", "45", "15", "75.0", "0"]);
    let scoring = team_page(&[
        vec!["NE New England Patriots", "1", "3", "4", "1"],
        vec!["KC Kansas City Chiefs", "2", "2", "5", "0"],
    ]);
    let league = statharvest::teams::get_league_offense(
        &FetchResult::Body(passing),
        &FetchResult::Body(rushing),
        &FetchResult::Body(receiving),
        &FetchResult::Body(scoring),
    )
    .unwrap();
    assert_eq!(league.len(), 2);
    let ne = league.get("NE").copied().unwrap();
    assert_eq!(ne.passing.att, 30);
    assert_eq!(ne.rushing.yds, 120);
    assert_eq!(ne.receiving.rec, 20);
    assert_eq!(ne.scoring.rec_td, 3);
    let kc = league.get("KC").copied().unwrap();
    assert_eq!(kc.scoring.rsh_td, 2);
    // absent categories fall back to the zero default
    assert_eq!(kc.passing.att, 0);
    assert_eq!(kc.passing.cmp_pct, Decimal { neg: false, milli: 0 });
    assert_eq!(kc.rushing.yds, 0);
    assert_eq!(kc.receiving.rec, 0);
}

#[test]
fn test_get_league_defense() {
    let mk = |cells: &[&str]| FetchResult::Body(one_row_page("NE New England Patriots", cells));
    let league = statharvest::teams::get_league_defense(
        &mk(&["10", "11", "1.25", "2.25", "14", "15", "16", "3.25", "18", "4.25", "20", "21", "22", "23"]),
        &mk(&["10", "11", "2.25", "13", "14", "15", "16", "17", "8.25", "19"]),
        &mk(&["10", "11", "2.25", "13", "14", "15", "16", "17", "8.25", "19", "20"]),
        &mk(&["10", "11", "12"]),
        &mk(&["10", "11", "12", "13"]),
        &mk(&["10", "11", "12", "13", "14", "5.25", "16", "7.25", "18"]),
        &mk(&["10", "11", "12", "13", "14"]),
        &mk(&["10", "11", "12", "13"]),
    )
    .unwrap();
    assert_eq!(league.len(), 1);
    let ne = league.get("NE").copied().unwrap();
    assert_eq!(ne.passing.att, 10);
    assert_eq!(ne.tackles.solo, 13);
    assert_eq!(ne.interceptions.ints, 10);
    assert_eq!(ne.fumbles.rush_fum, 14);
}

#[test]
fn test_get_league_special_teams() {
    let fg = one_row_page(
        "NE New England Patriots",
        &["10", "11", "2.25", "3_4", "4_5", "5_6", "6_7", "7_8", "8_9", "19", "20"],
    );
    let mk = |cells: &[&str]| FetchResult::Body(one_row_page("NE New England Patriots", cells));
    let league = statharvest::teams::get_league_special_teams(
        &FetchResult::Body(fg),
        &mk(&["10", "1.25", "12", "3.25", "14", "15"]),
        &mk(&["10", "11", "12", "3.25", "14", "5.25", "16", "17", "18", "19"]),
        &mk(&["0.25", "11", "12", "13", "14", "15", "16", "17", "18", "19", "20"]),
        &mk(&["0.25", "11", "12", "3.25", "14", "15", "16", "17", "18", "19", "20", "21", "22", "23", "24"]),
        &mk(&["0.25", "11", "12", "13", "14", "15", "16", "17", "18", "19"]),
    )
    .unwrap();
    assert_eq!(league.len(), 1);
    let ne = league.get("NE").copied().unwrap();
    assert_eq!(ne.field_goals.fg_A, statharvest::special_teams::A_M(3, 4));
    assert_eq!(ne.scoring.xpm, 12);
    assert_eq!(ne.punting.net_yds, 11);
}

#[test]
fn test_get_team_offense() {
    let passing = one_row_page(
        "Patriots New England",
        &["30", "20", "66.7", "7.5", "300", "3", "1", "101.3", "15", "50.0", "4", "2", "45", "2", "15"],
    );
    let rushing = one_row_page("Patriots New England", &["25", "120", "4.8", "1", "2", "1", "30", "7", "28.0", "1"]);
    let receiving = one_row_page("Patriots New England", &["20", "300", "15.0", "3", "4", "2", "45", "15", "75.0", "0"]);
    let scoring = one_row_page("Patriots New England", &["1", "3", "4", "1"]);
    let s = statharvest::teams::get_offense_stats(
        "Patriots",
        &FetchResult::Body(passing.clone()),
        &FetchResult::Body(rushing.clone()),
        &FetchResult::Body(receiving.clone()),
        &FetchResult::Body(scoring.clone()),
    )
    .unwrap();
    assert_eq!(s.passing.yds, 300);
    assert_eq!(s.scoring.two_pt, 1);
    // a team no category lists is not found
    let missing = statharvest::teams::get_offense_stats(
        "Jets",
        &FetchResult::Body(passing),
        &FetchResult::Body(rushing),
        &FetchResult::Body(receiving),
        &FetchResult::Body(scoring),
    );
    assert_eq!(missing, Err(HarvestError::NotFound));
}

#[test]
fn test_get_team_defense() {
    let mk = |cells: &[&str]| FetchResult::Body(one_row_page("Patriots New England", cells));
    let s = statharvest::teams::get_defense_stats(
        "Patriots",
        &mk(&["10", "11", "1.25", "2.25", "14", "15", "16", "3.25", "18", "4.25", "20", "21", "22", "23"]),
        &mk(&["10", "11", "2.25", "13", "14", "15", "16", "17", "8.25", "19"]),
        &mk(&["10", "11", "2.25", "13", "14", "15", "16", "17", "8.25", "19", "20"]),
        &mk(&["10", "11", "12"]),
        &mk(&["10", "11", "12", "13"]),
        &mk(&["10", "11", "12", "13", "14", "5.25", "16", "7.25", "18"]),
        &mk(&["10", "11", "12", "13", "14"]),
        &mk(&["10", "11", "12", "13"]),
    )
    .unwrap();
    assert_eq!(s.scoring.safety, 11);
    assert_eq!(s.downs.scrm_plays, 18);
}

#[test]
fn test_get_team_special_teams() {
    let mk = |cells: &[&str]| FetchResult::Body(one_row_page("Patriots New England", cells));
    let s = statharvest::teams::get_special_teams_stats(
        "Patriots",
        &mk(&["10", "11", "2.25", "3_4", "4_5", "5_6", "6_7", "7_8", "8_9", "19", "20"]),
        &mk(&["10", "1.25", "12", "3.25", "14", "15"]),
        &mk(&["10", "11", "12", "3.25", "14", "5.25", "16", "17", "18", "19"]),
        &mk(&["0.25", "11", "12", "13", "14", "15", "16", "17", "18", "19", "20"]),
        &mk(&["0.25", "11", "12", "3.25", "14", "15", "16", "17", "18", "19", "20", "21", "22", "23", "24"]),
        &mk(&["0.25", "11", "12", "13", "14", "15", "16", "17", "18", "19"]),
    );
    let s = s.unwrap();
    assert_eq!(s.kickoffs.ko, 10);
    assert_eq!(s.punt_returns.avg, Decimal { neg: false, milli: 250 });
}
