//! Team-mode harvesting: decoding each team stat category from its fetched
//! page, and the league joins that assemble every team's summary across a
//! category set.
//!
//! The caller fetches each category's page (team tables live on a single
//! page) and hands the outcome in; building the category URLs and performing
//! the fetch are its business.

use vstd::prelude::*;

use crate::crawl::{parse_table, team_page_map};
use crate::html::body_within_limit;
use crate::join::{
    add_keys, distinct_keys, get_or_zero, key_set, lemma_key_set_take_step,
    lemma_key_set_take_zero, slot_or_zero,
};
use crate::table::StatTable;
use crate::{defense, offense, special_teams, FetchResult, HarvestError};

verus! {

/// The Multi-Category Join over the four offense categories: the keys of the result are the
/// union of the entity keys of the decoded category tables, and each key's
/// summary takes, for every category, the category's record for that key or
/// the category's zero default where the key is absent. A single failed
/// fetch aborts the whole join with that failure, producing no partial
/// output.
pub fn get_league_offense(
    passing: &FetchResult,
    rushing: &FetchResult,
    receiving: &FetchResult,
    scoring: &FetchResult,
) -> (r: Result<StatTable<offense::Summary>, HarvestError>)
    requires
        body_within_limit(*passing),
        body_within_limit(*rushing),
        body_within_limit(*receiving),
        body_within_limit(*scoring),
    ensures
        (*passing is Failed || *rushing is Failed || *receiving is Failed || *scoring is Failed) ==> r == Err::<
            StatTable<offense::Summary>,
            HarvestError,
        >(HarvestError::Transport),
        (*passing is Body && *rushing is Body && *receiving is Body && *scoring is Body) ==> match r {
            Ok(t) => {
                let m_passing = team_page_map::<offense::Passing>((*passing)->Body_0@);
                let m_rushing = team_page_map::<offense::Rushing>((*rushing)->Body_0@);
                let m_receiving = team_page_map::<offense::Receiving>((*receiving)->Body_0@);
                let m_scoring = team_page_map::<offense::Scoring>((*scoring)->Body_0@);
                &&& t.wf()
                &&& t@.dom() == m_passing.dom() + m_rushing.dom() + m_receiving.dom() + m_scoring.dom()
                &&& forall|k: Seq<char>| t@.contains_key(k) ==> t@[k] == (offense::Summary {
                    passing: slot_or_zero(m_passing, k),
                    rushing: slot_or_zero(m_rushing, k),
                    receiving: slot_or_zero(m_receiving, k),
                    scoring: slot_or_zero(m_scoring, k),
                })
            },
            Err(_) => false,
        },
{
    let t_passing = match get_offense_passing(passing) {
        Ok(t) => t,
        Err(e) => {
            return Err(e);
        },
    };
    let t_rushing = match get_offense_rushing(rushing) {
        Ok(t) => t,
        Err(e) => {
            return Err(e);
        },
    };
    let t_receiving = match get_offense_receiving(receiving) {
        Ok(t) => t,
        Err(e) => {
            return Err(e);
        },
    };
    let t_scoring = match get_offense_scoring(scoring) {
        Ok(t) => t,
        Err(e) => {
            return Err(e);
        },
    };
    let mut keys: Vec<String> = Vec::new();
    add_keys(&mut keys, &t_passing);
    add_keys(&mut keys, &t_rushing);
    add_keys(&mut keys, &t_receiving);
    add_keys(&mut keys, &t_scoring);
    let mut out = StatTable::<offense::Summary>::new();
    proof {
        lemma_key_set_take_zero(keys@);
    }
    let n = keys.len();
    let mut i: usize = 0;
    while i < n
        invariant
            n == keys@.len(),
            0 <= i <= n,
            distinct_keys(keys@),
            t_passing.wf() && t_rushing.wf() && t_receiving.wf() && t_scoring.wf(),
            out.wf(),
            out@.dom() == key_set(keys@.take(i as int)),
            forall|k: Seq<char>| out@.contains_key(k) ==> out@[k] == (offense::Summary {
                passing: slot_or_zero(t_passing@, k),
                rushing: slot_or_zero(t_rushing@, k),
                receiving: slot_or_zero(t_receiving@, k),
                scoring: slot_or_zero(t_scoring@, k),
            }),
            key_set(keys@) == t_passing@.dom() + t_rushing@.dom() + t_receiving@.dom() + t_scoring@.dom(),
        decreases n - i,
    {
        let key = &keys[i];
        let s = offense::Summary {
            passing: get_or_zero(&t_passing, key.as_str()),
            rushing: get_or_zero(&t_rushing, key.as_str()),
            receiving: get_or_zero(&t_receiving, key.as_str()),
            scoring: get_or_zero(&t_scoring, key.as_str()),
        };
        let kk = key.clone();
        out.insert(kk, s);
        proof {
            lemma_key_set_take_step(keys@, i as int);
            assert(out@.dom() =~= key_set(keys@.take(i as int)).insert(keys@[i as int]@));
        }
        i += 1;
    }
    proof {
        assert(keys@.take(n as int) =~= keys@);
        assert(t_passing@ == team_page_map::<offense::Passing>((*passing)->Body_0@));
        assert(t_rushing@ == team_page_map::<offense::Rushing>((*rushing)->Body_0@));
        assert(t_receiving@ == team_page_map::<offense::Receiving>((*receiving)->Body_0@));
        assert(t_scoring@ == team_page_map::<offense::Scoring>((*scoring)->Body_0@));
    }
    Ok(out)
}

/// The Multi-Category Join over the eight defense categories: the keys of the result are the
/// union of the entity keys of the decoded category tables, and each key's
/// summary takes, for every category, the category's record for that key or
/// the category's zero default where the key is absent. A single failed
/// fetch aborts the whole join with that failure, producing no partial
/// output.
pub fn get_league_defense(
    passing: &FetchResult,
    receiving: &FetchResult,
    rushing: &FetchResult,
    scoring: &FetchResult,
    tackles: &FetchResult,
    downs: &FetchResult,
    fumbles: &FetchResult,
    interceptions: &FetchResult,
) -> (r: Result<StatTable<defense::Summary>, HarvestError>)
    requires
        body_within_limit(*passing),
        body_within_limit(*receiving),
        body_within_limit(*rushing),
        body_within_limit(*scoring),
        body_within_limit(*tackles),
        body_within_limit(*downs),
        body_within_limit(*fumbles),
        body_within_limit(*interceptions),
    ensures
        (*passing is Failed || *receiving is Failed || *rushing is Failed || *scoring is Failed || *tackles is Failed || *downs is Failed || *fumbles is Failed || *interceptions is Failed) ==> r == Err::<
            StatTable<defense::Summary>,
            HarvestError,
        >(HarvestError::Transport),
        (*passing is Body && *receiving is Body && *rushing is Body && *scoring is Body && *tackles is Body && *downs is Body && *fumbles is Body && *interceptions is Body) ==> match r {
            Ok(t) => {
                let m_passing = team_page_map::<defense::Passing>((*passing)->Body_0@);
                let m_receiving = team_page_map::<defense::Receiving>((*receiving)->Body_0@);
                let m_rushing = team_page_map::<defense::Rushing>((*rushing)->Body_0@);
                let m_scoring = team_page_map::<defense::Scoring>((*scoring)->Body_0@);
                let m_tackles = team_page_map::<defense::Tackles>((*tackles)->Body_0@);
                let m_downs = team_page_map::<defense::Downs>((*downs)->Body_0@);
                let m_fumbles = team_page_map::<defense::Fumbles>((*fumbles)->Body_0@);
                let m_interceptions = team_page_map::<defense::Interceptions>((*interceptions)->Body_0@);
                &&& t.wf()
                &&& t@.dom() == m_passing.dom() + m_receiving.dom() + m_rushing.dom() + m_scoring.dom() + m_tackles.dom() + m_downs.dom() + m_fumbles.dom() + m_interceptions.dom()
                &&& forall|k: Seq<char>| t@.contains_key(k) ==> t@[k] == (defense::Summary {
                    passing: slot_or_zero(m_passing, k),
                    receiving: slot_or_zero(m_receiving, k),
                    rushing: slot_or_zero(m_rushing, k),
                    scoring: slot_or_zero(m_scoring, k),
                    tackles: slot_or_zero(m_tackles, k),
                    downs: slot_or_zero(m_downs, k),
                    fumbles: slot_or_zero(m_fumbles, k),
                    interceptions: slot_or_zero(m_interceptions, k),
                })
            },
            Err(_) => false,
        },
{
    let t_passing = match get_defense_passing(passing) {
        Ok(t) => t,
        Err(e) => {
            return Err(e);
        },
    };
    let t_receiving = match get_defense_receiving(receiving) {
        Ok(t) => t,
        Err(e) => {
            return Err(e);
        },
    };
    let t_rushing = match get_defense_rushing(rushing) {
        Ok(t) => t,
        Err(e) => {
            return Err(e);
        },
    };
    let t_scoring = match get_defense_scoring(scoring) {
        Ok(t) => t,
        Err(e) => {
            return Err(e);
        },
    };
    let t_tackles = match get_defense_tackles(tackles) {
        Ok(t) => t,
        Err(e) => {
            return Err(e);
        },
    };
    let t_downs = match get_defense_downs(downs) {
        Ok(t) => t,
        Err(e) => {
            return Err(e);
        },
    };
    let t_fumbles = match get_defense_fumbles(fumbles) {
        Ok(t) => t,
        Err(e) => {
            return Err(e);
        },
    };
    let t_interceptions = match get_defense_interceptions(interceptions) {
        Ok(t) => t,
        Err(e) => {
            return Err(e);
        },
    };
    let mut keys: Vec<String> = Vec::new();
    add_keys(&mut keys, &t_passing);
    add_keys(&mut keys, &t_receiving);
    add_keys(&mut keys, &t_rushing);
    add_keys(&mut keys, &t_scoring);
    add_keys(&mut keys, &t_tackles);
    add_keys(&mut keys, &t_downs);
    add_keys(&mut keys, &t_fumbles);
    add_keys(&mut keys, &t_interceptions);
    let mut out = StatTable::<defense::Summary>::new();
    proof {
        lemma_key_set_take_zero(keys@);
    }
    let n = keys.len();
    let mut i: usize = 0;
    while i < n
        invariant
            n == keys@.len(),
            0 <= i <= n,
            distinct_keys(keys@),
            t_passing.wf() && t_receiving.wf() && t_rushing.wf() && t_scoring.wf() && t_tackles.wf() && t_downs.wf() && t_fumbles.wf() && t_interceptions.wf(),
            out.wf(),
            out@.dom() == key_set(keys@.take(i as int)),
            forall|k: Seq<char>| out@.contains_key(k) ==> out@[k] == (defense::Summary {
                passing: slot_or_zero(t_passing@, k),
                receiving: slot_or_zero(t_receiving@, k),
                rushing: slot_or_zero(t_rushing@, k),
                scoring: slot_or_zero(t_scoring@, k),
                tackles: slot_or_zero(t_tackles@, k),
                downs: slot_or_zero(t_downs@, k),
                fumbles: slot_or_zero(t_fumbles@, k),
                interceptions: slot_or_zero(t_interceptions@, k),
            }),
            key_set(keys@) == t_passing@.dom() + t_receiving@.dom() + t_rushing@.dom() + t_scoring@.dom() + t_tackles@.dom() + t_downs@.dom() + t_fumbles@.dom() + t_interceptions@.dom(),
        decreases n - i,
    {
        let key = &keys[i];
        let s = defense::Summary {
            passing: get_or_zero(&t_passing, key.as_str()),
            receiving: get_or_zero(&t_receiving, key.as_str()),
            rushing: get_or_zero(&t_rushing, key.as_str()),
            scoring: get_or_zero(&t_scoring, key.as_str()),
            tackles: get_or_zero(&t_tackles, key.as_str()),
            downs: get_or_zero(&t_downs, key.as_str()),
            fumbles: get_or_zero(&t_fumbles, key.as_str()),
            interceptions: get_or_zero(&t_interceptions, key.as_str()),
        };
        let kk = key.clone();
        out.insert(kk, s);
        proof {
            lemma_key_set_take_step(keys@, i as int);
            assert(out@.dom() =~= key_set(keys@.take(i as int)).insert(keys@[i as int]@));
        }
        i += 1;
    }
    proof {
        assert(keys@.take(n as int) =~= keys@);
        assert(t_passing@ == team_page_map::<defense::Passing>((*passing)->Body_0@));
        assert(t_receiving@ == team_page_map::<defense::Receiving>((*receiving)->Body_0@));
        assert(t_rushing@ == team_page_map::<defense::Rushing>((*rushing)->Body_0@));
        assert(t_scoring@ == team_page_map::<defense::Scoring>((*scoring)->Body_0@));
        assert(t_tackles@ == team_page_map::<defense::Tackles>((*tackles)->Body_0@));
        assert(t_downs@ == team_page_map::<defense::Downs>((*downs)->Body_0@));
        assert(t_fumbles@ == team_page_map::<defense::Fumbles>((*fumbles)->Body_0@));
        assert(t_interceptions@ == team_page_map::<defense::Interceptions>((*interceptions)->Body_0@));
    }
    Ok(out)
}

/// The Multi-Category Join over the six special-teams categories: the keys of the result are the
/// union of the entity keys of the decoded category tables, and each key's
/// summary takes, for every category, the category's record for that key or
/// the category's zero default where the key is absent. A single failed
/// fetch aborts the whole join with that failure, producing no partial
/// output.
pub fn get_league_special_teams(
    field_goals: &FetchResult,
    scoring: &FetchResult,
    kickoffs: &FetchResult,
    kickoff_returns: &FetchResult,
    punting: &FetchResult,
    punt_returns: &FetchResult,
) -> (r: Result<StatTable<special_teams::Summary>, HarvestError>)
    requires
        body_within_limit(*field_goals),
        body_within_limit(*scoring),
        body_within_limit(*kickoffs),
        body_within_limit(*kickoff_returns),
        body_within_limit(*punting),
        body_within_limit(*punt_returns),
    ensures
        (*field_goals is Failed || *scoring is Failed || *kickoffs is Failed || *kickoff_returns is Failed || *punting is Failed || *punt_returns is Failed) ==> r == Err::<
            StatTable<special_teams::Summary>,
            HarvestError,
        >(HarvestError::Transport),
        (*field_goals is Body && *scoring is Body && *kickoffs is Body && *kickoff_returns is Body && *punting is Body && *punt_returns is Body) ==> match r {
            Ok(t) => {
                let m_field_goals = team_page_map::<special_teams::FieldGoals>((*field_goals)->Body_0@);
                let m_scoring = team_page_map::<special_teams::Scoring>((*scoring)->Body_0@);
                let m_kickoffs = team_page_map::<special_teams::Kickoffs>((*kickoffs)->Body_0@);
                let m_kickoff_returns = team_page_map::<special_teams::KickoffReturns>((*kickoff_returns)->Body_0@);
                let m_punting = team_page_map::<special_teams::Punting>((*punting)->Body_0@);
                let m_punt_returns = team_page_map::<special_teams::PuntReturns>((*punt_returns)->Body_0@);
                &&& t.wf()
                &&& t@.dom() == m_field_goals.dom() + m_scoring.dom() + m_kickoffs.dom() + m_kickoff_returns.dom() + m_punting.dom() + m_punt_returns.dom()
                &&& forall|k: Seq<char>| t@.contains_key(k) ==> t@[k] == (special_teams::Summary {
                    field_goals: slot_or_zero(m_field_goals, k),
                    scoring: slot_or_zero(m_scoring, k),
                    kickoffs: slot_or_zero(m_kickoffs, k),
                    kickoff_returns: slot_or_zero(m_kickoff_returns, k),
                    punting: slot_or_zero(m_punting, k),
                    punt_returns: slot_or_zero(m_punt_returns, k),
                })
            },
            Err(_) => false,
        },
{
    let t_field_goals = match get_special_teams_field_goal(field_goals) {
        Ok(t) => t,
        Err(e) => {
            return Err(e);
        },
    };
    let t_scoring = match get_special_teams_scoring(scoring) {
        Ok(t) => t,
        Err(e) => {
            return Err(e);
        },
    };
    let t_kickoffs = match get_special_teams_kickoffs(kickoffs) {
        Ok(t) => t,
        Err(e) => {
            return Err(e);
        },
    };
    let t_kickoff_returns = match get_special_teams_kickoff_return(kickoff_returns) {
        Ok(t) => t,
        Err(e) => {
            return Err(e);
        },
    };
    let t_punting = match get_special_teams_punting(punting) {
        Ok(t) => t,
        Err(e) => {
            return Err(e);
        },
    };
    let t_punt_returns = match get_special_teams_punt_returns(punt_returns) {
        Ok(t) => t,
        Err(e) => {
            return Err(e);
        },
    };
    let mut keys: Vec<String> = Vec::new();
    add_keys(&mut keys, &t_field_goals);
    add_keys(&mut keys, &t_scoring);
    add_keys(&mut keys, &t_kickoffs);
    add_keys(&mut keys, &t_kickoff_returns);
    add_keys(&mut keys, &t_punting);
    add_keys(&mut keys, &t_punt_returns);
    let mut out = StatTable::<special_teams::Summary>::new();
    proof {
        lemma_key_set_take_zero(keys@);
    }
    let n = keys.len();
    let mut i: usize = 0;
    while i < n
        invariant
            n == keys@.len(),
            0 <= i <= n,
            distinct_keys(keys@),
            t_field_goals.wf() && t_scoring.wf() && t_kickoffs.wf() && t_kickoff_returns.wf() && t_punting.wf() && t_punt_returns.wf(),
            out.wf(),
            out@.dom() == key_set(keys@.take(i as int)),
            forall|k: Seq<char>| out@.contains_key(k) ==> out@[k] == (special_teams::Summary {
                field_goals: slot_or_zero(t_field_goals@, k),
                scoring: slot_or_zero(t_scoring@, k),
                kickoffs: slot_or_zero(t_kickoffs@, k),
                kickoff_returns: slot_or_zero(t_kickoff_returns@, k),
                punting: slot_or_zero(t_punting@, k),
                punt_returns: slot_or_zero(t_punt_returns@, k),
            }),
            key_set(keys@) == t_field_goals@.dom() + t_scoring@.dom() + t_kickoffs@.dom() + t_kickoff_returns@.dom() + t_punting@.dom() + t_punt_returns@.dom(),
        decreases n - i,
    {
        let key = &keys[i];
        let s = special_teams::Summary {
            field_goals: get_or_zero(&t_field_goals, key.as_str()),
            scoring: get_or_zero(&t_scoring, key.as_str()),
            kickoffs: get_or_zero(&t_kickoffs, key.as_str()),
            kickoff_returns: get_or_zero(&t_kickoff_returns, key.as_str()),
            punting: get_or_zero(&t_punting, key.as_str()),
            punt_returns: get_or_zero(&t_punt_returns, key.as_str()),
        };
        let kk = key.clone();
        out.insert(kk, s);
        proof {
            lemma_key_set_take_step(keys@, i as int);
            assert(out@.dom() =~= key_set(keys@.take(i as int)).insert(keys@[i as int]@));
        }
        i += 1;
    }
    proof {
        assert(keys@.take(n as int) =~= keys@);
        assert(t_field_goals@ == team_page_map::<special_teams::FieldGoals>((*field_goals)->Body_0@));
        assert(t_scoring@ == team_page_map::<special_teams::Scoring>((*scoring)->Body_0@));
        assert(t_kickoffs@ == team_page_map::<special_teams::Kickoffs>((*kickoffs)->Body_0@));
        assert(t_kickoff_returns@ == team_page_map::<special_teams::KickoffReturns>((*kickoff_returns)->Body_0@));
        assert(t_punting@ == team_page_map::<special_teams::Punting>((*punting)->Body_0@));
        assert(t_punt_returns@ == team_page_map::<special_teams::PuntReturns>((*punt_returns)->Body_0@));
    }
    Ok(out)
}

/// One team's offense summary: the join of the category tables, looked up by
/// team code; a team no category lists yields `NotFound`.
pub fn get_offense_stats(
    team: &str,
    passing: &FetchResult,
    rushing: &FetchResult,
    receiving: &FetchResult,
    scoring: &FetchResult,
) -> (r: Result<offense::Summary, HarvestError>)
    requires
        body_within_limit(*passing),
        body_within_limit(*rushing),
        body_within_limit(*receiving),
        body_within_limit(*scoring),
    ensures
        (*passing is Failed || *rushing is Failed || *receiving is Failed || *scoring is Failed) ==> r == Err::<offense::Summary, HarvestError>(HarvestError::Transport),
        (*passing is Body && *rushing is Body && *receiving is Body && *scoring is Body) ==> {
            let m_passing = team_page_map::<offense::Passing>((*passing)->Body_0@);
            let m_rushing = team_page_map::<offense::Rushing>((*rushing)->Body_0@);
            let m_receiving = team_page_map::<offense::Receiving>((*receiving)->Body_0@);
            let m_scoring = team_page_map::<offense::Scoring>((*scoring)->Body_0@);
            if (m_passing.dom() + m_rushing.dom() + m_receiving.dom() + m_scoring.dom()).contains(team@) {
                r == Ok::<offense::Summary, HarvestError>((offense::Summary {
                passing: slot_or_zero(m_passing, team@),
                rushing: slot_or_zero(m_rushing, team@),
                receiving: slot_or_zero(m_receiving, team@),
                scoring: slot_or_zero(m_scoring, team@),
                }))
            } else {
                r == Err::<offense::Summary, HarvestError>(HarvestError::NotFound)
            }
        },
{
    let league = match get_league_offense(passing, rushing, receiving, scoring) {
        Ok(t) => t,
        Err(e) => {
            return Err(e);
        },
    };
    match league.get(team) {
        Some(s) => Ok(*s),
        None => Err(HarvestError::NotFound),
    }
}

/// One team's defense summary: the join of the category tables, looked up by
/// team code; a team no category lists yields `NotFound`.
pub fn get_defense_stats(
    team: &str,
    passing: &FetchResult,
    receiving: &FetchResult,
    rushing: &FetchResult,
    scoring: &FetchResult,
    tackles: &FetchResult,
    downs: &FetchResult,
    fumbles: &FetchResult,
    interceptions: &FetchResult,
) -> (r: Result<defense::Summary, HarvestError>)
    requires
        body_within_limit(*passing),
        body_within_limit(*receiving),
        body_within_limit(*rushing),
        body_within_limit(*scoring),
        body_within_limit(*tackles),
        body_within_limit(*downs),
        body_within_limit(*fumbles),
        body_within_limit(*interceptions),
    ensures
        (*passing is Failed || *receiving is Failed || *rushing is Failed || *scoring is Failed || *tackles is Failed || *downs is Failed || *fumbles is Failed || *interceptions is Failed) ==> r == Err::<defense::Summary, HarvestError>(HarvestError::Transport),
        (*passing is Body && *receiving is Body && *rushing is Body && *scoring is Body && *tackles is Body && *downs is Body && *fumbles is Body && *interceptions is Body) ==> {
            let m_passing = team_page_map::<defense::Passing>((*passing)->Body_0@);
            let m_receiving = team_page_map::<defense::Receiving>((*receiving)->Body_0@);
            let m_rushing = team_page_map::<defense::Rushing>((*rushing)->Body_0@);
            let m_scoring = team_page_map::<defense::Scoring>((*scoring)->Body_0@);
            let m_tackles = team_page_map::<defense::Tackles>((*tackles)->Body_0@);
            let m_downs = team_page_map::<defense::Downs>((*downs)->Body_0@);
            let m_fumbles = team_page_map::<defense::Fumbles>((*fumbles)->Body_0@);
            let m_interceptions = team_page_map::<defense::Interceptions>((*interceptions)->Body_0@);
            if (m_passing.dom() + m_receiving.dom() + m_rushing.dom() + m_scoring.dom() + m_tackles.dom() + m_downs.dom() + m_fumbles.dom() + m_interceptions.dom()).contains(team@) {
                r == Ok::<defense::Summary, HarvestError>((defense::Summary {
                passing: slot_or_zero(m_passing, team@),
                receiving: slot_or_zero(m_receiving, team@),
                rushing: slot_or_zero(m_rushing, team@),
                scoring: slot_or_zero(m_scoring, team@),
                tackles: slot_or_zero(m_tackles, team@),
                downs: slot_or_zero(m_downs, team@),
                fumbles: slot_or_zero(m_fumbles, team@),
                interceptions: slot_or_zero(m_interceptions, team@),
                }))
            } else {
                r == Err::<defense::Summary, HarvestError>(HarvestError::NotFound)
            }
        },
{
    let league = match get_league_defense(passing, receiving, rushing, scoring, tackles, downs, fumbles, interceptions) {
        Ok(t) => t,
        Err(e) => {
            return Err(e);
        },
    };
    match league.get(team) {
        Some(s) => Ok(*s),
        None => Err(HarvestError::NotFound),
    }
}

/// One team's special teams summary: the join of the category tables, looked up by
/// team code; a team no category lists yields `NotFound`.
pub fn get_special_teams_stats(
    team: &str,
    field_goals: &FetchResult,
    scoring: &FetchResult,
    kickoffs: &FetchResult,
    kickoff_returns: &FetchResult,
    punting: &FetchResult,
    punt_returns: &FetchResult,
) -> (r: Result<special_teams::Summary, HarvestError>)
    requires
        body_within_limit(*field_goals),
        body_within_limit(*scoring),
        body_within_limit(*kickoffs),
        body_within_limit(*kickoff_returns),
        body_within_limit(*punting),
        body_within_limit(*punt_returns),
    ensures
        (*field_goals is Failed || *scoring is Failed || *kickoffs is Failed || *kickoff_returns is Failed || *punting is Failed || *punt_returns is Failed) ==> r == Err::<special_teams::Summary, HarvestError>(HarvestError::Transport),
        (*field_goals is Body && *scoring is Body && *kickoffs is Body && *kickoff_returns is Body && *punting is Body && *punt_returns is Body) ==> {
            let m_field_goals = team_page_map::<special_teams::FieldGoals>((*field_goals)->Body_0@);
            let m_scoring = team_page_map::<special_teams::Scoring>((*scoring)->Body_0@);
            let m_kickoffs = team_page_map::<special_teams::Kickoffs>((*kickoffs)->Body_0@);
            let m_kickoff_returns = team_page_map::<special_teams::KickoffReturns>((*kickoff_returns)->Body_0@);
            let m_punting = team_page_map::<special_teams::Punting>((*punting)->Body_0@);
            let m_punt_returns = team_page_map::<special_teams::PuntReturns>((*punt_returns)->Body_0@);
            if (m_field_goals.dom() + m_scoring.dom() + m_kickoffs.dom() + m_kickoff_returns.dom() + m_punting.dom() + m_punt_returns.dom()).contains(team@) {
                r == Ok::<special_teams::Summary, HarvestError>((special_teams::Summary {
                field_goals: slot_or_zero(m_field_goals, team@),
                scoring: slot_or_zero(m_scoring, team@),
                kickoffs: slot_or_zero(m_kickoffs, team@),
                kickoff_returns: slot_or_zero(m_kickoff_returns, team@),
                punting: slot_or_zero(m_punting, team@),
                punt_returns: slot_or_zero(m_punt_returns, team@),
                }))
            } else {
                r == Err::<special_teams::Summary, HarvestError>(HarvestError::NotFound)
            }
        },
{
    let league = match get_league_special_teams(field_goals, scoring, kickoffs, kickoff_returns, punting, punt_returns) {
        Ok(t) => t,
        Err(e) => {
            return Err(e);
        },
    };
    match league.get(team) {
        Some(s) => Ok(*s),
        None => Err(HarvestError::NotFound),
    }
}

/// Decodes the offense passing table from its fetched page.
pub fn get_offense_passing(page: &FetchResult) -> (r: Result<StatTable<offense::Passing>, HarvestError>)
    requires
        body_within_limit(*page),
    ensures
        match *page {
            FetchResult::Body(b) => match r {
                Ok(t) => t.wf() && t@ == team_page_map::<offense::Passing>(b@),
                Err(_) => false,
            },
            FetchResult::Failed => r == Err::<StatTable<offense::Passing>, HarvestError>(
                HarvestError::Transport,
            ),
        },
{
    parse_table::<offense::Passing>(page)
}

/// Decodes the offense rushing table from its fetched page.
pub fn get_offense_rushing(page: &FetchResult) -> (r: Result<StatTable<offense::Rushing>, HarvestError>)
    requires
        body_within_limit(*page),
    ensures
        match *page {
            FetchResult::Body(b) => match r {
                Ok(t) => t.wf() && t@ == team_page_map::<offense::Rushing>(b@),
                Err(_) => false,
            },
            FetchResult::Failed => r == Err::<StatTable<offense::Rushing>, HarvestError>(
                HarvestError::Transport,
            ),
        },
{
    parse_table::<offense::Rushing>(page)
}

/// Decodes the offense receiving table from its fetched page.
pub fn get_offense_receiving(page: &FetchResult) -> (r: Result<StatTable<offense::Receiving>, HarvestError>)
    requires
        body_within_limit(*page),
    ensures
        match *page {
            FetchResult::Body(b) => match r {
                Ok(t) => t.wf() && t@ == team_page_map::<offense::Receiving>(b@),
                Err(_) => false,
            },
            FetchResult::Failed => r == Err::<StatTable<offense::Receiving>, HarvestError>(
                HarvestError::Transport,
            ),
        },
{
    parse_table::<offense::Receiving>(page)
}

/// Decodes the offense scoring table from its fetched page.
pub fn get_offense_scoring(page: &FetchResult) -> (r: Result<StatTable<offense::Scoring>, HarvestError>)
    requires
        body_within_limit(*page),
    ensures
        match *page {
            FetchResult::Body(b) => match r {
                Ok(t) => t.wf() && t@ == team_page_map::<offense::Scoring>(b@),
                Err(_) => false,
            },
            FetchResult::Failed => r == Err::<StatTable<offense::Scoring>, HarvestError>(
                HarvestError::Transport,
            ),
        },
{
    parse_table::<offense::Scoring>(page)
}

/// Decodes the offense downs table from its fetched page.
pub fn get_offense_downs(page: &FetchResult) -> (r: Result<StatTable<offense::Downs>, HarvestError>)
    requires
        body_within_limit(*page),
    ensures
        match *page {
            FetchResult::Body(b) => match r {
                Ok(t) => t.wf() && t@ == team_page_map::<offense::Downs>(b@),
                Err(_) => false,
            },
            FetchResult::Failed => r == Err::<StatTable<offense::Downs>, HarvestError>(
                HarvestError::Transport,
            ),
        },
{
    parse_table::<offense::Downs>(page)
}

/// Decodes the defense passing table from its fetched page.
pub fn get_defense_passing(page: &FetchResult) -> (r: Result<StatTable<defense::Passing>, HarvestError>)
    requires
        body_within_limit(*page),
    ensures
        match *page {
            FetchResult::Body(b) => match r {
                Ok(t) => t.wf() && t@ == team_page_map::<defense::Passing>(b@),
                Err(_) => false,
            },
            FetchResult::Failed => r == Err::<StatTable<defense::Passing>, HarvestError>(
                HarvestError::Transport,
            ),
        },
{
    parse_table::<defense::Passing>(page)
}

/// Decodes the defense rushing table from its fetched page.
pub fn get_defense_rushing(page: &FetchResult) -> (r: Result<StatTable<defense::Rushing>, HarvestError>)
    requires
        body_within_limit(*page),
    ensures
        match *page {
            FetchResult::Body(b) => match r {
                Ok(t) => t.wf() && t@ == team_page_map::<defense::Rushing>(b@),
                Err(_) => false,
            },
            FetchResult::Failed => r == Err::<StatTable<defense::Rushing>, HarvestError>(
                HarvestError::Transport,
            ),
        },
{
    parse_table::<defense::Rushing>(page)
}

/// Decodes the defense receiving table from its fetched page.
pub fn get_defense_receiving(page: &FetchResult) -> (r: Result<StatTable<defense::Receiving>, HarvestError>)
    requires
        body_within_limit(*page),
    ensures
        match *page {
            FetchResult::Body(b) => match r {
                Ok(t) => t.wf() && t@ == team_page_map::<defense::Receiving>(b@),
                Err(_) => false,
            },
            FetchResult::Failed => r == Err::<StatTable<defense::Receiving>, HarvestError>(
                HarvestError::Transport,
            ),
        },
{
    parse_table::<defense::Receiving>(page)
}

/// Decodes the defense scoring table from its fetched page.
pub fn get_defense_scoring(page: &FetchResult) -> (r: Result<StatTable<defense::Scoring>, HarvestError>)
    requires
        body_within_limit(*page),
    ensures
        match *page {
            FetchResult::Body(b) => match r {
                Ok(t) => t.wf() && t@ == team_page_map::<defense::Scoring>(b@),
                Err(_) => false,
            },
            FetchResult::Failed => r == Err::<StatTable<defense::Scoring>, HarvestError>(
                HarvestError::Transport,
            ),
        },
{
    parse_table::<defense::Scoring>(page)
}

/// Decodes the defense tackles table from its fetched page.
pub fn get_defense_tackles(page: &FetchResult) -> (r: Result<StatTable<defense::Tackles>, HarvestError>)
    requires
        body_within_limit(*page),
    ensures
        match *page {
            FetchResult::Body(b) => match r {
                Ok(t) => t.wf() && t@ == team_page_map::<defense::Tackles>(b@),
                Err(_) => false,
            },
            FetchResult::Failed => r == Err::<StatTable<defense::Tackles>, HarvestError>(
                HarvestError::Transport,
            ),
        },
{
    parse_table::<defense::Tackles>(page)
}

/// Decodes the defense downs table from its fetched page.
pub fn get_defense_downs(page: &FetchResult) -> (r: Result<StatTable<defense::Downs>, HarvestError>)
    requires
        body_within_limit(*page),
    ensures
        match *page {
            FetchResult::Body(b) => match r {
                Ok(t) => t.wf() && t@ == team_page_map::<defense::Downs>(b@),
                Err(_) => false,
            },
            FetchResult::Failed => r == Err::<StatTable<defense::Downs>, HarvestError>(
                HarvestError::Transport,
            ),
        },
{
    parse_table::<defense::Downs>(page)
}

/// Decodes the defense fumbles table from its fetched page.
pub fn get_defense_fumbles(page: &FetchResult) -> (r: Result<StatTable<defense::Fumbles>, HarvestError>)
    requires
        body_within_limit(*page),
    ensures
        match *page {
            FetchResult::Body(b) => match r {
                Ok(t) => t.wf() && t@ == team_page_map::<defense::Fumbles>(b@),
                Err(_) => false,
            },
            FetchResult::Failed => r == Err::<StatTable<defense::Fumbles>, HarvestError>(
                HarvestError::Transport,
            ),
        },
{
    parse_table::<defense::Fumbles>(page)
}

/// Decodes the defense interceptions table from its fetched page.
pub fn get_defense_interceptions(page: &FetchResult) -> (r: Result<StatTable<defense::Interceptions>, HarvestError>)
    requires
        body_within_limit(*page),
    ensures
        match *page {
            FetchResult::Body(b) => match r {
                Ok(t) => t.wf() && t@ == team_page_map::<defense::Interceptions>(b@),
                Err(_) => false,
            },
            FetchResult::Failed => r == Err::<StatTable<defense::Interceptions>, HarvestError>(
                HarvestError::Transport,
            ),
        },
{
    parse_table::<defense::Interceptions>(page)
}

/// Decodes the special-teams field goals table from its fetched page.
pub fn get_special_teams_field_goal(page: &FetchResult) -> (r: Result<StatTable<special_teams::FieldGoals>, HarvestError>)
    requires
        body_within_limit(*page),
    ensures
        match *page {
            FetchResult::Body(b) => match r {
                Ok(t) => t.wf() && t@ == team_page_map::<special_teams::FieldGoals>(b@),
                Err(_) => false,
            },
            FetchResult::Failed => r == Err::<StatTable<special_teams::FieldGoals>, HarvestError>(
                HarvestError::Transport,
            ),
        },
{
    parse_table::<special_teams::FieldGoals>(page)
}

/// Decodes the special-teams scoring table from its fetched page.
pub fn get_special_teams_scoring(page: &FetchResult) -> (r: Result<StatTable<special_teams::Scoring>, HarvestError>)
    requires
        body_within_limit(*page),
    ensures
        match *page {
            FetchResult::Body(b) => match r {
                Ok(t) => t.wf() && t@ == team_page_map::<special_teams::Scoring>(b@),
                Err(_) => false,
            },
            FetchResult::Failed => r == Err::<StatTable<special_teams::Scoring>, HarvestError>(
                HarvestError::Transport,
            ),
        },
{
    parse_table::<special_teams::Scoring>(page)
}

/// Decodes the special-teams kickoffs table from its fetched page.
pub fn get_special_teams_kickoffs(page: &FetchResult) -> (r: Result<StatTable<special_teams::Kickoffs>, HarvestError>)
    requires
        body_within_limit(*page),
    ensures
        match *page {
            FetchResult::Body(b) => match r {
                Ok(t) => t.wf() && t@ == team_page_map::<special_teams::Kickoffs>(b@),
                Err(_) => false,
            },
            FetchResult::Failed => r == Err::<StatTable<special_teams::Kickoffs>, HarvestError>(
                HarvestError::Transport,
            ),
        },
{
    parse_table::<special_teams::Kickoffs>(page)
}

/// Decodes the special-teams kickoff returns table from its fetched page.
pub fn get_special_teams_kickoff_return(page: &FetchResult) -> (r: Result<StatTable<special_teams::KickoffReturns>, HarvestError>)
    requires
        body_within_limit(*page),
    ensures
        match *page {
            FetchResult::Body(b) => match r {
                Ok(t) => t.wf() && t@ == team_page_map::<special_teams::KickoffReturns>(b@),
                Err(_) => false,
            },
            FetchResult::Failed => r == Err::<StatTable<special_teams::KickoffReturns>, HarvestError>(
                HarvestError::Transport,
            ),
        },
{
    parse_table::<special_teams::KickoffReturns>(page)
}

/// Decodes the special-teams punting table from its fetched page.
pub fn get_special_teams_punting(page: &FetchResult) -> (r: Result<StatTable<special_teams::Punting>, HarvestError>)
    requires
        body_within_limit(*page),
    ensures
        match *page {
            FetchResult::Body(b) => match r {
                Ok(t) => t.wf() && t@ == team_page_map::<special_teams::Punting>(b@),
                Err(_) => false,
            },
            FetchResult::Failed => r == Err::<StatTable<special_teams::Punting>, HarvestError>(
                HarvestError::Transport,
            ),
        },
{
    parse_table::<special_teams::Punting>(page)
}

/// Decodes the special-teams punt returns table from its fetched page.
pub fn get_special_teams_punt_returns(page: &FetchResult) -> (r: Result<StatTable<special_teams::PuntReturns>, HarvestError>)
    requires
        body_within_limit(*page),
    ensures
        match *page {
            FetchResult::Body(b) => match r {
                Ok(t) => t.wf() && t@ == team_page_map::<special_teams::PuntReturns>(b@),
                Err(_) => false,
            },
            FetchResult::Failed => r == Err::<StatTable<special_teams::PuntReturns>, HarvestError>(
                HarvestError::Transport,
            ),
        },
{
    parse_table::<special_teams::PuntReturns>(page)
}

} // verus!
