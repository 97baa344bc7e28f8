//! Entity-mode harvesting: crawling each player stat category over its
//! paginated table, joining the categories into one schema-complete summary
//! per player, and assembling roster entries from player profile pages.
//!
//! The caller performs the page fetches and hands the outcomes in as plain
//! values: for a category crawl, the transcript of page bodies fetched along
//! the next-page links; for a roster, each player's profile page keyed by
//! the player's slug.

use vstd::prelude::*;

use crate::crawl::{crawl_spec, parse_player_table, MAX_PAGE_FETCHES};
use crate::crawl::lemma_crawl_err_transport;
use crate::html::{
    header_complete, header_data_of, header_name_of, header_position_of, header_status_of,
    header_team_of, player_header, transcript_within_limit, MAX_BODY_CHARS,
};
use crate::join::{
    add_keys, distinct_keys, get_or_zero, key_set, lemma_key_set_take_step,
    lemma_key_set_take_zero, slot_or_zero,
};
use crate::players;
use crate::players::{spec_position, Player, Position};
use crate::table::StatTable;
use crate::text::{
    jersey_spec, jersey_number, last_segment, last_segment_spec, last_token, last_token_spec,
    str_eq, trim_spec, trim_str,
};
use crate::{FetchResult, HarvestError};

verus! {

/// Crawls the league player passing table over its transcript of page fetches.
pub fn get_league_passing(pages: &Vec<FetchResult>) -> (r: Result<StatTable<players::Passing>, HarvestError>)
    requires
        transcript_within_limit(pages@),
    ensures
        match crawl_spec::<players::Passing>(pages@) {
            Ok(m) => match r {
                Ok(tbl) => tbl.wf() && tbl@ == m,
                Err(_) => false,
            },
            Err(e) => r == Err::<StatTable<players::Passing>, HarvestError>(e),
        },
{
    parse_player_table::<players::Passing>(pages)
}

/// Crawls the league player rushing table over its transcript of page fetches.
pub fn get_league_rushing(pages: &Vec<FetchResult>) -> (r: Result<StatTable<players::Rushing>, HarvestError>)
    requires
        transcript_within_limit(pages@),
    ensures
        match crawl_spec::<players::Rushing>(pages@) {
            Ok(m) => match r {
                Ok(tbl) => tbl.wf() && tbl@ == m,
                Err(_) => false,
            },
            Err(e) => r == Err::<StatTable<players::Rushing>, HarvestError>(e),
        },
{
    parse_player_table::<players::Rushing>(pages)
}

/// Crawls the league player receiving table over its transcript of page fetches.
pub fn get_league_receiving(pages: &Vec<FetchResult>) -> (r: Result<StatTable<players::Receiving>, HarvestError>)
    requires
        transcript_within_limit(pages@),
    ensures
        match crawl_spec::<players::Receiving>(pages@) {
            Ok(m) => match r {
                Ok(tbl) => tbl.wf() && tbl@ == m,
                Err(_) => false,
            },
            Err(e) => r == Err::<StatTable<players::Receiving>, HarvestError>(e),
        },
{
    parse_player_table::<players::Receiving>(pages)
}

/// Crawls the league player fumbles table over its transcript of page fetches.
pub fn get_league_fumbles(pages: &Vec<FetchResult>) -> (r: Result<StatTable<players::Fumbles>, HarvestError>)
    requires
        transcript_within_limit(pages@),
    ensures
        match crawl_spec::<players::Fumbles>(pages@) {
            Ok(m) => match r {
                Ok(tbl) => tbl.wf() && tbl@ == m,
                Err(_) => false,
            },
            Err(e) => r == Err::<StatTable<players::Fumbles>, HarvestError>(e),
        },
{
    parse_player_table::<players::Fumbles>(pages)
}

/// Crawls the league player tackles table over its transcript of page fetches.
pub fn get_league_tackles(pages: &Vec<FetchResult>) -> (r: Result<StatTable<players::Tackles>, HarvestError>)
    requires
        transcript_within_limit(pages@),
    ensures
        match crawl_spec::<players::Tackles>(pages@) {
            Ok(m) => match r {
                Ok(tbl) => tbl.wf() && tbl@ == m,
                Err(_) => false,
            },
            Err(e) => r == Err::<StatTable<players::Tackles>, HarvestError>(e),
        },
{
    parse_player_table::<players::Tackles>(pages)
}

/// Crawls the league player interceptions table over its transcript of page fetches.
pub fn get_league_interceptions(pages: &Vec<FetchResult>) -> (r: Result<StatTable<players::Interceptions>, HarvestError>)
    requires
        transcript_within_limit(pages@),
    ensures
        match crawl_spec::<players::Interceptions>(pages@) {
            Ok(m) => match r {
                Ok(tbl) => tbl.wf() && tbl@ == m,
                Err(_) => false,
            },
            Err(e) => r == Err::<StatTable<players::Interceptions>, HarvestError>(e),
        },
{
    parse_player_table::<players::Interceptions>(pages)
}

/// Crawls the league player field goals table over its transcript of page fetches.
pub fn get_league_field_goals(pages: &Vec<FetchResult>) -> (r: Result<StatTable<players::FieldGoals>, HarvestError>)
    requires
        transcript_within_limit(pages@),
    ensures
        match crawl_spec::<players::FieldGoals>(pages@) {
            Ok(m) => match r {
                Ok(tbl) => tbl.wf() && tbl@ == m,
                Err(_) => false,
            },
            Err(e) => r == Err::<StatTable<players::FieldGoals>, HarvestError>(e),
        },
{
    parse_player_table::<players::FieldGoals>(pages)
}

/// Crawls the league player kickoffs table over its transcript of page fetches.
pub fn get_league_kickoffs(pages: &Vec<FetchResult>) -> (r: Result<StatTable<players::Kickoffs>, HarvestError>)
    requires
        transcript_within_limit(pages@),
    ensures
        match crawl_spec::<players::Kickoffs>(pages@) {
            Ok(m) => match r {
                Ok(tbl) => tbl.wf() && tbl@ == m,
                Err(_) => false,
            },
            Err(e) => r == Err::<StatTable<players::Kickoffs>, HarvestError>(e),
        },
{
    parse_player_table::<players::Kickoffs>(pages)
}

/// Crawls the league player kickoff returns table over its transcript of page fetches.
pub fn get_league_kickoff_returns(pages: &Vec<FetchResult>) -> (r: Result<StatTable<players::KickoffReturns>, HarvestError>)
    requires
        transcript_within_limit(pages@),
    ensures
        match crawl_spec::<players::KickoffReturns>(pages@) {
            Ok(m) => match r {
                Ok(tbl) => tbl.wf() && tbl@ == m,
                Err(_) => false,
            },
            Err(e) => r == Err::<StatTable<players::KickoffReturns>, HarvestError>(e),
        },
{
    parse_player_table::<players::KickoffReturns>(pages)
}

/// Crawls the league player punting table over its transcript of page fetches.
pub fn get_league_punting(pages: &Vec<FetchResult>) -> (r: Result<StatTable<players::Punting>, HarvestError>)
    requires
        transcript_within_limit(pages@),
    ensures
        match crawl_spec::<players::Punting>(pages@) {
            Ok(m) => match r {
                Ok(tbl) => tbl.wf() && tbl@ == m,
                Err(_) => false,
            },
            Err(e) => r == Err::<StatTable<players::Punting>, HarvestError>(e),
        },
{
    parse_player_table::<players::Punting>(pages)
}

/// Crawls the league player punt returns table over its transcript of page fetches.
pub fn get_league_punt_returns(pages: &Vec<FetchResult>) -> (r: Result<StatTable<players::PuntReturns>, HarvestError>)
    requires
        transcript_within_limit(pages@),
    ensures
        match crawl_spec::<players::PuntReturns>(pages@) {
            Ok(m) => match r {
                Ok(tbl) => tbl.wf() && tbl@ == m,
                Err(_) => false,
            },
            Err(e) => r == Err::<StatTable<players::PuntReturns>, HarvestError>(e),
        },
{
    parse_player_table::<players::PuntReturns>(pages)
}

/// The Multi-Category Join over the eleven player categories: the keys of
/// the result are the union of the player slugs seen across the crawled
/// category tables, and each slug's summary takes, for every category, the
/// category's record for that slug or the category's zero default where the
/// player is absent from that category's table. A single failed fetch in any
/// crawl aborts the whole join with that failure — the first failing
/// category in call order — producing no partial output.
pub fn get_league_player_summary(
    passing: &Vec<FetchResult>,
    rushing: &Vec<FetchResult>,
    receiving: &Vec<FetchResult>,
    fumbles: &Vec<FetchResult>,
    tackles: &Vec<FetchResult>,
    interceptions: &Vec<FetchResult>,
    field_goals: &Vec<FetchResult>,
    kickoffs: &Vec<FetchResult>,
    kickoff_returns: &Vec<FetchResult>,
    punting: &Vec<FetchResult>,
    punt_returns: &Vec<FetchResult>,
) -> (r: Result<StatTable<players::Summary>, HarvestError>)
    requires
        transcript_within_limit(passing@),
        transcript_within_limit(rushing@),
        transcript_within_limit(receiving@),
        transcript_within_limit(fumbles@),
        transcript_within_limit(tackles@),
        transcript_within_limit(interceptions@),
        transcript_within_limit(field_goals@),
        transcript_within_limit(kickoffs@),
        transcript_within_limit(kickoff_returns@),
        transcript_within_limit(punting@),
        transcript_within_limit(punt_returns@),
    ensures
        (crawl_spec::<players::Passing>(passing@) is Err) ==> r == Err::<
            StatTable<players::Summary>,
            HarvestError,
        >(crawl_spec::<players::Passing>(passing@)->Err_0),
        (crawl_spec::<players::Passing>(passing@) is Ok && crawl_spec::<players::Rushing>(rushing@) is Err) ==> r == Err::<
            StatTable<players::Summary>,
            HarvestError,
        >(crawl_spec::<players::Rushing>(rushing@)->Err_0),
        (crawl_spec::<players::Passing>(passing@) is Ok && crawl_spec::<players::Rushing>(rushing@) is Ok && crawl_spec::<players::Receiving>(receiving@) is Err) ==> r == Err::<
            StatTable<players::Summary>,
            HarvestError,
        >(crawl_spec::<players::Receiving>(receiving@)->Err_0),
        (crawl_spec::<players::Passing>(passing@) is Ok && crawl_spec::<players::Rushing>(rushing@) is Ok && crawl_spec::<players::Receiving>(receiving@) is Ok && crawl_spec::<players::Fumbles>(fumbles@) is Err) ==> r == Err::<
            StatTable<players::Summary>,
            HarvestError,
        >(crawl_spec::<players::Fumbles>(fumbles@)->Err_0),
        (crawl_spec::<players::Passing>(passing@) is Ok && crawl_spec::<players::Rushing>(rushing@) is Ok && crawl_spec::<players::Receiving>(receiving@) is Ok && crawl_spec::<players::Fumbles>(fumbles@) is Ok && crawl_spec::<players::Tackles>(tackles@) is Err) ==> r == Err::<
            StatTable<players::Summary>,
            HarvestError,
        >(crawl_spec::<players::Tackles>(tackles@)->Err_0),
        (crawl_spec::<players::Passing>(passing@) is Ok && crawl_spec::<players::Rushing>(rushing@) is Ok && crawl_spec::<players::Receiving>(receiving@) is Ok && crawl_spec::<players::Fumbles>(fumbles@) is Ok && crawl_spec::<players::Tackles>(tackles@) is Ok && crawl_spec::<players::Interceptions>(interceptions@) is Err) ==> r == Err::<
            StatTable<players::Summary>,
            HarvestError,
        >(crawl_spec::<players::Interceptions>(interceptions@)->Err_0),
        (crawl_spec::<players::Passing>(passing@) is Ok && crawl_spec::<players::Rushing>(rushing@) is Ok && crawl_spec::<players::Receiving>(receiving@) is Ok && crawl_spec::<players::Fumbles>(fumbles@) is Ok && crawl_spec::<players::Tackles>(tackles@) is Ok && crawl_spec::<players::Interceptions>(interceptions@) is Ok && crawl_spec::<players::FieldGoals>(field_goals@) is Err) ==> r == Err::<
            StatTable<players::Summary>,
            HarvestError,
        >(crawl_spec::<players::FieldGoals>(field_goals@)->Err_0),
        (crawl_spec::<players::Passing>(passing@) is Ok && crawl_spec::<players::Rushing>(rushing@) is Ok && crawl_spec::<players::Receiving>(receiving@) is Ok && crawl_spec::<players::Fumbles>(fumbles@) is Ok && crawl_spec::<players::Tackles>(tackles@) is Ok && crawl_spec::<players::Interceptions>(interceptions@) is Ok && crawl_spec::<players::FieldGoals>(field_goals@) is Ok && crawl_spec::<players::Kickoffs>(kickoffs@) is Err) ==> r == Err::<
            StatTable<players::Summary>,
            HarvestError,
        >(crawl_spec::<players::Kickoffs>(kickoffs@)->Err_0),
        (crawl_spec::<players::Passing>(passing@) is Ok && crawl_spec::<players::Rushing>(rushing@) is Ok && crawl_spec::<players::Receiving>(receiving@) is Ok && crawl_spec::<players::Fumbles>(fumbles@) is Ok && crawl_spec::<players::Tackles>(tackles@) is Ok && crawl_spec::<players::Interceptions>(interceptions@) is Ok && crawl_spec::<players::FieldGoals>(field_goals@) is Ok && crawl_spec::<players::Kickoffs>(kickoffs@) is Ok && crawl_spec::<players::KickoffReturns>(kickoff_returns@) is Err) ==> r == Err::<
            StatTable<players::Summary>,
            HarvestError,
        >(crawl_spec::<players::KickoffReturns>(kickoff_returns@)->Err_0),
        (crawl_spec::<players::Passing>(passing@) is Ok && crawl_spec::<players::Rushing>(rushing@) is Ok && crawl_spec::<players::Receiving>(receiving@) is Ok && crawl_spec::<players::Fumbles>(fumbles@) is Ok && crawl_spec::<players::Tackles>(tackles@) is Ok && crawl_spec::<players::Interceptions>(interceptions@) is Ok && crawl_spec::<players::FieldGoals>(field_goals@) is Ok && crawl_spec::<players::Kickoffs>(kickoffs@) is Ok && crawl_spec::<players::KickoffReturns>(kickoff_returns@) is Ok && crawl_spec::<players::Punting>(punting@) is Err) ==> r == Err::<
            StatTable<players::Summary>,
            HarvestError,
        >(crawl_spec::<players::Punting>(punting@)->Err_0),
        (crawl_spec::<players::Passing>(passing@) is Ok && crawl_spec::<players::Rushing>(rushing@) is Ok && crawl_spec::<players::Receiving>(receiving@) is Ok && crawl_spec::<players::Fumbles>(fumbles@) is Ok && crawl_spec::<players::Tackles>(tackles@) is Ok && crawl_spec::<players::Interceptions>(interceptions@) is Ok && crawl_spec::<players::FieldGoals>(field_goals@) is Ok && crawl_spec::<players::Kickoffs>(kickoffs@) is Ok && crawl_spec::<players::KickoffReturns>(kickoff_returns@) is Ok && crawl_spec::<players::Punting>(punting@) is Ok && crawl_spec::<players::PuntReturns>(punt_returns@) is Err) ==> r == Err::<
            StatTable<players::Summary>,
            HarvestError,
        >(crawl_spec::<players::PuntReturns>(punt_returns@)->Err_0),
        (crawl_spec::<players::Passing>(passing@) is Err || crawl_spec::<players::Rushing>(rushing@) is Err || crawl_spec::<players::Receiving>(receiving@) is Err || crawl_spec::<players::Fumbles>(fumbles@) is Err || crawl_spec::<players::Tackles>(tackles@) is Err || crawl_spec::<players::Interceptions>(interceptions@) is Err || crawl_spec::<players::FieldGoals>(field_goals@) is Err || crawl_spec::<players::Kickoffs>(kickoffs@) is Err || crawl_spec::<players::KickoffReturns>(kickoff_returns@) is Err || crawl_spec::<players::Punting>(punting@) is Err || crawl_spec::<players::PuntReturns>(punt_returns@) is Err) ==> r == Err::<
            StatTable<players::Summary>,
            HarvestError,
        >(HarvestError::Transport),
        (crawl_spec::<players::Passing>(passing@) is Ok && crawl_spec::<players::Rushing>(rushing@) is Ok && crawl_spec::<players::Receiving>(receiving@) is Ok && crawl_spec::<players::Fumbles>(fumbles@) is Ok && crawl_spec::<players::Tackles>(tackles@) is Ok && crawl_spec::<players::Interceptions>(interceptions@) is Ok && crawl_spec::<players::FieldGoals>(field_goals@) is Ok && crawl_spec::<players::Kickoffs>(kickoffs@) is Ok && crawl_spec::<players::KickoffReturns>(kickoff_returns@) is Ok && crawl_spec::<players::Punting>(punting@) is Ok && crawl_spec::<players::PuntReturns>(punt_returns@) is Ok) ==> match r {
            Ok(t) => {
                let m_passing = crawl_spec::<players::Passing>(passing@)->Ok_0;
                let m_rushing = crawl_spec::<players::Rushing>(rushing@)->Ok_0;
                let m_receiving = crawl_spec::<players::Receiving>(receiving@)->Ok_0;
                let m_fumbles = crawl_spec::<players::Fumbles>(fumbles@)->Ok_0;
                let m_tackles = crawl_spec::<players::Tackles>(tackles@)->Ok_0;
                let m_interceptions = crawl_spec::<players::Interceptions>(interceptions@)->Ok_0;
                let m_field_goals = crawl_spec::<players::FieldGoals>(field_goals@)->Ok_0;
                let m_kickoffs = crawl_spec::<players::Kickoffs>(kickoffs@)->Ok_0;
                let m_kickoff_returns = crawl_spec::<players::KickoffReturns>(kickoff_returns@)->Ok_0;
                let m_punting = crawl_spec::<players::Punting>(punting@)->Ok_0;
                let m_punt_returns = crawl_spec::<players::PuntReturns>(punt_returns@)->Ok_0;
                &&& t.wf()
                &&& t@.dom() == m_passing.dom() + m_rushing.dom() + m_receiving.dom() + m_fumbles.dom() + m_tackles.dom() + m_interceptions.dom() + m_field_goals.dom() + m_kickoffs.dom() + m_kickoff_returns.dom() + m_punting.dom() + m_punt_returns.dom()
                &&& forall|k: Seq<char>| t@.contains_key(k) ==> t@[k] == (players::Summary {
                    passing: slot_or_zero(m_passing, k),
                    rushing: slot_or_zero(m_rushing, k),
                    receiving: slot_or_zero(m_receiving, k),
                    fumbles: slot_or_zero(m_fumbles, k),
                    tackles: slot_or_zero(m_tackles, k),
                    interceptions: slot_or_zero(m_interceptions, k),
                    field_goals: slot_or_zero(m_field_goals, k),
                    kickoffs: slot_or_zero(m_kickoffs, k),
                    kickoff_returns: slot_or_zero(m_kickoff_returns, k),
                    punting: slot_or_zero(m_punting, k),
                    punt_returns: slot_or_zero(m_punt_returns, k),
                })
            },
            Err(_) => false,
        },
{
    let t_passing = match get_league_passing(passing) {
        Ok(t) => t,
        Err(e) => {
            proof {
                lemma_crawl_err_transport::<players::Passing>(
                    passing@,
                    0,
                    MAX_PAGE_FETCHES as int,
                    Map::empty(),
                );
            }
            return Err(e);
        },
    };
    let t_rushing = match get_league_rushing(rushing) {
        Ok(t) => t,
        Err(e) => {
            proof {
                lemma_crawl_err_transport::<players::Rushing>(
                    rushing@,
                    0,
                    MAX_PAGE_FETCHES as int,
                    Map::empty(),
                );
            }
            return Err(e);
        },
    };
    let t_receiving = match get_league_receiving(receiving) {
        Ok(t) => t,
        Err(e) => {
            proof {
                lemma_crawl_err_transport::<players::Receiving>(
                    receiving@,
                    0,
                    MAX_PAGE_FETCHES as int,
                    Map::empty(),
                );
            }
            return Err(e);
        },
    };
    let t_fumbles = match get_league_fumbles(fumbles) {
        Ok(t) => t,
        Err(e) => {
            proof {
                lemma_crawl_err_transport::<players::Fumbles>(
                    fumbles@,
                    0,
                    MAX_PAGE_FETCHES as int,
                    Map::empty(),
                );
            }
            return Err(e);
        },
    };
    let t_tackles = match get_league_tackles(tackles) {
        Ok(t) => t,
        Err(e) => {
            proof {
                lemma_crawl_err_transport::<players::Tackles>(
                    tackles@,
                    0,
                    MAX_PAGE_FETCHES as int,
                    Map::empty(),
                );
            }
            return Err(e);
        },
    };
    let t_interceptions = match get_league_interceptions(interceptions) {
        Ok(t) => t,
        Err(e) => {
            proof {
                lemma_crawl_err_transport::<players::Interceptions>(
                    interceptions@,
                    0,
                    MAX_PAGE_FETCHES as int,
                    Map::empty(),
                );
            }
            return Err(e);
        },
    };
    let t_field_goals = match get_league_field_goals(field_goals) {
        Ok(t) => t,
        Err(e) => {
            proof {
                lemma_crawl_err_transport::<players::FieldGoals>(
                    field_goals@,
                    0,
                    MAX_PAGE_FETCHES as int,
                    Map::empty(),
                );
            }
            return Err(e);
        },
    };
    let t_kickoffs = match get_league_kickoffs(kickoffs) {
        Ok(t) => t,
        Err(e) => {
            proof {
                lemma_crawl_err_transport::<players::Kickoffs>(
                    kickoffs@,
                    0,
                    MAX_PAGE_FETCHES as int,
                    Map::empty(),
                );
            }
            return Err(e);
        },
    };
    let t_kickoff_returns = match get_league_kickoff_returns(kickoff_returns) {
        Ok(t) => t,
        Err(e) => {
            proof {
                lemma_crawl_err_transport::<players::KickoffReturns>(
                    kickoff_returns@,
                    0,
                    MAX_PAGE_FETCHES as int,
                    Map::empty(),
                );
            }
            return Err(e);
        },
    };
    let t_punting = match get_league_punting(punting) {
        Ok(t) => t,
        Err(e) => {
            proof {
                lemma_crawl_err_transport::<players::Punting>(
                    punting@,
                    0,
                    MAX_PAGE_FETCHES as int,
                    Map::empty(),
                );
            }
            return Err(e);
        },
    };
    let t_punt_returns = match get_league_punt_returns(punt_returns) {
        Ok(t) => t,
        Err(e) => {
            proof {
                lemma_crawl_err_transport::<players::PuntReturns>(
                    punt_returns@,
                    0,
                    MAX_PAGE_FETCHES as int,
                    Map::empty(),
                );
            }
            return Err(e);
        },
    };
    let mut keys: Vec<String> = Vec::new();
    add_keys(&mut keys, &t_passing);
    add_keys(&mut keys, &t_rushing);
    add_keys(&mut keys, &t_receiving);
    add_keys(&mut keys, &t_fumbles);
    add_keys(&mut keys, &t_tackles);
    add_keys(&mut keys, &t_interceptions);
    add_keys(&mut keys, &t_field_goals);
    add_keys(&mut keys, &t_kickoffs);
    add_keys(&mut keys, &t_kickoff_returns);
    add_keys(&mut keys, &t_punting);
    add_keys(&mut keys, &t_punt_returns);
    let mut out = StatTable::<players::Summary>::new();
    proof {
        lemma_key_set_take_zero(keys@);
    }
    let n = keys.len();
    let mut i: usize = 0;
    while i < n
        invariant
            n == keys@.len(),
            0 <= i <= n,
            distinct_keys(keys@),
            t_passing.wf() && t_rushing.wf() && t_receiving.wf() && t_fumbles.wf() && t_tackles.wf() && t_interceptions.wf() && t_field_goals.wf() && t_kickoffs.wf() && t_kickoff_returns.wf() && t_punting.wf() && t_punt_returns.wf(),
            out.wf(),
            out@.dom() == key_set(keys@.take(i as int)),
            forall|k: Seq<char>| out@.contains_key(k) ==> out@[k] == (players::Summary {
                passing: slot_or_zero(t_passing@, k),
                rushing: slot_or_zero(t_rushing@, k),
                receiving: slot_or_zero(t_receiving@, k),
                fumbles: slot_or_zero(t_fumbles@, k),
                tackles: slot_or_zero(t_tackles@, k),
                interceptions: slot_or_zero(t_interceptions@, k),
                field_goals: slot_or_zero(t_field_goals@, k),
                kickoffs: slot_or_zero(t_kickoffs@, k),
                kickoff_returns: slot_or_zero(t_kickoff_returns@, k),
                punting: slot_or_zero(t_punting@, k),
                punt_returns: slot_or_zero(t_punt_returns@, k),
            }),
            key_set(keys@) == t_passing@.dom() + t_rushing@.dom() + t_receiving@.dom() + t_fumbles@.dom() + t_tackles@.dom() + t_interceptions@.dom() + t_field_goals@.dom() + t_kickoffs@.dom() + t_kickoff_returns@.dom() + t_punting@.dom() + t_punt_returns@.dom(),
        decreases n - i,
    {
        let key = &keys[i];
        let s = players::Summary {
            passing: get_or_zero(&t_passing, key.as_str()),
            rushing: get_or_zero(&t_rushing, key.as_str()),
            receiving: get_or_zero(&t_receiving, key.as_str()),
            fumbles: get_or_zero(&t_fumbles, key.as_str()),
            tackles: get_or_zero(&t_tackles, key.as_str()),
            interceptions: get_or_zero(&t_interceptions, key.as_str()),
            field_goals: get_or_zero(&t_field_goals, key.as_str()),
            kickoffs: get_or_zero(&t_kickoffs, key.as_str()),
            kickoff_returns: get_or_zero(&t_kickoff_returns, key.as_str()),
            punting: get_or_zero(&t_punting, key.as_str()),
            punt_returns: get_or_zero(&t_punt_returns, key.as_str()),
        };
        let kk = key.clone();
        out.insert(kk, s);
        proof {
            lemma_key_set_take_step(keys@, i as int);
            assert(out@.dom() =~= key_set(keys@.take(i as int)).insert(keys@[i as int]@));
        }
        i += 1;
    }
    proof {
        assert(keys@.take(n as int) =~= keys@);
        assert(t_passing@ == crawl_spec::<players::Passing>(passing@)->Ok_0);
        assert(t_rushing@ == crawl_spec::<players::Rushing>(rushing@)->Ok_0);
        assert(t_receiving@ == crawl_spec::<players::Receiving>(receiving@)->Ok_0);
        assert(t_fumbles@ == crawl_spec::<players::Fumbles>(fumbles@)->Ok_0);
        assert(t_tackles@ == crawl_spec::<players::Tackles>(tackles@)->Ok_0);
        assert(t_interceptions@ == crawl_spec::<players::Interceptions>(interceptions@)->Ok_0);
        assert(t_field_goals@ == crawl_spec::<players::FieldGoals>(field_goals@)->Ok_0);
        assert(t_kickoffs@ == crawl_spec::<players::Kickoffs>(kickoffs@)->Ok_0);
        assert(t_kickoff_returns@ == crawl_spec::<players::KickoffReturns>(kickoff_returns@)->Ok_0);
        assert(t_punting@ == crawl_spec::<players::Punting>(punting@)->Ok_0);
        assert(t_punt_returns@ == crawl_spec::<players::PuntReturns>(punt_returns@)->Ok_0);
    }
    Ok(out)
}


// ---------------------------------------------------------------------------
// Player profile pages and the roster
// ---------------------------------------------------------------------------

/// Reads the five header fields of a player profile page, in the order
/// name, position, jersey text, team, roster status, each trimmed; the
/// jersey text is the last line of the player-data header. A page missing
/// any header field is malformed, as is a body too large for the query
/// engine's buffer.
pub fn get_player_team(page: &FetchResult) -> (r: Result<Vec<String>, HarvestError>)
    ensures
        match *page {
            FetchResult::Failed => r == Err::<Vec<String>, HarvestError>(HarvestError::Transport),
            FetchResult::Body(b) => {
                if b@.len() >= MAX_BODY_CHARS {
                    r == Err::<Vec<String>, HarvestError>(HarvestError::Malformed)
                } else if header_complete(b@) {
                    match r {
                        Ok(info) => info@.len() == 5 && info@[0]@ == trim_spec(
                            header_name_of(b@)->Some_0,
                        ) && info@[1]@ == trim_spec(header_position_of(b@)->Some_0) && info@[2]@
                            == trim_spec(
                            last_segment_spec(trim_spec(header_data_of(b@)->Some_0)),
                        ) && info@[3]@ == trim_spec(header_team_of(b@)->Some_0) && info@[4]@
                            == trim_spec(header_status_of(b@)->Some_0),
                        Err(_) => false,
                    }
                } else {
                    r == Err::<Vec<String>, HarvestError>(HarvestError::Malformed)
                }
            },
        },
{
    let b: &String = match page {
        FetchResult::Body(b) => b,
        FetchResult::Failed => {
            return Err(HarvestError::Transport);
        },
    };
    if b.as_str().unicode_len() >= MAX_BODY_CHARS {
        return Err(HarvestError::Malformed);
    }
    let h = player_header(b.as_str());
    let name_raw = match h.0 {
        Some(s) => s,
        None => {
            return Err(HarvestError::Malformed);
        },
    };
    let pos_raw = match h.1 {
        Some(s) => s,
        None => {
            return Err(HarvestError::Malformed);
        },
    };
    let data_raw = match h.2 {
        Some(s) => s,
        None => {
            return Err(HarvestError::Malformed);
        },
    };
    let team_raw = match h.3 {
        Some(s) => s,
        None => {
            return Err(HarvestError::Malformed);
        },
    };
    let status_raw = match h.4 {
        Some(s) => s,
        None => {
            return Err(HarvestError::Malformed);
        },
    };
    let mut info: Vec<String> = Vec::new();
    info.push(trim_str(name_raw.as_str()));
    info.push(trim_str(pos_raw.as_str()));
    let trimmed_data = trim_str(data_raw.as_str());
    let jersey_line = last_segment(trimmed_data.as_str());
    info.push(trim_str(jersey_line.as_str()));
    info.push(trim_str(team_raw.as_str()));
    info.push(trim_str(status_raw.as_str()));
    Ok(info)
}

/// Assembles one roster entry from the five header fields (as
/// [`get_player_team`] returns them) and the player's stat summary. A
/// position abbreviation the roster does not use is malformed; an unusable
/// jersey number falls back to 255; the team is the last word of the team
/// header.
pub fn build_player(info: &Vec<String>, stats: players::Summary) -> (r: Result<
    Player,
    HarvestError,
>)
    requires
        info@.len() == 5,
    ensures
        match spec_position(info@[1]@) {
            Some(p) => match r {
                Ok(pl) => pl.name@ == info@[0]@ && pl.position == p && pl.jersey_num
                    == jersey_spec(info@[2]@) && pl.team@ == last_token_spec(info@[3]@)
                    && pl.status@ == info@[4]@ && pl.stats == stats,
                Err(_) => false,
            },
            None => r == Err::<Player, HarvestError>(HarvestError::Malformed),
        },
{
    let position = match Position::from(info[1].as_str()) {
        Ok(p) => p,
        Err(_) => {
            return Err(HarvestError::Malformed);
        },
    };
    Ok(
        Player {
            name: info[0].clone(),
            jersey_num: jersey_number(info[2].as_str()),
            team: last_token(info[3].as_str()),
            status: info[4].clone(),
            position,
            stats,
        },
    )
}

/// The fetch outcome supplied for a slug: the first entry of the profile
/// list bearing the key.
pub open spec fn profile_for(ps: Seq<(String, FetchResult)>, k: Seq<char>) -> Option<FetchResult>
    decreases ps.len(),
{
    if ps.len() == 0 {
        None
    } else if ps[0].0@ == k {
        Some(ps[0].1)
    } else {
        profile_for(ps.skip(1), k)
    }
}

proof fn lemma_profile_for_at(ps: Seq<(String, FetchResult)>, k: Seq<char>, i: int)
    requires
        0 <= i < ps.len(),
        ps[i].0@ == k,
        forall|j: int| 0 <= j < i ==> (#[trigger] ps[j]).0@ != k,
    ensures
        profile_for(ps, k) == Some(ps[i].1),
    decreases i,
{
    if i > 0 {
        assert(forall|j: int| 0 <= j < ps.len() - 1 ==> ps.skip(1)[j] == ps[j + 1]);
        lemma_profile_for_at(ps.skip(1), k, i - 1);
    }
}

proof fn lemma_profile_for_none(ps: Seq<(String, FetchResult)>, k: Seq<char>)
    requires
        forall|j: int| 0 <= j < ps.len() ==> (#[trigger] ps[j]).0@ != k,
    ensures
        profile_for(ps, k) is None,
    decreases ps.len(),
{
    if ps.len() > 0 {
        assert(forall|j: int| 0 <= j < ps.len() - 1 ==> ps.skip(1)[j] == ps[j + 1]);
        lemma_profile_for_none(ps.skip(1), k);
    }
}

fn find_profile<'a>(profiles: &'a Vec<(String, FetchResult)>, k: &str) -> (r: Option<
    &'a FetchResult,
>)
    ensures
        match r {
            Some(p) => profile_for(profiles@, k@) == Some(*p),
            None => profile_for(profiles@, k@) is None,
        },
{
    let n = profiles.len();
    let mut i: usize = 0;
    while i < n
        invariant
            n == profiles@.len(),
            0 <= i <= n,
            forall|j: int| 0 <= j < i ==> (#[trigger] profiles@[j]).0@ != k@,
        decreases n - i,
    {
        if str_eq(profiles[i].0.as_str(), k) {
            proof {
                lemma_profile_for_at(profiles@, k@, i as int);
            }
            return Some(&profiles[i].1);
        }
        i += 1;
    }
    proof {
        lemma_profile_for_none(profiles@, k@);
    }
    None
}

/// Whether the profile supplied for a slug yields a roster entry: its fetch
/// succeeded, the body fits the query engine's buffer, all five header
/// fields are present, and the position abbreviation is one the roster
/// uses. Anything else drops the player, never the whole roster.
pub open spec fn profile_ok(ps: Seq<(String, FetchResult)>, k: Seq<char>) -> bool {
    match profile_for(ps, k) {
        Some(FetchResult::Body(b)) => b@.len() < MAX_BODY_CHARS && header_complete(b@)
            && spec_position(trim_spec(header_position_of(b@)->Some_0)) is Some,
        _ => false,
    }
}

/// The roster entry a profile page and a stat summary yield, field by field.
pub open spec fn player_matches(b: Seq<char>, stats: players::Summary, pl: Player) -> bool {
    &&& pl.name@ == trim_spec(header_name_of(b)->Some_0)
    &&& pl.position == spec_position(trim_spec(header_position_of(b)->Some_0))->Some_0
    &&& pl.jersey_num == jersey_spec(
        trim_spec(last_segment_spec(trim_spec(header_data_of(b)->Some_0))),
    )
    &&& pl.team@ == last_token_spec(trim_spec(header_team_of(b)->Some_0))
    &&& pl.status@ == trim_spec(header_status_of(b)->Some_0)
    &&& pl.stats == stats
}

/// The slugs whose supplied profiles yield roster entries.
pub open spec fn roster_dom(ps: Seq<(String, FetchResult)>, sm: Set<Seq<char>>) -> Set<
    Seq<char>,
> {
    Set::new(|k: Seq<char>| sm.contains(k) && profile_ok(ps, k))
}

/// Builds the whole roster: for every player of the joined summary table,
/// the caller supplies the outcome of fetching that player's profile page,
/// keyed by slug; each usable profile yields one roster entry, and a
/// missing, failed or malformed profile drops that player and nothing else.
#[verifier::rlimit(60)]
pub fn get_league_players(
    summary: &StatTable<players::Summary>,
    profiles: &Vec<(String, FetchResult)>,
) -> (r: Result<StatTable<Player>, HarvestError>)
    requires
        summary.wf(),
    ensures
        match r {
            Ok(t) => {
                &&& t.wf()
                &&& t@.dom() == roster_dom(profiles@, summary@.dom())
                &&& forall|k: Seq<char>|
                    #![trigger t@.contains_key(k)]
                    t@.contains_key(k) ==> player_matches(
                        profile_for(profiles@, k)->Some_0->Body_0@,
                        summary@[k],
                        t@[k],
                    )
            },
            Err(_) => false,
        },
{
    let keys = summary.keys();
    let mut out = StatTable::<Player>::new();
    proof {
        lemma_key_set_take_zero(keys@);
        assert(out@.dom() =~= roster_dom(profiles@, key_set(keys@.take(0))));
    }
    let n = keys.len();
    let mut i: usize = 0;
    while i < n
        invariant
            n == keys@.len(),
            0 <= i <= n,
            summary.wf(),
            distinct_keys(keys@),
            forall|j: int| 0 <= j < keys@.len() ==> summary@.contains_key((#[trigger] keys@[j])@),
            forall|k: Seq<char>| summary@.contains_key(k) ==> exists|j: int|
                0 <= j < keys@.len() && (#[trigger] keys@[j])@ == k,
            out.wf(),
            out@.dom() == roster_dom(profiles@, key_set(keys@.take(i as int))),
            forall|k: Seq<char>|
                #![trigger out@.contains_key(k)]
                out@.contains_key(k) ==> player_matches(
                    profile_for(profiles@, k)->Some_0->Body_0@,
                    summary@[k],
                    out@[k],
                ),
        decreases n - i,
    {
        let key = &keys[i];
        let ghost kv = keys@[i as int]@;
        let ghost pre = out@;
        proof {
            assert(key@ == kv);
        }
        match find_profile(profiles, key.as_str()) {
            None => {
                proof {
                    assert(!profile_ok(profiles@, kv));
                }
            },
            Some(fr) => {
                match fr {
                    FetchResult::Failed => {
                        proof {
                            assert(profile_for(profiles@, kv) == Some(*fr));
                            assert(!profile_ok(profiles@, kv));
                        }
                    },
                    FetchResult::Body(_) => {
                        let ghost pb = (*fr)->Body_0@;
                        match get_player_team(fr) {
                            Err(_) => {
                                proof {
                                    if pb.len() < MAX_BODY_CHARS {
                                        assert(!header_complete(pb));
                                    }
                                    assert(!profile_ok(profiles@, kv));
                                }
                            },
                            Ok(info) => {
                                let stats = match summary.get(key.as_str()) {
                                    Some(s) => *s,
                                    None => {
                                        proof {
                                            assert(summary@.contains_key(kv));
                                            assert(false);
                                        }
                                        unreached()
                                    },
                                };
                                match build_player(&info, stats) {
                                    Err(_) => {
                                        proof {
                                            assert(spec_position(info@[1]@) is None);
                                            assert(info@[1]@ == trim_spec(
                                                header_position_of(pb)->Some_0,
                                            ));
                                            assert(!profile_ok(profiles@, kv));
                                        }
                                    },
                                    Ok(p) => {
                                        let ghost gp = p;
                                        out.insert(key.clone(), p);
                                        proof {
                                            assert(pb.len() < MAX_BODY_CHARS);
                                            assert(profile_ok(profiles@, kv));
                                            assert(out@ == pre.insert(kv, gp));
                                            assert(player_matches(pb, summary@[kv], gp));
                                            assert(profile_for(profiles@, kv)->Some_0->Body_0@
                                                == pb);
                                        }
                                    },
                                }
                            },
                        }
                    },
                }
            },
        }
        proof {
            broadcast use vstd::set::group_set_axioms;

            lemma_key_set_take_step(keys@, i as int);
            assert(!key_set(keys@.take(i as int)).contains(kv)) by {
                if key_set(keys@.take(i as int)).contains(kv) {
                    let j = choose|j: int|
                        0 <= j < i && (#[trigger] keys@.take(i as int)[j])@ == kv;
                    assert(keys@[j]@ == kv);
                    assert(false);
                }
            }
            let next_dom = roster_dom(profiles@, key_set(keys@.take(i as int + 1)));
            if profile_ok(profiles@, kv) {
                assert(out@ == pre.insert(kv, out@[kv]));
                assert(out@.dom() =~= next_dom) by {
                    assert forall|k: Seq<char>| out@.dom().contains(k) implies next_dom.contains(
                        k,
                    ) by {
                        if k == kv {
                            assert(key_set(keys@.take(i as int + 1)).contains(k));
                        } else {
                            assert(pre.dom().contains(k));
                            assert(roster_dom(
                                profiles@,
                                key_set(keys@.take(i as int)),
                            ).contains(k));
                            assert(key_set(keys@.take(i as int + 1)).contains(k));
                        }
                    }
                    assert forall|k: Seq<char>| next_dom.contains(k) implies out@.dom().contains(
                        k,
                    ) by {
                        if k != kv {
                            assert(key_set(keys@.take(i as int)).contains(k));
                            assert(roster_dom(
                                profiles@,
                                key_set(keys@.take(i as int)),
                            ).contains(k));
                            assert(pre.dom().contains(k));
                        }
                    }
                }
            } else {
                assert(out@ == pre);
                assert(out@.dom() =~= next_dom) by {
                    assert forall|k: Seq<char>| out@.dom().contains(k) implies next_dom.contains(
                        k,
                    ) by {
                        assert(roster_dom(profiles@, key_set(keys@.take(i as int))).contains(k));
                        assert(key_set(keys@.take(i as int + 1)).contains(k));
                    }
                    assert forall|k: Seq<char>| next_dom.contains(k) implies out@.dom().contains(
                        k,
                    ) by {
                        assert(key_set(keys@.take(i as int + 1)).contains(k) && profile_ok(
                            profiles@,
                            k,
                        ));
                        assert(k != kv);
                        assert(key_set(keys@.take(i as int)).contains(k));
                        assert(roster_dom(profiles@, key_set(keys@.take(i as int))).contains(k));
                    }
                }
            }
            assert forall|k: Seq<char>| #![trigger out@.contains_key(k)]
                out@.contains_key(k) implies player_matches(
                profile_for(profiles@, k)->Some_0->Body_0@,
                summary@[k],
                out@[k],
            ) by {
                if k != kv {
                    assert(pre.contains_key(k));
                    assert(out@[k] == pre[k]);
                } else {
                    assert(out@.dom().contains(kv));
                    assert(next_dom.contains(kv));
                    assert(profile_ok(profiles@, kv));
                }
            }
        }
        i += 1;
    }
    proof {
        assert(keys@.take(n as int) =~= keys@);
        assert(key_set(keys@) =~= summary@.dom()) by {
            assert forall|k: Seq<char>| key_set(keys@).contains(k) implies summary@.dom().contains(
                k,
            ) by {
                let j = choose|j: int| 0 <= j < keys@.len() && (#[trigger] keys@[j])@ == k;
            }
        }
        assert(out@.dom() == roster_dom(profiles@, summary@.dom()));
    }
    Ok(out)
}


// ---------------------------------------------------------------------------
// Single-player lookups
// ---------------------------------------------------------------------------

/// One player's roster entry, looked up by slug; a slug the roster does not
/// hold yields `NotFound`.
pub fn get_player(name: &str, league: &StatTable<Player>) -> (r: Result<Player, HarvestError>)
    requires
        league.wf(),
    ensures
        match r {
            Ok(p) => league@.contains_key(name@) && p == league@[name@],
            Err(e) => !league@.contains_key(name@) && e == HarvestError::NotFound,
        },
{
    match league.get(name) {
        Some(p) => Ok(p.clone()),
        None => Err(HarvestError::NotFound),
    }
}

/// One player's passing line, looked up by slug in the joined summary table; a
/// slug the table does not hold yields `NotFound`.
pub fn get_player_passing(name: &str, league: &StatTable<players::Summary>) -> (r: Result<
    players::Passing,
    HarvestError,
>)
    requires
        league.wf(),
    ensures
        match r {
            Ok(p) => league@.contains_key(name@) && p == league@[name@].passing,
            Err(e) => !league@.contains_key(name@) && e == HarvestError::NotFound,
        },
{
    match league.get(name) {
        Some(s) => Ok(s.passing),
        None => Err(HarvestError::NotFound),
    }
}

/// One player's rushing line, looked up by slug in the joined summary table; a
/// slug the table does not hold yields `NotFound`.
pub fn get_player_rushing(name: &str, league: &StatTable<players::Summary>) -> (r: Result<
    players::Rushing,
    HarvestError,
>)
    requires
        league.wf(),
    ensures
        match r {
            Ok(p) => league@.contains_key(name@) && p == league@[name@].rushing,
            Err(e) => !league@.contains_key(name@) && e == HarvestError::NotFound,
        },
{
    match league.get(name) {
        Some(s) => Ok(s.rushing),
        None => Err(HarvestError::NotFound),
    }
}

/// One player's receiving line, looked up by slug in the joined summary table; a
/// slug the table does not hold yields `NotFound`.
pub fn get_player_receiving(name: &str, league: &StatTable<players::Summary>) -> (r: Result<
    players::Receiving,
    HarvestError,
>)
    requires
        league.wf(),
    ensures
        match r {
            Ok(p) => league@.contains_key(name@) && p == league@[name@].receiving,
            Err(e) => !league@.contains_key(name@) && e == HarvestError::NotFound,
        },
{
    match league.get(name) {
        Some(s) => Ok(s.receiving),
        None => Err(HarvestError::NotFound),
    }
}

/// One player's fumbles line, looked up by slug in the joined summary table; a
/// slug the table does not hold yields `NotFound`.
pub fn get_player_fumbles(name: &str, league: &StatTable<players::Summary>) -> (r: Result<
    players::Fumbles,
    HarvestError,
>)
    requires
        league.wf(),
    ensures
        match r {
            Ok(p) => league@.contains_key(name@) && p == league@[name@].fumbles,
            Err(e) => !league@.contains_key(name@) && e == HarvestError::NotFound,
        },
{
    match league.get(name) {
        Some(s) => Ok(s.fumbles),
        None => Err(HarvestError::NotFound),
    }
}

/// One player's tackles line, looked up by slug in the joined summary table; a
/// slug the table does not hold yields `NotFound`.
pub fn get_player_tackles(name: &str, league: &StatTable<players::Summary>) -> (r: Result<
    players::Tackles,
    HarvestError,
>)
    requires
        league.wf(),
    ensures
        match r {
            Ok(p) => league@.contains_key(name@) && p == league@[name@].tackles,
            Err(e) => !league@.contains_key(name@) && e == HarvestError::NotFound,
        },
{
    match league.get(name) {
        Some(s) => Ok(s.tackles),
        None => Err(HarvestError::NotFound),
    }
}

/// One player's interceptions line, looked up by slug in the joined summary table; a
/// slug the table does not hold yields `NotFound`.
pub fn get_player_interceptions(name: &str, league: &StatTable<players::Summary>) -> (r: Result<
    players::Interceptions,
    HarvestError,
>)
    requires
        league.wf(),
    ensures
        match r {
            Ok(p) => league@.contains_key(name@) && p == league@[name@].interceptions,
            Err(e) => !league@.contains_key(name@) && e == HarvestError::NotFound,
        },
{
    match league.get(name) {
        Some(s) => Ok(s.interceptions),
        None => Err(HarvestError::NotFound),
    }
}

/// One player's field-goal line, looked up by slug in the joined summary table; a
/// slug the table does not hold yields `NotFound`.
pub fn get_player_feild_goals(name: &str, league: &StatTable<players::Summary>) -> (r: Result<
    players::FieldGoals,
    HarvestError,
>)
    requires
        league.wf(),
    ensures
        match r {
            Ok(p) => league@.contains_key(name@) && p == league@[name@].field_goals,
            Err(e) => !league@.contains_key(name@) && e == HarvestError::NotFound,
        },
{
    match league.get(name) {
        Some(s) => Ok(s.field_goals),
        None => Err(HarvestError::NotFound),
    }
}

/// One player's kickoffs line, looked up by slug in the joined summary table; a
/// slug the table does not hold yields `NotFound`.
pub fn get_player_kickoffs(name: &str, league: &StatTable<players::Summary>) -> (r: Result<
    players::Kickoffs,
    HarvestError,
>)
    requires
        league.wf(),
    ensures
        match r {
            Ok(p) => league@.contains_key(name@) && p == league@[name@].kickoffs,
            Err(e) => !league@.contains_key(name@) && e == HarvestError::NotFound,
        },
{
    match league.get(name) {
        Some(s) => Ok(s.kickoffs),
        None => Err(HarvestError::NotFound),
    }
}

/// One player's kickoff-returns line, looked up by slug in the joined summary table; a
/// slug the table does not hold yields `NotFound`.
pub fn get_player_kickoff_returns(name: &str, league: &StatTable<players::Summary>) -> (r: Result<
    players::KickoffReturns,
    HarvestError,
>)
    requires
        league.wf(),
    ensures
        match r {
            Ok(p) => league@.contains_key(name@) && p == league@[name@].kickoff_returns,
            Err(e) => !league@.contains_key(name@) && e == HarvestError::NotFound,
        },
{
    match league.get(name) {
        Some(s) => Ok(s.kickoff_returns),
        None => Err(HarvestError::NotFound),
    }
}

} // verus!
