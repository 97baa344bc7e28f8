//! Team special-teams records: one row of each special-teams stat table,
//! decoded positionally from its normalized cells. Made/attempted ratios in
//! these tables are encoded with the `_` delimiter.

use vstd::prelude::*;

use crate::decode::{cell_at, cell_dec, cell_u32, read_dec, read_u32, RowDecode};
use crate::text::{split_pair, split_pair_spec, Decimal};

verus! {

/// One team's whole special-teams line: one record per category.
#[derive(Debug, Clone, Copy, PartialEq, Eq, Structural)]
pub struct Summary {
    pub field_goals: FieldGoals,
    pub scoring: Scoring,
    pub kickoffs: Kickoffs,
    pub kickoff_returns: KickoffReturns,
    pub punting: Punting,
    pub punt_returns: PuntReturns,
}

/// A two-part made/attempted ratio encoded in a single cell with the
/// delimiter `_`.
#[derive(Debug, Clone, Copy, PartialEq, Eq, Structural)]
pub struct A_M(pub u32, pub u32);

/// The pair a composite cell decodes to with this table's delimiter.
pub open spec fn spec_a_m(s: Seq<char>) -> A_M {
    A_M(split_pair_spec(s, '_').0, split_pair_spec(s, '_').1)
}

/// Decodes a made/attempted cell; a malformed composite yields `A_M(0, 0)`.
pub fn parse_a_m(data: &String) -> (r: A_M)
    ensures
        r == spec_a_m(data@),
{
    let p = split_pair(data.as_str(), '_');
    A_M(p.0, p.1)
}

/// The made/attempted field read from cell `i`.
pub open spec fn a_m_cell(cells: Seq<Seq<char>>, i: int) -> A_M {
    spec_a_m(cell_at(cells, i))
}

fn read_a_m(data: &Vec<String>, i: usize) -> (r: A_M)
    ensures
        r == a_m_cell(data.deep_view(), i as int),
{
    if i < data.len() {
        proof {
            assert(data.deep_view()[i as int] == data@[i as int]@);
        }
        parse_a_m(&data[i])
    } else {
        proof {
            assert(cell_at(data.deep_view(), i as int) =~= Seq::<char>::empty());
        }
        A_M(0, 0)
    }
}

/// One team's field-goal line.
#[derive(Debug, Clone, Copy, PartialEq, Eq, Structural)]
pub struct FieldGoals {
    pub fgm: u32,
    pub att: u32,
    pub fg_pct: Decimal,
    pub fg_A: A_M,
    pub fg_B: A_M,
    pub fg_C: A_M,
    pub fg_D: A_M,
    pub fg_E: A_M,
    pub fg_F: A_M,
    pub lng: u32,
    pub fg_blk: u32,
}

impl RowDecode for FieldGoals {
    open spec fn spec_zero() -> FieldGoals {
        FieldGoals {
            fgm: 0,
            att: 0,
            fg_pct: Decimal::spec_zero(),
            fg_A: A_M(0, 0),
            fg_B: A_M(0, 0),
            fg_C: A_M(0, 0),
            fg_D: A_M(0, 0),
            fg_E: A_M(0, 0),
            fg_F: A_M(0, 0),
            lng: 0,
            fg_blk: 0,
        }
    }

    open spec fn spec_from(cells: Seq<Seq<char>>) -> FieldGoals {
        FieldGoals {
            fgm: cell_u32(cells, 0),
            att: cell_u32(cells, 1),
            fg_pct: cell_dec(cells, 2),
            fg_A: a_m_cell(cells, 3),
            fg_B: a_m_cell(cells, 4),
            fg_C: a_m_cell(cells, 5),
            fg_D: a_m_cell(cells, 6),
            fg_E: a_m_cell(cells, 7),
            fg_F: a_m_cell(cells, 8),
            lng: cell_u32(cells, 9),
            fg_blk: cell_u32(cells, 10),
        }
    }

    fn zero() -> (r: FieldGoals) {
        FieldGoals {
            fgm: 0,
            att: 0,
            fg_pct: Decimal::zero(),
            fg_A: A_M(0, 0),
            fg_B: A_M(0, 0),
            fg_C: A_M(0, 0),
            fg_D: A_M(0, 0),
            fg_E: A_M(0, 0),
            fg_F: A_M(0, 0),
            lng: 0,
            fg_blk: 0,
        }
    }

    fn from(data: &Vec<String>) -> (r: FieldGoals) {
        FieldGoals {
            fgm: read_u32(data, 0),
            att: read_u32(data, 1),
            fg_pct: read_dec(data, 2),
            fg_A: read_a_m(data, 3),
            fg_B: read_a_m(data, 4),
            fg_C: read_a_m(data, 5),
            fg_D: read_a_m(data, 6),
            fg_E: read_a_m(data, 7),
            fg_F: read_a_m(data, 8),
            lng: read_u32(data, 9),
            fg_blk: read_u32(data, 10),
        }
    }
}

/// One team's special-teams scoring line.
#[derive(Debug, Clone, Copy, PartialEq, Eq, Structural)]
pub struct Scoring {
    pub fgm: u32,
    pub fg_pct: Decimal,
    pub xpm: u32,
    pub xp_pct: Decimal,
    pub kret_td: u32,
    pub pret_t: u32,
}

impl RowDecode for Scoring {
    open spec fn spec_zero() -> Scoring {
        Scoring {
            fgm: 0,
            fg_pct: Decimal::spec_zero(),
            xpm: 0,
            xp_pct: Decimal::spec_zero(),
            kret_td: 0,
            pret_t: 0,
        }
    }

    open spec fn spec_from(cells: Seq<Seq<char>>) -> Scoring {
        Scoring {
            fgm: cell_u32(cells, 0),
            fg_pct: cell_dec(cells, 1),
            xpm: cell_u32(cells, 2),
            xp_pct: cell_dec(cells, 3),
            kret_td: cell_u32(cells, 4),
            pret_t: cell_u32(cells, 5),
        }
    }

    fn zero() -> (r: Scoring) {
        Scoring {
            fgm: 0,
            fg_pct: Decimal::zero(),
            xpm: 0,
            xp_pct: Decimal::zero(),
            kret_td: 0,
            pret_t: 0,
        }
    }

    fn from(data: &Vec<String>) -> (r: Scoring) {
        Scoring {
            fgm: read_u32(data, 0),
            fg_pct: read_dec(data, 1),
            xpm: read_u32(data, 2),
            xp_pct: read_dec(data, 3),
            kret_td: read_u32(data, 4),
            pret_t: read_u32(data, 5),
        }
    }
}

/// One team's kickoffs line.
#[derive(Debug, Clone, Copy, PartialEq, Eq, Structural)]
pub struct Kickoffs {
    pub ko: u32,
    pub yds: u32,
    pub tb: u32,
    pub tb_pct: Decimal,
    pub ret: u32,
    pub ret_avg: Decimal,
    pub osk: u32,
    pub osk_rec: u32,
    pub oob: u32,
    pub td: u32,
}

impl RowDecode for Kickoffs {
    open spec fn spec_zero() -> Kickoffs {
        Kickoffs {
            ko: 0,
            yds: 0,
            tb: 0,
            tb_pct: Decimal::spec_zero(),
            ret: 0,
            ret_avg: Decimal::spec_zero(),
            osk: 0,
            osk_rec: 0,
            oob: 0,
            td: 0,
        }
    }

    open spec fn spec_from(cells: Seq<Seq<char>>) -> Kickoffs {
        Kickoffs {
            ko: cell_u32(cells, 0),
            yds: cell_u32(cells, 1),
            tb: cell_u32(cells, 2),
            tb_pct: cell_dec(cells, 3),
            ret: cell_u32(cells, 4),
            ret_avg: cell_dec(cells, 5),
            osk: cell_u32(cells, 6),
            osk_rec: cell_u32(cells, 7),
            oob: cell_u32(cells, 8),
            td: cell_u32(cells, 9),
        }
    }

    fn zero() -> (r: Kickoffs) {
        Kickoffs {
            ko: 0,
            yds: 0,
            tb: 0,
            tb_pct: Decimal::zero(),
            ret: 0,
            ret_avg: Decimal::zero(),
            osk: 0,
            osk_rec: 0,
            oob: 0,
            td: 0,
        }
    }

    fn from(data: &Vec<String>) -> (r: Kickoffs) {
        Kickoffs {
            ko: read_u32(data, 0),
            yds: read_u32(data, 1),
            tb: read_u32(data, 2),
            tb_pct: read_dec(data, 3),
            ret: read_u32(data, 4),
            ret_avg: read_dec(data, 5),
            osk: read_u32(data, 6),
            osk_rec: read_u32(data, 7),
            oob: read_u32(data, 8),
            td: read_u32(data, 9),
        }
    }
}

/// One team's kickoff-returns line.
#[derive(Debug, Clone, Copy, PartialEq, Eq, Structural)]
pub struct KickoffReturns {
    pub avg: Decimal,
    pub ret: u32,
    pub yds: u32,
    pub ret_td: u32,
    pub twenty_plus: u32,
    pub fourty_plus: u32,
    pub lng: u32,
    pub fc: u32,
    pub fum: u32,
    pub fg_blk: u32,
    pub xp_blk: u32,
}

impl RowDecode for KickoffReturns {
    open spec fn spec_zero() -> KickoffReturns {
        KickoffReturns {
            avg: Decimal::spec_zero(),
            ret: 0,
            yds: 0,
            ret_td: 0,
            twenty_plus: 0,
            fourty_plus: 0,
            lng: 0,
            fc: 0,
            fum: 0,
            fg_blk: 0,
            xp_blk: 0,
        }
    }

    open spec fn spec_from(cells: Seq<Seq<char>>) -> KickoffReturns {
        KickoffReturns {
            avg: cell_dec(cells, 0),
            ret: cell_u32(cells, 1),
            yds: cell_u32(cells, 2),
            ret_td: cell_u32(cells, 3),
            twenty_plus: cell_u32(cells, 4),
            fourty_plus: cell_u32(cells, 5),
            lng: cell_u32(cells, 6),
            fc: cell_u32(cells, 7),
            fum: cell_u32(cells, 8),
            fg_blk: cell_u32(cells, 9),
            xp_blk: cell_u32(cells, 10),
        }
    }

    fn zero() -> (r: KickoffReturns) {
        KickoffReturns {
            avg: Decimal::zero(),
            ret: 0,
            yds: 0,
            ret_td: 0,
            twenty_plus: 0,
            fourty_plus: 0,
            lng: 0,
            fc: 0,
            fum: 0,
            fg_blk: 0,
            xp_blk: 0,
        }
    }

    fn from(data: &Vec<String>) -> (r: KickoffReturns) {
        KickoffReturns {
            avg: read_dec(data, 0),
            ret: read_u32(data, 1),
            yds: read_u32(data, 2),
            ret_td: read_u32(data, 3),
            twenty_plus: read_u32(data, 4),
            fourty_plus: read_u32(data, 5),
            lng: read_u32(data, 6),
            fc: read_u32(data, 7),
            fum: read_u32(data, 8),
            fg_blk: read_u32(data, 9),
            xp_blk: read_u32(data, 10),
        }
    }
}

/// One team's punting line.
#[derive(Debug, Clone, Copy, PartialEq, Eq, Structural)]
pub struct Punting {
    pub net_avg: Decimal,
    pub net_yds: u32,
    pub punts: u32,
    pub avg: Decimal,
    pub lng: u32,
    pub yds: u32,
    pub in_twenty: u32,
    pub oob: u32,
    pub dn: u32,
    pub tb: u32,
    pub fc: u32,
    pub ret: u32,
    pub ret_yds: u32,
    pub td: u32,
    pub p_blk: u32,
}

impl RowDecode for Punting {
    open spec fn spec_zero() -> Punting {
        Punting {
            net_avg: Decimal::spec_zero(),
            net_yds: 0,
            punts: 0,
            avg: Decimal::spec_zero(),
            lng: 0,
            yds: 0,
            in_twenty: 0,
            oob: 0,
            dn: 0,
            tb: 0,
            fc: 0,
            ret: 0,
            ret_yds: 0,
            td: 0,
            p_blk: 0,
        }
    }

    open spec fn spec_from(cells: Seq<Seq<char>>) -> Punting {
        Punting {
            net_avg: cell_dec(cells, 0),
            net_yds: cell_u32(cells, 1),
            punts: cell_u32(cells, 2),
            avg: cell_dec(cells, 3),
            lng: cell_u32(cells, 4),
            yds: cell_u32(cells, 5),
            in_twenty: cell_u32(cells, 6),
            oob: cell_u32(cells, 7),
            dn: cell_u32(cells, 8),
            tb: cell_u32(cells, 9),
            fc: cell_u32(cells, 10),
            ret: cell_u32(cells, 11),
            ret_yds: cell_u32(cells, 12),
            td: cell_u32(cells, 13),
            p_blk: cell_u32(cells, 14),
        }
    }

    fn zero() -> (r: Punting) {
        Punting {
            net_avg: Decimal::zero(),
            net_yds: 0,
            punts: 0,
            avg: Decimal::zero(),
            lng: 0,
            yds: 0,
            in_twenty: 0,
            oob: 0,
            dn: 0,
            tb: 0,
            fc: 0,
            ret: 0,
            ret_yds: 0,
            td: 0,
            p_blk: 0,
        }
    }

    fn from(data: &Vec<String>) -> (r: Punting) {
        Punting {
            net_avg: read_dec(data, 0),
            net_yds: read_u32(data, 1),
            punts: read_u32(data, 2),
            avg: read_dec(data, 3),
            lng: read_u32(data, 4),
            yds: read_u32(data, 5),
            in_twenty: read_u32(data, 6),
            oob: read_u32(data, 7),
            dn: read_u32(data, 8),
            tb: read_u32(data, 9),
            fc: read_u32(data, 10),
            ret: read_u32(data, 11),
            ret_yds: read_u32(data, 12),
            td: read_u32(data, 13),
            p_blk: read_u32(data, 14),
        }
    }
}

/// One team's punt-returns line.
#[derive(Debug, Clone, Copy, PartialEq, Eq, Structural)]
pub struct PuntReturns {
    pub avg: Decimal,
    pub ret: u32,
    pub yds: u32,
    pub pret_tot: u32,
    pub twenty_plus: u32,
    pub fourty_plus: u32,
    pub lng: u32,
    pub fc: u32,
    pub fum: u32,
    pub p_blk: u32,
}

impl RowDecode for PuntReturns {
    open spec fn spec_zero() -> PuntReturns {
        PuntReturns {
            avg: Decimal::spec_zero(),
            ret: 0,
            yds: 0,
            pret_tot: 0,
            twenty_plus: 0,
            fourty_plus: 0,
            lng: 0,
            fc: 0,
            fum: 0,
            p_blk: 0,
        }
    }

    open spec fn spec_from(cells: Seq<Seq<char>>) -> PuntReturns {
        PuntReturns {
            avg: cell_dec(cells, 0),
            ret: cell_u32(cells, 1),
            yds: cell_u32(cells, 2),
            pret_tot: cell_u32(cells, 3),
            twenty_plus: cell_u32(cells, 4),
            fourty_plus: cell_u32(cells, 5),
            lng: cell_u32(cells, 6),
            fc: cell_u32(cells, 7),
            fum: cell_u32(cells, 8),
            p_blk: cell_u32(cells, 9),
        }
    }

    fn zero() -> (r: PuntReturns) {
        PuntReturns {
            avg: Decimal::zero(),
            ret: 0,
            yds: 0,
            pret_tot: 0,
            twenty_plus: 0,
            fourty_plus: 0,
            lng: 0,
            fc: 0,
            fum: 0,
            p_blk: 0,
        }
    }

    fn from(data: &Vec<String>) -> (r: PuntReturns) {
        PuntReturns {
            avg: read_dec(data, 0),
            ret: read_u32(data, 1),
            yds: read_u32(data, 2),
            pret_tot: read_u32(data, 3),
            twenty_plus: read_u32(data, 4),
            fourty_plus: read_u32(data, 5),
            lng: read_u32(data, 6),
            fc: read_u32(data, 7),
            fum: read_u32(data, 8),
            p_blk: read_u32(data, 9),
        }
    }
}
} // verus!
