//! Player records: one row of each player stat table, decoded positionally
//! from its normalized cells, plus the player roster data assembled from a
//! profile page. Made/attempted ratios in these tables are encoded with the
//! `/` delimiter.

use vstd::prelude::*;

use crate::decode::{cell_at, cell_dec, cell_u32, read_dec, read_u32, RowDecode};
use crate::text::{split_pair, split_pair_spec, str_eq, Decimal};
use crate::HarvestError;

verus! {

/// One player's whole stat line: one record per player category.
#[derive(Debug, Clone, Copy, PartialEq, Eq, Structural)]
pub struct Summary {
    pub passing: Passing,
    pub rushing: Rushing,
    pub receiving: Receiving,
    pub fumbles: Fumbles,
    pub tackles: Tackles,
    pub interceptions: Interceptions,
    pub field_goals: FieldGoals,
    pub kickoffs: Kickoffs,
    pub kickoff_returns: KickoffReturns,
    pub punting: Punting,
    pub punt_returns: PuntReturns,
}

/// One player's passing line.
#[derive(Debug, Clone, Copy, PartialEq, Eq, Structural)]
pub struct Passing {
    pub pass_yds: u32,
    pub yds_per_att: Decimal,
    pub att: u32,
    pub cmp: u32,
    pub cmp_pct: Decimal,
    pub td: u32,
    pub ints: u32,
    pub rate: Decimal,
    pub first: u32,
    pub first_pct: Decimal,
    pub twenty_plus: u32,
    pub fourty_plus: u32,
    pub lng: u32,
    pub sck: u32,
    pub sck_yards: u32,
}

impl RowDecode for Passing {
    open spec fn spec_zero() -> Passing {
        Passing {
            pass_yds: 0,
            yds_per_att: Decimal::spec_zero(),
            att: 0,
            cmp: 0,
            cmp_pct: Decimal::spec_zero(),
            td: 0,
            ints: 0,
            rate: Decimal::spec_zero(),
            first: 0,
            first_pct: Decimal::spec_zero(),
            twenty_plus: 0,
            fourty_plus: 0,
            lng: 0,
            sck: 0,
            sck_yards: 0,
        }
    }

    open spec fn spec_from(cells: Seq<Seq<char>>) -> Passing {
        Passing {
            pass_yds: cell_u32(cells, 0),
            yds_per_att: cell_dec(cells, 1),
            att: cell_u32(cells, 2),
            cmp: cell_u32(cells, 3),
            cmp_pct: cell_dec(cells, 4),
            td: cell_u32(cells, 5),
            ints: cell_u32(cells, 6),
            rate: cell_dec(cells, 7),
            first: cell_u32(cells, 8),
            first_pct: cell_dec(cells, 9),
            twenty_plus: cell_u32(cells, 10),
            fourty_plus: cell_u32(cells, 11),
            lng: cell_u32(cells, 12),
            sck: cell_u32(cells, 13),
            sck_yards: cell_u32(cells, 14),
        }
    }

    fn zero() -> (r: Passing) {
        Passing {
            pass_yds: 0,
            yds_per_att: Decimal::zero(),
            att: 0,
            cmp: 0,
            cmp_pct: Decimal::zero(),
            td: 0,
            ints: 0,
            rate: Decimal::zero(),
            first: 0,
            first_pct: Decimal::zero(),
            twenty_plus: 0,
            fourty_plus: 0,
            lng: 0,
            sck: 0,
            sck_yards: 0,
        }
    }

    fn from(data: &Vec<String>) -> (r: Passing) {
        Passing {
            pass_yds: read_u32(data, 0),
            yds_per_att: read_dec(data, 1),
            att: read_u32(data, 2),
            cmp: read_u32(data, 3),
            cmp_pct: read_dec(data, 4),
            td: read_u32(data, 5),
            ints: read_u32(data, 6),
            rate: read_dec(data, 7),
            first: read_u32(data, 8),
            first_pct: read_dec(data, 9),
            twenty_plus: read_u32(data, 10),
            fourty_plus: read_u32(data, 11),
            lng: read_u32(data, 12),
            sck: read_u32(data, 13),
            sck_yards: read_u32(data, 14),
        }
    }
}

/// One player's rushing line.
#[derive(Debug, Clone, Copy, PartialEq, Eq, Structural)]
pub struct Rushing {
    pub rush_yds: u32,
    pub att: u32,
    pub td: u32,
    pub twenty_plus: u32,
    pub fourty_plus: u32,
    pub lng: u32,
    pub rush_first: u32,
    pub rush_first_pct: Decimal,
    pub rush_fum: u32,
}

impl RowDecode for Rushing {
    open spec fn spec_zero() -> Rushing {
        Rushing {
            rush_yds: 0,
            att: 0,
            td: 0,
            twenty_plus: 0,
            fourty_plus: 0,
            lng: 0,
            rush_first: 0,
            rush_first_pct: Decimal::spec_zero(),
            rush_fum: 0,
        }
    }

    open spec fn spec_from(cells: Seq<Seq<char>>) -> Rushing {
        Rushing {
            rush_yds: cell_u32(cells, 0),
            att: cell_u32(cells, 1),
            td: cell_u32(cells, 2),
            twenty_plus: cell_u32(cells, 3),
            fourty_plus: cell_u32(cells, 4),
            lng: cell_u32(cells, 5),
            rush_first: cell_u32(cells, 6),
            rush_first_pct: cell_dec(cells, 7),
            rush_fum: cell_u32(cells, 8),
        }
    }

    fn zero() -> (r: Rushing) {
        Rushing {
            rush_yds: 0,
            att: 0,
            td: 0,
            twenty_plus: 0,
            fourty_plus: 0,
            lng: 0,
            rush_first: 0,
            rush_first_pct: Decimal::zero(),
            rush_fum: 0,
        }
    }

    fn from(data: &Vec<String>) -> (r: Rushing) {
        Rushing {
            rush_yds: read_u32(data, 0),
            att: read_u32(data, 1),
            td: read_u32(data, 2),
            twenty_plus: read_u32(data, 3),
            fourty_plus: read_u32(data, 4),
            lng: read_u32(data, 5),
            rush_first: read_u32(data, 6),
            rush_first_pct: read_dec(data, 7),
            rush_fum: read_u32(data, 8),
        }
    }
}

/// One player's receiving line.
#[derive(Debug, Clone, Copy, PartialEq, Eq, Structural)]
pub struct Receiving {
    pub rec: u32,
    pub rec_yds: u32,
    pub td: u32,
    pub twenty_plus: u32,
    pub fourty_plus: u32,
    pub lng: u32,
    pub rec_first: u32,
    pub first_pct: Decimal,
    pub rec_fum: u32,
    pub rec_yac_per_rec: Decimal,
    pub tgts: u32,
}

impl RowDecode for Receiving {
    open spec fn spec_zero() -> Receiving {
        Receiving {
            rec: 0,
            rec_yds: 0,
            td: 0,
            twenty_plus: 0,
            fourty_plus: 0,
            lng: 0,
            rec_first: 0,
            first_pct: Decimal::spec_zero(),
            rec_fum: 0,
            rec_yac_per_rec: Decimal::spec_zero(),
            tgts: 0,
        }
    }

    open spec fn spec_from(cells: Seq<Seq<char>>) -> Receiving {
        Receiving {
            rec: cell_u32(cells, 0),
            rec_yds: cell_u32(cells, 1),
            td: cell_u32(cells, 2),
            twenty_plus: cell_u32(cells, 3),
            fourty_plus: cell_u32(cells, 4),
            lng: cell_u32(cells, 5),
            rec_first: cell_u32(cells, 6),
            first_pct: cell_dec(cells, 7),
            rec_fum: cell_u32(cells, 8),
            rec_yac_per_rec: cell_dec(cells, 9),
            tgts: cell_u32(cells, 10),
        }
    }

    fn zero() -> (r: Receiving) {
        Receiving {
            rec: 0,
            rec_yds: 0,
            td: 0,
            twenty_plus: 0,
            fourty_plus: 0,
            lng: 0,
            rec_first: 0,
            first_pct: Decimal::zero(),
            rec_fum: 0,
            rec_yac_per_rec: Decimal::zero(),
            tgts: 0,
        }
    }

    fn from(data: &Vec<String>) -> (r: Receiving) {
        Receiving {
            rec: read_u32(data, 0),
            rec_yds: read_u32(data, 1),
            td: read_u32(data, 2),
            twenty_plus: read_u32(data, 3),
            fourty_plus: read_u32(data, 4),
            lng: read_u32(data, 5),
            rec_first: read_u32(data, 6),
            first_pct: read_dec(data, 7),
            rec_fum: read_u32(data, 8),
            rec_yac_per_rec: read_dec(data, 9),
            tgts: read_u32(data, 10),
        }
    }
}

/// One player's fumbles line.
#[derive(Debug, Clone, Copy, PartialEq, Eq, Structural)]
pub struct Fumbles {
    pub ff: u32,
    pub fr: u32,
    pub fr_td: u32,
}

impl RowDecode for Fumbles {
    open spec fn spec_zero() -> Fumbles {
        Fumbles {
            ff: 0,
            fr: 0,
            fr_td: 0,
        }
    }

    open spec fn spec_from(cells: Seq<Seq<char>>) -> Fumbles {
        Fumbles {
            ff: cell_u32(cells, 0),
            fr: cell_u32(cells, 1),
            fr_td: cell_u32(cells, 2),
        }
    }

    fn zero() -> (r: Fumbles) {
        Fumbles {
            ff: 0,
            fr: 0,
            fr_td: 0,
        }
    }

    fn from(data: &Vec<String>) -> (r: Fumbles) {
        Fumbles {
            ff: read_u32(data, 0),
            fr: read_u32(data, 1),
            fr_td: read_u32(data, 2),
        }
    }
}

/// One player's tackles line.
#[derive(Debug, Clone, Copy, PartialEq, Eq, Structural)]
pub struct Tackles {
    pub comb: u32,
    pub asst: u32,
    pub solo: u32,
    pub sck: Decimal,
}

impl RowDecode for Tackles {
    open spec fn spec_zero() -> Tackles {
        Tackles {
            comb: 0,
            asst: 0,
            solo: 0,
            sck: Decimal::spec_zero(),
        }
    }

    open spec fn spec_from(cells: Seq<Seq<char>>) -> Tackles {
        Tackles {
            comb: cell_u32(cells, 0),
            asst: cell_u32(cells, 1),
            solo: cell_u32(cells, 2),
            sck: cell_dec(cells, 3),
        }
    }

    fn zero() -> (r: Tackles) {
        Tackles {
            comb: 0,
            asst: 0,
            solo: 0,
            sck: Decimal::zero(),
        }
    }

    fn from(data: &Vec<String>) -> (r: Tackles) {
        Tackles {
            comb: read_u32(data, 0),
            asst: read_u32(data, 1),
            solo: read_u32(data, 2),
            sck: read_dec(data, 3),
        }
    }
}

/// One player's interceptions line.
#[derive(Debug, Clone, Copy, PartialEq, Eq, Structural)]
pub struct Interceptions {
    pub ints: u32,
    pub int_td: u32,
    pub int_yds: u32,
    pub lng: u32,
}

impl RowDecode for Interceptions {
    open spec fn spec_zero() -> Interceptions {
        Interceptions {
            ints: 0,
            int_td: 0,
            int_yds: 0,
            lng: 0,
        }
    }

    open spec fn spec_from(cells: Seq<Seq<char>>) -> Interceptions {
        Interceptions {
            ints: cell_u32(cells, 0),
            int_td: cell_u32(cells, 1),
            int_yds: cell_u32(cells, 2),
            lng: cell_u32(cells, 3),
        }
    }

    fn zero() -> (r: Interceptions) {
        Interceptions {
            ints: 0,
            int_td: 0,
            int_yds: 0,
            lng: 0,
        }
    }

    fn from(data: &Vec<String>) -> (r: Interceptions) {
        Interceptions {
            ints: read_u32(data, 0),
            int_td: read_u32(data, 1),
            int_yds: read_u32(data, 2),
            lng: read_u32(data, 3),
        }
    }
}

/// A two-part made/attempted ratio encoded in a single cell with the
/// delimiter `/`.
#[derive(Debug, Clone, Copy, PartialEq, Eq, Structural)]
pub struct A_M(pub u32, pub u32);

/// The pair a composite cell decodes to with this table's delimiter.
pub open spec fn spec_a_m(s: Seq<char>) -> A_M {
    A_M(split_pair_spec(s, '/').0, split_pair_spec(s, '/').1)
}

/// Decodes a made/attempted cell; a malformed composite yields `A_M(0, 0)`.
pub fn parse_a_m(data: &String) -> (r: A_M)
    ensures
        r == spec_a_m(data@),
{
    let p = split_pair(data.as_str(), '/');
    A_M(p.0, p.1)
}

/// The made/attempted field read from cell `i`.
pub open spec fn a_m_cell(cells: Seq<Seq<char>>, i: int) -> A_M {
    spec_a_m(cell_at(cells, i))
}

fn read_a_m(data: &Vec<String>, i: usize) -> (r: A_M)
    ensures
        r == a_m_cell(data.deep_view(), i as int),
{
    if i < data.len() {
        proof {
            assert(data.deep_view()[i as int] == data@[i as int]@);
        }
        parse_a_m(&data[i])
    } else {
        proof {
            assert(cell_at(data.deep_view(), i as int) =~= Seq::<char>::empty());
        }
        A_M(0, 0)
    }
}

/// One player's field-goal line.
#[derive(Debug, Clone, Copy, PartialEq, Eq, Structural)]
pub struct FieldGoals {
    pub fgm: u32,
    pub att: u32,
    pub fg_pct: Decimal,
    pub fg_A: A_M,
    pub fg_B: A_M,
    pub fg_C: A_M,
    pub fg_D: A_M,
    pub fg_E: A_M,
    pub fg_F: A_M,
    pub lng: u32,
    pub fg_blk: u32,
}

impl RowDecode for FieldGoals {
    open spec fn spec_zero() -> FieldGoals {
        FieldGoals {
            fgm: 0,
            att: 0,
            fg_pct: Decimal::spec_zero(),
            fg_A: A_M(0, 0),
            fg_B: A_M(0, 0),
            fg_C: A_M(0, 0),
            fg_D: A_M(0, 0),
            fg_E: A_M(0, 0),
            fg_F: A_M(0, 0),
            lng: 0,
            fg_blk: 0,
        }
    }

    open spec fn spec_from(cells: Seq<Seq<char>>) -> FieldGoals {
        FieldGoals {
            fgm: cell_u32(cells, 0),
            att: cell_u32(cells, 1),
            fg_pct: cell_dec(cells, 2),
            fg_A: a_m_cell(cells, 3),
            fg_B: a_m_cell(cells, 4),
            fg_C: a_m_cell(cells, 5),
            fg_D: a_m_cell(cells, 6),
            fg_E: a_m_cell(cells, 7),
            fg_F: a_m_cell(cells, 8),
            lng: cell_u32(cells, 9),
            fg_blk: cell_u32(cells, 10),
        }
    }

    fn zero() -> (r: FieldGoals) {
        FieldGoals {
            fgm: 0,
            att: 0,
            fg_pct: Decimal::zero(),
            fg_A: A_M(0, 0),
            fg_B: A_M(0, 0),
            fg_C: A_M(0, 0),
            fg_D: A_M(0, 0),
            fg_E: A_M(0, 0),
            fg_F: A_M(0, 0),
            lng: 0,
            fg_blk: 0,
        }
    }

    fn from(data: &Vec<String>) -> (r: FieldGoals) {
        FieldGoals {
            fgm: read_u32(data, 0),
            att: read_u32(data, 1),
            fg_pct: read_dec(data, 2),
            fg_A: read_a_m(data, 3),
            fg_B: read_a_m(data, 4),
            fg_C: read_a_m(data, 5),
            fg_D: read_a_m(data, 6),
            fg_E: read_a_m(data, 7),
            fg_F: read_a_m(data, 8),
            lng: read_u32(data, 9),
            fg_blk: read_u32(data, 10),
        }
    }
}

/// One player's kickoffs line.
#[derive(Debug, Clone, Copy, PartialEq, Eq, Structural)]
pub struct Kickoffs {
    pub ko: u32,
    pub yds: u32,
    pub ret_yds: u32,
    pub tb: u32,
    pub tb_pct: Decimal,
    pub ret: u32,
    pub ret_avg: Decimal,
    pub osk: u32,
    pub osk_rec: u32,
    pub oob: u32,
    pub td: u32,
}

impl RowDecode for Kickoffs {
    open spec fn spec_zero() -> Kickoffs {
        Kickoffs {
            ko: 0,
            yds: 0,
            ret_yds: 0,
            tb: 0,
            tb_pct: Decimal::spec_zero(),
            ret: 0,
            ret_avg: Decimal::spec_zero(),
            osk: 0,
            osk_rec: 0,
            oob: 0,
            td: 0,
        }
    }

    open spec fn spec_from(cells: Seq<Seq<char>>) -> Kickoffs {
        Kickoffs {
            ko: cell_u32(cells, 0),
            yds: cell_u32(cells, 1),
            ret_yds: cell_u32(cells, 2),
            tb: cell_u32(cells, 3),
            tb_pct: cell_dec(cells, 4),
            ret: cell_u32(cells, 5),
            ret_avg: cell_dec(cells, 6),
            osk: cell_u32(cells, 7),
            osk_rec: cell_u32(cells, 8),
            oob: cell_u32(cells, 9),
            td: cell_u32(cells, 10),
        }
    }

    fn zero() -> (r: Kickoffs) {
        Kickoffs {
            ko: 0,
            yds: 0,
            ret_yds: 0,
            tb: 0,
            tb_pct: Decimal::zero(),
            ret: 0,
            ret_avg: Decimal::zero(),
            osk: 0,
            osk_rec: 0,
            oob: 0,
            td: 0,
        }
    }

    fn from(data: &Vec<String>) -> (r: Kickoffs) {
        Kickoffs {
            ko: read_u32(data, 0),
            yds: read_u32(data, 1),
            ret_yds: read_u32(data, 2),
            tb: read_u32(data, 3),
            tb_pct: read_dec(data, 4),
            ret: read_u32(data, 5),
            ret_avg: read_dec(data, 6),
            osk: read_u32(data, 7),
            osk_rec: read_u32(data, 8),
            oob: read_u32(data, 9),
            td: read_u32(data, 10),
        }
    }
}

/// One player's kickoff-returns line.
#[derive(Debug, Clone, Copy, PartialEq, Eq, Structural)]
pub struct KickoffReturns {
    pub avg: Decimal,
    pub ret: u32,
    pub yds: u32,
    pub kret_td: u32,
    pub twenty_plus: u32,
    pub forty_plus: u32,
    pub lng: u32,
    pub fc: u32,
    pub fum: u32,
}

impl RowDecode for KickoffReturns {
    open spec fn spec_zero() -> KickoffReturns {
        KickoffReturns {
            avg: Decimal::spec_zero(),
            ret: 0,
            yds: 0,
            kret_td: 0,
            twenty_plus: 0,
            forty_plus: 0,
            lng: 0,
            fc: 0,
            fum: 0,
        }
    }

    open spec fn spec_from(cells: Seq<Seq<char>>) -> KickoffReturns {
        KickoffReturns {
            avg: cell_dec(cells, 0),
            ret: cell_u32(cells, 1),
            yds: cell_u32(cells, 2),
            kret_td: cell_u32(cells, 3),
            twenty_plus: cell_u32(cells, 4),
            forty_plus: cell_u32(cells, 5),
            lng: cell_u32(cells, 6),
            fc: cell_u32(cells, 7),
            fum: cell_u32(cells, 8),
        }
    }

    fn zero() -> (r: KickoffReturns) {
        KickoffReturns {
            avg: Decimal::zero(),
            ret: 0,
            yds: 0,
            kret_td: 0,
            twenty_plus: 0,
            forty_plus: 0,
            lng: 0,
            fc: 0,
            fum: 0,
        }
    }

    fn from(data: &Vec<String>) -> (r: KickoffReturns) {
        KickoffReturns {
            avg: read_dec(data, 0),
            ret: read_u32(data, 1),
            yds: read_u32(data, 2),
            kret_td: read_u32(data, 3),
            twenty_plus: read_u32(data, 4),
            forty_plus: read_u32(data, 5),
            lng: read_u32(data, 6),
            fc: read_u32(data, 7),
            fum: read_u32(data, 8),
        }
    }
}

/// One player's punting line.
#[derive(Debug, Clone, Copy, PartialEq, Eq, Structural)]
pub struct Punting {
    pub avg: Decimal,
    pub net_avg: Decimal,
    pub net_yds: u32,
    pub punts: u32,
    pub lng: u32,
    pub yds: u32,
    pub in_20: u32,
    pub oob: u32,
    pub dn: u32,
    pub tb: u32,
    pub fc: u32,
    pub ret: u32,
    pub ret_yds: u32,
    pub td: u32,
    pub p_blk: u32,
}

impl RowDecode for Punting {
    open spec fn spec_zero() -> Punting {
        Punting {
            avg: Decimal::spec_zero(),
            net_avg: Decimal::spec_zero(),
            net_yds: 0,
            punts: 0,
            lng: 0,
            yds: 0,
            in_20: 0,
            oob: 0,
            dn: 0,
            tb: 0,
            fc: 0,
            ret: 0,
            ret_yds: 0,
            td: 0,
            p_blk: 0,
        }
    }

    open spec fn spec_from(cells: Seq<Seq<char>>) -> Punting {
        Punting {
            avg: cell_dec(cells, 0),
            net_avg: cell_dec(cells, 1),
            net_yds: cell_u32(cells, 2),
            punts: cell_u32(cells, 3),
            lng: cell_u32(cells, 4),
            yds: cell_u32(cells, 5),
            in_20: cell_u32(cells, 6),
            oob: cell_u32(cells, 7),
            dn: cell_u32(cells, 8),
            tb: cell_u32(cells, 9),
            fc: cell_u32(cells, 10),
            ret: cell_u32(cells, 11),
            ret_yds: cell_u32(cells, 12),
            td: cell_u32(cells, 13),
            p_blk: cell_u32(cells, 14),
        }
    }

    fn zero() -> (r: Punting) {
        Punting {
            avg: Decimal::zero(),
            net_avg: Decimal::zero(),
            net_yds: 0,
            punts: 0,
            lng: 0,
            yds: 0,
            in_20: 0,
            oob: 0,
            dn: 0,
            tb: 0,
            fc: 0,
            ret: 0,
            ret_yds: 0,
            td: 0,
            p_blk: 0,
        }
    }

    fn from(data: &Vec<String>) -> (r: Punting) {
        Punting {
            avg: read_dec(data, 0),
            net_avg: read_dec(data, 1),
            net_yds: read_u32(data, 2),
            punts: read_u32(data, 3),
            lng: read_u32(data, 4),
            yds: read_u32(data, 5),
            in_20: read_u32(data, 6),
            oob: read_u32(data, 7),
            dn: read_u32(data, 8),
            tb: read_u32(data, 9),
            fc: read_u32(data, 10),
            ret: read_u32(data, 11),
            ret_yds: read_u32(data, 12),
            td: read_u32(data, 13),
            p_blk: read_u32(data, 14),
        }
    }
}

/// One player's punt-returns line.
#[derive(Debug, Clone, Copy, PartialEq, Eq, Structural)]
pub struct PuntReturns {
    pub avg: Decimal,
    pub ret: u32,
    pub yds: u32,
    pub pret_td: u32,
    pub twenty_plus: u32,
    pub forty_plus: u32,
    pub lng: u32,
    pub fc: u32,
    pub fum: u32,
}

impl RowDecode for PuntReturns {
    open spec fn spec_zero() -> PuntReturns {
        PuntReturns {
            avg: Decimal::spec_zero(),
            ret: 0,
            yds: 0,
            pret_td: 0,
            twenty_plus: 0,
            forty_plus: 0,
            lng: 0,
            fc: 0,
            fum: 0,
        }
    }

    open spec fn spec_from(cells: Seq<Seq<char>>) -> PuntReturns {
        PuntReturns {
            avg: cell_dec(cells, 0),
            ret: cell_u32(cells, 1),
            yds: cell_u32(cells, 2),
            pret_td: cell_u32(cells, 3),
            twenty_plus: cell_u32(cells, 4),
            forty_plus: cell_u32(cells, 5),
            lng: cell_u32(cells, 6),
            fc: cell_u32(cells, 7),
            fum: cell_u32(cells, 8),
        }
    }

    fn zero() -> (r: PuntReturns) {
        PuntReturns {
            avg: Decimal::zero(),
            ret: 0,
            yds: 0,
            pret_td: 0,
            twenty_plus: 0,
            forty_plus: 0,
            lng: 0,
            fc: 0,
            fum: 0,
        }
    }

    fn from(data: &Vec<String>) -> (r: PuntReturns) {
        PuntReturns {
            avg: read_dec(data, 0),
            ret: read_u32(data, 1),
            yds: read_u32(data, 2),
            pret_td: read_u32(data, 3),
            twenty_plus: read_u32(data, 4),
            forty_plus: read_u32(data, 5),
            lng: read_u32(data, 6),
            fc: read_u32(data, 7),
            fum: read_u32(data, 8),
        }
    }
}

/// A player's position, as the roster abbreviates it. Several source
/// abbreviations fold into one variant (halfbacks and fullbacks are running
/// backs; outside, middle and inside linebackers are linebackers; free
/// safeties and strong safeties are safeties).
#[derive(Debug, Clone, Copy, PartialEq, Eq, Structural)]
pub enum Position {
    QB,
    WR,
    RB,
    TE,
    DB,
    LB,
    LS,
    P,
    H,
    CB,
    DE,
    NT,
    DT,
    K,
    S,
}

/// The variant a position abbreviation names, or `None` for an abbreviation
/// the roster does not use.
pub open spec fn spec_position(s: Seq<char>) -> Option<Position> {
    if s == "QB"@ {
        Some(Position::QB)
    } else if s == "WR"@ {
        Some(Position::WR)
    } else if s == "HB"@ || s == "FB"@ || s == "RB"@ {
        Some(Position::RB)
    } else if s == "DB"@ {
        Some(Position::DB)
    } else if s == "NT"@ {
        Some(Position::NT)
    } else if s == "TE"@ {
        Some(Position::TE)
    } else if s == "DE"@ {
        Some(Position::DE)
    } else if s == "DT"@ {
        Some(Position::DT)
    } else if s == "CB"@ {
        Some(Position::CB)
    } else if s == "K"@ {
        Some(Position::K)
    } else if s == "LS"@ {
        Some(Position::LS)
    } else if s == "H"@ {
        Some(Position::H)
    } else if s == "P"@ {
        Some(Position::P)
    } else if s == "LB"@ || s == "OLB"@ || s == "MLB"@ || s == "ILB"@ {
        Some(Position::LB)
    } else if s == "FS"@ || s == "SAF"@ || s == "S"@ {
        Some(Position::S)
    } else {
        None
    }
}

impl Position {
    /// Reads a position abbreviation; an abbreviation the roster does not
    /// use is malformed.
    pub fn from(pos: &str) -> (r: Result<Position, HarvestError>)
        ensures
            match spec_position(pos@) {
                Some(p) => r == Ok::<Position, HarvestError>(p),
                None => r == Err::<Position, HarvestError>(HarvestError::Malformed),
            },
    {
        if str_eq(pos, "QB") {
            Ok(Position::QB)
        } else if str_eq(pos, "WR") {
            Ok(Position::WR)
        } else if str_eq(pos, "HB") || str_eq(pos, "FB") || str_eq(pos, "RB") {
            Ok(Position::RB)
        } else if str_eq(pos, "DB") {
            Ok(Position::DB)
        } else if str_eq(pos, "NT") {
            Ok(Position::NT)
        } else if str_eq(pos, "TE") {
            Ok(Position::TE)
        } else if str_eq(pos, "DE") {
            Ok(Position::DE)
        } else if str_eq(pos, "DT") {
            Ok(Position::DT)
        } else if str_eq(pos, "CB") {
            Ok(Position::CB)
        } else if str_eq(pos, "K") {
            Ok(Position::K)
        } else if str_eq(pos, "LS") {
            Ok(Position::LS)
        } else if str_eq(pos, "H") {
            Ok(Position::H)
        } else if str_eq(pos, "P") {
            Ok(Position::P)
        } else if str_eq(pos, "LB") || str_eq(pos, "OLB") || str_eq(pos, "MLB") || str_eq(
            pos,
            "ILB",
        ) {
            Ok(Position::LB)
        } else if str_eq(pos, "FS") || str_eq(pos, "SAF") || str_eq(pos, "S") {
            Ok(Position::S)
        } else {
            Err(HarvestError::Malformed)
        }
    }
}

/// One player's roster entry joined with their whole stat line.
#[derive(Debug)]
pub struct Player {
    pub name: String,
    pub jersey_num: u8,
    pub team: String,
    pub status: String,
    pub position: Position,
    pub stats: Summary,
}

impl Clone for Player {
    fn clone(&self) -> (r: Self)
        ensures
            r == *self,
    {
        Player {
            name: self.name.clone(),
            jersey_num: self.jersey_num,
            team: self.team.clone(),
            status: self.status.clone(),
            position: self.position,
            stats: self.stats,
        }
    }
}

} // verus!
