//! Team defense records: one row of each defense stat table, decoded
//! positionally from its normalized cells.

use vstd::prelude::*;

use crate::decode::{cell_dec, cell_u32, read_dec, read_u32, RowDecode};
use crate::text::Decimal;

verus! {

/// One team's whole defensive line: one record per defense category.
#[derive(Debug, Clone, Copy, PartialEq, Eq, Structural)]
pub struct Summary {
    pub passing: Passing,
    pub receiving: Receiving,
    pub rushing: Rushing,
    pub scoring: Scoring,
    pub tackles: Tackles,
    pub downs: Downs,
    pub fumbles: Fumbles,
    pub interceptions: Interceptions,
}

/// One team's defensive passing line.
#[derive(Debug, Clone, Copy, PartialEq, Eq, Structural)]
pub struct Passing {
    pub att: u32,
    pub cmp: u32,
    pub cmp_pct: Decimal,
    pub yds_per_att: Decimal,
    pub yds: u32,
    pub td: u32,
    pub ints: u32,
    pub rate: Decimal,
    pub first: u32,
    pub first_pct: Decimal,
    pub twenty_plus: u32,
    pub fourty_plus: u32,
    pub lng: u32,
    pub sck: u32,
}

impl RowDecode for Passing {
    open spec fn spec_zero() -> Passing {
        Passing {
            att: 0,
            cmp: 0,
            cmp_pct: Decimal::spec_zero(),
            yds_per_att: Decimal::spec_zero(),
            yds: 0,
            td: 0,
            ints: 0,
            rate: Decimal::spec_zero(),
            first: 0,
            first_pct: Decimal::spec_zero(),
            twenty_plus: 0,
            fourty_plus: 0,
            lng: 0,
            sck: 0,
        }
    }

    open spec fn spec_from(cells: Seq<Seq<char>>) -> Passing {
        Passing {
            att: cell_u32(cells, 0),
            cmp: cell_u32(cells, 1),
            cmp_pct: cell_dec(cells, 2),
            yds_per_att: cell_dec(cells, 3),
            yds: cell_u32(cells, 4),
            td: cell_u32(cells, 5),
            ints: cell_u32(cells, 6),
            rate: cell_dec(cells, 7),
            first: cell_u32(cells, 8),
            first_pct: cell_dec(cells, 9),
            twenty_plus: cell_u32(cells, 10),
            fourty_plus: cell_u32(cells, 11),
            lng: cell_u32(cells, 12),
            sck: cell_u32(cells, 13),
        }
    }

    fn zero() -> (r: Passing) {
        Passing {
            att: 0,
            cmp: 0,
            cmp_pct: Decimal::zero(),
            yds_per_att: Decimal::zero(),
            yds: 0,
            td: 0,
            ints: 0,
            rate: Decimal::zero(),
            first: 0,
            first_pct: Decimal::zero(),
            twenty_plus: 0,
            fourty_plus: 0,
            lng: 0,
            sck: 0,
        }
    }

    fn from(data: &Vec<String>) -> (r: Passing) {
        Passing {
            att: read_u32(data, 0),
            cmp: read_u32(data, 1),
            cmp_pct: read_dec(data, 2),
            yds_per_att: read_dec(data, 3),
            yds: read_u32(data, 4),
            td: read_u32(data, 5),
            ints: read_u32(data, 6),
            rate: read_dec(data, 7),
            first: read_u32(data, 8),
            first_pct: read_dec(data, 9),
            twenty_plus: read_u32(data, 10),
            fourty_plus: read_u32(data, 11),
            lng: read_u32(data, 12),
            sck: read_u32(data, 13),
        }
    }
}

/// One team's defensive rushing line.
#[derive(Debug, Clone, Copy, PartialEq, Eq, Structural)]
pub struct Rushing {
    pub att: u32,
    pub yds: u32,
    pub yards_per_carry: Decimal,
    pub td: u32,
    pub twenty_plus: u32,
    pub fourty_plus: u32,
    pub lng: u32,
    pub rush_first: u32,
    pub rush_first_pct: Decimal,
    pub fum: u32,
}

impl RowDecode for Rushing {
    open spec fn spec_zero() -> Rushing {
        Rushing {
            att: 0,
            yds: 0,
            yards_per_carry: Decimal::spec_zero(),
            td: 0,
            twenty_plus: 0,
            fourty_plus: 0,
            lng: 0,
            rush_first: 0,
            rush_first_pct: Decimal::spec_zero(),
            fum: 0,
        }
    }

    open spec fn spec_from(cells: Seq<Seq<char>>) -> Rushing {
        Rushing {
            att: cell_u32(cells, 0),
            yds: cell_u32(cells, 1),
            yards_per_carry: cell_dec(cells, 2),
            td: cell_u32(cells, 3),
            twenty_plus: cell_u32(cells, 4),
            fourty_plus: cell_u32(cells, 5),
            lng: cell_u32(cells, 6),
            rush_first: cell_u32(cells, 7),
            rush_first_pct: cell_dec(cells, 8),
            fum: cell_u32(cells, 9),
        }
    }

    fn zero() -> (r: Rushing) {
        Rushing {
            att: 0,
            yds: 0,
            yards_per_carry: Decimal::zero(),
            td: 0,
            twenty_plus: 0,
            fourty_plus: 0,
            lng: 0,
            rush_first: 0,
            rush_first_pct: Decimal::zero(),
            fum: 0,
        }
    }

    fn from(data: &Vec<String>) -> (r: Rushing) {
        Rushing {
            att: read_u32(data, 0),
            yds: read_u32(data, 1),
            yards_per_carry: read_dec(data, 2),
            td: read_u32(data, 3),
            twenty_plus: read_u32(data, 4),
            fourty_plus: read_u32(data, 5),
            lng: read_u32(data, 6),
            rush_first: read_u32(data, 7),
            rush_first_pct: read_dec(data, 8),
            fum: read_u32(data, 9),
        }
    }
}

/// One team's defensive receiving line.
#[derive(Debug, Clone, Copy, PartialEq, Eq, Structural)]
pub struct Receiving {
    pub rec: u32,
    pub yds: u32,
    pub yds_per_rec: Decimal,
    pub td: u32,
    pub twenty_plus: u32,
    pub fourty_plus: u32,
    pub lng: u32,
    pub rec_first: u32,
    pub rec_first_pct: Decimal,
    pub fum: u32,
    pub pdef: u32,
}

impl RowDecode for Receiving {
    open spec fn spec_zero() -> Receiving {
        Receiving {
            rec: 0,
            yds: 0,
            yds_per_rec: Decimal::spec_zero(),
            td: 0,
            twenty_plus: 0,
            fourty_plus: 0,
            lng: 0,
            rec_first: 0,
            rec_first_pct: Decimal::spec_zero(),
            fum: 0,
            pdef: 0,
        }
    }

    open spec fn spec_from(cells: Seq<Seq<char>>) -> Receiving {
        Receiving {
            rec: cell_u32(cells, 0),
            yds: cell_u32(cells, 1),
            yds_per_rec: cell_dec(cells, 2),
            td: cell_u32(cells, 3),
            twenty_plus: cell_u32(cells, 4),
            fourty_plus: cell_u32(cells, 5),
            lng: cell_u32(cells, 6),
            rec_first: cell_u32(cells, 7),
            rec_first_pct: cell_dec(cells, 8),
            fum: cell_u32(cells, 9),
            pdef: cell_u32(cells, 10),
        }
    }

    fn zero() -> (r: Receiving) {
        Receiving {
            rec: 0,
            yds: 0,
            yds_per_rec: Decimal::zero(),
            td: 0,
            twenty_plus: 0,
            fourty_plus: 0,
            lng: 0,
            rec_first: 0,
            rec_first_pct: Decimal::zero(),
            fum: 0,
            pdef: 0,
        }
    }

    fn from(data: &Vec<String>) -> (r: Receiving) {
        Receiving {
            rec: read_u32(data, 0),
            yds: read_u32(data, 1),
            yds_per_rec: read_dec(data, 2),
            td: read_u32(data, 3),
            twenty_plus: read_u32(data, 4),
            fourty_plus: read_u32(data, 5),
            lng: read_u32(data, 6),
            rec_first: read_u32(data, 7),
            rec_first_pct: read_dec(data, 8),
            fum: read_u32(data, 9),
            pdef: read_u32(data, 10),
        }
    }
}

/// One team's defensive scoring line.
#[derive(Debug, Clone, Copy, PartialEq, Eq, Structural)]
pub struct Scoring {
    pub fr_td: u32,
    pub safety: u32,
    pub int_td: u32,
}

impl RowDecode for Scoring {
    open spec fn spec_zero() -> Scoring {
        Scoring {
            fr_td: 0,
            safety: 0,
            int_td: 0,
        }
    }

    open spec fn spec_from(cells: Seq<Seq<char>>) -> Scoring {
        Scoring {
            fr_td: cell_u32(cells, 0),
            safety: cell_u32(cells, 1),
            int_td: cell_u32(cells, 2),
        }
    }

    fn zero() -> (r: Scoring) {
        Scoring {
            fr_td: 0,
            safety: 0,
            int_td: 0,
        }
    }

    fn from(data: &Vec<String>) -> (r: Scoring) {
        Scoring {
            fr_td: read_u32(data, 0),
            safety: read_u32(data, 1),
            int_td: read_u32(data, 2),
        }
    }
}

/// One team's defensive tackles line.
#[derive(Debug, Clone, Copy, PartialEq, Eq, Structural)]
pub struct Tackles {
    pub sck: u32,
    pub comb: u32,
    pub asst: u32,
    pub solo: u32,
}

impl RowDecode for Tackles {
    open spec fn spec_zero() -> Tackles {
        Tackles {
            sck: 0,
            comb: 0,
            asst: 0,
            solo: 0,
        }
    }

    open spec fn spec_from(cells: Seq<Seq<char>>) -> Tackles {
        Tackles {
            sck: cell_u32(cells, 0),
            comb: cell_u32(cells, 1),
            asst: cell_u32(cells, 2),
            solo: cell_u32(cells, 3),
        }
    }

    fn zero() -> (r: Tackles) {
        Tackles {
            sck: 0,
            comb: 0,
            asst: 0,
            solo: 0,
        }
    }

    fn from(data: &Vec<String>) -> (r: Tackles) {
        Tackles {
            sck: read_u32(data, 0),
            comb: read_u32(data, 1),
            asst: read_u32(data, 2),
            solo: read_u32(data, 3),
        }
    }
}

/// One team's defensive downs line.
#[derive(Debug, Clone, Copy, PartialEq, Eq, Structural)]
pub struct Downs {
    pub third_att: u32,
    pub third_md: u32,
    pub fourth_att: u32,
    pub fourth_md: u32,
    pub rec_first: u32,
    pub rec_first_pct: Decimal,
    pub rush_first: u32,
    pub rush_first_pct: Decimal,
    pub scrm_plays: u32,
}

impl RowDecode for Downs {
    open spec fn spec_zero() -> Downs {
        Downs {
            third_att: 0,
            third_md: 0,
            fourth_att: 0,
            fourth_md: 0,
            rec_first: 0,
            rec_first_pct: Decimal::spec_zero(),
            rush_first: 0,
            rush_first_pct: Decimal::spec_zero(),
            scrm_plays: 0,
        }
    }

    open spec fn spec_from(cells: Seq<Seq<char>>) -> Downs {
        Downs {
            third_att: cell_u32(cells, 0),
            third_md: cell_u32(cells, 1),
            fourth_att: cell_u32(cells, 2),
            fourth_md: cell_u32(cells, 3),
            rec_first: cell_u32(cells, 4),
            rec_first_pct: cell_dec(cells, 5),
            rush_first: cell_u32(cells, 6),
            rush_first_pct: cell_dec(cells, 7),
            scrm_plays: cell_u32(cells, 8),
        }
    }

    fn zero() -> (r: Downs) {
        Downs {
            third_att: 0,
            third_md: 0,
            fourth_att: 0,
            fourth_md: 0,
            rec_first: 0,
            rec_first_pct: Decimal::zero(),
            rush_first: 0,
            rush_first_pct: Decimal::zero(),
            scrm_plays: 0,
        }
    }

    fn from(data: &Vec<String>) -> (r: Downs) {
        Downs {
            third_att: read_u32(data, 0),
            third_md: read_u32(data, 1),
            fourth_att: read_u32(data, 2),
            fourth_md: read_u32(data, 3),
            rec_first: read_u32(data, 4),
            rec_first_pct: read_dec(data, 5),
            rush_first: read_u32(data, 6),
            rush_first_pct: read_dec(data, 7),
            scrm_plays: read_u32(data, 8),
        }
    }
}

/// One team's defensive fumbles line.
#[derive(Debug, Clone, Copy, PartialEq, Eq, Structural)]
pub struct Fumbles {
    pub ff: u32,
    pub fr: u32,
    pub fr_td: u32,
    pub rec_fum: u32,
    pub rush_fum: u32,
}

impl RowDecode for Fumbles {
    open spec fn spec_zero() -> Fumbles {
        Fumbles {
            ff: 0,
            fr: 0,
            fr_td: 0,
            rec_fum: 0,
            rush_fum: 0,
        }
    }

    open spec fn spec_from(cells: Seq<Seq<char>>) -> Fumbles {
        Fumbles {
            ff: cell_u32(cells, 0),
            fr: cell_u32(cells, 1),
            fr_td: cell_u32(cells, 2),
            rec_fum: cell_u32(cells, 3),
            rush_fum: cell_u32(cells, 4),
        }
    }

    fn zero() -> (r: Fumbles) {
        Fumbles {
            ff: 0,
            fr: 0,
            fr_td: 0,
            rec_fum: 0,
            rush_fum: 0,
        }
    }

    fn from(data: &Vec<String>) -> (r: Fumbles) {
        Fumbles {
            ff: read_u32(data, 0),
            fr: read_u32(data, 1),
            fr_td: read_u32(data, 2),
            rec_fum: read_u32(data, 3),
            rush_fum: read_u32(data, 4),
        }
    }
}

/// One team's defensive interceptions line.
#[derive(Debug, Clone, Copy, PartialEq, Eq, Structural)]
pub struct Interceptions {
    pub ints: u32,
    pub int_td: u32,
    pub int_yds: u32,
    pub lng: u32,
}

impl RowDecode for Interceptions {
    open spec fn spec_zero() -> Interceptions {
        Interceptions {
            ints: 0,
            int_td: 0,
            int_yds: 0,
            lng: 0,
        }
    }

    open spec fn spec_from(cells: Seq<Seq<char>>) -> Interceptions {
        Interceptions {
            ints: cell_u32(cells, 0),
            int_td: cell_u32(cells, 1),
            int_yds: cell_u32(cells, 2),
            lng: cell_u32(cells, 3),
        }
    }

    fn zero() -> (r: Interceptions) {
        Interceptions {
            ints: 0,
            int_td: 0,
            int_yds: 0,
            lng: 0,
        }
    }

    fn from(data: &Vec<String>) -> (r: Interceptions) {
        Interceptions {
            ints: read_u32(data, 0),
            int_td: read_u32(data, 1),
            int_yds: read_u32(data, 2),
            lng: read_u32(data, 3),
        }
    }
}
} // verus!
