//! The Row Decoder: positional decoding of a row's normalized data cells into
//! one typed record, substituting each field's zero default when a cell is
//! missing or fails its parse.

use vstd::prelude::*;

use crate::text::{
    parse_dec_spec, parse_decimal, parse_u32, parse_u32_spec, split_pair, split_pair_spec, Decimal,
};

verus! {

/// The cell at position `i`, or empty text when the row is too short. A
/// missing cell therefore decodes like an unparsable one: to the field's
/// zero default.
pub open spec fn cell_at(cells: Seq<Seq<char>>, i: int) -> Seq<char> {
    if 0 <= i < cells.len() {
        cells[i]
    } else {
        Seq::empty()
    }
}

/// The integer field read from cell `i`.
pub open spec fn cell_u32(cells: Seq<Seq<char>>, i: int) -> u32 {
    parse_u32_spec(cell_at(cells, i))
}

/// The fractional field read from cell `i`.
pub open spec fn cell_dec(cells: Seq<Seq<char>>, i: int) -> Decimal {
    parse_dec_spec(cell_at(cells, i))
}

/// The composite (made, attempted) field read from cell `i`.
pub open spec fn cell_pair(cells: Seq<Seq<char>>, i: int, delim: char) -> (u32, u32) {
    split_pair_spec(cell_at(cells, i), delim)
}

/// How one stat category decodes a row: its zero-valued default record, and
/// the record a sequence of normalized data cells maps to. Positions are
/// category-specific and must match the live source's column order exactly;
/// a source column reorder silently misassigns fields, which the decoder
/// cannot detect.
pub trait RowDecode: Sized {
    /// The category's zero-valued default record.
    spec fn spec_zero() -> Self;

    /// The record an ordered sequence of normalized data cells decodes to.
    spec fn spec_from(cells: Seq<Seq<char>>) -> Self;

    /// The zero-valued default record.
    fn zero() -> (r: Self)
        ensures
            r == Self::spec_zero(),
    ;

    /// Decodes one row's data cells (the cells after the key cell).
    fn from(data: &Vec<String>) -> (r: Self)
        ensures
            r == Self::spec_from(data.deep_view()),
    ;
}

/// Reads the integer field at cell `i`.
pub fn read_u32(data: &Vec<String>, i: usize) -> (r: u32)
    ensures
        r == cell_u32(data.deep_view(), i as int),
{
    if i < data.len() {
        proof {
            assert(data.deep_view()[i as int] == data@[i as int]@);
        }
        parse_u32(data[i].as_str())
    } else {
        proof {
            assert(cell_at(data.deep_view(), i as int) =~= Seq::<char>::empty());
        }
        0
    }
}

/// Reads the fractional field at cell `i`.
pub fn read_dec(data: &Vec<String>, i: usize) -> (r: Decimal)
    ensures
        r == cell_dec(data.deep_view(), i as int),
{
    if i < data.len() {
        proof {
            assert(data.deep_view()[i as int] == data@[i as int]@);
        }
        parse_decimal(data[i].as_str())
    } else {
        proof {
            assert(cell_at(data.deep_view(), i as int) =~= Seq::<char>::empty());
        }
        Decimal::zero()
    }
}

/// Reads the composite (made, attempted) field at cell `i`.
pub fn read_pair(data: &Vec<String>, i: usize, delim: char) -> (r: (u32, u32))
    ensures
        r == cell_pair(data.deep_view(), i as int, delim),
{
    if i < data.len() {
        proof {
            assert(data.deep_view()[i as int] == data@[i as int]@);
        }
        split_pair(data[i].as_str(), delim)
    } else {
        proof {
            assert(cell_at(data.deep_view(), i as int) =~= Seq::<char>::empty());
        }
        (0, 0)
    }
}

} // verus!
