//! Text form of a completed row.

use vstd::prelude::*;

use crate::line::LineBuffer;
use crate::timing::VIS_WIDTH;

verus! {

/// Symbol of a lit column.
pub const LIT: u8 = 0x23;

/// Symbol of an unlit column.
pub const UNLIT: u8 = 0x20;

/// End of a line of text.
pub const NEWLINE: u8 = 0x0a;

/// Symbol of one column.
pub open spec fn glyph(lit: bool) -> u8 {
    if lit {
        LIT
    } else {
        UNLIT
    }
}

/// Text of row `row`: a blank line first when the row opens a frame, then
/// one symbol per column, then the end of the line.
pub open spec fn row_text(row: u32, line: Seq<bool>) -> Seq<u8> {
    let separator = if row == 0 {
        seq![NEWLINE]
    } else {
        Seq::empty()
    };
    separator + line.map_values(|b: bool| glyph(b)) + seq![NEWLINE]
}

/// Renders row `row` as ASCII text.
pub fn render_row(row: u32, line: &LineBuffer) -> (r: Vec<u8>)
    ensures
        r@ == row_text(row, line@),
{
    let mut out: Vec<u8> = Vec::new();
    if row == 0 {
        out.push(NEWLINE);
    }
    let ghost separator = out@;
    let mut i: usize = 0;
    while i < VIS_WIDTH
        invariant
            i <= VIS_WIDTH,
            line@.len() == VIS_WIDTH,
            separator == (if row == 0 {
                seq![NEWLINE]
            } else {
                Seq::<u8>::empty()
            }),
            out@ == separator + line@.take(i as int).map_values(|b: bool| glyph(b)),
        decreases VIS_WIDTH - i,
    {
        let g: u8 = if line[i] {
            LIT
        } else {
            UNLIT
        };
        out.push(g);
        i = i + 1;
        assert(line@.take(i as int) =~= line@.take(i - 1).push(line@[i - 1]));
        assert(out@ =~= separator + line@.take(i as int).map_values(|b: bool| glyph(b)));
    }
    out.push(NEWLINE);
    assert(line@.take(VIS_WIDTH as int) =~= line@);
    assert(out@ =~= row_text(row, line@));
    out
}

} // verus!
