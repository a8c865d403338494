//! The line buffer and the painting of lit spans into it.

use vstd::prelude::*;

use crate::timing::VIS_WIDTH;

verus! {

/// One raster line: a column is `true` when lit.
pub type LineBuffer = [bool; VIS_WIDTH];

/// Exclusive end of the span that a falling edge at `falling` closes,
/// clamped to the width of the line.
pub open spec fn span_end(falling: int) -> int {
    if falling < VIS_WIDTH {
        falling
    } else {
        VIS_WIDTH as int
    }
}

/// Whether column `i` lies in the span from `rising` up to `falling`.
pub open spec fn in_span(i: int, rising: int, falling: int) -> bool {
    rising <= i < span_end(falling)
}

/// Whether the span from `rising` up to `falling` lights no column.
pub open spec fn span_is_empty(rising: int, falling: int) -> bool {
    rising >= span_end(falling)
}

/// `line` with the span from `rising` up to `falling` lit.
pub open spec fn with_span(line: Seq<bool>, rising: int, falling: int) -> Seq<bool> {
    Seq::new(line.len(), |i: int| line[i] || in_span(i, rising, falling))
}

/// A line with no column lit.
pub fn blank_line() -> (r: LineBuffer)
    ensures
        forall|i: int| 0 <= i < VIS_WIDTH ==> !#[trigger] r@[i],
{
    let r: LineBuffer = [false; VIS_WIDTH];
    proof {
        vstd::array::lemma_array_index(r, 0);
    }
    assert forall|i: int| 0 <= i < VIS_WIDTH implies !#[trigger] r@[i] by {
        vstd::array::lemma_array_index(r, i);
    }
    r
}

/// Lights the columns from `rising` up to `falling`, clamped to the line.
///
/// Returns `None`, and paints nothing, when that span is empty: when the
/// falling edge comes before the rising one, or when no rising edge is
/// pending (`rising == NO_PENDING`).
pub fn paint_span(line: LineBuffer, rising: u32, falling: u32) -> (r: Option<LineBuffer>)
    ensures
        r is None <==> span_is_empty(rising as int, falling as int),
        r matches Some(painted) ==> painted@ == with_span(line@, rising as int, falling as int),
{
    let end: usize = if (falling as usize) < VIS_WIDTH {
        falling as usize
    } else {
        VIS_WIDTH
    };
    if (rising as usize) >= end {
        return None;
    }
    let mut painted = line;
    let mut i: usize = rising as usize;
    while i < end
        invariant
            rising <= i <= end,
            end == span_end(falling as int),
            end <= VIS_WIDTH,
            painted@.len() == VIS_WIDTH,
            forall|j: int|
                0 <= j < VIS_WIDTH ==> #[trigger] painted@[j] == (line@[j] || (rising <= j < i)),
        decreases end - i,
    {
        painted[i] = true;
        i = i + 1;
    }
    assert(painted@ =~= with_span(line@, rising as int, falling as int));
    Some(painted)
}

} // verus!
