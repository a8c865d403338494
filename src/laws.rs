//! Properties of the decoder that relate several of its functions.

use vstd::prelude::*;

use crate::line::{in_span, span_is_empty, with_span};
use crate::shared::{counter_after, row_of};
use crate::timing::{
    boundary_of, elapsed, index_of, lemma_index_monotonic, threshold_of, Boundary, NO_PENDING,
    VIS_WIDTH,
};

verus! {

/// `line` after lighting each span of `spans` in turn, a span being a pair
/// of a rising and a falling column.
pub open spec fn with_spans(line: Seq<bool>, spans: Seq<(u32, u32)>) -> Seq<bool>
    decreases spans.len(),
{
    if spans.len() == 0 {
        line
    } else {
        let last = spans.last();
        with_span(with_spans(line, spans.drop_last()), last.0 as int, last.1 as int)
    }
}

/// Whether column `i` lies in some span of `spans`.
pub open spec fn covered(i: int, spans: Seq<(u32, u32)>) -> bool {
    exists|k: int| 0 <= k < spans.len() && #[trigger] in_span(i, spans[k].0 as int, spans[k].1 as int)
}

/// For a rising edge at `t_r` and a falling edge at `t_f` no earlier, both
/// in the line that started at `reference`, the rising column is no later
/// than the falling one, and painting the pair lights exactly the columns from
/// the rising column up to the falling one, clamped to the line, leaving every
/// other column as it was.
pub proof fn lemma_edge_pair_lights_its_span(
    line: Seq<bool>,
    reference: u64,
    t_r: u64,
    t_f: u64,
    freq: u64,
)
    requires
        reference <= t_r <= t_f,
    ensures
        ({
            let rising = index_of(elapsed(t_r, reference), freq as int);
            let falling = index_of(elapsed(t_f, reference), freq as int);
            &&& rising <= falling
            &&& with_span(line, rising, falling).len() == line.len()
            &&& forall|i: int|
                0 <= i < line.len() ==> #[trigger] with_span(line, rising, falling)[i] == (line[i]
                    || (rising <= i && i < falling && i < VIS_WIDTH))
        }),
{
    lemma_index_monotonic(elapsed(t_r, reference), elapsed(t_f, reference), freq as int);
}

/// A falling edge that finds no pending rising edge lights no column.
pub proof fn lemma_no_pending_paints_nothing(line: Seq<bool>, falling: int)
    ensures
        span_is_empty(NO_PENDING as int, falling),
        with_span(line, NO_PENDING as int, falling) == line,
{
    assert(with_span(line, NO_PENDING as int, falling) =~= line);
}

/// For a fixed line start and frequency, a later edge never lands on an
/// earlier column.
pub proof fn lemma_index_monotonic_in_time(reference: u64, t1: u64, t2: u64, freq: u64)
    requires
        reference <= t1 <= t2,
    ensures
        index_of(elapsed(t1, reference), freq as int) <= index_of(
            elapsed(t2, reference),
            freq as int,
        ),
{
    lemma_index_monotonic(elapsed(t1, reference), elapsed(t2, reference), freq as int);
}

/// Lighting a sequence of spans lights exactly the columns that some span
/// covers, besides those already lit.
pub proof fn lemma_spans_light_covered(line: Seq<bool>, spans: Seq<(u32, u32)>)
    ensures
        with_spans(line, spans).len() == line.len(),
        forall|i: int|
            0 <= i < line.len() ==> #[trigger] with_spans(line, spans)[i] == (line[i] || covered(
                i,
                spans,
            )),
    decreases spans.len(),
{
    if spans.len() > 0 {
        let init = spans.drop_last();
        let last = spans.last();
        lemma_spans_light_covered(line, init);
        assert forall|i: int| 0 <= i < line.len() implies #[trigger] with_spans(line, spans)[i] == (
        line[i] || covered(i, spans)) by {
            if covered(i, spans) {
                let k = choose|k: int|
                    0 <= k < spans.len() && #[trigger] in_span(
                        i,
                        spans[k].0 as int,
                        spans[k].1 as int,
                    );
                if k < init.len() {
                    assert(init[k] == spans[k]);
                    assert(covered(i, init));
                }
            } else {
                assert(!in_span(i, last.0 as int, last.1 as int)) by {
                    assert(spans[spans.len() - 1] == last);
                }
                assert(!covered(i, init)) by {
                    if covered(i, init) {
                        let k = choose|k: int|
                            0 <= k < init.len() && #[trigger] in_span(
                                i,
                                init[k].0 as int,
                                init[k].1 as int,
                            );
                        assert(init[k] == spans[k]);
                    }
                }
            }
        }
    }
}

/// Edges whose spans together cover every column of the line produce a line
/// with every column lit.
pub proof fn lemma_full_cover_lights_all(line: Seq<bool>, spans: Seq<(u32, u32)>)
    requires
        line.len() == VIS_WIDTH,
        forall|i: int| 0 <= i < VIS_WIDTH ==> covered(i, spans),
    ensures
        forall|i: int| 0 <= i < VIS_WIDTH ==> #[trigger] with_spans(line, spans)[i],
{
    lemma_spans_light_covered(line, spans);
}

/// A sync pulse shorter than the threshold is a line boundary: the counter
/// moves on by one and that new count is the row dispatched. One longer than
/// the threshold is a frame boundary: the counter is reset and the count it
/// held is the row dispatched.
pub proof fn lemma_pulse_classification(last_low: u64, duration: int, freq: u64, counter: u32)
    requires
        duration >= 0,
        duration != threshold_of(freq as int),
    ensures
        duration < threshold_of(freq as int) ==> ({
            let b = boundary_of(last_low as int, last_low + duration, freq as int);
            &&& b == Boundary::Line
            &&& counter < u32::MAX ==> counter_after(b, counter) == counter + 1
            &&& row_of(b, counter) == counter_after(b, counter)
        }),
        duration > threshold_of(freq as int) ==> ({
            let b = boundary_of(last_low as int, last_low + duration, freq as int);
            &&& b == Boundary::Frame
            &&& counter_after(b, counter) == 0
            &&& row_of(b, counter) == counter
        }),
{
}

} // verus!
