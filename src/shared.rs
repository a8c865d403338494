//! Lock-free state shared by the two edge handlers and the consumer.
//!
//! Every field is read and written through single atomic operations, so the
//! handlers never block. What a load or an exchange returns depends on the
//! other handler, so each handler reports the values it observed and states
//! its decisions as functions of them.

use std::sync::atomic::{AtomicU32, AtomicU64, Ordering};

use crossbeam::atomic::AtomicCell;
use crossbeam::channel::Sender;
use vstd::prelude::*;

use crate::line::{blank_line, paint_span, span_is_empty, LineBuffer};
use crate::timing::{
    boundary_of, classify_pulse, elapsed, index_of, pixel_index, Boundary, LINE_COUNT, NO_PENDING,
};

verus! {

#[verifier::external_type_specification]
#[verifier::external_body]
#[verifier::reject_recursive_types(T)]
pub struct ExAtomicCell<T>(AtomicCell<T>);

#[verifier::external_type_specification]
#[verifier::external_body]
#[verifier::reject_recursive_types(T)]
pub struct ExSender<T>(Sender<T>);

/// Relies on crossbeam's `AtomicCell::new`, which only stores its argument.
pub assume_specification<T>[ AtomicCell::<T>::new ](val: T) -> AtomicCell<T>;

/// Relies on crossbeam's `AtomicCell::swap`: one atomic exchange. The value
/// handed back is whatever the cell held, which other threads decide.
pub assume_specification<T>[ AtomicCell::<T>::swap ](cell: &AtomicCell<T>, val: T) -> T;

/// Relies on crossbeam's `AtomicCell::fetch_update`, which retries the update
/// until it is stored and gives up only once the closure returns `None`. The
/// closure here returns `None` exactly when the span is empty, whatever line it
/// is handed, so the update is stored if and only if the span lights a column.
#[verifier::external_body]
fn paint_shared(cell: &AtomicCell<LineBuffer>, rising: u32, falling: u32) -> (r: Result<
    LineBuffer,
    LineBuffer,
>)
    ensures
        r is Ok <==> !span_is_empty(rising as int, falling as int),
{
    cell.fetch_update(|line| paint_span(line, rising, falling))
}

/// Relies on crossbeam's `Sender::try_send`, which never blocks: a full or
/// disconnected channel refuses the message, and it is dropped here.
#[verifier::external_body]
fn offer_row(tx: &Sender<FrameMessage>, msg: FrameMessage) -> (sent: bool) {
    tx.try_send(msg).is_ok()
}

/// A completed row and its number within the frame.
pub type FrameMessage = (u32, LineBuffer);

/// Logic level of an input line after an edge.
#[derive(Clone, Copy, Debug, PartialEq, Eq, Structural)]
pub enum Level {
    Low,
    High,
}

/// Row number that a completed pulse dispatches, given the line counter as it
/// stood before the pulse: the incremented count after a line boundary, the
/// count itself after a frame boundary.
pub open spec fn row_of(boundary: Boundary, counter: u32) -> u32 {
    match boundary {
        Boundary::Line => if counter == u32::MAX {
            0
        } else {
            (counter + 1) as u32
        },
        Boundary::Frame => counter,
    }
}

/// Line counter after a completed pulse: incremented after a line boundary,
/// reset after a frame boundary.
pub open spec fn counter_after(boundary: Boundary, counter: u32) -> u32 {
    match boundary {
        Boundary::Line => row_of(boundary, counter),
        Boundary::Frame => 0,
    }
}

/// Row number that a pulse of kind `boundary` dispatches when the line
/// counter stood at `counter`.
pub fn dispatched_row(boundary: Boundary, counter: u32) -> (r: u32)
    ensures
        r == row_of(boundary, counter),
{
    match boundary {
        Boundary::Line => counter.wrapping_add(1),
        Boundary::Frame => counter,
    }
}

/// Whether row `row` lies inside the frame and is handed to the consumer.
pub open spec fn row_is_shown(row: u32) -> bool {
    row < LINE_COUNT
}

/// What the level handler observed and did on one edge.
#[derive(Clone, Copy, Debug, PartialEq, Eq, Structural)]
pub enum LevelEdge {
    /// A rising edge at column `index` of the line that started at `reference`
    /// is now pending.
    Rising { reference: u64, index: u32 },
    /// A falling edge at column `index` took the pending rising column
    /// `rising` (`NO_PENDING` when there was none); `painted` tells whether a
    /// column was lit.
    Falling { reference: u64, index: u32, rising: u32, painted: bool },
}

/// What the sync handler observed and did on one edge.
#[derive(Clone, Copy, Debug, PartialEq, Eq, Structural)]
pub enum SyncEdge {
    /// A sync pulse began.
    PulseStart,
    /// The pulse that began at `last_low` ended; the line counter stood at
    /// `counter`; row `row` was completed and `sent` tells whether the
    /// channel took it.
    PulseEnd { last_low: u64, boundary: Boundary, counter: u32, row: u32, sent: bool },
}

/// Shared timing state: start of the current line, the pending rising column,
/// the start of the current sync pulse, the line counter and the line being
/// painted.
pub struct SharedTiming {
    line_start: AtomicU64,
    pending_rise: AtomicU32,
    last_low: AtomicU64,
    line_number: AtomicU32,
    line: AtomicCell<LineBuffer>,
}

impl SharedTiming {
    /// State at start-up: timestamps and counter zero, no pending rising
    /// edge, a blank line.
    pub fn new() -> (r: SharedTiming) {
        SharedTiming {
            line_start: AtomicU64::new(0),
            pending_rise: AtomicU32::new(NO_PENDING),
            last_low: AtomicU64::new(0),
            line_number: AtomicU32::new(0),
            line: AtomicCell::new(blank_line()),
        }
    }

    /// Handles an edge of the `LEVEL` line at `tick`, with the counter running
    /// at `freq` ticks per second.
    ///
    /// A rising edge makes its column pending. A falling edge takes the
    /// pending column, leaving none behind, and lights the columns from it up
    /// to its own column, clamped to the line.
    pub fn on_level(&self, level: Level, tick: u64, freq: u64) -> (r: LevelEdge)
        ensures
            level == Level::High ==> (r matches LevelEdge::Rising { reference, index } && index
                == index_of(elapsed(tick, reference), freq as int)),
            level == Level::Low ==> (r matches LevelEdge::Falling {
                reference,
                index,
                rising,
                painted,
            } && index == index_of(elapsed(tick, reference), freq as int) && painted
                == !span_is_empty(rising as int, index as int)),
    {
        let reference = self.line_start.load(Ordering::Relaxed);
        let index = pixel_index(tick, reference, freq);
        match level {
            Level::High => {
                self.pending_rise.store(index, Ordering::Relaxed);
                LevelEdge::Rising { reference, index }
            },
            Level::Low => {
                let rising = self.pending_rise.swap(NO_PENDING, Ordering::Relaxed);
                let painted = if index >= rising {
                    paint_shared(&self.line, rising, index).is_ok()
                } else {
                    false
                };
                LevelEdge::Falling { reference, index, rising, painted }
            },
        }
    }

    /// Handles an edge of the `SYNC` line at `tick`, with the counter running
    /// at `freq` ticks per second.
    ///
    /// A falling edge records the start of a pulse. A rising edge starts the
    /// next line, classifies the pulse, moves the line counter, swaps the
    /// painted line for a blank one and offers it to `tx` when its row lies
    /// in the frame; a full channel drops it.
    pub fn on_sync(&self, level: Level, tick: u64, freq: u64, tx: &Sender<FrameMessage>) -> (r:
        SyncEdge)
        ensures
            level == Level::Low ==> r == SyncEdge::PulseStart,
            level == Level::High ==> (r matches SyncEdge::PulseEnd {
                last_low,
                boundary,
                counter,
                row,
                sent,
            } && boundary == boundary_of(last_low as int, tick as int, freq as int) && row
                == row_of(boundary, counter) && (sent ==> row_is_shown(row))),
    {
        match level {
            Level::Low => {
                self.last_low.store(tick, Ordering::Relaxed);
                SyncEdge::PulseStart
            },
            Level::High => {
                self.line_start.store(tick, Ordering::Relaxed);
                let last_low = self.last_low.load(Ordering::Relaxed);
                let boundary = classify_pulse(last_low, tick, freq);
                let counter = match boundary {
                    Boundary::Line => self.line_number.fetch_add(1, Ordering::Relaxed),
                    Boundary::Frame => self.line_number.swap(0, Ordering::Relaxed),
                };
                let row = dispatched_row(boundary, counter);
                let data = self.line.swap(blank_line());
                let sent = if row < LINE_COUNT as u32 {
                    offer_row(tx, (row, data))
                } else {
                    false
                };
                SyncEdge::PulseEnd { last_low, boundary, counter, row, sent }
            },
        }
    }
}

} // verus!
