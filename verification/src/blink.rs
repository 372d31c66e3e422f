//! The blink loop's decision core.
//!
//! Each iteration of the firmware's steady-state loop emits a status line and
//! a delay note on the serial transport, then drives the LED pin low, waits
//! the configured delay, drives it high and waits again, and finally steps
//! the (cosmetic, wrapping) iteration counter.  The hardware loop performs
//! these effects in exactly this order, forever; [`run_iterations`] is the
//! same schedule run out for a bounded number of iterations, so that what
//! the loop prescribes can be stated, proved and exercised.

use vstd::prelude::*;

use crate::text::{delay_note_line, delay_note_spec, status_line, status_line_spec};

verus! {

/// The two levels a push-pull output pin can be driven to.
#[derive(Clone, Copy, PartialEq, Eq, Structural, Debug)]
pub enum Level {
    Low,
    High,
}

/// One phase of the blink schedule: the pin is held at `level` for `ms`
/// milliseconds.
#[derive(Clone, Copy, PartialEq, Eq, Structural, Debug)]
pub struct Phase {
    pub level: Level,
    pub ms: u32,
}

/// The iteration counter after one more iteration; it is cosmetic and wraps.
pub open spec fn wrap_inc(n: u32) -> u32 {
    if n == u32::MAX {
        0
    } else {
        (n + 1) as u32
    }
}

/// The counter value at the start of iteration `i`, counting from `n0`.
pub open spec fn counter_at(n0: u32, i: nat) -> u32
    decreases i,
{
    if i == 0 {
        n0
    } else {
        wrap_inc(counter_at(n0, (i - 1) as nat))
    }
}

/// Steps the iteration counter, wrapping at the top instead of overflowing.
pub fn next_iteration(n: u32) -> (r: u32)
    ensures
        r == wrap_inc(n),
{
    if n == u32::MAX {
        0
    } else {
        n + 1
    }
}

/// Everything a bounded run of the loop prescribes: the lines handed to the
/// transport, in order, and the pin phases, in order.
pub struct BlinkTrace {
    pub lines: Vec<Vec<u8>>,
    pub phases: Vec<Phase>,
}

/// Runs the loop's decision core for `count` iterations, starting the
/// counter at `n0`, with a delay of `d` milliseconds per phase.
///
/// The contract is the loop's schedule in full.  After `count` iterations
/// the loop has emitted exactly `count` status lines, the line of iteration
/// `j` carrying counter value `counter_at(n0, j)` in decimal (each followed
/// by its delay note), and has performed exactly `count` low–wait–high–wait
/// transitions: the pin phases alternate strictly, beginning low, with no
/// repeated level and every phase lasting exactly `d` milliseconds.
pub fn run_iterations(n0: u32, count: u32, d: u32) -> (t: BlinkTrace)
    ensures
        t.lines@.len() == 2 * count,
        forall|j: int|
            0 <= j < 2 * count ==> (#[trigger] t.lines@[j])@ == (if j % 2 == 0 {
                status_line_spec(counter_at(n0, (j / 2) as nat) as nat)
            } else {
                delay_note_spec(d as nat)
            }),
        t.phases@.len() == 2 * count,
        forall|p: int|
            0 <= p < 2 * count ==> #[trigger] t.phases@[p] == (Phase {
                level: if p % 2 == 0 {
                    Level::Low
                } else {
                    Level::High
                },
                ms: d,
            }),
{
    let mut lines: Vec<Vec<u8>> = Vec::new();
    let mut phases: Vec<Phase> = Vec::new();
    let mut n: u32 = n0;
    let mut i: u32 = 0;
    while i < count
        invariant
            i <= count,
            n == counter_at(n0, i as nat),
            lines@.len() == 2 * i,
            forall|j: int|
                0 <= j < 2 * i ==> (#[trigger] lines@[j])@ == (if j % 2 == 0 {
                    status_line_spec(counter_at(n0, (j / 2) as nat) as nat)
                } else {
                    delay_note_spec(d as nat)
                }),
            phases@.len() == 2 * i,
            forall|p: int|
                0 <= p < 2 * i ==> #[trigger] phases@[p] == (Phase {
                    level: if p % 2 == 0 {
                        Level::Low
                    } else {
                        Level::High
                    },
                    ms: d,
                }),
        decreases count - i,
    {
        lines.push(status_line(n));
        lines.push(delay_note_line(d));
        phases.push(Phase { level: Level::Low, ms: d });
        phases.push(Phase { level: Level::High, ms: d });
        proof {
            assert(counter_at(n0, (i + 1) as nat) == wrap_inc(counter_at(n0, i as nat)));
            assert((2 * i as int) / 2 == i as int) by (nonlinear_arith);
            assert((2 * i as int) % 2 == 0) by (nonlinear_arith);
            assert((2 * i as int + 1) % 2 == 1) by (nonlinear_arith);
        }
        n = next_iteration(n);
        i = i + 1;
    }
    BlinkTrace { lines, phases }
}

} // verus!
