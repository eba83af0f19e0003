//! What holds of every playback: the shown frame never leaves the strip, and
//! from the start the frames come round in a fixed cycle.

use vstd::prelude::*;
use crate::cursor::Cursor;

verus! {

/// Number of steps after which a playback over `frame_count` cells shows the
/// same frames again: up over all cells, one more step to turn round on the
/// last cell, and down again to the first.
pub open spec fn period(frame_count: nat) -> nat {
    (2 * frame_count - 1) as nat
}

/// The position that is reached `phase` steps into a cycle. The first
/// `frame_count` phases climb from the first cell to the last; the rest come
/// down again, beginning with a second stay on the last cell.
pub open spec fn position_at(frame_count: nat, phase: nat) -> Cursor {
    if phase < frame_count {
        Cursor { frame_count, current_frame: phase, is_reversed: false }
    } else {
        Cursor {
            frame_count,
            current_frame: (2 * frame_count - 1 - phase) as nat,
            is_reversed: true,
        }
    }
}

/// Counting one further wraps round to zero at the end of a cycle of `p`.
proof fn lemma_next_phase(k: nat, p: nat)
    requires
        p > 0,
    ensures
        (k + 1) % p == (if k % p + 1 == p {
            0
        } else {
            k % p + 1
        }),
{
    let d = p as int;
    let q = k as int / d;
    let r = k as int % d;
    vstd::arithmetic::div_mod::lemma_fundamental_div_mod(k as int, d);
    vstd::arithmetic::div_mod::lemma_mod_pos_bound(k as int, d);
    if r + 1 == d {
        assert((q + 1) * d + 0 == d * q + r + 1) by (nonlinear_arith)
            requires
                r + 1 == d,
        ;
        vstd::arithmetic::div_mod::lemma_fundamental_div_mod_converse(k as int + 1, d, q + 1, 0);
    } else {
        assert(q * d + (r + 1) == d * q + r + 1) by (nonlinear_arith);
        vstd::arithmetic::div_mod::lemma_fundamental_div_mod_converse(k as int + 1, d, q, r + 1);
    }
}

/// A frame step keeps the shown frame inside the strip and leaves the
/// strip's length alone.
pub proof fn lemma_step_in_range(cursor: Cursor)
    requires
        cursor.wf(),
    ensures
        cursor.step().wf(),
        cursor.step().frame_count == cursor.frame_count,
{
}

/// However many steps are taken from a position inside the strip, the shown
/// frame is still inside the strip.
pub proof fn lemma_steps_in_range(cursor: Cursor, n: nat)
    requires
        cursor.wf(),
    ensures
        cursor.steps(n).wf(),
        cursor.steps(n).frame_count == cursor.frame_count,
    decreases n,
{
    if n > 0 {
        lemma_steps_in_range(cursor, (n - 1) as nat);
        lemma_step_in_range(cursor.steps((n - 1) as nat));
    }
}

/// A tick of the clock moves the playback by one step or by none, and so
/// keeps the shown frame inside the strip.
pub proof fn lemma_tick_is_at_most_one_step(cursor: Cursor, period_elapsed: bool)
    requires
        cursor.wf(),
    ensures
        cursor.tick(true) == cursor.steps(1),
        cursor.tick(false) == cursor,
        cursor.tick(period_elapsed).wf(),
        cursor.tick(period_elapsed).frame_count == cursor.frame_count,
{
    reveal_with_fuel(Cursor::steps, 2);
}

/// Every position that a playback over a strip with at least one cell can
/// reach from its start shows a frame of the strip.
pub proof fn lemma_reachable_in_range(frame_count: nat, n: nat)
    requires
        frame_count >= 1,
    ensures
        0 <= Cursor::start(frame_count).steps(n).current_frame < frame_count,
{
    lemma_steps_in_range(Cursor::start(frame_count), n);
}

/// On a strip of a single cell the shown frame is the first one after any
/// number of steps, whichever way the playback was moving.
pub proof fn lemma_single_frame_stays(cursor: Cursor, n: nat)
    requires
        cursor.frame_count == 1,
        cursor.wf(),
    ensures
        cursor.steps(n).current_frame == 0,
        cursor.steps(n).current_frame == cursor.current_frame,
{
    lemma_steps_in_range(cursor, n);
}

/// On a strip of two cells or more, the position `n` steps after the start
/// depends only on how far `n` is into a cycle of `period(frame_count)`
/// steps, and is the one that `position_at` gives.
pub proof fn lemma_position_after(frame_count: nat, n: nat)
    requires
        frame_count >= 2,
    ensures
        Cursor::start(frame_count).steps(n) == position_at(
            frame_count,
            n % period(frame_count),
        ),
    decreases n,
{
    let p = period(frame_count);
    if n == 0 {
        assert(0nat % p == 0) by {
            vstd::arithmetic::div_mod::lemma_small_mod(0, p);
        }
    } else {
        let m = (n - 1) as nat;
        lemma_position_after(frame_count, m);
        lemma_next_phase(m, p);
    }
}

/// Taking `a` steps and then `b` more is taking `a + b` steps.
pub proof fn lemma_steps_compose(cursor: Cursor, a: nat, b: nat)
    ensures
        cursor.steps(a).steps(b) == cursor.steps(a + b),
    decreases b,
{
    if b > 0 {
        lemma_steps_compose(cursor, a, (b - 1) as nat);
        assert((a + b - 1) as nat == a + (b - 1) as nat);
    }
}

/// On a strip of two cells or more, the playback climbs from the first cell
/// to the last in `frame_count - 1` steps and spends the next step turning
/// round there, so the last cell is shown for two steps in a row.
pub proof fn lemma_turn_takes_a_step(frame_count: nat)
    requires
        frame_count >= 2,
    ensures
        Cursor::start(frame_count).steps((frame_count - 1) as nat) == (Cursor {
            frame_count,
            current_frame: (frame_count - 1) as nat,
            is_reversed: false,
        }),
        Cursor::start(frame_count).steps(frame_count) == (Cursor {
            frame_count,
            current_frame: (frame_count - 1) as nat,
            is_reversed: true,
        }),
{
    let p = period(frame_count);
    lemma_position_after(frame_count, (frame_count - 1) as nat);
    lemma_position_after(frame_count, frame_count);
    vstd::arithmetic::div_mod::lemma_small_mod((frame_count - 1) as nat, p);
    vstd::arithmetic::div_mod::lemma_small_mod(frame_count, p);
}

/// On a strip of two cells or more, every position reached from the start
/// comes back after `period(frame_count)` further steps: the same frame,
/// moving the same way.
pub proof fn lemma_cycle_repeats(frame_count: nat, n: nat)
    requires
        frame_count >= 2,
    ensures
        Cursor::start(frame_count).steps(n + period(frame_count)) == Cursor::start(
            frame_count,
        ).steps(n),
        Cursor::start(frame_count).steps(n).steps(period(frame_count)) == Cursor::start(
            frame_count,
        ).steps(n),
{
    let p = period(frame_count);
    lemma_position_after(frame_count, n);
    lemma_position_after(frame_count, n + p);
    vstd::arithmetic::div_mod::lemma_mod_add_multiples_vanish(n as int, p as int);
    lemma_steps_compose(Cursor::start(frame_count), n, p);
}

/// On any strip with at least one cell, the frames shown from the start
/// repeat every `period(frame_count)` steps.
pub proof fn lemma_frames_repeat(frame_count: nat, n: nat)
    requires
        frame_count >= 1,
    ensures
        Cursor::start(frame_count).steps(n + period(frame_count)).current_frame
            == Cursor::start(frame_count).steps(n).current_frame,
{
    if frame_count == 1 {
        lemma_single_frame_stays(Cursor::start(frame_count), n);
        lemma_single_frame_stays(Cursor::start(frame_count), n + period(frame_count));
    } else {
        lemma_cycle_repeats(frame_count, n);
    }
}

} // verus!
