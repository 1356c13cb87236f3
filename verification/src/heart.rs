use vstd::prelude::*;

use crate::params::Mode;
use crate::params::DEFAULT_VRP_MS;
use crate::params::LRL_INTERVAL_MS;
use crate::rng::cursor_after;
use crate::rng::draw_at;
use crate::rng::PseudoRandomSource;

verus! {

/// A draw at least this large decides a one-in-two event in favour of the
/// heart.
pub const HALF_RANGE: u64 = u64::MAX / 2;

/// A draw below this threshold triggers the rare (one-in-five-thousand)
/// mid-cycle intrinsic ventricular beat.
pub const RARE_BEAT_THRESHOLD: u64 = u64::MAX / 5000;

/// What one tick of the synthetic heart does, as a function of the mode,
/// both elapsed-time counters, and the pseudo-random cursor.
///
/// The result is `(atrial_fired, ventricular_fired, cursor)`:
/// - Atrial channel, evaluated one tick before the pacer's own deadline:
///   in `Off` and `Vvt` the heart beats unconditionally; in `Aoo` it beats
///   with probability one half, consuming one draw.
/// - Ventricular channel, same trigger tick: in `Off` and `Aoo` the heart
///   beats unconditionally; in `Vvt` it beats with probability one half,
///   consuming one draw. On every other `Vvt` tick outside the refractory
///   period a rare intrinsic beat fires with probability one in five
///   thousand, consuming one draw.
pub open spec fn heart_step(
    mode: Mode,
    elapsed_atrial_ms: int,
    elapsed_ventricular_ms: int,
    cursor: int,
) -> (bool, bool, int) {
    let (atrial_fired, cursor_a) = if elapsed_atrial_ms == LRL_INTERVAL_MS - 1 {
        if mode is Aoo {
            (draw_at(cursor) >= HALF_RANGE, cursor_after(cursor))
        } else {
            (true, cursor)
        }
    } else {
        (false, cursor)
    };
    let (ventricular_fired, cursor_v) = if elapsed_ventricular_ms == LRL_INTERVAL_MS - 1 {
        if mode is Vvt {
            (draw_at(cursor_a) >= HALF_RANGE, cursor_after(cursor_a))
        } else {
            (true, cursor_a)
        }
    } else if mode is Vvt && elapsed_ventricular_ms > DEFAULT_VRP_MS {
        (draw_at(cursor_a) < RARE_BEAT_THRESHOLD, cursor_after(cursor_a))
    } else {
        (false, cursor_a)
    };
    (atrial_fired, ventricular_fired, cursor_v)
}

/// Produces the heart's own (unpaced) activity for one tick:
/// `(atrial_fired, ventricular_fired)`.
///
/// The heart is decoupled from the pacing engine; where the pacer is active
/// in a chamber, the heart competes stochastically, drawing from the
/// pseudo-random source.
pub fn simulate_heart(
    mode: &Mode,
    elapsed_atrial_ms: usize,
    elapsed_ventricular_ms: usize,
    rng: &mut PseudoRandomSource,
) -> (r: (bool, bool))
    ensures
        r.0 == heart_step(
            *mode,
            elapsed_atrial_ms as int,
            elapsed_ventricular_ms as int,
            old(rng).cursor(),
        ).0,
        r.1 == heart_step(
            *mode,
            elapsed_atrial_ms as int,
            elapsed_ventricular_ms as int,
            old(rng).cursor(),
        ).1,
        final(rng).cursor() == heart_step(
            *mode,
            elapsed_atrial_ms as int,
            elapsed_ventricular_ms as int,
            old(rng).cursor(),
        ).2,
{
    let mut atrial_fired = false;
    let mut ventricular_fired = false;

    // one tick early, so the heart can race the pacer's own deadline
    if elapsed_atrial_ms == LRL_INTERVAL_MS - 1 {
        match mode {
            Mode::Off | Mode::Vvt => {
                atrial_fired = true;
            },
            Mode::Aoo => {
                let rand_nr = rng.next();
                if rand_nr >= HALF_RANGE {
                    atrial_fired = true;
                }
            },
        }
    }

    if elapsed_ventricular_ms == LRL_INTERVAL_MS - 1 {
        match mode {
            Mode::Off | Mode::Aoo => {
                ventricular_fired = true;
            },
            Mode::Vvt => {
                let rand_nr = rng.next();
                if rand_nr >= HALF_RANGE {
                    ventricular_fired = true;
                }
            },
        }
    } else if *mode == Mode::Vvt && elapsed_ventricular_ms > DEFAULT_VRP_MS {
        // a rare early beat, to exercise the sensed/triggered pacing path
        let rand_nr = rng.next();
        if rand_nr < RARE_BEAT_THRESHOLD {
            ventricular_fired = true;
        }
    }

    (atrial_fired, ventricular_fired)
}

} // verus!
