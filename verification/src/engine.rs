use vstd::prelude::*;

use crate::params::Mode;
use crate::params::DEFAULT_VRP_MS;
use crate::params::LRL_INTERVAL_MS;

verus! {

/// Whether the pacing engine fires an atrial pulse this tick.
///
/// Atrial pacing is asynchronous (the defining property of AOO): in `Aoo`
/// mode the engine fires exactly when the chamber has waited a full
/// lower-rate-limit interval, and no sensing input is consulted. In the
/// other modes the engine is not atrially active and never fires.
pub open spec fn spec_decide_atrial(mode: Mode, elapsed_ms: int) -> bool {
    mode is Aoo && elapsed_ms >= LRL_INTERVAL_MS
}

/// Whether the pacing engine fires a ventricular pulse this tick.
///
/// Ventricular pacing is active in `Vvt` mode only, and fires when either
/// - escape pacing: the chamber has waited a full lower-rate-limit interval
///   (this rule dominates, whatever was sensed), or
/// - triggered pacing: a beat was sensed outside the ventricular refractory
///   period.
///
/// A beat sensed inside the refractory period is suppressed.
pub open spec fn spec_decide_ventricular(mode: Mode, sensed: bool, elapsed_ms: int) -> bool {
    mode is Vvt && (elapsed_ms >= LRL_INTERVAL_MS || (sensed && elapsed_ms > DEFAULT_VRP_MS))
}

/// Decides whether to deliver an atrial pacing pulse this tick.
pub fn decide_atrial(mode: &Mode, elapsed_ms: usize) -> (fires: bool)
    ensures
        fires == spec_decide_atrial(*mode, elapsed_ms as int),
{
    match mode {
        Mode::Aoo => elapsed_ms >= LRL_INTERVAL_MS,
        _ => false,
    }
}

/// Decides whether to deliver a ventricular pacing pulse this tick, given
/// whether an intrinsic beat was sensed in the chamber.
pub fn decide_ventricular(mode: &Mode, sensed: bool, elapsed_ms: usize) -> (fires: bool)
    ensures
        fires == spec_decide_ventricular(*mode, sensed, elapsed_ms as int),
{
    match mode {
        Mode::Vvt => {
            if elapsed_ms >= LRL_INTERVAL_MS {
                true
            } else {
                sensed && elapsed_ms > DEFAULT_VRP_MS
            }
        },
        _ => false,
    }
}

} // verus!
