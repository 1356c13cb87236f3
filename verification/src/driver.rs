use vstd::prelude::*;

use crate::engine::decide_atrial;
use crate::engine::decide_ventricular;
use crate::engine::spec_decide_atrial;
use crate::engine::spec_decide_ventricular;
use crate::heart::heart_step;
use crate::heart::simulate_heart;
use crate::params::Mode;
use crate::params::LRL_INTERVAL_MS;
use crate::rng::PseudoRandomSource;

verus! {

/// The chamber an event belongs to.
#[derive(Clone, Copy, Debug, PartialEq, Eq, Structural)]
pub enum Chamber {
    Atrial,
    Ventricular,
}

/// What produced a pulse event.
#[derive(Clone, Copy, Debug, PartialEq, Eq, Structural)]
pub enum PulseKind {
    /// The synthetic heart beat on its own.
    IntrinsicBeat,
    /// The pacing engine fired on its lower-rate-limit deadline.
    PacerPulse,
    /// The pacing engine fired in support of a sensed intrinsic beat.
    SupportingPacerPulse,
}

/// One pulse observed during a simulation run, as handed to the event sink.
#[derive(Clone, Copy, Debug, PartialEq, Eq, Structural)]
pub struct PulseEvent {
    /// The tick at which the pulse fired.
    pub time_ms: u64,
    /// The timestamp as the notification reports it. Pulses are reported at
    /// ten times the tick count, except the heart's scheduled ventricular
    /// beat outside `Vvt` mode, which is reported at the raw tick count.
    pub logged_ms: u64,
    /// The chamber that was pulsed.
    pub chamber: Chamber,
    /// What produced the pulse.
    pub kind: PulseKind,
    /// The chamber's elapsed-time counter at the moment of firing.
    pub elapsed_ms: u64,
}

/// Everything a finished simulation run reports.
#[derive(Debug, PartialEq, Eq)]
pub struct RunReport {
    /// Every pulse that fired, in order.
    pub events: Vec<PulseEvent>,
    /// How many atrial pulses were observed (pacer or heart).
    pub atrial_pulses: u32,
    /// How many ticks the run took.
    pub ticks: u64,
}

/// The whole simulation state at one instant.
pub ghost struct SimState {
    /// Cursor of the pseudo-random source.
    pub cursor: int,
    /// Ticks since the atrial chamber was last pulsed.
    pub elapsed_atrial: int,
    /// Ticks since the ventricular chamber was last pulsed.
    pub elapsed_ventricular: int,
    /// Ticks since the run began.
    pub time: int,
    /// Atrial pulses observed so far.
    pub atrial_pulses: int,
    /// Every pulse that fired so far, in order.
    pub events: Seq<PulseEvent>,
}

/// The state a run starts from: counters at zero, except the ventricular
/// chamber, which starts mid-cycle.
pub open spec fn initial_state() -> SimState {
    SimState {
        cursor: 0,
        elapsed_atrial: 0,
        elapsed_ventricular: 50,
        time: 0,
        atrial_pulses: 0,
        events: Seq::empty(),
    }
}

/// The events of one tick, appended to `events`: first the heart's atrial
/// beat, then its ventricular beat, then the pacer's pulses, each only if it
/// fired this tick.
pub open spec fn tick_events(
    mode: Mode,
    elapsed_atrial: int,
    elapsed_ventricular: int,
    time: int,
    events: Seq<PulseEvent>,
    heart_atrial: bool,
    heart_ventricular: bool,
    pacer_atrial: bool,
    pacer_ventricular: bool,
) -> Seq<PulseEvent> {
    let after_heart_a = if heart_atrial {
        events.push(
            PulseEvent {
                time_ms: time as u64,
                logged_ms: (time * 10) as u64,
                chamber: Chamber::Atrial,
                kind: PulseKind::IntrinsicBeat,
                elapsed_ms: elapsed_atrial as u64,
            },
        )
    } else {
        events
    };
    let after_heart_v = if heart_ventricular {
        after_heart_a.push(
            PulseEvent {
                time_ms: time as u64,
                logged_ms: (if mode is Vvt {
                    time * 10
                } else {
                    time
                }) as u64,
                chamber: Chamber::Ventricular,
                kind: PulseKind::IntrinsicBeat,
                elapsed_ms: elapsed_ventricular as u64,
            },
        )
    } else {
        after_heart_a
    };
    let after_pacer_a = if pacer_atrial {
        after_heart_v.push(
            PulseEvent {
                time_ms: time as u64,
                logged_ms: (time * 10) as u64,
                chamber: Chamber::Atrial,
                kind: PulseKind::PacerPulse,
                elapsed_ms: elapsed_atrial as u64,
            },
        )
    } else {
        after_heart_v
    };
    let after_pacer_v = if pacer_ventricular {
        after_pacer_a.push(
            PulseEvent {
                time_ms: time as u64,
                logged_ms: (time * 10) as u64,
                chamber: Chamber::Ventricular,
                kind: (if elapsed_ventricular >= LRL_INTERVAL_MS {
                    PulseKind::PacerPulse
                } else {
                    PulseKind::SupportingPacerPulse
                }),
                elapsed_ms: elapsed_ventricular as u64,
            },
        )
    } else {
        after_pacer_a
    };
    after_pacer_v
}

/// One tick of the whole simulation: the heart acts first, then the engine
/// decides (in `Vvt` mode with the heart's ventricular beat as the sensed
/// input), then each chamber that was pulsed has its counter reset, and
/// every counter advances by one.
pub open spec fn sim_step(mode: Mode, s: SimState) -> SimState {
    let (heart_atrial, heart_ventricular, cursor) = heart_step(
        mode,
        s.elapsed_atrial,
        s.elapsed_ventricular,
        s.cursor,
    );
    let pacer_atrial = spec_decide_atrial(mode, s.elapsed_atrial);
    let pacer_ventricular = spec_decide_ventricular(mode, heart_ventricular, s.elapsed_ventricular);
    let atrial = heart_atrial || pacer_atrial;
    let ventricular = heart_ventricular || pacer_ventricular;
    SimState {
        cursor,
        elapsed_atrial: if atrial {
            1
        } else {
            s.elapsed_atrial + 1
        },
        elapsed_ventricular: if ventricular {
            1
        } else {
            s.elapsed_ventricular + 1
        },
        time: s.time + 1,
        atrial_pulses: if atrial {
            s.atrial_pulses + 1
        } else {
            s.atrial_pulses
        },
        events: tick_events(
            mode,
            s.elapsed_atrial,
            s.elapsed_ventricular,
            s.time,
            s.events,
            heart_atrial,
            heart_ventricular,
            pacer_atrial,
            pacer_ventricular,
        ),
    }
}

/// The simulation state after `n` ticks.
pub open spec fn sim_state_at(mode: Mode, n: nat) -> SimState
    decreases n,
{
    if n == 0 {
        initial_state()
    } else {
        sim_step(mode, sim_state_at(mode, (n - 1) as nat))
    }
}

/// Whether an event keeps the atrial deadline: every atrial pulse the pacer
/// fires on its own deadline fires exactly when the chamber has waited one
/// full lower-rate-limit interval.
pub open spec fn event_keeps_atrial_deadline(e: PulseEvent) -> bool {
    e.kind is PacerPulse && e.chamber is Atrial ==> e.elapsed_ms == LRL_INTERVAL_MS
}

/// Every atrial pacer pulse among `events` fired exactly at the
/// lower-rate-limit interval.
pub open spec fn pacer_atrial_on_schedule(events: Seq<PulseEvent>) -> bool {
    forall|i: int| 0 <= i < events.len() ==> event_keeps_atrial_deadline(#[trigger] events[i])
}

/// Every event among `events` is an intrinsic heart beat.
pub open spec fn all_intrinsic(events: Seq<PulseEvent>) -> bool {
    forall|i: int| 0 <= i < events.len() ==> (#[trigger] events[i]).kind is IntrinsicBeat
}

/// Wastes processor time to simulate a delay of approximately one
/// millisecond on the target.
pub fn simulate_delay() {
    let mut j: u64 = 0;
    let mut i: u64 = 0;
    while i < 5000
        invariant
            j <= i,
            i <= 5000,
        decreases 5000 - i,
    {
        if i % 7 == 0 {
            j = j + 1;
        }
        if i % 253 == 0 {
            j = j / 2;
        }
        i = i + 1;
    }
}

/// Runs the simulation until `target_atrial_pulses` atrial pulses have been
/// observed, advancing a virtual clock in fixed ticks.
///
/// Each tick the synthetic heart acts, then the pacing engine decides, the
/// counters of the pulsed chambers reset, and every counter advances. The
/// report is exactly the state the spec-level simulation reaches at the
/// first tick count with `target_atrial_pulses` atrial pulses; in `Off`
/// mode the engine is never consulted, and every atrial pulse the pacer
/// fires on its own deadline fires at exactly the lower-rate-limit
/// interval.
pub fn run(mode: &Mode, target_atrial_pulses: u32) -> (report: RunReport)
    ensures
        report.atrial_pulses == target_atrial_pulses,
        exists|n: nat|
            (#[trigger] sim_state_at(*mode, n)).atrial_pulses == target_atrial_pulses
                && (forall|j: nat|
                    j < n ==> sim_state_at(*mode, j).atrial_pulses < target_atrial_pulses)
                && report.events@ == sim_state_at(*mode, n).events
                && report.ticks == sim_state_at(*mode, n).time,
        pacer_atrial_on_schedule(report.events@),
        *mode is Off ==> all_intrinsic(report.events@),
{
    let mut rng = PseudoRandomSource::new();
    let mut atrial_pulse_cnt: u32 = 0;
    let mut passed_ms: u64 = 0;
    let mut ms_since_last_atrial_pulse: usize = 0;
    let mut ms_since_last_ventricular_pulse: usize = 50;
    let mut events: Vec<PulseEvent> = Vec::new();

    while atrial_pulse_cnt < target_atrial_pulses
        invariant
            rng.cursor() == sim_state_at(*mode, passed_ms as nat).cursor,
            ms_since_last_atrial_pulse as int == sim_state_at(
                *mode,
                passed_ms as nat,
            ).elapsed_atrial,
            ms_since_last_ventricular_pulse as int == sim_state_at(
                *mode,
                passed_ms as nat,
            ).elapsed_ventricular,
            passed_ms as int == sim_state_at(*mode, passed_ms as nat).time,
            atrial_pulse_cnt as int == sim_state_at(*mode, passed_ms as nat).atrial_pulses,
            events@ == sim_state_at(*mode, passed_ms as nat).events,
            forall|j: nat|
                j < passed_ms as nat ==> sim_state_at(
                    *mode,
                    j,
                ).atrial_pulses < target_atrial_pulses,
            atrial_pulse_cnt <= target_atrial_pulses,
            ms_since_last_atrial_pulse <= LRL_INTERVAL_MS,
            ms_since_last_atrial_pulse == LRL_INTERVAL_MS ==> *mode is Aoo,
            ms_since_last_ventricular_pulse <= LRL_INTERVAL_MS,
            ms_since_last_ventricular_pulse == LRL_INTERVAL_MS ==> *mode is Vvt,
            passed_ms as int <= atrial_pulse_cnt as int * (LRL_INTERVAL_MS + 1)
                + ms_since_last_atrial_pulse as int,
            pacer_atrial_on_schedule(events@),
            *mode is Off ==> all_intrinsic(events@),
        decreases
            target_atrial_pulses - atrial_pulse_cnt,
            LRL_INTERVAL_MS + 1 - ms_since_last_atrial_pulse,
    {
        let ghost pre_n: nat = passed_ms as nat;
        let ghost pre: SimState = sim_state_at(*mode, pre_n);

        proof {
            // an atrial pulse fires at least once per pacing window, so the
            // tick count stays far below where its arithmetic could overflow
            assert(LRL_INTERVAL_MS == 100);
            assert(atrial_pulse_cnt as int * 101 <= 4294967295int * 101);
            assert(passed_ms <= 433791696895u64);
        }

        let (heart_atrial, heart_ventricular) = simulate_heart(
            mode,
            ms_since_last_atrial_pulse,
            ms_since_last_ventricular_pulse,
            &mut rng,
        );

        let pacer_atrial = if *mode == Mode::Aoo {
            decide_atrial(mode, ms_since_last_atrial_pulse)
        } else {
            false
        };
        let pacer_ventricular = if *mode == Mode::Vvt {
            decide_ventricular(mode, heart_ventricular, ms_since_last_ventricular_pulse)
        } else {
            false
        };
        let atrial_pulsed = heart_atrial || pacer_atrial;
        let ventricular_pulsed = heart_ventricular || pacer_ventricular;

        if heart_atrial {
            events.push(
                PulseEvent {
                    time_ms: passed_ms,
                    logged_ms: passed_ms * 10,
                    chamber: Chamber::Atrial,
                    kind: PulseKind::IntrinsicBeat,
                    elapsed_ms: ms_since_last_atrial_pulse as u64,
                },
            );
        }
        if heart_ventricular {
            let logged_ms = if *mode == Mode::Vvt {
                passed_ms * 10
            } else {
                passed_ms
            };
            events.push(
                PulseEvent {
                    time_ms: passed_ms,
                    logged_ms,
                    chamber: Chamber::Ventricular,
                    kind: PulseKind::IntrinsicBeat,
                    elapsed_ms: ms_since_last_ventricular_pulse as u64,
                },
            );
        }
        if pacer_atrial {
            events.push(
                PulseEvent {
                    time_ms: passed_ms,
                    logged_ms: passed_ms * 10,
                    chamber: Chamber::Atrial,
                    kind: PulseKind::PacerPulse,
                    elapsed_ms: ms_since_last_atrial_pulse as u64,
                },
            );
        }
        if pacer_ventricular {
            let kind = if ms_since_last_ventricular_pulse >= LRL_INTERVAL_MS {
                PulseKind::PacerPulse
            } else {
                PulseKind::SupportingPacerPulse
            };
            events.push(
                PulseEvent {
                    time_ms: passed_ms,
                    logged_ms: passed_ms * 10,
                    chamber: Chamber::Ventricular,
                    kind,
                    elapsed_ms: ms_since_last_ventricular_pulse as u64,
                },
            );
        }

        if atrial_pulsed {
            atrial_pulse_cnt = atrial_pulse_cnt + 1;
            ms_since_last_atrial_pulse = 0;
        }
        if ventricular_pulsed {
            ms_since_last_ventricular_pulse = 0;
        }

        simulate_delay();
        ms_since_last_atrial_pulse = ms_since_last_atrial_pulse + 1;
        ms_since_last_ventricular_pulse = ms_since_last_ventricular_pulse + 1;
        passed_ms = passed_ms + 1;

        proof {
            // this tick took the concrete state exactly one spec-level step
            assert(sim_state_at(*mode, pre_n + 1) == sim_step(*mode, pre));
        }
    }

    RunReport { events, atrial_pulses: atrial_pulse_cnt, ticks: passed_ms }
}

/// Runs the demonstration: a full simulation of the given mode that stops
/// after twenty observed atrial pulses.
pub fn demo_loop(mode: &Mode) -> (report: RunReport)
    ensures
        report.atrial_pulses == 20,
        exists|n: nat|
            (#[trigger] sim_state_at(*mode, n)).atrial_pulses == 20 && (forall|j: nat|
                j < n ==> sim_state_at(*mode, j).atrial_pulses < 20) && report.events@
                == sim_state_at(*mode, n).events && report.ticks == sim_state_at(*mode, n).time,
        pacer_atrial_on_schedule(report.events@),
        *mode is Off ==> all_intrinsic(report.events@),
{
    run(mode, 20)
}

/// Determinism of the simulation: the stopping tick of a run is unique, so
/// replaying a run with a freshly reset pseudo-random source and the same
/// mode and target reaches the identical state — the same fire/no-fire
/// decisions, the same events, the same tick count.
pub proof fn lemma_run_deterministic(mode: Mode, target: u32, n1: nat, n2: nat)
    requires
        sim_state_at(mode, n1).atrial_pulses == target,
        forall|j: nat| j < n1 ==> sim_state_at(mode, j).atrial_pulses < target,
        sim_state_at(mode, n2).atrial_pulses == target,
        forall|j: nat| j < n2 ==> sim_state_at(mode, j).atrial_pulses < target,
    ensures
        n1 == n2,
        sim_state_at(mode, n1) == sim_state_at(mode, n2),
{
    if n1 < n2 {
        assert(sim_state_at(mode, n1).atrial_pulses < target);
    }
    if n2 < n1 {
        assert(sim_state_at(mode, n2).atrial_pulses < target);
    }
}

} // verus!
