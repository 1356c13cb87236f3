//! A minimal cardiac pacing controller exercised against a synthetic heart.
//!
//! The crate models three operating modes (`Off`, `Aoo`, `Vvt`), a pure
//! pacing-decision engine, a deterministic pseudo-random source, a synthetic
//! heart that competes with the pacer, and a simulation driver that runs the
//! whole system until a fixed number of atrial pulses has been observed.

pub mod driver;
pub mod engine;
pub mod heart;
pub mod params;
pub mod rng;

pub use driver::all_intrinsic;
pub use driver::demo_loop;
pub use driver::event_keeps_atrial_deadline;
pub use driver::initial_state;
pub use driver::lemma_run_deterministic;
pub use driver::pacer_atrial_on_schedule;
pub use driver::run;
pub use driver::sim_state_at;
pub use driver::sim_step;
pub use driver::simulate_delay;
pub use driver::tick_events;
pub use driver::Chamber;
pub use driver::PulseEvent;
pub use driver::PulseKind;
pub use driver::RunReport;
pub use engine::decide_atrial;
pub use engine::decide_ventricular;
pub use engine::spec_decide_atrial;
pub use engine::spec_decide_ventricular;
pub use heart::heart_step;
pub use heart::simulate_heart;
pub use params::Mode;
pub use params::Param;
pub use params::PulseParam;
pub use params::Store;
pub use params::default_param;
pub use params::device_store;
pub use params::DEFAULT_LRL_PPM;
pub use params::DEFAULT_VRP_MS;
pub use params::LRL_INTERVAL_MS;
pub use rng::table_value;
pub use rng::PseudoRandomSource;
pub use rng::RANDOM_TABLE_LEN;
