use pacemaker::decide_atrial;
use pacemaker::decide_ventricular;
use pacemaker::default_param;
use pacemaker::device_store;
use pacemaker::simulate_delay;
use pacemaker::simulate_heart;
use pacemaker::table_value;
use pacemaker::Mode;
use pacemaker::PseudoRandomSource;
use pacemaker::DEFAULT_VRP_MS;
use pacemaker::LRL_INTERVAL_MS;
use pacemaker::RANDOM_TABLE_LEN;

#[test]
fn aoo_noheartbeat_pacemakerpulse() {
    let ms_since_last_pulse = LRL_INTERVAL_MS;

    let pulsed = decide_atrial(&Mode::Aoo, ms_since_last_pulse);

    assert!(
        pulsed,
        "Atrial pulse not set, but last pulse was too long ago."
    );
}

#[test]
fn vvt_pulsesensed_pacemakerpulse() {
    let ventricular_sensed = true;
    let last_pulse = DEFAULT_VRP_MS + 1;

    let pulsed = decide_ventricular(&Mode::Vvt, ventricular_sensed, last_pulse);

    assert!(
        pulsed,
        "No supporting ventricular pulse, even though a pulse was sensed outside VRP interval"
    );
}

#[test]
fn vvt_pulsesensed_nopacemakerpulse() {
    let ventricular_sensed = true;
    let last_pulse = DEFAULT_VRP_MS;

    let pulsed = decide_ventricular(&Mode::Vvt, ventricular_sensed, last_pulse);

    assert!(
        !pulsed,
        "Ventricular pulse, even though the sensed pulse was inside VRP interval"
    );
}

#[test]
fn mode_off_simulated_heart_pulses_by_itself() {
    let mut rng = PseudoRandomSource::new();
    let (atrial_pulsed, ventricular_pulsed) =
        simulate_heart(&Mode::Off, LRL_INTERVAL_MS - 1, LRL_INTERVAL_MS - 1, &mut rng);

    assert!(
        atrial_pulsed,
        "Simulated heart did not pulse atrial chamber by itself in mode 'off'."
    );
    assert!(
        ventricular_pulsed,
        "Simulated heart did not pulse ventricular chamber by itself in mode 'off'."
    );
}

#[test]
fn atrial_pacing_needs_a_full_interval() {
    assert!(!decide_atrial(&Mode::Aoo, LRL_INTERVAL_MS - 1));
    assert!(decide_atrial(&Mode::Aoo, LRL_INTERVAL_MS));
    assert!(decide_atrial(&Mode::Aoo, LRL_INTERVAL_MS + 150));
}

#[test]
fn atrial_pacing_only_in_aoo_mode() {
    assert!(!decide_atrial(&Mode::Off, 5000));
    assert!(!decide_atrial(&Mode::Vvt, 5000));
}

#[test]
fn ventricular_escape_pacing_dominates_sensing() {
    assert!(decide_ventricular(&Mode::Vvt, true, LRL_INTERVAL_MS));
    assert!(decide_ventricular(&Mode::Vvt, false, LRL_INTERVAL_MS));
}

#[test]
fn ventricular_no_sense_no_pulse_mid_cycle() {
    assert!(!decide_ventricular(&Mode::Vvt, false, 50));
}

#[test]
fn ventricular_pacing_only_in_vvt_mode() {
    assert!(!decide_ventricular(&Mode::Off, true, 5000));
    assert!(!decide_ventricular(&Mode::Aoo, true, 5000));
}

#[test]
fn pseudo_random_source_follows_table_and_wraps() {
    let mut rng = PseudoRandomSource::new();
    let mut first: Vec<u64> = Vec::new();
    for i in 0..RANDOM_TABLE_LEN {
        let drawn = rng.next();
        assert_eq!(drawn, table_value(i));
        first.push(drawn);
    }
    let wrapped = rng.next();
    assert_eq!(wrapped, first[0]);
}

#[test]
fn heart_competes_stochastically_in_aoo() {
    // the first table entry is below half the range, so the heart loses the
    // race the first time, consuming exactly one draw
    let mut rng = PseudoRandomSource::new();
    let (atrial_pulsed, ventricular_pulsed) =
        simulate_heart(&Mode::Aoo, LRL_INTERVAL_MS - 1, 0, &mut rng);
    assert!(!atrial_pulsed);
    assert!(!ventricular_pulsed);
    assert_eq!(rng.next(), table_value(1));
}

#[test]
fn heart_scheduled_ventricular_beat_is_stochastic_in_vvt() {
    let mut rng = PseudoRandomSource::new();
    let (atrial_pulsed, ventricular_pulsed) =
        simulate_heart(&Mode::Vvt, 0, LRL_INTERVAL_MS - 1, &mut rng);
    assert!(!atrial_pulsed);
    assert!(!ventricular_pulsed);
    assert_eq!(rng.next(), table_value(1));
}

#[test]
fn heart_rare_beat_draws_mid_cycle_in_vvt() {
    // mid-cycle, outside the refractory period, one draw is consumed for the
    // rare intrinsic beat; the first table entry is far above the threshold
    let mut rng = PseudoRandomSource::new();
    let (atrial_pulsed, ventricular_pulsed) = simulate_heart(&Mode::Vvt, 0, 50, &mut rng);
    assert!(!atrial_pulsed);
    assert!(!ventricular_pulsed);
    assert_eq!(rng.next(), table_value(1));
}

#[test]
fn heart_quiet_inside_refractory_period_in_vvt() {
    // inside the refractory period no draw is consumed and nothing fires
    let mut rng = PseudoRandomSource::new();
    let (atrial_pulsed, ventricular_pulsed) =
        simulate_heart(&Mode::Vvt, 0, DEFAULT_VRP_MS, &mut rng);
    assert!(!atrial_pulsed);
    assert!(!ventricular_pulsed);
    assert_eq!(rng.next(), table_value(0));
}

#[test]
fn mode_labels() {
    assert_eq!(Mode::Off.label(), "off");
    assert_eq!(Mode::Aoo.label(), "aoo");
    assert_eq!(Mode::Vvt.label(), "vvt");
}

#[test]
fn default_parameters() {
    let p = default_param();
    assert_eq!(p.lrl, 60);
    assert_eq!(p.vrp, 32);
    assert_eq!(p.atrial.amplitude_millivolts, 3500);
    assert_eq!(p.atrial.width_micros, 400);
    assert_eq!(p.ventricular.amplitude_millivolts, 3500);
    assert_eq!(p.ventricular.width_micros, 400);
    assert_eq!(p.lrl_interval_ms(), 100);
    assert_eq!(LRL_INTERVAL_MS, 100);
}

#[test]
fn device_store_contents() {
    let s = device_store();
    assert_eq!(s.device_model, "mantra-pacemaker");
    assert_eq!(s.serial_number, "123456");
    assert_eq!(s.lead_implant_date, 1718791844);
    assert_eq!(s.lead_impedance, 500);
}

#[test]
fn delay_returns() {
    simulate_delay();
}
