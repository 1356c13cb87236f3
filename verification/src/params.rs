use vstd::prelude::*;

verus! {

/// Available operating modes for the pacemaker.
#[derive(Clone, Copy, Debug, PartialEq, Eq, Structural)]
pub enum Mode {
    /// No operation.
    Off,
    /// Asynchronous atrial chamber pacing.
    Aoo,
    /// Ventricular sensed pulse triggered ventricular chamber pacing.
    Vvt,
}

impl Mode {
    /// A short lower-case name for the mode, for notifications.
    pub fn label(&self) -> (r: &'static str)
        ensures
            *self is Off ==> r@ == "off"@,
            *self is Aoo ==> r@ == "aoo"@,
            *self is Vvt ==> r@ == "vvt"@,
    {
        match self {
            Mode::Off => "off",
            Mode::Aoo => "aoo",
            Mode::Vvt => "vvt",
        }
    }
}

/// Pulse parameter for both atrial and ventricular chambers.
///
/// The electrical shape of a pulse is configuration only: it is read and
/// reported, never consulted by the decision logic.
#[derive(Clone, Copy, Debug, PartialEq, Eq, Structural)]
pub struct PulseParam {
    /// Pulse amplitude [mV].
    pub amplitude_millivolts: u64,
    /// Pulse width [us].
    pub width_micros: u64,
}

/// Pacemaker parameter.
#[derive(Clone, Copy, Debug, PartialEq, Eq, Structural)]
pub struct Param {
    /// Lower rate limit [ppm].
    pub lrl: usize,
    /// Atrial pulse parameters.
    pub atrial: PulseParam,
    /// Ventricular pulse parameters.
    pub ventricular: PulseParam,
    /// Ventricular refractory period [ms].
    pub vrp: usize,
}

impl Param {
    /// The number of simulation ticks in one lower-rate-limit cycle.
    pub open spec fn spec_lrl_interval_ms(self) -> int {
        self.lrl * 100 / 60
    }

    /// A parameter set is well formed when the lower rate limit is positive
    /// and the refractory period is shorter than the pacing interval it
    /// derives, so that refractory suppression can ever be lifted.
    pub open spec fn wf(self) -> bool {
        self.lrl > 0 && self.vrp < self.spec_lrl_interval_ms()
    }

    /// The number of simulation ticks in one lower-rate-limit cycle.
    pub fn lrl_interval_ms(&self) -> (r: usize)
        requires
            self.lrl <= usize::MAX / 100,
        ensures
            r == self.spec_lrl_interval_ms(),
    {
        self.lrl * 100 / 60
    }
}

/// Default lower rate limit [ppm].
pub const DEFAULT_LRL_PPM: usize = 60;

/// Default ventricular refractory period [ms].
pub const DEFAULT_VRP_MS: usize = 32;

/// Ticks in one lower-rate-limit cycle for the default parameters.
pub const LRL_INTERVAL_MS: usize = DEFAULT_LRL_PPM * 100 / 60;

/// The default parameter set: 60 ppm lower rate limit, 3500 mV / 400 us
/// pulses in both chambers, and a 32 ms ventricular refractory period.
pub fn default_param() -> (p: Param)
    ensures
        p.lrl == DEFAULT_LRL_PPM,
        p.vrp == DEFAULT_VRP_MS,
        p.atrial == (PulseParam { amplitude_millivolts: 3500, width_micros: 400 }),
        p.ventricular == (PulseParam { amplitude_millivolts: 3500, width_micros: 400 }),
        p.wf(),
{
    Param {
        lrl: DEFAULT_LRL_PPM,
        atrial: PulseParam { amplitude_millivolts: 3500, width_micros: 400 },
        ventricular: PulseParam { amplitude_millivolts: 3500, width_micros: 400 },
        vrp: DEFAULT_VRP_MS,
    }
}

/// Information about the device and implant date.
#[derive(Clone, Copy, Debug)]
pub struct Store {
    /// Device model.
    pub device_model: &'static str,
    /// Serial number of the device.
    pub serial_number: &'static str,
    /// Unix timestamp of the implant date.
    pub lead_implant_date: u64,
    /// Lead impedance in Ohm.
    pub lead_impedance: usize,
}

/// Stored device and implant date information.
pub fn device_store() -> (s: Store)
    ensures
        s.lead_implant_date == 1718791844,
        s.lead_impedance == 500,
        s.device_model@ == "mantra-pacemaker"@,
        s.serial_number@ == "123456"@,
{
    Store {
        device_model: "mantra-pacemaker",
        serial_number: "123456",
        lead_implant_date: 1718791844,
        lead_impedance: 500,
    }
}

} // verus!
