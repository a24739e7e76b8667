//! Clock-tree descriptor and the clock validation the driver runs before it
//! touches any register.
//!
//! The peripheral's output is only statistically valid at specific input
//! clock frequencies, so the driver refuses to enable it unless the frozen
//! clock configuration is one the silicon is validated for.

use vstd::prelude::*;

verus! {

/// Which oscillator feeds the 48 MHz clock domain the peripheral samples.
#[derive(Clone, Copy, Debug, PartialEq, Eq, Structural)]
pub enum Clk48Source {
    /// The internal multi-speed oscillator.
    Msi,
    /// The dedicated internal 48 MHz oscillator.
    Hsi48,
}

/// Discrete speed ranges of the multi-speed internal oscillator.
#[derive(Clone, Copy, Debug, PartialEq, Eq, Structural)]
pub enum MsiFreq {
    Range100K,
    Range200K,
    Range400K,
    Range800K,
    Range1M,
    Range2M,
    Range4M,
    Range8M,
    Range16M,
    Range24M,
    Range32M,
    Range48M,
}

/// Unrecoverable configuration errors detected at enable time.  They indicate
/// a system-configuration mistake that must be fixed before reattempting.
#[derive(Clone, Copy, Debug, PartialEq, Eq, Structural)]
pub enum ConfigError {
    /// The multi-speed oscillator feeds the 48 MHz domain, but runs at a
    /// speed for which the peripheral's randomness is not validated.
    NotValidatedSpeed,
    /// No 48 MHz-capable clock source is configured at all.
    Clk48NotEnabled,
}

/// Immutable record of the frozen clock tree, produced once at system
/// initialization: which 48 MHz-capable source is configured and, if that
/// source is the multi-speed oscillator, which speed range is selected.
#[derive(Clone, Copy, Debug)]
pub struct ClockDescriptor {
    clk48: Option<Clk48Source>,
    msi: Option<MsiFreq>,
}

impl ClockDescriptor {
    /// The configured 48 MHz-capable source, if any.
    pub closed spec fn clk48_spec(self) -> Option<Clk48Source> {
        self.clk48
    }

    /// The selected multi-speed-oscillator range, if that oscillator runs.
    pub closed spec fn msi_spec(self) -> Option<MsiFreq> {
        self.msi
    }

    /// A frozen clock tree that selects the multi-speed oscillator as the
    /// 48 MHz source always reports which speed range it runs at; a
    /// descriptor violating this cannot be produced.
    #[verifier::type_invariant]
    pub open spec fn wf(self) -> bool {
        self.clk48_spec() == Some(Clk48Source::Msi) ==> self.msi_spec() is Some
    }

    pub fn new(clk48: Option<Clk48Source>, msi: Option<MsiFreq>) -> (r: Self)
        requires
            clk48 == Some(Clk48Source::Msi) ==> msi is Some,
        ensures
            r.clk48_spec() == clk48,
            r.msi_spec() == msi,
    {
        ClockDescriptor { clk48, msi }
    }

    pub fn clk48_source(&self) -> (r: Option<Clk48Source>)
        ensures
            r == self.clk48_spec(),
    {
        self.clk48
    }

    pub fn msi(&self) -> (r: Option<MsiFreq>)
        ensures
            r == self.msi_spec(),
    {
        self.msi
    }
}

/// The clock configurations under which the hardware's random output is
/// statistically valid: the dedicated 48 MHz oscillator, or the multi-speed
/// oscillator at its validated 48 MHz or 400 kHz ranges.
pub open spec fn clock_config_ok(c: ClockDescriptor) -> bool {
    match c.clk48_spec() {
        Some(Clk48Source::Hsi48) => true,
        Some(Clk48Source::Msi) => c.msi_spec() == Some(MsiFreq::Range48M)
            || c.msi_spec() == Some(MsiFreq::Range400K),
        None => false,
    }
}

/// Which error a rejected configuration reports.
pub open spec fn clock_config_error(c: ClockDescriptor) -> ConfigError {
    if c.clk48_spec() is None {
        ConfigError::Clk48NotEnabled
    } else {
        ConfigError::NotValidatedSpeed
    }
}

/// Decides, before any register is touched, whether the configured clock
/// source is acceptable for correct operation: accepts exactly the validated
/// configurations and reports which precondition failed otherwise.
pub fn validate_clock_config(clocks: &ClockDescriptor) -> (r: Result<(), ConfigError>)
    ensures
        r is Ok <==> clock_config_ok(*clocks),
        !clock_config_ok(*clocks) ==> r == Err::<(), ConfigError>(clock_config_error(*clocks)),
{
    match clocks.clk48_source() {
        Some(source) => match (source, clocks.msi()) {
            (Clk48Source::Msi, Some(MsiFreq::Range48M)) => Ok(()),
            (Clk48Source::Msi, Some(MsiFreq::Range400K)) => Ok(()),
            (Clk48Source::Msi, Some(_)) => Err(ConfigError::NotValidatedSpeed),
            (Clk48Source::Msi, None) => {
                // A descriptor selecting the multi-speed oscillator always
                // reports its speed; this arm cannot run.
                proof {
                    use_type_invariant(clocks);
                }
                Err(ConfigError::NotValidatedSpeed)
            }
            (Clk48Source::Hsi48, _) => Ok(()),
        },
        None => Err(ConfigError::Clk48NotEnabled),
    }
}

} // verus!
