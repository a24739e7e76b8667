//! The clock-validation decision table: exactly the validated source/speed
//! combinations are accepted, and every other reachable combination is
//! rejected with the matching configuration error.

use trng_driver::clocks::validate_clock_config;
use trng_driver::{Clk48Source, ClockDescriptor, ConfigError, MsiFreq};

fn descriptor(clk48: Option<Clk48Source>, msi: Option<MsiFreq>) -> ClockDescriptor {
    ClockDescriptor::new(clk48, msi)
}

#[test]
fn accepts_msi_at_48mhz_range() {
    let c = descriptor(Some(Clk48Source::Msi), Some(MsiFreq::Range48M));
    assert_eq!(validate_clock_config(&c), Ok(()));
}

#[test]
fn accepts_msi_at_400khz_range() {
    let c = descriptor(Some(Clk48Source::Msi), Some(MsiFreq::Range400K));
    assert_eq!(validate_clock_config(&c), Ok(()));
}

#[test]
fn accepts_hsi48_with_msi_running() {
    let c = descriptor(Some(Clk48Source::Hsi48), Some(MsiFreq::Range32M));
    assert_eq!(validate_clock_config(&c), Ok(()));
}

#[test]
fn accepts_hsi48_without_msi() {
    let c = descriptor(Some(Clk48Source::Hsi48), None);
    assert_eq!(validate_clock_config(&c), Ok(()));
}

#[test]
fn rejects_every_other_msi_speed() {
    let other_speeds = [
        MsiFreq::Range100K,
        MsiFreq::Range200K,
        MsiFreq::Range800K,
        MsiFreq::Range1M,
        MsiFreq::Range2M,
        MsiFreq::Range4M,
        MsiFreq::Range8M,
        MsiFreq::Range16M,
        MsiFreq::Range24M,
        MsiFreq::Range32M,
    ];
    for speed in other_speeds {
        let c = descriptor(Some(Clk48Source::Msi), Some(speed));
        assert_eq!(
            validate_clock_config(&c),
            Err(ConfigError::NotValidatedSpeed)
        );
    }
}

#[test]
fn rejects_missing_clk48_source() {
    for msi in [None, Some(MsiFreq::Range48M), Some(MsiFreq::Range100K)] {
        let c = descriptor(None, msi);
        assert_eq!(validate_clock_config(&c), Err(ConfigError::Clk48NotEnabled));
    }
}
