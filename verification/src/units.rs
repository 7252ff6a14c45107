//! Unit conversion: bytes to gigabytes (fixed one-decimal rounding) and
//! scaling of byte-per-second rates for display.
//!
//! Quantities that carry a fractional part are represented in fixed point:
//! a value in "tenths" is ten times the displayed one-decimal number, a
//! value in "hundredths" a hundred times the two-decimal number. This keeps
//! every computation exact.

use vstd::prelude::*;

verus! {

/// Bytes in one binary gigabyte, 2^30. The canonical divisor for every
/// memory figure.
pub const BYTES_PER_GB: u64 = 0x4000_0000;

/// `bytes` converted to gigabytes (2^30 bytes each), rounded to the nearest
/// tenth of a gigabyte, as a number of tenths.
pub open spec fn gb_tenths(bytes: u64) -> int {
    (bytes * 10 + 0x2000_0000) / 0x4000_0000
}

/// Converts a byte count to tenths of a gigabyte, rounding to the nearest
/// tenth (ties away from zero). `bytes_to_gb(0) == 0` and
/// `bytes_to_gb(0x4000_0000) == 10`, i.e. exactly one gigabyte.
pub fn bytes_to_gb(bytes: u64) -> (tenths: u64)
    ensures
        tenths == gb_tenths(bytes),
{
    let wide: u128 = (bytes as u128) * 10 + 0x2000_0000;
    (wide / 0x4000_0000) as u64
}

/// The unit a rate is displayed in, chosen from the magnitude of the rate.
#[derive(Clone, Copy, Debug, PartialEq, Eq, Structural)]
pub enum RateUnit {
    /// Plain bytes per second, shown without decimals.
    BytesPerSec,
    /// Kibibytes per second, shown with one decimal.
    KibPerSec,
    /// Mebibytes per second, shown with one decimal.
    MibPerSec,
    /// Gibibytes per second, shown with two decimals.
    GibPerSec,
}

/// A rate scaled for display: the chosen unit together with the scaled
/// magnitude. For `BytesPerSec` the magnitude is whole bytes per second,
/// for `KibPerSec` and `MibPerSec` it is in tenths of the unit, and for
/// `GibPerSec` in hundredths.
#[derive(Clone, Copy, Debug, PartialEq, Eq, Structural)]
pub struct RateDisplay {
    pub unit: RateUnit,
    pub scaled: u64,
}

/// Scales a rate in bytes per second for display: below 1 KiB/s plain
/// bytes; below 1 MiB/s tenths of KiB/s; below 1 GiB/s tenths of MiB/s;
/// otherwise hundredths of GiB/s. Each scaled value is rounded to the
/// nearest representable step.
pub fn fmt_rate(bps: u64) -> (r: RateDisplay)
    ensures
        bps < 0x400 ==> r == (RateDisplay { unit: RateUnit::BytesPerSec, scaled: bps }),
        0x400 <= bps < 0x10_0000 ==> r == (RateDisplay {
            unit: RateUnit::KibPerSec,
            scaled: ((bps * 10 + 0x200) / 0x400) as u64,
        }),
        0x10_0000 <= bps < 0x4000_0000 ==> r == (RateDisplay {
            unit: RateUnit::MibPerSec,
            scaled: ((bps * 10 + 0x8_0000) / 0x10_0000) as u64,
        }),
        bps >= 0x4000_0000 ==> r == (RateDisplay {
            unit: RateUnit::GibPerSec,
            scaled: ((bps * 100 + 0x2000_0000) / 0x4000_0000) as u64,
        }),
{
    if bps < 0x400 {
        RateDisplay { unit: RateUnit::BytesPerSec, scaled: bps }
    } else if bps < 0x10_0000 {
        let tenths: u128 = ((bps as u128) * 10 + 0x200) / 0x400;
        RateDisplay { unit: RateUnit::KibPerSec, scaled: tenths as u64 }
    } else if bps < 0x4000_0000 {
        let tenths: u128 = ((bps as u128) * 10 + 0x8_0000) / 0x10_0000;
        RateDisplay { unit: RateUnit::MibPerSec, scaled: tenths as u64 }
    } else {
        let hundredths: u128 = ((bps as u128) * 100 + 0x2000_0000) / 0x4000_0000;
        RateDisplay { unit: RateUnit::GibPerSec, scaled: hundredths as u64 }
    }
}

} // verus!
