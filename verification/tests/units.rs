use sysmon::units::{bytes_to_gb, fmt_rate, RateDisplay, RateUnit};

#[test]
fn bytes_to_gb_zero_is_zero() {
    assert_eq!(bytes_to_gb(0), 0);
}

#[test]
fn bytes_to_gb_one_gigabyte_is_exact() {
    assert_eq!(bytes_to_gb(1073741824), 10);
}

#[test]
fn bytes_to_gb_rounds_to_one_decimal() {
    // 1.25 GB rounds up to 1.3 GB.
    assert_eq!(bytes_to_gb(1342177280), 13);
    // 2.5 GB is exactly 2.5 GB.
    assert_eq!(bytes_to_gb(2684354560), 25);
}

#[test]
fn bytes_to_gb_just_below_half_a_tenth_rounds_down() {
    // 0.05 GB minus a sliver rounds down to 0.0 GB.
    assert_eq!(bytes_to_gb(53687091), 0);
}

#[test]
fn bytes_to_gb_huge_value_does_not_overflow() {
    // u64::MAX bytes is 16 EiB; in tenths of GiB: round(u64::MAX * 10 / 2^30).
    assert_eq!(bytes_to_gb(u64::MAX), 171798691840);
}

#[test]
fn fmt_rate_bytes_range() {
    assert_eq!(
        fmt_rate(0),
        RateDisplay { unit: RateUnit::BytesPerSec, scaled: 0 }
    );
    assert_eq!(
        fmt_rate(1023),
        RateDisplay { unit: RateUnit::BytesPerSec, scaled: 1023 }
    );
}

#[test]
fn fmt_rate_kib_range() {
    // 1024 B/s is 1.0 KiB/s.
    assert_eq!(
        fmt_rate(1024),
        RateDisplay { unit: RateUnit::KibPerSec, scaled: 10 }
    );
    // 1536 B/s is 1.5 KiB/s.
    assert_eq!(
        fmt_rate(1536),
        RateDisplay { unit: RateUnit::KibPerSec, scaled: 15 }
    );
}

#[test]
fn fmt_rate_mib_range() {
    // 1 MiB/s exactly.
    assert_eq!(
        fmt_rate(1048576),
        RateDisplay { unit: RateUnit::MibPerSec, scaled: 10 }
    );
    // 2.5 MiB/s.
    assert_eq!(
        fmt_rate(2621440),
        RateDisplay { unit: RateUnit::MibPerSec, scaled: 25 }
    );
}

#[test]
fn fmt_rate_gib_range_two_decimals() {
    // 1 GiB/s exactly, in hundredths.
    assert_eq!(
        fmt_rate(1073741824),
        RateDisplay { unit: RateUnit::GibPerSec, scaled: 100 }
    );
    // 1.25 GiB/s.
    assert_eq!(
        fmt_rate(1342177280),
        RateDisplay { unit: RateUnit::GibPerSec, scaled: 125 }
    );
}
