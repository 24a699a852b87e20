use lightsysmon::units::format_bytes;

/// The formula the byte counts are shown with, in floating point.
fn reference(bytes: u64) -> String {
    const KIB: u64 = 1024;
    const MIB: u64 = 1024 * KIB;
    const GIB: u64 = 1024 * MIB;
    if bytes >= GIB {
        format!("{:.2} GiB", bytes as f64 / GIB as f64)
    } else if bytes >= MIB {
        format!("{:.2} MiB", bytes as f64 / MIB as f64)
    } else if bytes >= KIB {
        format!("{:.2} KiB", bytes as f64 / KIB as f64)
    } else {
        format!("{} B", bytes)
    }
}

#[test]
fn bytes_below_one_kib_are_exact() {
    assert_eq!(format_bytes(0), "0 B");
    assert_eq!(format_bytes(1), "1 B");
    assert_eq!(format_bytes(512), "512 B");
    assert_eq!(format_bytes(1023), "1023 B");
}

#[test]
fn binary_units() {
    assert_eq!(format_bytes(1024), "1.00 KiB");
    assert_eq!(format_bytes(1536), "1.50 KiB");
    assert_eq!(format_bytes(1048575), "1024.00 KiB");
    assert_eq!(format_bytes(1048576), "1.00 MiB");
    assert_eq!(format_bytes(5 * 1048576 + 1048576 / 4), "5.25 MiB");
    assert_eq!(format_bytes(1073741824), "1.00 GiB");
    assert_eq!(format_bytes(16 * 1073741824), "16.00 GiB");
}

#[test]
fn ties_round_to_even() {
    // 1.005 KiB is not a tie (the quotient is not exactly representable in
    // hundredths), but 1.125 KiB is exactly halfway between 1.12 and 1.13.
    assert_eq!(format_bytes(1152), "1.12 KiB");
    // 1.375 KiB is halfway between 1.37 and 1.38: the even neighbour wins.
    assert_eq!(format_bytes(1408), "1.38 KiB");
    assert_eq!(format_bytes(1152), reference(1152));
    assert_eq!(format_bytes(1408), reference(1408));
}

#[test]
fn huge_counts() {
    assert_eq!(format_bytes(u64::MAX), reference(u64::MAX));
    assert_eq!(format_bytes(u64::MAX), "17179869184.00 GiB");
    assert_eq!(format_bytes(1 << 53), reference(1 << 53));
    assert_eq!(format_bytes((1 << 53) + 1), reference((1 << 53) + 1));
    assert_eq!(format_bytes((1 << 60) + 3), reference((1 << 60) + 3));
}

#[test]
fn agrees_with_the_floating_point_formula() {
    let mut x: u64 = 0x9E37_79B9_7F4A_7C15;
    for shift in 0..64u32 {
        for _ in 0..200 {
            x = x.wrapping_mul(6364136223846793005).wrapping_add(1442695040888963407);
            let v = x >> shift;
            assert_eq!(format_bytes(v), reference(v), "bytes = {}", v);
        }
    }
    for v in 0..20000u64 {
        assert_eq!(format_bytes(v), reference(v), "bytes = {}", v);
    }
    for k in 1..4u32 {
        let unit = 1u64 << (10 * k);
        for m in 0..5000u64 {
            // exact multiples of a 2^-n fraction of the unit, where ties live
            let v = unit + m * (unit / 1024).max(1);
            assert_eq!(format_bytes(v), reference(v), "bytes = {}", v);
            let w = (unit * 3).wrapping_add(m * 8);
            assert_eq!(format_bytes(w), reference(w), "bytes = {}", w);
        }
    }
}

#[test]
fn shown_value_is_within_half_a_hundredth() {
    // 1.0049 KiB rounds down, 1.0051 KiB rounds up.
    assert_eq!(format_bytes(1029), "1.00 KiB");
    assert_eq!(format_bytes(1030), "1.01 KiB");
}
