use fancymount::mount_ops::format_bytes;

/// The float-based formatting the byte counts are meant to match.
fn float_format(bytes: u64) -> String {
    let units = ["B", "KB", "MB", "GB", "TB", "PB"];
    let mut size = bytes as f64;
    let mut unit_idx = 0usize;
    while size >= 1024.0 && unit_idx < units.len() - 1 {
        size /= 1024.0;
        unit_idx += 1;
    }
    if unit_idx == 0 {
        format!("{} {}", bytes, units[unit_idx])
    } else {
        format!("{:.1} {}", size, units[unit_idx])
    }
}

#[test]
fn format_bytes_documented_examples() {
    assert_eq!(format_bytes(0), "0 B");
    assert_eq!(format_bytes(1023), "1023 B");
    assert_eq!(format_bytes(1536), "1.5 KB");
    assert_eq!(format_bytes(1_610_612_736), "1.5 GB");
}

#[test]
fn format_bytes_unit_boundaries() {
    assert_eq!(format_bytes(1024), "1.0 KB");
    assert_eq!(format_bytes(1024 * 1024 - 1), "1024.0 KB");
    assert_eq!(format_bytes(1024 * 1024), "1.0 MB");
    assert_eq!(format_bytes(1u64 << 40), "1.0 TB");
    assert_eq!(format_bytes(1u64 << 50), "1.0 PB");
    assert_eq!(format_bytes(u64::MAX), "16384.0 PB");
}

#[test]
fn format_bytes_rounds_halves_to_even() {
    // 1280 B is exactly 1.25 KB; 1.25 rounds to 1.2 (even), 1.75 to 1.8.
    assert_eq!(format_bytes(1280), "1.2 KB");
    assert_eq!(format_bytes(1792), "1.8 KB");
    assert_eq!(format_bytes(1024 + 51), "1.0 KB");
    assert_eq!(format_bytes(1024 + 52), "1.1 KB");
}

#[test]
fn format_bytes_matches_float_formatting() {
    for b in 0u64..5000 {
        assert_eq!(format_bytes(b), float_format(b), "bytes = {}", b);
    }
    for k in 0..64u32 {
        let p = 1u64 << k;
        for d in [p, p.wrapping_sub(1), p.wrapping_add(1), p / 4 * 5, p / 8 * 9, p / 16 * 21] {
            assert_eq!(format_bytes(d), float_format(d), "bytes = {}", d);
        }
    }
    let mut x: u64 = 0x9E37_79B9_7F4A_7C15;
    for _ in 0..200_000 {
        x = x.wrapping_mul(6364136223846793005).wrapping_add(1442695040888963407);
        let shift = (x >> 58) as u32;
        let v = x >> shift;
        assert_eq!(format_bytes(v), float_format(v), "bytes = {}", v);
    }
}
