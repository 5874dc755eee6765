use adapter_report::size::PrettyFormat;

fn through_floats(n: u64) -> String {
    const KB: u64 = 1024;
    const MB: u64 = KB * 1024;
    const GB: u64 = MB * 1024;
    const TB: u64 = GB * 1024;
    if n >= TB {
        format!("{:.1} TB", n as f64 / TB as f64)
    } else if n >= GB {
        format!("{:.1} GB", n as f64 / GB as f64)
    } else if n >= MB {
        format!("{:.1} MB", n as f64 / MB as f64)
    } else if n >= KB {
        format!("{:.1} KB", n as f64 / KB as f64)
    } else {
        format!("{n} B")
    }
}

#[test]
fn boundary_values() {
    assert_eq!(0u64.pretty_format(), "0 B");
    assert_eq!(1023u64.pretty_format(), "1023 B");
    assert_eq!(1024u64.pretty_format(), "1.0 KB");
    assert_eq!(1048575u64.pretty_format(), "1024.0 KB");
    assert_eq!(1048576u64.pretty_format(), "1.0 MB");
    assert_eq!(1073741824u64.pretty_format(), "1.0 GB");
    assert_eq!(1099511627776u64.pretty_format(), "1.0 TB");
    assert_eq!(u64::MAX.pretty_format(), "16777216.0 TB");
}

#[test]
fn half_way_goes_to_the_even_tenth() {
    assert_eq!(1280u64.pretty_format(), "1.2 KB");
    assert_eq!(1792u64.pretty_format(), "1.8 KB");
    assert_eq!(1281u64.pretty_format(), "1.3 KB");
    assert_eq!(1279u64.pretty_format(), "1.2 KB");
}

#[test]
fn each_unit_with_one_decimal() {
    assert_eq!(1536u64.pretty_format(), "1.5 KB");
    assert_eq!(1_572_864u64.pretty_format(), "1.5 MB");
    assert_eq!(1_610_612_736u64.pretty_format(), "1.5 GB");
    assert_eq!(1_649_267_441_664u64.pretty_format(), "1.5 TB");
    assert_eq!(1_073_741_823u64.pretty_format(), "1024.0 MB");
    assert_eq!(1_099_511_627_775u64.pretty_format(), "1024.0 GB");
    assert_eq!(10_000_000u64.pretty_format(), "9.5 MB");
}

#[test]
fn large_counts_are_rounded_once() {
    assert_eq!(9_007_474_132_647_936u64.pretty_format(), "8192.2 TB");
    assert_eq!(9_007_474_132_647_937u64.pretty_format(), "8192.3 TB");
    assert_eq!((1u64 << 63).pretty_format(), "8388608.0 TB");
}

#[test]
fn narrow_counts_are_widened() {
    assert_eq!(65536u32.pretty_format(), "64.0 KB");
    assert_eq!(134217728u32.pretty_format(), "128.0 MB");
    assert_eq!(u32::MAX.pretty_format(), "4.0 GB");
    assert_eq!(0u32.pretty_format(), "0 B");
}

#[test]
fn agrees_with_floating_point_formatting() {
    let mut n: u64 = 0;
    while n < 3_000_000 {
        assert_eq!(n.pretty_format(), through_floats(n), "at {n}");
        n += 1;
    }
    let mut seed: u64 = 0x2545F4914F6CDD1D;
    let mut round = 0;
    while round < 200_000 {
        seed ^= seed << 13;
        seed ^= seed >> 7;
        seed ^= seed << 17;
        let n = seed >> (seed % 12);
        if n < (1u64 << 53) {
            assert_eq!(n.pretty_format(), through_floats(n), "at {n}");
        }
        round += 1;
    }
}

#[test]
fn every_narrow_half_way_point_agrees_with_floats() {
    let mut odd: u64 = 1;
    while odd * 256 <= u32::MAX as u64 {
        let n = odd * 256;
        assert_eq!(n.pretty_format(), through_floats(n), "at {n}");
        odd += 2 * 997;
    }
}
