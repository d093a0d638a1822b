use fileman::textfmt::{format_size, mode_to_string, u64_to_dec};

#[test]
fn permission_bits_render_one_flag_each() {
    assert_eq!(mode_to_string(0o754), "rwxr-xr--");
    assert_eq!(mode_to_string(0o644), "rw-r--r--");
    assert_eq!(mode_to_string(0o000), "---------");
    assert_eq!(mode_to_string(0o777), "rwxrwxrwx");
    assert_eq!(mode_to_string(0o100644), "rw-r--r--", "only the nine low bits show");
}

#[test]
fn decimal_rendering() {
    assert_eq!(u64_to_dec(0), "0");
    assert_eq!(u64_to_dec(7), "7");
    assert_eq!(u64_to_dec(1024), "1024");
    assert_eq!(u64_to_dec(18446744073709551615), "18446744073709551615");
}

#[test]
fn sizes_under_a_kilobyte_are_plain_bytes() {
    assert_eq!(format_size(0), "0 B");
    assert_eq!(format_size(512), "512 B");
    assert_eq!(format_size(1023), "1023 B");
}

#[test]
fn sizes_scale_to_the_largest_unit() {
    assert_eq!(format_size(1024), "1.00 KB");
    assert_eq!(format_size(1536), "1.50 KB");
    assert_eq!(format_size(1024 * 1024), "1.00 MB");
    assert_eq!(format_size(5 * 1024 * 1024 + 512 * 1024), "5.50 MB");
    assert_eq!(format_size(1024 * 1024 * 1024), "1.00 GB");
    assert_eq!(format_size(3 * 1024 * 1024 * 1024 + 256 * 1024 * 1024), "3.25 GB");
}

#[test]
fn sizes_round_like_fixed_point_printing() {
    // 1535 / 1024 = 1.4990…, printed with two decimals as 1.50
    assert_eq!(format_size(1535), "1.50 KB");
    // 1029 / 1024 = 1.0048…, printed with two decimals as 1.00
    assert_eq!(format_size(1029), "1.00 KB");
    // 1039 / 1024 = 1.0146…, printed with two decimals as 1.01
    assert_eq!(format_size(1039), "1.01 KB");
}
