use hestia::statements::{calculate_share, RATE_SCALE};
use hestia::text::{format_dollars, format_fixed4, format_percent, u128_to_string};

#[test]
fn share_is_rate_times_total() {
    // 30% of $1920.00: 3000 bp times 192000 cents, in fine units.
    assert_eq!(calculate_share(3000, 192000), 576_000_000);
    assert_eq!(calculate_share(0, 192000), 0);
    assert_eq!(calculate_share(3000, 0), 0);
    // A rate over 100% is accepted and scales proportionally.
    assert_eq!(calculate_share(20000, 50), 1_000_000);
}

#[test]
fn share_is_linear_in_both_arguments() {
    let (rate, a, b) = (2750, 12345, 67890);
    assert_eq!(
        calculate_share(rate, a + b),
        calculate_share(rate, a) + calculate_share(rate, b)
    );
    let (r1, r2, total) = (1234, 4321, 98765);
    assert_eq!(
        calculate_share(r1 + r2, total),
        calculate_share(r1, total) + calculate_share(r2, total)
    );
}

#[test]
fn rate_scale_is_one_hundred_percent() {
    assert_eq!(RATE_SCALE, 10000);
    assert_eq!(calculate_share(RATE_SCALE, 12345), 123_450_000);
}

#[test]
fn decimal_rendering() {
    assert_eq!(u128_to_string(0), "0");
    assert_eq!(u128_to_string(7), "7");
    assert_eq!(u128_to_string(10), "10");
    assert_eq!(u128_to_string(987654321), "987654321");
}

#[test]
fn dollar_rendering_rounds_to_cents() {
    // $2793.50 exactly, in fine units.
    assert_eq!(format_dollars(2_793_500_000), "2793.50");
    assert_eq!(format_dollars(0), "0.00");
    // One fine unit under and over a half-cent boundary.
    assert_eq!(format_dollars(4999), "0.00");
    assert_eq!(format_dollars(5000), "0.01");
    assert_eq!(format_dollars(10_000), "0.01");
    assert_eq!(format_dollars(1_234_567), "1.23");
}

#[test]
fn percent_rendering_rounds_to_tenths() {
    assert_eq!(format_percent(2000), "20.0");
    assert_eq!(format_percent(1500), "15.0");
    assert_eq!(format_percent(1000), "10.0");
    assert_eq!(format_percent(0), "0.0");
    assert_eq!(format_percent(25), "0.3");
    assert_eq!(format_percent(24), "0.2");
    assert_eq!(format_percent(12345), "123.5");
}

#[test]
fn fixed4_rendering_is_exact() {
    assert_eq!(format_fixed4(2000), "0.2000");
    assert_eq!(format_fixed4(0), "0.0000");
    assert_eq!(format_fixed4(10000), "1.0000");
    assert_eq!(format_fixed4(12345), "1.2345");
}
