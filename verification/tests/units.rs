use sysmon_tui::sysmon::Sysmon;
use sysmon_tui::ui::tui::gb_text;
use sysmon_tui::units::{div_round_half_even, hundredths_of_gb, round_to_53_bits};

fn printed(bytes: u64) -> String {
    format!("{:.2} GB", bytes as f64 / 1024.0 / 1024.0 / 1024.0)
}

#[test]
fn eight_gib_is_eight_point_zero_zero() {
    assert_eq!(hundredths_of_gb(8589934592), 800);
    assert_eq!(Sysmon::bytes_to_gb(8589934592), 800);
    assert_eq!(gb_text(8589934592), "8.00 GB");
}

#[test]
fn zero_bytes() {
    assert_eq!(hundredths_of_gb(0), 0);
    assert_eq!(gb_text(0), "0.00 GB");
}

#[test]
fn one_and_a_half_gib() {
    assert_eq!(hundredths_of_gb(1024 * 1024 * 1024 + 512 * 1024 * 1024), 150);
    assert_eq!(gb_text(1024 * 1024 * 1024 + 512 * 1024 * 1024), "1.50 GB");
}

#[test]
fn half_way_goes_to_the_even_hundredth() {
    // an eighth of a gigabyte is 12.5 hundredths
    assert_eq!(hundredths_of_gb(1 << 27), 12);
    assert_eq!(gb_text(1 << 27), "0.12 GB");
    // three eighths are 37.5 hundredths
    assert_eq!(hundredths_of_gb(3 << 27), 38);
    assert_eq!(gb_text(3 << 27), "0.38 GB");
    assert_eq!(gb_text(5 << 27), "0.62 GB");
    assert_eq!(gb_text(7 << 27), "0.88 GB");
}

#[test]
fn just_off_half_way() {
    assert_eq!(gb_text((1 << 27) - 1), printed((1 << 27) - 1));
    assert_eq!(gb_text((1 << 27) + 1), "0.13 GB");
    assert_eq!(gb_text((3 << 27) - 1), "0.37 GB");
}

#[test]
fn division_rounds_half_to_even() {
    assert_eq!(div_round_half_even(0, 4), 0);
    assert_eq!(div_round_half_even(1, 4), 0);
    assert_eq!(div_round_half_even(2, 4), 0);
    assert_eq!(div_round_half_even(3, 4), 1);
    assert_eq!(div_round_half_even(6, 4), 2);
    assert_eq!(div_round_half_even(10, 4), 2);
    assert_eq!(div_round_half_even(11, 4), 3);
    assert_eq!(div_round_half_even(7, 1), 7);
    assert_eq!(div_round_half_even(u128::MAX, 1), u128::MAX);
    assert_eq!(div_round_half_even(u128::MAX, u128::MAX), 1);
    assert_eq!(div_round_half_even(u128::MAX - 1, u128::MAX), 1);
    assert_eq!(div_round_half_even(5, 3), 2);
    assert_eq!(div_round_half_even(4, 3), 1);
}

#[test]
fn counts_below_the_limit_stay_exact() {
    assert_eq!(round_to_53_bits(0), 0);
    assert_eq!(round_to_53_bits(1), 1);
    assert_eq!(round_to_53_bits((1 << 53) - 1), (1 << 53) - 1);
    assert_eq!(round_to_53_bits(1 << 53), 1 << 53);
}

#[test]
fn large_counts_round_to_53_bits() {
    assert_eq!(round_to_53_bits((1 << 53) + 1), 1 << 53);
    assert_eq!(round_to_53_bits((1 << 53) + 2), (1 << 53) + 2);
    assert_eq!(round_to_53_bits((1 << 53) + 3), (1 << 53) + 4);
    assert_eq!(round_to_53_bits((1 << 54) - 1), 1 << 54);
    assert_eq!(round_to_53_bits(u64::MAX), 1 << 64);
    // half way between two neighbours: to the one with the even significand
    assert_eq!(round_to_53_bits(u64::MAX - 1023), 1 << 64);
    assert_eq!(round_to_53_bits(u64::MAX - 1024), (1 << 64) - 2048);
}

#[test]
fn rounding_agrees_with_the_machine_conversion() {
    let mut state: u64 = 0x9e37_79b9_7f4a_7c15;
    let mut i = 0;
    while i < 20000 {
        state = state.wrapping_mul(6364136223846793005).wrapping_add(1442695040888963407);
        let shift = (state >> 58) as u32;
        let bytes = state >> (shift % 64);
        assert_eq!(round_to_53_bits(bytes), (bytes as f64) as u128, "bytes = {}", bytes);
        i += 1;
    }
}

#[test]
fn largest_count() {
    assert_eq!(gb_text(u64::MAX), "17179869184.00 GB");
    assert_eq!(gb_text(u64::MAX), printed(u64::MAX));
}

#[test]
fn text_agrees_with_the_printed_quotient() {
    let mut state: u64 = 0x2545_f491_4f6c_dd1d;
    let mut i = 0;
    while i < 20000 {
        state = state.wrapping_mul(6364136223846793005).wrapping_add(1442695040888963407);
        let shift = (state >> 58) as u32;
        let bytes = state >> (shift % 64);
        assert_eq!(gb_text(bytes), printed(bytes), "bytes = {}", bytes);
        i += 1;
    }
}

#[test]
fn text_agrees_on_every_half_way_count() {
    let mut k: u64 = 0;
    while k < 4000 {
        let bytes = (2 * k + 1) << 27;
        assert_eq!(gb_text(bytes), printed(bytes), "bytes = {}", bytes);
        assert_eq!(gb_text(bytes - 1), printed(bytes - 1), "bytes = {}", bytes - 1);
        assert_eq!(gb_text(bytes + 1), printed(bytes + 1), "bytes = {}", bytes + 1);
        k += 1;
    }
}

#[test]
fn text_agrees_near_powers_of_two() {
    let mut bit = 0;
    while bit < 64 {
        let base: u64 = 1 << bit;
        let mut d: u64 = 0;
        while d < 40 {
            let up = base.wrapping_add(d);
            let down = base.wrapping_sub(d);
            assert_eq!(gb_text(up), printed(up), "bytes = {}", up);
            assert_eq!(gb_text(down), printed(down), "bytes = {}", down);
            d += 1;
        }
        bit += 1;
    }
}

#[test]
fn memory_values_have_two_decimals_and_the_unit() {
    let samples: Vec<u64> = vec![0, 1, 1023, 1 << 20, 1 << 30, 123456789012, u64::MAX / 3, u64::MAX];
    for bytes in samples {
        let line = gb_text(bytes);
        assert!(line.ends_with(" GB"));
        let number = &line[..line.len() - 3];
        let point = number.find('.').unwrap();
        assert!(point >= 1);
        assert_eq!(number.len() - point - 1, 2);
        assert!(number[..point].chars().all(|c| c.is_ascii_digit()));
        assert!(number[point + 1..].chars().all(|c| c.is_ascii_digit()));
    }
}
