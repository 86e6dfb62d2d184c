use rubato_downsampler::limits::{MAX_RESAMPLE_RATE, MIN_RESAMPLE_RATE, RESAMPLE_CHUNK_SIZE};
use rubato_downsampler::quantizer::find_resample_rate;

fn gcd(a: u64, b: u64) -> u64 {
    if b == 0 {
        a
    } else {
        gcd(b, a % b)
    }
}

/// Checks one result against the closed form: the aligned rates are the
/// multiples of `host / gcd(chunk, host)`.
fn check_effective(target: u32, host: u32) {
    let rate = find_resample_rate(target, host);
    let chunk = RESAMPLE_CHUNK_SIZE as u64;
    let step = host as u64 / gcd(chunk, host as u64);
    assert!(rate >= target as u64, "target {target} host {host} gave {rate}");
    assert_eq!((chunk * rate) % host as u64, 0, "target {target} host {host} gave {rate}");
    assert_eq!(rate % step, 0);
    assert!(rate - (target as u64) < step, "target {target} host {host}: {rate} is not the nearest");
    assert!(rate < target as u64 + host as u64);
}

fn sweep(host: u32) {
    for target in MIN_RESAMPLE_RATE..=MAX_RESAMPLE_RATE {
        check_effective(target, host);
    }
}

#[test]
fn quantizes_every_target_at_44100() {
    sweep(44_100);
}

#[test]
fn quantizes_every_target_at_48000() {
    sweep(48_000);
}

#[test]
fn quantizes_every_target_at_88200() {
    sweep(88_200);
}

#[test]
fn quantizes_every_target_at_96000() {
    sweep(96_000);
}

#[test]
fn quantizes_every_target_at_192000() {
    sweep(192_000);
}

#[test]
fn quantizes_at_host_rates_off_the_standard_ones() {
    for host in [1u32, 2, 37, 38, 127, 128, 129, 8_000, 11_025, 22_050, 32_000, 47_999, 176_400] {
        for target in [0u32, 1, 249, 250, 251, 9_999, 10_000, 10_001, 29_999, 30_000, 30_001] {
            check_effective(target, host);
        }
    }
}

#[test]
fn ten_kilohertz_at_48000_moves_to_the_next_aligned_rate() {
    // 10000 itself is not aligned.
    assert_eq!((128u64 * 10_000) % 48_000, 32_000);
    // 10500 is aligned, but it is not the nearest aligned rate.
    assert_eq!(128u64 * 10_500, 1_344_000);
    assert_eq!((128u64 * 10_500) % 48_000, 0);
    let rate = find_resample_rate(10_000, 48_000);
    assert_eq!(rate, 10_125);
    assert_eq!((128 * rate) % 48_000, 0);
    for candidate in 10_000u64..rate {
        assert_ne!((128 * candidate) % 48_000, 0, "{candidate} is aligned and lower");
    }
}

#[test]
fn known_effective_rates() {
    assert_eq!(find_resample_rate(250, 44_100), 11_025);
    assert_eq!(find_resample_rate(10_000, 44_100), 11_025);
    assert_eq!(find_resample_rate(30_000, 44_100), 33_075);
    assert_eq!(find_resample_rate(250, 48_000), 375);
    assert_eq!(find_resample_rate(5_000, 48_000), 5_250);
    assert_eq!(find_resample_rate(30_000, 48_000), 30_000);
    assert_eq!(find_resample_rate(30_000, 88_200), 33_075);
    assert_eq!(find_resample_rate(250, 96_000), 750);
    assert_eq!(find_resample_rate(10_000, 96_000), 10_500);
    assert_eq!(find_resample_rate(250, 192_000), 1_500);
    assert_eq!(find_resample_rate(5_000, 192_000), 6_000);
    assert_eq!(find_resample_rate(10_000, 192_000), 10_500);
}

#[test]
fn aligned_target_is_returned_unchanged() {
    assert_eq!(find_resample_rate(12_000, 48_000), 12_000);
    assert_eq!(find_resample_rate(10_125, 48_000), 10_125);
    assert_eq!(find_resample_rate(11_025, 44_100), 11_025);
    assert_eq!(find_resample_rate(48_000, 48_000), 48_000);
    assert_eq!(find_resample_rate(0, 48_000), 0);
}

#[test]
fn one_above_an_aligned_rate_moves_a_whole_step() {
    assert_eq!(find_resample_rate(1, 48_000), 375);
    assert_eq!(find_resample_rate(10_126, 48_000), 10_500);
    assert_eq!(find_resample_rate(11_026, 44_100), 22_050);
}

#[test]
fn every_rate_is_aligned_to_a_host_rate_that_divides_the_chunk() {
    assert_eq!(find_resample_rate(7, 1), 7);
    assert_eq!(find_resample_rate(30_000, 1), 30_000);
    assert_eq!(find_resample_rate(12_345, 128), 12_345);
    assert_eq!(find_resample_rate(12_345, 64), 12_345);
}

#[test]
fn target_above_the_host_rate_is_quantized_too() {
    // At 8 kHz the aligned rates are the multiples of 125.
    assert_eq!(find_resample_rate(10_000, 8_000), 10_000);
    assert_eq!(find_resample_rate(10_001, 8_000), 10_125);
    assert_eq!(find_resample_rate(30_000, 38), 30_001);
    assert_eq!(find_resample_rate(30_000, 37), 30_007);
}

#[test]
fn result_may_exceed_the_range_of_the_target() {
    assert_eq!(find_resample_rate(u32::MAX, 3), 4_294_967_295);
    assert_eq!(find_resample_rate(u32::MAX, 7), 4_294_967_299);
    assert_eq!(find_resample_rate(4_294_967_290, 9), 4_294_967_292);
    assert_eq!(find_resample_rate(u32::MAX, u32::MAX), 4_294_967_295);
}
