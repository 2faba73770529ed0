use video4discord::bitrate::{calculate_video_bitrate, solve_video_bitrate};
use video4discord::error::Error;

#[test]
fn eight_mib_hundred_seconds_with_audio() {
    // 8 MiB, 64 kbps audio, 5 % overhead: ((65536 / 100) - 1.05 * 64) / 1.05 = 560.15...
    assert_eq!(solve_video_bitrate(100, 8 * 1024, 64, 500), Ok(560));
    assert_eq!(calculate_video_bitrate(100, 8 * 1024, 64, 500), Ok(560));
}

#[test]
fn no_audio_gives_whole_budget_to_video() {
    // (65536 / 100) / 1.05 = 624.15...
    assert_eq!(solve_video_bitrate(100, 8 * 1024, 0, 500), Ok(624));
    // No overhead: 65536 / 100 = 655.36
    assert_eq!(solve_video_bitrate(100, 8 * 1024, 0, 0), Ok(655));
}

#[test]
fn infeasible_target_is_reported() {
    // One hour into 1 MiB leaves 8192 / 3600 = 2.27 kbps, less than the audio.
    assert_eq!(solve_video_bitrate(3600, 1024, 64, 500), Err(Error::InfeasibleTarget));
    assert_eq!(calculate_video_bitrate(3600, 1024, 64, 500), Ok(-61));
}

#[test]
fn zero_bitrate_is_infeasible() {
    // 8 kibibits over 10 s is 0.8 kbps: truncates to zero.
    assert_eq!(calculate_video_bitrate(10, 1, 0, 0), Ok(0));
    assert_eq!(solve_video_bitrate(10, 1, 0, 0), Err(Error::InfeasibleTarget));
}

#[test]
fn negative_result_truncates_toward_zero() {
    // 8 / 3 - 9 = -6.33...
    assert_eq!(calculate_video_bitrate(3, 1, 9, 0), Ok(-6));
    // Fed back: 3 * (-6 + 9) = 9 kibibits against a budget of 8, short of one kbps more.
    let size = 3 * (-6 + 9);
    assert!(size > 8 && size < 8 + 3);
}

#[test]
fn zero_duration_or_size_is_invalid() {
    assert_eq!(calculate_video_bitrate(0, 8192, 64, 500), Err(Error::InvalidRequest));
    assert_eq!(solve_video_bitrate(100, 0, 64, 500), Err(Error::InvalidRequest));
}

#[test]
fn solution_fits_size_model() {
    for &(d, t, a, bp) in &[(100u64, 8192u32, 64u16, 500u32), (37, 25 * 1024, 128, 1250), (1, 1, 0, 0), (7200, 50 * 1024, 32, 0)] {
        let v = solve_video_bitrate(d, t, a, bp).unwrap() as u128;
        let budget = t as u128 * 8 * 10000;
        let size = |video: u128| d as u128 * (video + a as u128) * (10000 + bp as u128);
        assert!(size(v) <= budget);
        assert!(budget < size(v + 1));
    }
}

#[test]
fn largest_inputs_do_not_overflow() {
    assert_eq!(calculate_video_bitrate(1, u32::MAX, 0, 0), Ok(u32::MAX as i64 * 8));
    assert_eq!(calculate_video_bitrate(u64::MAX, 1, u16::MAX, u32::MAX), Ok(-(u16::MAX as i64 - 1)));
}
