use my_voice_chat::audio::{
    get_best_input_config, get_best_output_config, needs_resampling, AudioSettings, ConfigRange,
    StreamSpec, DEFAULT_RING_BUFFER_CAPACITY, LOW_RATE_LIMIT,
};

fn spec(channels: u16, sample_rate: u32) -> StreamSpec {
    StreamSpec { channels, sample_rate }
}

fn range(channels: u16, min_sample_rate: u32, max_sample_rate: u32) -> ConfigRange {
    ConfigRange { channels, min_sample_rate, max_sample_rate }
}

#[test]
fn default_settings_values() {
    let s = AudioSettings::default();
    assert_eq!(s.target_sample_rate, 48000);
    assert_eq!(s.ring_buffer_capacity, 4096);
    assert_eq!(DEFAULT_RING_BUFFER_CAPACITY, 4096);
}

#[test]
fn low_rate_headset_keeps_its_default() {
    let ranges = vec![range(1, 8000, 48000)];
    assert_eq!(get_best_input_config(spec(1, 16000), &ranges, 48000), spec(1, 16000));
    assert_eq!(get_best_input_config(spec(1, 24000), &ranges, 48000), spec(1, 24000));
    assert_eq!(LOW_RATE_LIMIT, 24000);
}

#[test]
fn input_just_above_low_rate_is_moved_to_target() {
    let ranges = vec![range(1, 8000, 48000)];
    assert_eq!(get_best_input_config(spec(1, 24001), &ranges, 48000), spec(1, 48000));
}

#[test]
fn input_takes_target_with_own_channel_count() {
    let ranges = vec![range(1, 44100, 44100), range(2, 8000, 96000), range(1, 8000, 96000)];
    assert_eq!(get_best_input_config(spec(1, 44100), &ranges, 48000), spec(1, 48000));
}

#[test]
fn input_without_matching_channels_keeps_default() {
    let ranges = vec![range(2, 8000, 96000), range(4, 48000, 48000)];
    assert_eq!(get_best_input_config(spec(1, 44100), &ranges, 48000), spec(1, 44100));
}

#[test]
fn rate_bounds_are_inclusive() {
    assert_eq!(get_best_output_config(spec(2, 44100), &[range(2, 48000, 48000)], 48000), spec(2, 48000));
    assert_eq!(get_best_output_config(spec(2, 44100), &[range(2, 48001, 96000)], 48000), spec(2, 44100));
    assert_eq!(get_best_output_config(spec(2, 44100), &[range(2, 8000, 47999)], 48000), spec(2, 44100));
}

#[test]
fn empty_range_list_keeps_default() {
    assert_eq!(get_best_input_config(spec(2, 44100), &[], 48000), spec(2, 44100));
    assert_eq!(get_best_output_config(spec(2, 44100), &[], 48000), spec(2, 44100));
}

#[test]
fn output_has_no_low_rate_guard() {
    let ranges = vec![range(2, 8000, 48000)];
    assert_eq!(get_best_output_config(spec(2, 16000), &ranges, 48000), spec(2, 48000));
    assert_eq!(get_best_input_config(spec(2, 16000), &ranges, 48000), spec(2, 16000));
}

#[test]
fn listing_order_does_not_matter() {
    let a = vec![range(2, 8000, 16000), range(1, 8000, 96000), range(1, 44100, 44100)];
    let b = vec![range(1, 44100, 44100), range(1, 8000, 96000), range(2, 8000, 16000)];
    assert_eq!(get_best_output_config(spec(1, 44100), &a, 48000), get_best_output_config(spec(1, 44100), &b, 48000));
    assert_eq!(get_best_input_config(spec(1, 44100), &a, 48000), spec(1, 48000));
}

#[test]
fn default_at_target_is_kept() {
    let ranges = vec![range(2, 8000, 96000)];
    assert_eq!(get_best_output_config(spec(2, 48000), &ranges, 48000), spec(2, 48000));
    assert_eq!(get_best_input_config(spec(2, 48000), &[], 48000), spec(2, 48000));
}

#[test]
fn resampling_only_off_codec_rate() {
    assert!(!needs_resampling(48000));
    assert!(needs_resampling(44100));
    assert!(needs_resampling(16000));
    assert!(needs_resampling(96000));
}

#[test]
fn chosen_config_lies_in_a_reported_range() {
    let ranges = vec![range(2, 8000, 32000), range(2, 44100, 96000)];
    let chosen = get_best_output_config(spec(2, 44100), &ranges, 48000);
    assert_eq!(chosen, spec(2, 48000));
    assert!(ranges.iter().any(|r| r.channels == chosen.channels
        && r.min_sample_rate <= chosen.sample_rate
        && chosen.sample_rate <= r.max_sample_rate));
}
