use vstd::prelude::*;

use crate::codec::CODEC_SAMPLE_RATE;

verus! {

/// Settings of the audio pipeline.
pub struct AudioSettings {
    /// Sample rate, in Hz, that the devices are asked to run at.
    pub target_sample_rate: u32,
    /// Number of samples each ring buffer between the audio callbacks and the
    /// network side can hold.
    pub ring_buffer_capacity: usize,
}

/// Sample rate of the default settings.
pub const DEFAULT_TARGET_SAMPLE_RATE: u32 = 48000;

/// Ring buffer capacity of the default settings.
pub const DEFAULT_RING_BUFFER_CAPACITY: usize = 4096;

impl Default for AudioSettings {
    fn default() -> (s: Self)
        ensures
            s.target_sample_rate == DEFAULT_TARGET_SAMPLE_RATE,
            s.ring_buffer_capacity == DEFAULT_RING_BUFFER_CAPACITY,
    {
        AudioSettings {
            target_sample_rate: DEFAULT_TARGET_SAMPLE_RATE,
            ring_buffer_capacity: DEFAULT_RING_BUFFER_CAPACITY,
        }
    }
}

/// Channel count and sample rate a stream is opened with. The buffer size is
/// always left to the backend's default.
#[derive(Clone, Copy, Debug, PartialEq, Eq, Structural)]
pub struct StreamSpec {
    pub channels: u16,
    pub sample_rate: u32,
}

/// One range of configurations that a device reports as supported: a channel
/// count and the inclusive range of sample rates it can run at.
#[derive(Clone, Copy, Debug, PartialEq, Eq, Structural)]
pub struct ConfigRange {
    pub channels: u16,
    pub min_sample_rate: u32,
    pub max_sample_rate: u32,
}

/// Default rate at or below which an input device (a Bluetooth headset, say)
/// is opened with its own default configuration: forcing a higher rate on such
/// devices makes the driver reject the stream.
pub const LOW_RATE_LIMIT: u32 = 24000;

/// `r` keeps `channels` channels and can run at `target` Hz.
pub open spec fn range_fits(r: ConfigRange, channels: u16, target: u32) -> bool {
    &&& r.channels == channels
    &&& r.min_sample_rate <= target
    &&& target <= r.max_sample_rate
}

/// Some range of `ranges` keeps `channels` channels and can run at `target` Hz.
pub open spec fn some_range_fits(ranges: Seq<ConfigRange>, channels: u16, target: u32) -> bool {
    exists|i: int| 0 <= i < ranges.len() && range_fits(#[trigger] ranges[i], channels, target)
}

/// The configuration an output device is opened with: its own channel count at
/// the target rate where one of its supported ranges allows that, else its
/// default configuration.
pub open spec fn output_choice(default: StreamSpec, ranges: Seq<ConfigRange>, target: u32) -> StreamSpec {
    if some_range_fits(ranges, default.channels, target) {
        StreamSpec { channels: default.channels, sample_rate: target }
    } else {
        default
    }
}

/// The configuration an input device is opened with: its default configuration
/// when that runs at `LOW_RATE_LIMIT` Hz or less, else as for an output device.
pub open spec fn input_choice(default: StreamSpec, ranges: Seq<ConfigRange>, target: u32) -> StreamSpec {
    if default.sample_rate <= LOW_RATE_LIMIT {
        default
    } else {
        output_choice(default, ranges, target)
    }
}

/// The default configuration's channel count at `target` Hz where a supported
/// range allows it; the default configuration otherwise.
fn default_channels_at_target(default: StreamSpec, supported: &[ConfigRange], target: u32) -> (s:
    StreamSpec)
    ensures
        s == output_choice(default, supported@, target),
{
    let target_channels = default.channels;
    let mut i: usize = 0;
    while i < supported.len()
        invariant
            0 <= i <= supported@.len(),
            target_channels == default.channels,
            forall|j: int| 0 <= j < i ==> !range_fits(#[trigger] supported@[j], target_channels, target),
        decreases supported@.len() - i,
    {
        let config = supported[i];
        if config.channels == target_channels && config.min_sample_rate <= target && target
            <= config.max_sample_rate {
            return StreamSpec { channels: config.channels, sample_rate: target };
        }
        i = i + 1;
    }
    default
}

/// Chooses the configuration of an input device from its default configuration
/// and the ranges it reports as supported (empty where it could not list them).
pub fn get_best_input_config(default: StreamSpec, supported: &[ConfigRange], target_sr: u32) -> (s:
    StreamSpec)
    ensures
        s == input_choice(default, supported@, target_sr),
{
    if default.sample_rate <= LOW_RATE_LIMIT {
        return default;
    }
    default_channels_at_target(default, supported, target_sr)
}

/// Chooses the configuration of an output device from its default configuration
/// and the ranges it reports as supported (empty where it could not list them).
pub fn get_best_output_config(default: StreamSpec, supported: &[ConfigRange], target_sr: u32) -> (s:
    StreamSpec)
    ensures
        s == output_choice(default, supported@, target_sr),
{
    default_channels_at_target(default, supported, target_sr)
}

/// A stream whose device runs at `sample_rate` Hz needs a resampler between it
/// and the codec.
pub fn needs_resampling(sample_rate: u32) -> (r: bool)
    ensures
        r == (sample_rate != CODEC_SAMPLE_RATE),
{
    sample_rate != CODEC_SAMPLE_RATE
}

/// Whatever the device reports, its stream keeps the default channel count.
pub proof fn lemma_choice_keeps_channels(default: StreamSpec, ranges: Seq<ConfigRange>, target: u32)
    ensures
        input_choice(default, ranges, target).channels == default.channels,
        output_choice(default, ranges, target).channels == default.channels,
{
}

/// A device runs either at the target rate or with its whole default
/// configuration.
pub proof fn lemma_choice_is_target_or_default(
    default: StreamSpec,
    ranges: Seq<ConfigRange>,
    target: u32,
)
    ensures
        input_choice(default, ranges, target).sample_rate == target || input_choice(
            default,
            ranges,
            target,
        ) == default,
        output_choice(default, ranges, target).sample_rate == target || output_choice(
            default,
            ranges,
            target,
        ) == default,
{
}

/// Where a device is not opened with its default configuration, the chosen
/// configuration lies within one of the ranges the device reported.
pub proof fn lemma_chosen_config_is_supported(
    default: StreamSpec,
    ranges: Seq<ConfigRange>,
    target: u32,
)
    ensures
        input_choice(default, ranges, target) != default ==> exists|i: int|
            0 <= i < ranges.len() && range_fits(
                #[trigger] ranges[i],
                input_choice(default, ranges, target).channels,
                input_choice(default, ranges, target).sample_rate,
            ),
        output_choice(default, ranges, target) != default ==> exists|i: int|
            0 <= i < ranges.len() && range_fits(
                #[trigger] ranges[i],
                output_choice(default, ranges, target).channels,
                output_choice(default, ranges, target).sample_rate,
            ),
{
}

/// Whenever one of the reported ranges has the default's channel count and
/// admits the target rate, the device is opened with that channel count at the
/// target rate, whatever its default rate (above or below the target); when no
/// range admits it, the device keeps its default. For input devices the same
/// holds as soon as the default rate is above `LOW_RATE_LIMIT` Hz.
pub proof fn lemma_target_used_whenever_supported(
    default: StreamSpec,
    ranges: Seq<ConfigRange>,
    target: u32,
)
    ensures
        (exists|i: int|
            0 <= i < ranges.len() && (#[trigger] ranges[i]).channels == default.channels
                && ranges[i].min_sample_rate <= target && target <= ranges[i].max_sample_rate)
            ==> output_choice(default, ranges, target) == (StreamSpec {
            channels: default.channels,
            sample_rate: target,
        }),
        (forall|i: int|
            0 <= i < ranges.len() ==> !((#[trigger] ranges[i]).channels == default.channels
                && ranges[i].min_sample_rate <= target && target <= ranges[i].max_sample_rate))
            ==> output_choice(default, ranges, target) == default,
        default.sample_rate > 24000 && (exists|i: int|
            0 <= i < ranges.len() && (#[trigger] ranges[i]).channels == default.channels
                && ranges[i].min_sample_rate <= target && target <= ranges[i].max_sample_rate)
            ==> input_choice(default, ranges, target) == (StreamSpec {
            channels: default.channels,
            sample_rate: target,
        }),
        default.sample_rate <= 24000 ==> input_choice(default, ranges, target) == default,
        (forall|i: int|
            0 <= i < ranges.len() ==> !((#[trigger] ranges[i]).channels == default.channels
                && ranges[i].min_sample_rate <= target && target <= ranges[i].max_sample_rate))
            ==> input_choice(default, ranges, target) == default,
{
    if exists|i: int|
        0 <= i < ranges.len() && (#[trigger] ranges[i]).channels == default.channels
            && ranges[i].min_sample_rate <= target && target <= ranges[i].max_sample_rate {
        let i = choose|i: int|
            0 <= i < ranges.len() && (#[trigger] ranges[i]).channels == default.channels
                && ranges[i].min_sample_rate <= target && target <= ranges[i].max_sample_rate;
        assert(range_fits(ranges[i], default.channels, target));
    }
}

/// An input device whose default rate is at most `LOW_RATE_LIMIT` Hz is never
/// forced to another configuration.
pub proof fn lemma_low_rate_input_keeps_default(
    default: StreamSpec,
    ranges: Seq<ConfigRange>,
    target: u32,
)
    requires
        default.sample_rate <= LOW_RATE_LIMIT,
    ensures
        input_choice(default, ranges, target) == default,
{
}

/// Above `LOW_RATE_LIMIT` Hz, input and output devices are configured alike.
pub proof fn lemma_input_like_output_above_low_rate(
    default: StreamSpec,
    ranges: Seq<ConfigRange>,
    target: u32,
)
    requires
        default.sample_rate > LOW_RATE_LIMIT,
    ensures
        input_choice(default, ranges, target) == output_choice(default, ranges, target),
{
}

/// A device whose default configuration already runs at the target rate is
/// opened with that default configuration.
pub proof fn lemma_default_at_target_is_kept(
    default: StreamSpec,
    ranges: Seq<ConfigRange>,
    target: u32,
)
    requires
        default.sample_rate == target,
    ensures
        input_choice(default, ranges, target) == default,
        output_choice(default, ranges, target) == default,
{
}

/// The order in which a device lists its supported ranges, and repetitions in
/// that list, do not change the configuration chosen.
pub proof fn lemma_choice_ignores_listing_order(
    default: StreamSpec,
    ranges1: Seq<ConfigRange>,
    ranges2: Seq<ConfigRange>,
    target: u32,
)
    requires
        ranges1.to_set() == ranges2.to_set(),
    ensures
        input_choice(default, ranges1, target) == input_choice(default, ranges2, target),
        output_choice(default, ranges1, target) == output_choice(default, ranges2, target),
{
    assert forall|a: Seq<ConfigRange>, b: Seq<ConfigRange>|
        a.to_set() == b.to_set() && #[trigger] some_range_fits(a, default.channels, target)
            implies #[trigger] some_range_fits(b, default.channels, target) by {
        let i = choose|i: int| 0 <= i < a.len() && range_fits(#[trigger] a[i], default.channels, target);
        assert(a.to_set().contains(a[i]));
        assert(b.to_set().contains(a[i]));
        let j = choose|j: int| 0 <= j < b.len() && b[j] == a[i];
        assert(range_fits(b[j], default.channels, target));
    }
}

} // verus!
