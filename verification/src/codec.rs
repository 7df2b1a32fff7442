use vstd::prelude::*;

verus! {

/// Number of mono samples in one Opus frame (20 ms at 48 kHz).
pub const FRAME_SIZE: usize = 960;

/// Sample rate, in Hz, that the Opus encoder and decoder run at.
pub const CODEC_SAMPLE_RATE: u32 = 48000;

/// Bit rate, in bits per second, the encoder is set to (64 kbit/s).
pub const OPUS_BITRATE: i32 = 64000;

/// Share of lost packets, in percent, the encoder's in-band error correction is
/// tuned for.
pub const EXPECTED_PACKET_LOSS_PERCENT: u8 = 10;

/// Largest encoded packet, in bytes, the encoder may produce for one frame.
pub const MAX_PACKET_BYTES: usize = 512;

/// The capture ring, holding `occupied` samples, has a whole frame ready for
/// the encoder.
pub fn frame_ready(occupied: usize) -> (r: bool)
    ensures
        r == (occupied >= FRAME_SIZE),
{
    occupied >= FRAME_SIZE
}

} // verus!
