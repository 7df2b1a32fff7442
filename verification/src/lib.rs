//! Decision logic of a peer-to-peer voice chat: which stream configuration an
//! audio device is opened with, when the playback side plays or waits for its
//! jitter buffer to fill, when a captured frame is ready to be encoded, and how
//! the call is set up.

pub mod audio;
pub mod codec;
pub mod net;
pub mod playout;
