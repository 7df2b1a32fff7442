use vstd::prelude::*;

use crate::audio::DEFAULT_RING_BUFFER_CAPACITY;
use crate::codec::FRAME_SIZE;

verus! {

/// Number of decoded samples the playback side waits for before it starts
/// playing: three Opus frames, about 60 ms of sound, as a cushion against
/// network jitter.
pub const JITTER_TARGET: usize = FRAME_SIZE * 3;

/// What the playback callback does with the output buffer it is handed.
#[derive(Clone, Copy, Debug, PartialEq, Eq, Structural)]
pub enum PlayoutAction {
    /// Fill the whole output buffer with silence and take nothing from the ring.
    Silence,
    /// Take one sample from the ring for each output frame.
    Play,
}

/// State of the playback side's jitter buffer between two audio callbacks.
pub struct Playout {
    /// The playback side is waiting for the ring to fill up to `JITTER_TARGET`.
    pub is_buffering: bool,
}

/// The callback plays when the ring holds `occupied` samples and the playback
/// side was buffering (`is_buffering`) or not.
pub open spec fn plays(is_buffering: bool, occupied: int) -> bool {
    &&& occupied > 0
    &&& is_buffering ==> occupied >= JITTER_TARGET
}

/// The action of one callback.
pub open spec fn playout_action(is_buffering: bool, occupied: int) -> PlayoutAction {
    if plays(is_buffering, occupied) {
        PlayoutAction::Play
    } else {
        PlayoutAction::Silence
    }
}

/// Whether the playback side is buffering after one callback.
pub open spec fn buffering_after(is_buffering: bool, occupied: int) -> bool {
    !plays(is_buffering, occupied)
}

/// Whether the playback side is buffering after callbacks that saw the ring
/// holding `occupied[0]`, `occupied[1]`, ... samples in turn.
pub open spec fn buffering_after_all(is_buffering: bool, occupied: Seq<int>) -> bool
    decreases occupied.len(),
{
    if occupied.len() == 0 {
        is_buffering
    } else {
        buffering_after_all(buffering_after(is_buffering, occupied[0]), occupied.drop_first())
    }
}

/// The actions of callbacks that saw the ring holding `occupied[0]`,
/// `occupied[1]`, ... samples in turn.
pub open spec fn playout_actions(is_buffering: bool, occupied: Seq<int>) -> Seq<PlayoutAction>
    decreases occupied.len(),
{
    if occupied.len() == 0 {
        Seq::empty()
    } else {
        seq![playout_action(is_buffering, occupied[0])] + playout_actions(
            buffering_after(is_buffering, occupied[0]),
            occupied.drop_first(),
        )
    }
}

impl Playout {
    /// A playback side that waits for its ring to fill before it plays.
    pub fn new() -> (p: Self)
        ensures
            p.is_buffering,
    {
        Playout { is_buffering: true }
    }

    /// Decides one audio callback, the ring holding `occupied` samples.
    pub fn on_callback(&mut self, occupied: usize) -> (a: PlayoutAction)
        ensures
            a == playout_action(old(self).is_buffering, occupied as int),
            final(self).is_buffering == buffering_after(old(self).is_buffering, occupied as int),
    {
        if self.is_buffering {
            if occupied >= JITTER_TARGET {
                self.is_buffering = false;
            } else {
                return PlayoutAction::Silence;
            }
        }
        if occupied == 0 {
            self.is_buffering = true;
            return PlayoutAction::Silence;
        }
        PlayoutAction::Play
    }
}

/// What one callback does, for every ring occupancy: while buffering it plays
/// exactly when the ring holds at least three frames (2880 samples) and then
/// stops buffering, otherwise it writes silence and keeps buffering; while
/// playing it plays whenever the ring is not empty and keeps playing, and on an
/// empty ring it writes silence and starts buffering again.
pub proof fn lemma_callback_thresholds(occupied: int)
    requires
        occupied >= 0,
    ensures
        occupied >= 3 * FRAME_SIZE ==> playout_action(true, occupied) == PlayoutAction::Play
            && !buffering_after(true, occupied),
        occupied < 3 * FRAME_SIZE ==> playout_action(true, occupied) == PlayoutAction::Silence
            && buffering_after(true, occupied),
        occupied > 0 ==> playout_action(false, occupied) == PlayoutAction::Play
            && !buffering_after(false, occupied),
        occupied == 0 ==> playout_action(false, occupied) == PlayoutAction::Silence
            && buffering_after(false, occupied),
{
}

/// A callback leaves the playback side buffering exactly when it wrote silence.
pub proof fn lemma_buffering_iff_silence(is_buffering: bool, occupied: int)
    ensures
        buffering_after(is_buffering, occupied) <==> playout_action(is_buffering, occupied)
            == PlayoutAction::Silence,
{
}

/// Nothing is ever played from an empty ring, and an empty ring sends the
/// playback side back to buffering.
pub proof fn lemma_empty_ring_is_silent(is_buffering: bool)
    ensures
        playout_action(is_buffering, 0) == PlayoutAction::Silence,
        buffering_after(is_buffering, 0),
{
}

/// While buffering, playback starts only once the ring holds `JITTER_TARGET`
/// samples: as long as it holds fewer, every callback is silent and the
/// playback side stays buffering.
pub proof fn lemma_buffering_waits_for_target(occupied: Seq<int>)
    requires
        forall|i: int| 0 <= i < occupied.len() ==> #[trigger] occupied[i] < JITTER_TARGET,
    ensures
        buffering_after_all(true, occupied),
        playout_actions(true, occupied).len() == occupied.len(),
        forall|i: int|
            0 <= i < occupied.len() ==> #[trigger] playout_actions(true, occupied)[i]
                == PlayoutAction::Silence,
    decreases occupied.len(),
{
    if occupied.len() > 0 {
        let rest = occupied.drop_first();
        assert forall|i: int| 0 <= i < rest.len() implies #[trigger] rest[i] < JITTER_TARGET by {
            assert(rest[i] == occupied[i + 1]);
        }
        lemma_buffering_waits_for_target(rest);
        let acts = playout_actions(true, occupied);
        assert forall|i: int| 0 <= i < occupied.len() implies #[trigger] acts[i]
            == PlayoutAction::Silence by {
            if i > 0 {
                assert(acts[i] == playout_actions(true, rest)[i - 1]);
            }
        }
    }
}

/// Once playing, the playback side keeps playing as long as the ring is never
/// found empty.
pub proof fn lemma_playing_continues_while_nonempty(occupied: Seq<int>)
    requires
        forall|i: int| 0 <= i < occupied.len() ==> #[trigger] occupied[i] > 0,
    ensures
        !buffering_after_all(false, occupied),
        playout_actions(false, occupied).len() == occupied.len(),
        forall|i: int|
            0 <= i < occupied.len() ==> #[trigger] playout_actions(false, occupied)[i]
                == PlayoutAction::Play,
    decreases occupied.len(),
{
    if occupied.len() > 0 {
        let rest = occupied.drop_first();
        assert forall|i: int| 0 <= i < rest.len() implies #[trigger] rest[i] > 0 by {
            assert(rest[i] == occupied[i + 1]);
        }
        lemma_playing_continues_while_nonempty(rest);
        let acts = playout_actions(false, occupied);
        assert forall|i: int| 0 <= i < occupied.len() implies #[trigger] acts[i]
            == PlayoutAction::Play by {
            if i > 0 {
                assert(acts[i] == playout_actions(false, rest)[i - 1]);
            }
        }
    }
}

/// After the ring runs dry, playback waits for the full `JITTER_TARGET` again:
/// from any state, a callback that finds the ring empty followed by callbacks
/// that find fewer than `JITTER_TARGET` samples are all silent, and the playback
/// side ends up buffering.
pub proof fn lemma_drained_ring_rebuffers(is_buffering: bool, occupied: Seq<int>)
    requires
        occupied.len() > 0,
        occupied[0] == 0,
        forall|i: int| 1 <= i < occupied.len() ==> #[trigger] occupied[i] < JITTER_TARGET,
    ensures
        buffering_after_all(is_buffering, occupied),
        playout_actions(is_buffering, occupied).len() == occupied.len(),
        forall|i: int|
            0 <= i < occupied.len() ==> #[trigger] playout_actions(is_buffering, occupied)[i]
                == PlayoutAction::Silence,
{
    let rest = occupied.drop_first();
    assert forall|i: int| 0 <= i < rest.len() implies #[trigger] rest[i] < JITTER_TARGET by {
        assert(rest[i] == occupied[i + 1]);
    }
    lemma_buffering_waits_for_target(rest);
    let acts = playout_actions(is_buffering, occupied);
    assert forall|i: int| 0 <= i < occupied.len() implies #[trigger] acts[i]
        == PlayoutAction::Silence by {
        if i > 0 {
            assert(acts[i] == playout_actions(true, rest)[i - 1]);
        }
    }
}

/// The default ring buffer can hold `JITTER_TARGET` samples, so a playback
/// side fed through it can leave the buffering state.
pub proof fn lemma_default_ring_holds_jitter_target()
    ensures
        JITTER_TARGET <= DEFAULT_RING_BUFFER_CAPACITY,
        plays(true, DEFAULT_RING_BUFFER_CAPACITY as int),
{
}

} // verus!
