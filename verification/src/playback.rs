//! The playback signal: whether any media player is playing.
//!
//! One thread polls the media interface and publishes what it found; every
//! connection supervisor reads the latest value.

use std::sync::atomic::AtomicBool;
use std::sync::atomic::Ordering;
use std::sync::Arc;
use vstd::prelude::*;

verus! {

/// Milliseconds between two polls of the media interface.
pub const PLAYBACK_POLL_MS: u64 = 100;

/// What a media player reports of itself.
#[derive(Clone, Copy, Debug, PartialEq, Eq, Structural)]
pub enum PlaybackStatus {
    Playing,
    Paused,
    Stopped,
}

/// What one poll of the media interface found.
#[derive(Clone, Copy, Debug, PartialEq, Eq, Structural)]
pub enum PlayerProbe {
    /// No active player was found, or the search itself failed.
    NoActivePlayer,
    /// A player was found and its status could not be read.
    StatusUnreadable,
    /// A player was found and reported this status.
    Status(PlaybackStatus),
}

/// The signal that a poll stands for: true only on evidence of playback.
pub open spec fn probe_signal(probe: PlayerProbe) -> bool {
    probe == PlayerProbe::Status(PlaybackStatus::Playing)
}

/// Derives the signal from one poll. Anything but a player that reports
/// `Playing` counts as silence.
pub fn signal_from_probe(probe: PlayerProbe) -> (playing: bool)
    ensures
        playing == probe_signal(probe),
{
    match probe {
        PlayerProbe::Status(PlaybackStatus::Playing) => true,
        _ => false,
    }
}

/// The shared playback flag.
///
/// The flag is one atomic boolean behind any number of handles. What it
/// holds changes under the readers, whenever the polling thread records a
/// new value, so no contract speaks of its content: a handle is the same
/// value before and after a write. What the contracts do state is which
/// handles share a flag and which value a poll publishes. What follows from
/// the value read is decided by the supervisor, for either value.
pub struct PlaybackSignal {
    flag: Arc<AtomicBool>,
}

impl PlaybackSignal {
    /// A fresh flag, made holding `false`: until a poll is recorded, nothing
    /// counts as playing.
    pub fn new() -> PlaybackSignal {
        PlaybackSignal { flag: Arc::new(AtomicBool::new(false)) }
    }

    /// Another handle on the same flag, for another thread or task: what is
    /// recorded through one handle is read through the other.
    pub fn share(&self) -> (shared: PlaybackSignal)
        ensures
            shared == *self,
    {
        PlaybackSignal { flag: Arc::clone(&self.flag) }
    }

    /// Publishes the signal that a poll stands for, to every reader, and
    /// returns what was published.
    pub fn record(&self, probe: PlayerProbe) -> (playing: bool)
        ensures
            playing == probe_signal(probe),
    {
        let playing = signal_from_probe(probe);
        self.flag.store(playing, Ordering::Release);
        playing
    }

    /// Reads what was last recorded through any handle on the flag, or
    /// `false` if nothing was. Two reads through one handle may differ.
    pub fn is_playing(&self) -> bool {
        self.flag.load(Ordering::Acquire)
    }
}

} // verus!
