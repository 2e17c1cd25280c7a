use asha_reconnect::playback::{
    signal_from_probe, PlaybackSignal, PlaybackStatus, PlayerProbe, PLAYBACK_POLL_MS,
};

#[test]
fn playback_is_polled_every_100_ms() {
    assert_eq!(PLAYBACK_POLL_MS, 100);
}

#[test]
fn only_a_playing_player_raises_the_signal() {
    assert!(signal_from_probe(PlayerProbe::Status(PlaybackStatus::Playing)));
    assert!(!signal_from_probe(PlayerProbe::Status(PlaybackStatus::Paused)));
    assert!(!signal_from_probe(PlayerProbe::Status(PlaybackStatus::Stopped)));
}

#[test]
fn media_failures_degrade_to_silence() {
    assert!(!signal_from_probe(PlayerProbe::NoActivePlayer));
    assert!(!signal_from_probe(PlayerProbe::StatusUnreadable));
}

#[test]
fn signal_starts_false() {
    let signal = PlaybackSignal::new();
    assert!(!signal.is_playing());
}

#[test]
fn readers_see_the_latest_write() {
    let signal = PlaybackSignal::new();
    signal.record(PlayerProbe::Status(PlaybackStatus::Playing));
    assert!(signal.is_playing());
    signal.record(PlayerProbe::Status(PlaybackStatus::Stopped));
    assert!(!signal.is_playing());
}

#[test]
fn shared_handles_refer_to_one_flag() {
    let writer = PlaybackSignal::new();
    let reader = writer.share();
    let other = reader.share();
    writer.record(PlayerProbe::Status(PlaybackStatus::Playing));
    assert!(reader.is_playing());
    assert!(other.is_playing());
    writer.record(PlayerProbe::NoActivePlayer);
    assert!(!reader.is_playing());
    assert!(!other.is_playing());
}

#[test]
fn record_publishes_what_the_probe_stands_for() {
    let signal = PlaybackSignal::new();
    let reader = signal.share();
    assert!(signal.record(PlayerProbe::Status(PlaybackStatus::Playing)));
    assert!(reader.is_playing());
    assert!(!signal.record(PlayerProbe::Status(PlaybackStatus::Paused)));
    assert!(!reader.is_playing());
    assert!(signal.record(PlayerProbe::Status(PlaybackStatus::Playing)));
    assert!(!signal.record(PlayerProbe::NoActivePlayer));
    assert!(!reader.is_playing());
    assert!(signal.record(PlayerProbe::Status(PlaybackStatus::Playing)));
    assert!(!signal.record(PlayerProbe::StatusUnreadable));
    assert!(!reader.is_playing());
}
