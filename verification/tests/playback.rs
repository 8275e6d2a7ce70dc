use glow_player::audio::AudioEngine;
use glow_player::audio::PlaybackStatus;
use glow_player::audio::SinkCommand;
use glow_player::error::AppError;

fn playing(path: &str) -> AudioEngine {
    let mut engine = AudioEngine::new();
    let played = engine.play_song(&path.to_string(), Ok(()));
    assert_eq!(played, (SinkCommand::Replace, Ok(())));
    engine
}

#[test]
fn engine_starts_stopped() {
    let engine = AudioEngine::new();
    assert_eq!(engine.status(), PlaybackStatus::Stopped);
    assert!(!engine.is_playing());
    assert_eq!(engine.track(), None);
}

#[test]
fn play_loads_the_track() {
    let engine = playing("songs/a.mp3");
    assert_eq!(engine.status(), PlaybackStatus::Playing);
    assert!(engine.is_playing());
    assert_eq!(engine.track(), Some(&"songs/a.mp3".to_string()));
}

#[test]
fn play_replaces_what_was_loaded() {
    let mut engine = playing("songs/a.mp3");
    let played = engine.play_song(&"songs/b.mp3".to_string(), Ok(()));
    assert_eq!(played, (SinkCommand::Replace, Ok(())));
    assert_eq!(engine.status(), PlaybackStatus::Playing);
    assert_eq!(engine.track(), Some(&"songs/b.mp3".to_string()));
}

#[test]
fn play_from_paused_plays() {
    let mut engine = playing("songs/a.mp3");
    engine.pause();
    let played = engine.play_song(&"songs/b.mp3".to_string(), Ok(()));
    assert_eq!(played.0, SinkCommand::Replace);
    assert_eq!(engine.status(), PlaybackStatus::Playing);
}

#[test]
fn failed_play_leaves_the_engine_stopped() {
    let mut engine = playing("songs/a.mp3");
    let played = engine.play_song(&"songs/b.mp3".to_string(), Err("unrecognized format".to_string()));
    assert_eq!(
        played,
        (SinkCommand::Clear, Err(AppError::Playback("unrecognized format".to_string())))
    );
    assert_eq!(engine.status(), PlaybackStatus::Stopped);
    assert!(!engine.is_playing());
    assert_eq!(engine.track(), None);
}

#[test]
fn failed_play_from_stopped_stays_stopped() {
    let mut engine = AudioEngine::new();
    let played = engine.play_song(&"songs/a.mp3".to_string(), Err("not found".to_string()));
    assert_eq!(played, (SinkCommand::Clear, Err(AppError::Playback("not found".to_string()))));
    assert_eq!(engine, AudioEngine::new());
}

#[test]
fn pause_holds_a_playing_track() {
    let mut engine = playing("songs/a.mp3");
    assert_eq!(engine.pause(), SinkCommand::Pause);
    assert_eq!(engine.status(), PlaybackStatus::Paused);
    assert!(!engine.is_playing());
    assert_eq!(engine.track(), Some(&"songs/a.mp3".to_string()));
    assert_eq!(engine.pause(), SinkCommand::Nothing);
    assert_eq!(engine.status(), PlaybackStatus::Paused);
}

#[test]
fn pause_with_nothing_loaded_does_nothing() {
    let mut engine = AudioEngine::new();
    assert_eq!(engine.pause(), SinkCommand::Nothing);
    assert_eq!(engine, AudioEngine::new());
}

#[test]
fn resume_lets_a_held_track_play() {
    let mut engine = playing("songs/a.mp3");
    engine.pause();
    assert_eq!(engine.resume(), SinkCommand::Resume);
    assert_eq!(engine.status(), PlaybackStatus::Playing);
    assert_eq!(engine.track(), Some(&"songs/a.mp3".to_string()));
    assert_eq!(engine.resume(), SinkCommand::Nothing);
    assert_eq!(engine.status(), PlaybackStatus::Playing);
}

#[test]
fn resume_when_stopped_does_nothing() {
    let mut engine = AudioEngine::new();
    assert_eq!(engine.resume(), SinkCommand::Nothing);
    assert!(!engine.is_playing());
    assert_eq!(engine.status(), PlaybackStatus::Stopped);
    assert_eq!(engine, AudioEngine::new());
}

#[test]
fn stop_discards_the_track() {
    let mut engine = playing("songs/a.mp3");
    assert_eq!(engine.stop(), SinkCommand::Clear);
    assert_eq!(engine, AudioEngine::new());
    let mut held = playing("songs/a.mp3");
    held.pause();
    assert_eq!(held.stop(), SinkCommand::Clear);
    assert_eq!(held, AudioEngine::new());
    assert_eq!(held.stop(), SinkCommand::Nothing);
    assert_eq!(held.status(), PlaybackStatus::Stopped);
}

#[test]
fn poll_stops_a_track_that_has_ended() {
    let mut engine = playing("songs/a.mp3");
    engine.update(false);
    assert_eq!(engine.status(), PlaybackStatus::Playing);
    engine.update(true);
    assert_eq!(engine.status(), PlaybackStatus::Stopped);
    assert_eq!(engine.track(), None);
    engine.update(true);
    assert_eq!(engine, AudioEngine::new());
}

#[test]
fn poll_leaves_a_held_track_alone() {
    let mut engine = playing("songs/a.mp3");
    engine.pause();
    engine.update(true);
    assert_eq!(engine.status(), PlaybackStatus::Paused);
    engine.update(false);
    assert_eq!(engine.status(), PlaybackStatus::Paused);
    assert_eq!(engine.track(), Some(&"songs/a.mp3".to_string()));
}

#[test]
fn poll_leaves_a_stopped_engine_alone() {
    let mut engine = AudioEngine::new();
    engine.update(false);
    assert_eq!(engine, AudioEngine::new());
    engine.update(true);
    assert_eq!(engine, AudioEngine::new());
}
