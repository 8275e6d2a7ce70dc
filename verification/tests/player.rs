use glow_player::app::EditWindowBuffer;
use glow_player::app::GlowApp;
use glow_player::app::TagWrite;
use glow_player::audio::PlaybackStatus;
use glow_player::audio::SinkCommand;
use glow_player::error::AppError;
use glow_player::song::FolderEntry;

fn entry(name: &str, tag_title: Option<&str>) -> FolderEntry {
    FolderEntry {
        path: format!("songs/{}", name),
        file_name: Some(name.to_string()),
        tag_title: tag_title.map(|t| t.to_string()),
    }
}

fn two_songs() -> GlowApp {
    GlowApp::new(Ok(vec![entry("a.mp3", None), entry("b.MP3", Some("Song B"))]))
}

fn titles(app: &GlowApp) -> Vec<String> {
    app.songs().iter().map(|s| s.display_title().clone()).collect()
}

#[test]
fn error_messages() {
    assert_eq!(
        AppError::Io("access denied".to_string()).message(),
        "Failed to load songs: access denied"
    );
    assert_eq!(
        AppError::TagWrite("no tag found".to_string()).message(),
        "Failed to save metadata: no tag found"
    );
    assert_eq!(
        AppError::Playback("unrecognized format".to_string()).message(),
        "Playback failed: unrecognized format"
    );
    assert_eq!(AppError::NotFound.message(), "(EditWindow) Song not found");
    assert_eq!(AppError::Io(String::new()).message(), "Failed to load songs: ");
}

#[test]
fn new_buffer_is_empty() {
    let buffer = EditWindowBuffer::new(3);
    assert_eq!(buffer.song_id(), 3);
    assert_eq!(buffer.title(), "");
}

#[test]
fn start_with_a_listing() {
    let app = two_songs();
    assert_eq!(titles(&app), vec!["a.mp3", "Song B"]);
    assert_eq!(app.audio_engine().status(), PlaybackStatus::Stopped);
    assert_eq!(app.pending_errors(), 0);
    assert_eq!(app.edit_window(), None);
}

#[test]
fn start_without_a_listing() {
    let mut app = GlowApp::new(Err("No such file or directory".to_string()));
    assert!(app.songs().is_empty());
    assert_eq!(app.audio_engine().status(), PlaybackStatus::Stopped);
    assert_eq!(app.edit_window(), None);
    assert_eq!(app.pending_errors(), 1);
    let error = app.next_error().unwrap();
    assert_eq!(error, AppError::Io("No such file or directory".to_string()));
    assert_eq!(error.message(), "Failed to load songs: No such file or directory");
    assert_eq!(app.next_error(), None);
}

#[test]
fn end_to_end() {
    let mut app = two_songs();
    assert_eq!(app.songs().len(), 2);
    assert_eq!(app.songs()[0].display_title(), "a.mp3");
    assert_eq!(app.songs()[1].display_title(), "Song B");
    assert_eq!(app.songs()[0].song_id(), 0);
    assert_eq!(app.songs()[1].song_id(), 1);
    let first = app.songs()[0].song_id();
    assert_eq!(app.play(first, Ok(())), SinkCommand::Replace);
    assert_eq!(app.audio_engine().track(), Some(&"songs/a.mp3".to_string()));
    app.update(false);
    assert_eq!(app.audio_engine().status(), PlaybackStatus::Playing);
    app.update(false);
    assert!(app.audio_engine().is_playing());
    app.update(true);
    assert_eq!(app.audio_engine().status(), PlaybackStatus::Stopped);
    assert!(!app.audio_engine().is_playing());
    assert_eq!(app.pending_errors(), 0);
}

#[test]
fn failed_play_queues_one_error() {
    let mut app = two_songs();
    app.open_edit(1);
    app.edit_text("typing".to_string());
    assert_eq!(app.play(0, Ok(())), SinkCommand::Replace);
    let songs_before = app.songs().clone();
    let edit_before = app.edit_window().cloned();
    let command = app.play(1, Err("unrecognized format".to_string()));
    assert_eq!(command, SinkCommand::Clear);
    assert!(!app.audio_engine().is_playing());
    assert_eq!(app.audio_engine().status(), PlaybackStatus::Stopped);
    assert_eq!(app.songs(), &songs_before);
    assert_eq!(app.edit_window().cloned(), edit_before);
    assert_eq!(app.pending_errors(), 1);
    assert_eq!(app.next_error(), Some(AppError::Playback("unrecognized format".to_string())));
    assert_eq!(app.next_error(), None);
}

#[test]
fn play_of_an_unknown_song_changes_nothing() {
    let mut app = two_songs();
    app.play(0, Ok(()));
    assert_eq!(app.play(7, Ok(())), SinkCommand::Nothing);
    assert_eq!(app.audio_engine().track(), Some(&"songs/a.mp3".to_string()));
    assert_eq!(app.play(7, Err("gone".to_string())), SinkCommand::Nothing);
    assert!(app.audio_engine().is_playing());
    assert_eq!(app.pending_errors(), 0);
}

#[test]
fn play_button_when_stopped_does_nothing() {
    let mut app = two_songs();
    assert_eq!(app.play_clicked(), SinkCommand::Nothing);
    assert!(!app.audio_engine().is_playing());
    assert_eq!(app.audio_engine().status(), PlaybackStatus::Stopped);
    assert_eq!(app.pending_errors(), 0);
    assert_eq!(titles(&app), vec!["a.mp3", "Song B"]);
}

#[test]
fn transport_buttons() {
    let mut app = two_songs();
    assert_eq!(app.pause_clicked(), SinkCommand::Nothing);
    assert_eq!(app.stop_clicked(), SinkCommand::Nothing);
    app.play(1, Ok(()));
    assert_eq!(app.play_clicked(), SinkCommand::Nothing);
    assert_eq!(app.pause_clicked(), SinkCommand::Pause);
    assert_eq!(app.audio_engine().status(), PlaybackStatus::Paused);
    assert_eq!(app.play_clicked(), SinkCommand::Resume);
    assert_eq!(app.audio_engine().status(), PlaybackStatus::Playing);
    assert_eq!(app.stop_clicked(), SinkCommand::Clear);
    assert_eq!(app.audio_engine().status(), PlaybackStatus::Stopped);
    assert_eq!(app.pending_errors(), 0);
}

#[test]
fn typing_touches_the_buffer_only() {
    let mut app = two_songs();
    app.edit_text("ignored".to_string());
    assert_eq!(app.edit_window(), None);
    app.open_edit(1);
    assert_eq!(app.edit_window().unwrap().song_id(), 1);
    assert_eq!(app.edit_window().unwrap().title(), "");
    app.edit_text("New".to_string());
    app.edit_text("Newer".to_string());
    assert_eq!(app.edit_window().unwrap().song_id(), 1);
    assert_eq!(app.edit_window().unwrap().title(), "Newer");
    assert_eq!(titles(&app), vec!["a.mp3", "Song B"]);
}

#[test]
fn opening_again_starts_over() {
    let mut app = two_songs();
    app.open_edit(0);
    app.edit_text("typed".to_string());
    app.open_edit(1);
    assert_eq!(app.edit_window(), Some(&EditWindowBuffer::new(1)));
}

#[test]
fn close_drops_the_buffer() {
    let mut app = two_songs();
    app.open_edit(0);
    app.edit_text("New".to_string());
    app.close_edit();
    assert_eq!(app.edit_window(), None);
    assert_eq!(titles(&app), vec!["a.mp3", "Song B"]);
    assert_eq!(app.pending_errors(), 0);
    app.close_edit();
    assert_eq!(app.edit_window(), None);
}

#[test]
fn save_asks_for_the_write() {
    let mut app = two_songs();
    assert_eq!(app.pending_write(), None);
    app.open_edit(1);
    app.edit_text("Renamed".to_string());
    assert_eq!(
        app.pending_write(),
        Some(TagWrite { path: "songs/b.MP3".to_string(), title: "Renamed".to_string() })
    );
    app.open_edit(9);
    assert_eq!(app.pending_write(), None);
}

#[test]
fn save_renames_the_target() {
    let mut app = two_songs();
    app.open_edit(1);
    app.edit_text("Renamed".to_string());
    app.save_edit(Ok(()));
    assert_eq!(titles(&app), vec!["a.mp3", "Renamed"]);
    assert_eq!(app.edit_window(), None);
    assert_eq!(app.pending_errors(), 0);
    assert_eq!(app.songs()[1].song_id(), 1);
    assert_eq!(app.songs()[1].path(), "songs/b.MP3");
}

#[test]
fn save_of_nothing_typed_shows_the_file_name() {
    let mut app = two_songs();
    app.open_edit(1);
    app.save_edit(Ok(()));
    assert_eq!(titles(&app), vec!["a.mp3", "b.MP3"]);
    assert_eq!(app.edit_window(), None);
}

#[test]
fn save_that_failed_queues_the_error() {
    let mut app = two_songs();
    app.open_edit(0);
    app.edit_text("Renamed".to_string());
    app.save_edit(Err("read-only file".to_string()));
    assert_eq!(titles(&app), vec!["a.mp3", "Song B"]);
    assert_eq!(app.edit_window(), None);
    assert_eq!(app.pending_errors(), 1);
    let error = app.next_error().unwrap();
    assert_eq!(error, AppError::TagWrite("read-only file".to_string()));
    assert_eq!(error.message(), "Failed to save metadata: read-only file");
}

#[test]
fn save_for_an_unknown_song_queues_not_found() {
    let mut app = two_songs();
    app.play(0, Ok(()));
    app.open_edit(5);
    app.edit_text("Renamed".to_string());
    let songs_before = app.songs().clone();
    app.save_edit(Ok(()));
    assert_eq!(app.songs(), &songs_before);
    assert_eq!(app.edit_window(), None);
    assert!(app.audio_engine().is_playing());
    assert_eq!(app.pending_errors(), 1);
    assert_eq!(app.next_error(), Some(AppError::NotFound));
    assert_eq!(app.next_error(), None);
}

#[test]
fn save_without_a_buffer_does_nothing() {
    let mut app = two_songs();
    app.save_edit(Err("unused".to_string()));
    app.save_edit(Ok(()));
    assert_eq!(titles(&app), vec!["a.mp3", "Song B"]);
    assert_eq!(app.pending_errors(), 0);
}

#[test]
fn rename_by_identifier() {
    let mut app = two_songs();
    assert_eq!(app.rename(0, &"Song A".to_string(), Ok(())), Ok(()));
    assert_eq!(titles(&app), vec!["Song A", "Song B"]);
    assert_eq!(
        app.rename(1, &"X".to_string(), Err("disk full".to_string())),
        Err(AppError::TagWrite("disk full".to_string()))
    );
    assert_eq!(app.rename(2, &"X".to_string(), Ok(())), Err(AppError::NotFound));
    assert_eq!(titles(&app), vec!["Song A", "Song B"]);
    assert_eq!(app.pending_errors(), 0);
}

#[test]
fn record_handed_out_is_the_one_asked_for() {
    let mut app = two_songs();
    assert_eq!(app.get_song_mut(1).unwrap().display_title(), "Song B");
    assert_eq!(app.get_song_mut(0).unwrap().path(), "songs/a.mp3");
    assert!(app.get_song_mut(2).is_none());
    let song = app.get_song_mut(0).unwrap();
    assert_eq!(song.rename(&"Song A".to_string(), Ok(())), Ok(()));
    assert_eq!(titles(&app), vec!["Song A", "Song B"]);
}

#[test]
fn errors_come_out_in_the_order_they_went_in() {
    let mut app = GlowApp::new(Err("no folder".to_string()));
    app.open_edit(0);
    app.save_edit(Ok(()));
    app.open_edit(1);
    app.save_edit(Err("unused".to_string()));
    assert_eq!(app.pending_errors(), 3);
    assert_eq!(app.next_error(), Some(AppError::Io("no folder".to_string())));
    assert_eq!(app.pending_errors(), 2);
    assert_eq!(app.next_error(), Some(AppError::NotFound));
    assert_eq!(app.next_error(), Some(AppError::NotFound));
    assert_eq!(app.next_error(), None);
    assert_eq!(app.pending_errors(), 0);
}

#[test]
fn renamed_song_shows_again_after_a_restart() {
    let listing = vec![entry("a.mp3", None), entry("b.MP3", Some("Song B"))];
    let mut app = GlowApp::new(Ok(listing.clone()));
    app.open_edit(0);
    app.edit_text("Title T".to_string());
    let write = app.pending_write().unwrap();
    app.save_edit(Ok(()));
    let mut reread = listing;
    for entry in reread.iter_mut() {
        if entry.path == write.path {
            entry.tag_title = Some(write.title.clone());
        }
    }
    let fresh = GlowApp::new(Ok(reread));
    assert_eq!(fresh.songs()[0].display_title(), "Title T");
    assert_eq!(fresh.songs(), app.songs());
}
