//! The state of the player as a whole, and what each action of the user does to it.
//!
//! The caller draws the window and owns the sink. It reports what the user did
//! and what the outside world answered; the state says what follows.

use std::collections::VecDeque;
use vstd::prelude::*;
use crate::audio::after_pause;
use crate::audio::after_play;
use crate::audio::after_poll;
use crate::audio::after_resume;
use crate::audio::stopped;
use crate::audio::AudioEngine;
use crate::audio::PlaybackStatus;
use crate::audio::PlaybackView;
use crate::audio::SinkCommand;
use crate::catalog::catalog_of;
use crate::catalog::entry_views;
use crate::catalog::find_position;
use crate::catalog::find_song_mut;
use crate::catalog::kept_entries;
use crate::catalog::kept_positions;
use crate::catalog::lemma_find_after_load;
use crate::catalog::lemma_first_with;
use crate::catalog::lemma_kept_positions;
use crate::catalog::lemma_load_yields;
use crate::catalog::lemma_rename_survives_reload;
use crate::catalog::load_songs;
use crate::catalog::position_of;
use crate::catalog::renamed;
use crate::error::error_views;
use crate::error::AppError;
use crate::error::ErrorView;
use crate::song::song_views;
use crate::song::EntryView;
use crate::song::FolderEntry;
use crate::song::Song;
use crate::song::SongView;

verus! {

/// The staged state of one rename: the record it targets and the text typed so
/// far. Nothing typed here reaches the catalog before it is saved.
#[derive(Clone, Debug, PartialEq, Eq)]
pub struct EditWindowBuffer {
    song_id: usize,
    title: String,
}

/// An edit buffer as a value.
pub struct EditView {
    pub song_id: usize,
    pub title: Seq<char>,
}

impl View for EditWindowBuffer {
    type V = EditView;

    closed spec fn view(&self) -> EditView {
        EditView { song_id: self.song_id, title: self.title@ }
    }
}

impl EditWindowBuffer {
    /// Opens a buffer for the record `song_id`, with nothing typed yet.
    pub fn new(song_id: usize) -> (buffer: Self)
        ensures
            buffer@ == (EditView { song_id, title: Seq::<char>::empty() }),
    {
        Self { song_id, title: String::new() }
    }

    /// The record that the buffer targets.
    pub fn song_id(&self) -> (id: usize)
        ensures
            id == self@.song_id,
    {
        self.song_id
    }

    /// The text typed so far.
    pub fn title(&self) -> (title: &String)
        ensures
            title@ == self@.title,
    {
        &self.title
    }
}

/// What has to be written to a file's tag to save a rename.
#[derive(Clone, Debug, PartialEq, Eq)]
pub struct TagWrite {
    /// The file whose tag is to be written.
    pub path: String,
    /// The title that the tag is to hold.
    pub title: String,
}

/// The whole state as a value.
pub struct AppView {
    pub songs: Seq<SongView>,
    pub playback: PlaybackView,
    pub errors: Seq<ErrorView>,
    pub edit: Option<EditView>,
}

/// The outcome of listing the song folder, as a value.
pub open spec fn listing_view(listing: Result<Vec<FolderEntry>, String>) -> Result<
    Seq<EntryView>,
    Seq<char>,
> {
    match listing {
        Ok(entries) => Ok(entry_views(entries@)),
        Err(reason) => Err(reason@),
    }
}

/// The state at start, from the outcome of listing the song folder.
///
/// Nothing plays and no rename is open. A listing that succeeded gives its
/// catalog. One that failed gives an empty catalog and one `Io` error.
pub open spec fn initial_state(listing: Result<Seq<EntryView>, Seq<char>>) -> AppView {
    match listing {
        Ok(entries) => AppView {
            songs: catalog_of(entries),
            playback: stopped(),
            errors: Seq::empty(),
            edit: None,
        },
        Err(reason) => AppView {
            songs: Seq::empty(),
            playback: stopped(),
            errors: seq![ErrorView::Io(reason)],
            edit: None,
        },
    }
}

/// The report of a failed operation, or `None` for one that succeeded.
pub open spec fn failure_of(outcome: Result<(), String>) -> Option<Seq<char>> {
    match outcome {
        Ok(_) => None,
        Err(reason) => Some(reason@),
    }
}

/// The state after a click on the song `song_id`, where `failure` is what
/// opening and decoding its file reported, if it failed.
///
/// A song that is not in the catalog changes nothing. Otherwise the engine
/// plays the song, or is stopped with one `Playback` error queued.
pub open spec fn after_click(
    state: AppView,
    song_id: usize,
    failure: Option<Seq<char>>,
) -> AppView {
    match position_of(state.songs, song_id) {
        Some(i) => AppView {
            playback: after_play(state.songs[i].path, failure is None),
            errors: match failure {
                Some(reason) => state.errors.push(ErrorView::Playback(reason)),
                None => state.errors,
            },
            ..state
        },
        None => state,
    }
}

/// The state after Save, where `failure` is what writing the tag reported, if it
/// failed.
///
/// Without an open buffer nothing changes. With one, the buffer is gone
/// afterwards, and: a target that is not in the catalog queues `NotFound`; a
/// write that failed queues `TagWrite`; a write that succeeded retitles the
/// target.
pub open spec fn after_save(state: AppView, failure: Option<Seq<char>>) -> AppView {
    match state.edit {
        None => state,
        Some(edit) => match position_of(state.songs, edit.song_id) {
            None => AppView {
                errors: state.errors.push(ErrorView::NotFound),
                edit: None,
                ..state
            },
            Some(i) => match failure {
                Some(reason) => AppView {
                    errors: state.errors.push(ErrorView::TagWrite(reason)),
                    edit: None,
                    ..state
                },
                None => AppView { songs: renamed(state.songs, i, edit.title), edit: None, ..state },
            },
        },
    }
}

/// The catalog, the playback state, the queue of errors waiting to be shown,
/// and the edit buffer, of which there is at most one.
#[derive(Debug)]
pub struct GlowApp {
    songs: Vec<Song>,
    audio_engine: AudioEngine,
    error_queue: VecDeque<AppError>,
    edit_window: Option<EditWindowBuffer>,
}

impl View for GlowApp {
    type V = AppView;

    closed spec fn view(&self) -> AppView {
        AppView {
            songs: song_views(self.songs@),
            playback: self.audio_engine@,
            errors: error_views(self.error_queue@),
            edit: match self.edit_window {
                Some(buffer) => Some(buffer@),
                None => None,
            },
        }
    }
}

/// Updating one record of a sequence updates its view at the same place.
proof fn lemma_views_update(songs: Seq<Song>, i: int, song: Song)
    requires
        0 <= i < songs.len(),
    ensures
        song_views(songs.update(i, song)) == song_views(songs).update(i, song@),
{
    assert(song_views(songs.update(i, song)) =~= song_views(songs).update(i, song@));
}

/// Appending an error to a sequence appends its view.
proof fn lemma_views_push(errors: Seq<AppError>, error: AppError)
    ensures
        error_views(errors.push(error)) == error_views(errors).push(error@),
{
    assert(error_views(errors.push(error)) =~= error_views(errors).push(error@));
}

/// A rename that was saved is there again after a restart.
///
/// Start from a listing, open the edit window on a song of the catalog, type
/// `title` and save, and let the write succeed, so that the song's tag now
/// holds `title` and nothing else in the folder has changed. Then a restart
/// from the folder as it now is gives the catalog that the save left in memory.
/// The song's title in it is `title` itself, unless `title` is empty.
pub proof fn lemma_saved_rename_shows_after_restart(
    entries: Seq<EntryView>,
    song_id: usize,
    title: Seq<char>,
)
    requires
        entries.len() <= usize::MAX,
        song_id < catalog_of(entries).len(),
    ensures
        ({
            let k = kept_positions(entries)[song_id as int];
            let reread = entries.update(k, EntryView { tag_title: Some(title), ..entries[k] });
            let typed = AppView {
                edit: Some(EditView { song_id, title }),
                ..initial_state(Ok(entries))
            };
            &&& 0 <= k < entries.len()
            &&& after_save(typed, None).songs == initial_state(Ok(reread)).songs
            &&& after_save(typed, None).errors == initial_state(Ok(reread)).errors
            &&& title.len() > 0 ==> initial_state(Ok(reread)).songs[song_id as int].display_title
                == title
        }),
{
    lemma_load_yields(entries);
    lemma_kept_positions(entries);
    lemma_find_after_load(entries, song_id);
    let k = kept_positions(entries)[song_id as int];
    lemma_rename_survives_reload(entries, k, title);
    let i = kept_entries(entries.take(k)).len() as int;
    if i < song_id {
        assert(kept_positions(entries)[i] < kept_positions(entries)[song_id as int]);
    } else if i > song_id {
        assert(kept_positions(entries)[song_id as int] < kept_positions(entries)[i]);
    }
}

impl GlowApp {
    /// The state at start.
    ///
    /// `listing` is the outcome of listing the song folder. A listing that
    /// failed leaves the catalog empty and queues one `Io` error.
    pub fn new(listing: Result<Vec<FolderEntry>, String>) -> (app: Self)
        ensures
            app@ == initial_state(listing_view(listing)),
    {
        let mut error_queue: VecDeque<AppError> = VecDeque::new();
        let songs = match load_songs(listing) {
            Ok(list) => list,
            Err(error) => {
                proof {
                    lemma_views_push(error_queue@, error);
                }
                error_queue.push_back(error);
                Vec::new()
            },
        };
        let app = GlowApp {
            songs,
            audio_engine: AudioEngine::new(),
            error_queue,
            edit_window: None,
        };
        proof {
            let start = initial_state(listing_view(listing));
            assert(app@.errors =~= start.errors);
            assert(app@.songs =~= start.songs);
        }
        app
    }

    /// The catalog, in the order it was loaded.
    pub fn songs(&self) -> (songs: &Vec<Song>)
        ensures
            song_views(songs@) == self@.songs,
    {
        &self.songs
    }

    /// The playback state.
    pub fn audio_engine(&self) -> (engine: &AudioEngine)
        ensures
            engine@ == self@.playback,
    {
        &self.audio_engine
    }

    /// The open edit buffer, if there is one.
    pub fn edit_window(&self) -> (buffer: Option<&EditWindowBuffer>)
        ensures
            match buffer {
                Some(b) => self@.edit == Some(b@),
                None => self@.edit is None,
            },
    {
        self.edit_window.as_ref()
    }

    /// How many errors wait to be shown.
    pub fn pending_errors(&self) -> (count: usize)
        ensures
            count == self@.errors.len(),
    {
        self.error_queue.len()
    }

    /// Finds the first record with the identifier `song_id` and hands it out
    /// for change. Nothing else of the state can change through it.
    pub fn get_song_mut(&mut self, song_id: usize) -> (found: Option<&mut Song>)
        ensures
            match found {
                Some(song) => {
                    &&& position_of(old(self)@.songs, song_id) matches Some(i)
                    &&& song@ == old(self)@.songs[i]
                    &&& final(self)@ == (AppView {
                        songs: old(self)@.songs.update(i, final(song)@),
                        ..old(self)@
                    })
                },
                None => {
                    &&& position_of(old(self)@.songs, song_id) is None
                    &&& final(self)@ == old(self)@
                },
            },
    {
        proof {
            lemma_first_with(song_views(self.songs@), song_id, 0);
            assert forall|i: int, song: Song| 0 <= i < self.songs@.len() implies song_views(
                #[trigger] self.songs@.update(i, song),
            ) == song_views(self.songs@).update(i, song@) by {
                lemma_views_update(self.songs@, i, song);
            }
        }
        find_song_mut(&mut self.songs, song_id)
    }

    /// Renames the first record with the identifier `song_id`, given the
    /// outcome of writing `new_title` into its file's tag.
    ///
    /// Without such a record the answer is `NotFound`. After a write that
    /// failed the answer is `TagWrite` with what was reported. In both cases
    /// nothing changes. After a write that succeeded the record is retitled.
    pub fn rename(
        &mut self,
        song_id: usize,
        new_title: &String,
        written: Result<(), String>,
    ) -> (outcome: Result<(), AppError>)
        ensures
            match position_of(old(self)@.songs, song_id) {
                None => {
                    &&& outcome matches Err(error)
                    &&& error@ == ErrorView::NotFound
                    &&& final(self)@ == old(self)@
                },
                Some(i) => match written {
                    Ok(_) => {
                        &&& outcome is Ok
                        &&& final(self)@ == (AppView {
                            songs: renamed(old(self)@.songs, i, new_title@),
                            ..old(self)@
                        })
                    },
                    Err(reason) => {
                        &&& outcome matches Err(error)
                        &&& error@ == ErrorView::TagWrite(reason@)
                        &&& final(self)@ == old(self)@
                    },
                },
            },
    {
        let ghost before = self@;
        let outcome = match self.get_song_mut(song_id) {
            Some(song) => song.rename(new_title, written),
            None => Err(AppError::NotFound),
        };
        proof {
            if position_of(before.songs, song_id) is Some {
                lemma_first_with(before.songs, song_id, 0);
                if written is Err {
                    assert(self@.songs =~= before.songs);
                }
            }
        }
        outcome
    }

    /// Takes the sink's report of whether its sound has run out. To be called
    /// once for every redraw, before anything else.
    ///
    /// A playing track whose sink is empty has ended, and playback is stopped.
    /// In every other case nothing changes.
    pub fn update(&mut self, sink_empty: bool)
        ensures
            final(self)@ == (AppView {
                playback: after_poll(old(self)@.playback, sink_empty),
                ..old(self)@
            }),
            sink_empty ==> final(self)@.playback.status != PlaybackStatus::Playing,
    {
        self.audio_engine.update(sink_empty);
    }

    /// The Play button: a held track plays again.
    ///
    /// With nothing loaded, or with a track playing, nothing changes and the
    /// sink is left alone. No error is queued in any case.
    pub fn play_clicked(&mut self) -> (command: SinkCommand)
        ensures
            final(self)@ == (AppView {
                playback: after_resume(old(self)@.playback),
                ..old(self)@
            }),
            command == if old(self)@.playback.status == PlaybackStatus::Paused {
                SinkCommand::Resume
            } else {
                SinkCommand::Nothing
            },
            old(self)@.playback.status == PlaybackStatus::Stopped ==> final(self)@ == old(self)@,
    {
        self.audio_engine.resume()
    }

    /// The Pause button: a playing track is held. In any other state nothing
    /// changes.
    pub fn pause_clicked(&mut self) -> (command: SinkCommand)
        ensures
            final(self)@ == (AppView {
                playback: after_pause(old(self)@.playback),
                ..old(self)@
            }),
            command == if old(self)@.playback.status == PlaybackStatus::Playing {
                SinkCommand::Pause
            } else {
                SinkCommand::Nothing
            },
    {
        self.audio_engine.pause()
    }

    /// The Stop button: whatever is loaded is discarded.
    pub fn stop_clicked(&mut self) -> (command: SinkCommand)
        ensures
            final(self)@ == (AppView { playback: stopped(), ..old(self)@ }),
            command == if old(self)@.playback.status == PlaybackStatus::Stopped {
                SinkCommand::Nothing
            } else {
                SinkCommand::Clear
            },
    {
        self.audio_engine.stop()
    }

    /// A click on the song `song_id`: play it.
    ///
    /// `source` says whether the song's file could be opened and decoded, and
    /// if not, what was reported. Whatever was loaded is discarded. With a
    /// source the song plays. Without one playback is stopped and exactly one
    /// `Playback` error is queued. The catalog and the edit buffer stay as
    /// they are. A song that is not in the catalog changes nothing.
    pub fn play(&mut self, song_id: usize, source: Result<(), String>) -> (command: SinkCommand)
        ensures
            final(self)@ == after_click(old(self)@, song_id, failure_of(source)),
            command == match position_of(old(self)@.songs, song_id) {
                Some(_) => if source is Ok {
                    SinkCommand::Replace
                } else {
                    SinkCommand::Clear
                },
                None => SinkCommand::Nothing,
            },
            final(self)@.songs == old(self)@.songs,
            final(self)@.edit == old(self)@.edit,
            position_of(old(self)@.songs, song_id) is Some ==> match source {
                Ok(_) => {
                    &&& final(self)@.playback.status == PlaybackStatus::Playing
                    &&& final(self)@.errors == old(self)@.errors
                },
                Err(reason) => {
                    &&& final(self)@.playback == stopped()
                    &&& final(self)@.errors == old(self)@.errors.push(
                        ErrorView::Playback(reason@),
                    )
                },
            },
    {
        match find_position(&self.songs, song_id) {
            Some(i) => {
                assert(song_views(self.songs@)[i as int] == self.songs@[i as int]@);
                let (command, played) = self.audio_engine.play_song(self.songs[i].path(), source);
                if let Err(error) = played {
                    proof {
                        lemma_views_push(self.error_queue@, error);
                    }
                    self.error_queue.push_back(error);
                }
                command
            },
            None => SinkCommand::Nothing,
        }
    }

    /// The Edit entry of a song's menu: opens a buffer for `song_id` with
    /// nothing typed yet. A buffer that was open is dropped.
    pub fn open_edit(&mut self, song_id: usize)
        ensures
            final(self)@ == (AppView {
                edit: Some(EditView { song_id, title: Seq::<char>::empty() }),
                ..old(self)@
            }),
    {
        self.edit_window = Some(EditWindowBuffer::new(song_id));
    }

    /// Typing in the edit window: the buffer holds `text` from now on. The
    /// catalog is not touched. Without an open buffer nothing changes.
    pub fn edit_text(&mut self, text: String)
        ensures
            final(self)@ == (AppView {
                edit: match old(self)@.edit {
                    Some(edit) => Some(EditView { song_id: edit.song_id, title: text@ }),
                    None => None,
                },
                ..old(self)@
            }),
    {
        match self.edit_window.take() {
            Some(buffer) => {
                self.edit_window = Some(EditWindowBuffer { song_id: buffer.song_id, title: text });
            },
            None => {},
        }
    }

    /// The Close button: the buffer is dropped and the catalog is not touched.
    pub fn close_edit(&mut self)
        ensures
            final(self)@ == (AppView { edit: None, ..old(self)@ }),
    {
        self.edit_window = None;
    }

    /// What Save has to write: the path of the buffer's target and the staged
    /// title. There is nothing to write without an open buffer, or where the
    /// target is not in the catalog.
    pub fn pending_write(&self) -> (write: Option<TagWrite>)
        ensures
            match write {
                Some(w) => {
                    &&& self@.edit matches Some(edit)
                    &&& position_of(self@.songs, edit.song_id) matches Some(i)
                    &&& w.path@ == self@.songs[i].path
                    &&& w.title@ == edit.title
                },
                None => self@.edit matches Some(edit) ==> position_of(
                    self@.songs,
                    edit.song_id,
                ) is None,
            },
    {
        match &self.edit_window {
            Some(buffer) => match find_position(&self.songs, buffer.song_id) {
                Some(i) => {
                    assert(song_views(self.songs@)[i as int] == self.songs@[i as int]@);
                    Some(
                        TagWrite {
                            path: self.songs[i].path().clone(),
                            title: buffer.title.clone(),
                        },
                    )
                },
                None => None,
            },
            None => None,
        }
    }

    /// The Save button, after the write that `pending_write` asked for.
    ///
    /// `written` is the outcome of that write; it is not looked at where
    /// nothing was to be written. The buffer is dropped in every case: the
    /// save is not tried again. A target that is not in the catalog leaves
    /// every record as it is and queues exactly one `NotFound` error. A write
    /// that failed leaves every record as it is and queues one `TagWrite`
    /// error. A write that succeeded retitles the target and queues nothing.
    pub fn save_edit(&mut self, written: Result<(), String>)
        ensures
            final(self)@ == after_save(old(self)@, failure_of(written)),
            final(self)@.playback == old(self)@.playback,
            final(self)@.edit is None,
            old(self)@.edit matches Some(edit) && position_of(old(self)@.songs, edit.song_id)
                is None ==> {
                &&& final(self)@.songs == old(self)@.songs
                &&& final(self)@.errors == old(self)@.errors.push(ErrorView::NotFound)
            },
    {
        match self.edit_window.take() {
            Some(buffer) => {
                if let Err(error) = self.rename(buffer.song_id, &buffer.title, written) {
                    proof {
                        lemma_views_push(self.error_queue@, error);
                    }
                    self.error_queue.push_back(error);
                }
            },
            None => {},
        }
    }

    /// Takes the error that has waited longest out of the queue, to be shown.
    pub fn next_error(&mut self) -> (next: Option<AppError>)
        ensures
            match next {
                Some(error) => {
                    &&& old(self)@.errors.len() > 0
                    &&& error@ == old(self)@.errors[0]
                    &&& final(self)@ == (AppView {
                        errors: old(self)@.errors.skip(1),
                        ..old(self)@
                    })
                },
                None => {
                    &&& old(self)@.errors.len() == 0
                    &&& final(self)@ == old(self)@
                },
            },
    {
        let next = self.error_queue.pop_front();
        proof {
            if next is Some {
                assert(self@.errors =~= old(self)@.errors.skip(1));
            }
        }
        next
    }
}

} // verus!
