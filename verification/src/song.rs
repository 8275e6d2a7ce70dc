//! Catalog records and the folder entries they are made from.

use vstd::prelude::*;
use crate::error::AppError;
use crate::error::ErrorView;
use crate::extension::audio_name;
use crate::extension::is_audio_name;

verus! {

/// One entry of the song folder, as the caller found it.
///
/// `file_name` is the last component of `path`, absent where the path has none.
/// `tag_title` is the title held by the file's tag; it is absent where the tag
/// could not be read or holds no title, and is only looked at for entries that
/// become records.
#[derive(Clone, Debug, PartialEq, Eq)]
pub struct FolderEntry {
    pub path: String,
    pub file_name: Option<String>,
    pub tag_title: Option<String>,
}

/// A folder entry with its texts as sequences of characters.
pub struct EntryView {
    pub path: Seq<char>,
    pub file_name: Option<Seq<char>>,
    pub tag_title: Option<Seq<char>>,
}

/// The text of an optional string.
pub open spec fn text_of(s: Option<String>) -> Option<Seq<char>> {
    match s {
        Some(t) => Some(t@),
        None => None,
    }
}

impl View for FolderEntry {
    type V = EntryView;

    open spec fn view(&self) -> EntryView {
        EntryView {
            path: self.path@,
            file_name: text_of(self.file_name),
            tag_title: text_of(self.tag_title),
        }
    }
}

/// The entry is an audio file by the extension of its name.
pub open spec fn is_audio(entry: EntryView) -> bool {
    entry.file_name matches Some(name) && audio_name(name)
}

/// The title shown for a file: the tag's title where there is one and it is not
/// empty, the file name otherwise.
pub open spec fn resolve_title(tag_title: Option<Seq<char>>, file_name: Seq<char>) -> Seq<char> {
    match tag_title {
        Some(title) => if title.len() > 0 {
            title
        } else {
            file_name
        },
        None => file_name,
    }
}

/// An entry has a name that a record can fall back to.
pub open spec fn has_name(entry: EntryView) -> bool {
    entry.file_name matches Some(name) && name.len() > 0
}

/// The record that `entry` gives under the identifier `song_id`.
pub open spec fn record_of(song_id: usize, entry: EntryView) -> SongView
    recommends
        has_name(entry),
{
    SongView {
        song_id,
        path: entry.path,
        file_name: entry.file_name->0,
        display_title: resolve_title(entry.tag_title, entry.file_name->0),
    }
}

/// One song of the catalog.
///
/// The identifier, the path and the file name are fixed when the record is made.
/// The display title is never empty.
#[derive(Debug, PartialEq, Eq)]
pub struct Song {
    song_id: usize,
    path: String,
    file_name: String,
    display_title: String,
}

/// A record with its texts as sequences of characters.
pub struct SongView {
    pub song_id: usize,
    pub path: Seq<char>,
    pub file_name: Seq<char>,
    pub display_title: Seq<char>,
}

impl View for Song {
    type V = SongView;

    closed spec fn view(&self) -> SongView {
        SongView {
            song_id: self.song_id,
            path: self.path@,
            file_name: self.file_name@,
            display_title: self.display_title@,
        }
    }
}

/// The record after its tag has taken the title `title`: the display title is
/// `title`, or the file name where `title` is empty; the rest is as before.
pub open spec fn retitled(song: SongView, title: Seq<char>) -> SongView {
    SongView { display_title: resolve_title(Some(title), song.file_name), ..song }
}

/// The views of a sequence of records, in the same order.
pub open spec fn song_views(songs: Seq<Song>) -> Seq<SongView> {
    songs.map_values(|s: Song| s@)
}

impl FolderEntry {
    /// Tells whether the entry is an audio file by the extension of its name.
    pub fn is_audio(&self) -> (r: bool)
        ensures
            r == is_audio(self@),
    {
        match &self.file_name {
            Some(name) => is_audio_name(name.as_str()),
            None => false,
        }
    }
}

/// Picks the title as `resolve_title` says.
pub fn pick_title(tag_title: Option<&String>, file_name: &String) -> (title: String)
    ensures
        title@ == resolve_title(
            match tag_title {
                Some(t) => Some(t@),
                None => None,
            },
            file_name@,
        ),
{
    match tag_title {
        Some(t) => {
            if t.as_str().is_empty() {
                file_name.clone()
            } else {
                t.clone()
            }
        },
        None => file_name.clone(),
    }
}

impl Song {
    #[verifier::type_invariant]
    spec fn named(&self) -> bool {
        self.file_name@.len() > 0 && self.display_title@.len() > 0
    }

    /// Makes the record for `entry` under the identifier `song_id`.
    ///
    /// An entry without a file name, or with an empty one, gives no record.
    pub fn new(song_id: usize, entry: &FolderEntry) -> (made: Option<Song>)
        ensures
            made is Some <==> has_name(entry@),
            made matches Some(song) ==> song@ == record_of(song_id, entry@),
    {
        match &entry.file_name {
            Some(name) => {
                if name.as_str().is_empty() {
                    None
                } else {
                    let display_title = pick_title(entry.tag_title.as_ref(), name);
                    Some(
                        Song {
                            song_id,
                            path: entry.path.clone(),
                            file_name: name.clone(),
                            display_title,
                        },
                    )
                }
            },
            None => None,
        }
    }

    /// The identifier given to the record when the catalog was loaded.
    pub fn song_id(&self) -> (id: usize)
        ensures
            id == self@.song_id,
    {
        self.song_id
    }

    /// Where the file is.
    pub fn path(&self) -> (path: &String)
        ensures
            path@ == self@.path,
    {
        &self.path
    }

    /// The file's name, which the title falls back to.
    pub fn file_name(&self) -> (name: &String)
        ensures
            name@ == self@.file_name,
            name@.len() > 0,
    {
        proof {
            use_type_invariant(self);
        }
        &self.file_name
    }

    /// The title shown for the song. It is never empty.
    pub fn display_title(&self) -> (title: &String)
        ensures
            title@ == self@.display_title,
            title@.len() > 0,
    {
        proof {
            use_type_invariant(self);
        }
        &self.display_title
    }

    /// Takes the outcome of writing `new_title` into the file's tag.
    ///
    /// `written` says whether the tag was read and written, and if not, what was
    /// reported. After a write that succeeded the display title is what a fresh
    /// load would now show: `new_title`, or the file name where `new_title` is
    /// empty. After one that failed the record is as before and the failure
    /// comes back as `AppError::TagWrite`.
    pub fn rename(&mut self, new_title: &String, written: Result<(), String>) -> (outcome: Result<
        (),
        AppError,
    >)
        ensures
            match written {
                Ok(_) => {
                    &&& outcome is Ok
                    &&& final(self)@ == retitled(old(self)@, new_title@)
                },
                Err(reason) => {
                    &&& outcome matches Err(error)
                    &&& error@ == ErrorView::TagWrite(reason@)
                    &&& final(self)@ == old(self)@
                },
            },
    {
        proof {
            use_type_invariant(&*self);
        }
        match written {
            Ok(_) => {
                self.display_title = pick_title(Some(new_title), &self.file_name);
                Ok(())
            },
            Err(reason) => Err(AppError::TagWrite(reason)),
        }
    }
}

impl Clone for Song {
    /// A copy of the record.
    fn clone(&self) -> (copy: Song)
        ensures
            copy@ == self@,
    {
        proof {
            use_type_invariant(self);
        }
        Song {
            song_id: self.song_id,
            path: self.path.clone(),
            file_name: self.file_name.clone(),
            display_title: self.display_title.clone(),
        }
    }
}

} // verus!
