//! Loading the catalog from a folder listing, and finding records in it.

use vstd::prelude::*;
use crate::error::AppError;
use crate::error::ErrorView;
use crate::extension::lemma_extension_needs_name;
use crate::song::is_audio;
use crate::song::record_of;
use crate::song::retitled;
use crate::song::song_views;
use crate::song::EntryView;
use crate::song::FolderEntry;
use crate::song::Song;
use crate::song::SongView;

verus! {

/// The folder that holds the songs, relative to where the program runs. It is
/// listed without descending into it.
pub const SONG_FOLDER: &'static str = "songs";

/// The entries that become records: the audio files, in the order of the listing.
pub open spec fn kept_entries(entries: Seq<EntryView>) -> Seq<EntryView> {
    entries.filter(|e: EntryView| is_audio(e))
}

/// The catalog that a listing gives: one record for each entry that is kept, in
/// the order of the listing, numbered from zero without gaps.
pub open spec fn catalog_of(entries: Seq<EntryView>) -> Seq<SongView> {
    Seq::new(
        kept_entries(entries).len(),
        |i: int| record_of(i as usize, kept_entries(entries)[i]),
    )
}

/// The views of a sequence of entries, in the same order.
pub open spec fn entry_views(entries: Seq<FolderEntry>) -> Seq<EntryView> {
    entries.map_values(|e: FolderEntry| e@)
}

/// The least position from `from` on whose record has the identifier `song_id`,
/// or the length of `songs` where there is none.
pub open spec fn first_with(songs: Seq<SongView>, song_id: usize, from: int) -> int
    decreases songs.len() - from,
{
    if from < 0 || from >= songs.len() {
        songs.len() as int
    } else if songs[from].song_id == song_id {
        from
    } else {
        first_with(songs, song_id, from + 1)
    }
}

/// The first position in `songs` whose record has the identifier `song_id`, if
/// any record has it.
pub open spec fn position_of(songs: Seq<SongView>, song_id: usize) -> Option<int> {
    if first_with(songs, song_id, 0) < songs.len() {
        Some(first_with(songs, song_id, 0))
    } else {
        None
    }
}

/// `first_with` gives a position at or after `from` that holds the identifier
/// and before which, from `from` on, no record holds it.
pub proof fn lemma_first_with(songs: Seq<SongView>, song_id: usize, from: int)
    requires
        0 <= from <= songs.len(),
    ensures
        from <= first_with(songs, song_id, from) <= songs.len(),
        first_with(songs, song_id, from) < songs.len() ==> songs[first_with(
            songs,
            song_id,
            from,
        )].song_id == song_id,
        forall|j: int|
            from <= j < first_with(songs, song_id, from) ==> (#[trigger] songs[j]).song_id
                != song_id,
    decreases songs.len() - from,
{
    if from < songs.len() && songs[from].song_id != song_id {
        lemma_first_with(songs, song_id, from + 1);
    }
}

/// Taking one more entry of a listing adds it to the kept entries if it is an
/// audio file, and changes nothing otherwise.
proof fn lemma_kept_step(entries: Seq<EntryView>, i: int)
    requires
        0 <= i < entries.len(),
    ensures
        kept_entries(entries.take(i + 1)) == if is_audio(entries[i]) {
            kept_entries(entries.take(i)).push(entries[i])
        } else {
            kept_entries(entries.take(i))
        },
{
    reveal(Seq::filter);
    assert(entries.take(i + 1).drop_last() =~= entries.take(i));
    assert(entries.take(i + 1).last() == entries[i]);
}

/// Builds the catalog from the outcome of listing the song folder.
///
/// A listing that failed gives `AppError::Io` with the text that the listing
/// reported. A listing that succeeded gives the catalog of its entries: the
/// audio files that have a name, in the listing's order, with the identifiers
/// 0, 1, 2, ... and with each title taken from the tag or, failing that, from
/// the file name.
pub fn load_songs(listing: Result<Vec<FolderEntry>, String>) -> (loaded: Result<
    Vec<Song>,
    AppError,
>)
    ensures
        match listing {
            Ok(entries) => {
                &&& loaded matches Ok(songs)
                &&& song_views(songs@) == catalog_of(entry_views(entries@))
            },
            Err(reason) => {
                &&& loaded matches Err(error)
                &&& error@ == ErrorView::Io(reason@)
            },
        },
{
    match listing {
        Ok(entries) => {
            let ghost all = entry_views(entries@);
            let mut songs: Vec<Song> = Vec::new();
            let mut i: usize = 0;
            proof {
                reveal(Seq::filter);
                assert(all.take(0) =~= Seq::<EntryView>::empty());
                assert(song_views(songs@) =~= catalog_of(all.take(0)));
            }
            while i < entries.len()
                invariant
                    i <= entries.len(),
                    all == entry_views(entries@),
                    song_views(songs@) == catalog_of(all.take(i as int)),
                decreases entries.len() - i,
            {
                let entry = &entries[i];
                proof {
                    lemma_kept_step(all, i as int);
                    assert(all[i as int] == entry@);
                    if entry.file_name is Some {
                        lemma_extension_needs_name(entry.file_name->0@);
                    }
                }
                let ghost before = songs@;
                if entry.is_audio() {
                    if let Some(song) = Song::new(songs.len(), entry) {
                        songs.push(song);
                        proof {
                            let kept = kept_entries(all.take(i as int));
                            let grown = kept_entries(all.take(i + 1));
                            assert(grown == kept.push(entry@));
                            assert(before.len() == kept.len()) by {
                                assert(song_views(before).len() == before.len());
                            }
                            assert(songs@ == before.push(song));
                            assert forall|k: int| 0 <= k < songs@.len() implies song_views(
                                songs@,
                            )[k] == catalog_of(all.take(i + 1))[k] by {
                                if k < before.len() {
                                    assert(song_views(before)[k] == before[k]@);
                                    assert(grown[k] == kept[k]);
                                }
                            }
                            assert(song_views(songs@) =~= catalog_of(all.take(i + 1)));
                        }
                    }
                }
                i += 1;
            }
            proof {
                assert(all.take(i as int) =~= all);
            }
            Ok(songs)
        },
        Err(reason) => Err(AppError::Io(reason)),
    }
}

/// Finds the position of the first record with the identifier `song_id`.
pub fn find_position(songs: &Vec<Song>, song_id: usize) -> (found: Option<usize>)
    ensures
        match found {
            Some(i) => position_of(song_views(songs@), song_id) == Some(i as int),
            None => position_of(song_views(songs@), song_id) is None,
        },
{
    let mut i: usize = 0;
    proof {
        lemma_first_with(song_views(songs@), song_id, 0);
    }
    while i < songs.len()
        invariant
            i <= songs.len(),
            first_with(song_views(songs@), song_id, 0) == first_with(
                song_views(songs@),
                song_id,
                i as int,
            ),
        decreases songs.len() - i,
    {
        assert(song_views(songs@)[i as int] == songs@[i as int]@);
        if songs[i].song_id() == song_id {
            return Some(i);
        }
        i += 1;
    }
    None
}

/// Finds the first record with the identifier `song_id` and hands it out for
/// change.
pub fn find_song_mut(songs: &mut Vec<Song>, song_id: usize) -> (found: Option<&mut Song>)
    ensures
        match found {
            Some(song) => {
                &&& position_of(song_views(old(songs)@), song_id) matches Some(i)
                &&& *song == old(songs)@[i]
                &&& final(songs)@ == old(songs)@.update(i, *final(song))
            },
            None => {
                &&& position_of(song_views(old(songs)@), song_id) is None
                &&& final(songs)@ == old(songs)@
            },
        },
{
    proof {
        lemma_first_with(song_views(songs@), song_id, 0);
    }
    match find_position(songs, song_id) {
        Some(i) => Some(&mut songs[i]),
        None => None,
    }
}

/// The positions in a listing of the entries that become records, in rising
/// order.
pub open spec fn kept_positions(entries: Seq<EntryView>) -> Seq<int>
    decreases entries.len(),
{
    if entries.len() == 0 {
        Seq::empty()
    } else if is_audio(entries.last()) {
        kept_positions(entries.drop_last()).push(entries.len() - 1)
    } else {
        kept_positions(entries.drop_last())
    }
}

/// The entries of a listing that do not become records.
pub open spec fn dropped_entries(entries: Seq<EntryView>) -> Seq<EntryView> {
    entries.filter(|e: EntryView| !is_audio(e))
}

/// The catalog after the record at position `i` has taken the title `title`.
pub open spec fn renamed(songs: Seq<SongView>, i: int, title: Seq<char>) -> Seq<SongView> {
    songs.update(i, retitled(songs[i], title))
}

/// `kept_positions` lists, in rising order, exactly the places of the audio
/// files, and `kept_entries` holds the entries at those places.
pub proof fn lemma_kept_positions(entries: Seq<EntryView>)
    ensures
        kept_positions(entries).len() == kept_entries(entries).len(),
        kept_entries(entries).len() + dropped_entries(entries).len() == entries.len(),
        forall|i: int|
            0 <= i < kept_positions(entries).len() ==> {
                let k = #[trigger] kept_positions(entries)[i];
                &&& 0 <= k < entries.len()
                &&& is_audio(entries[k])
                &&& kept_entries(entries)[i] == entries[k]
            },
        forall|i: int, j: int|
            0 <= i < j < kept_positions(entries).len() ==> #[trigger] kept_positions(entries)[i]
                < #[trigger] kept_positions(entries)[j],
        forall|k: int|
            0 <= k < entries.len() && is_audio(#[trigger] entries[k]) ==> kept_positions(
                entries,
            ).contains(k),
    decreases entries.len(),
{
    reveal(Seq::filter);
    if entries.len() > 0 {
        let shorter = entries.drop_last();
        lemma_kept_positions(shorter);
        let positions = kept_positions(entries);
        assert forall|k: int| 0 <= k < entries.len() && is_audio(
            #[trigger] entries[k],
        ) implies positions.contains(k) by {
            if k < shorter.len() {
                assert(shorter[k] == entries[k]);
                let i = choose|i: int|
                    0 <= i < kept_positions(shorter).len() && kept_positions(shorter)[i] == k;
                assert(positions[i] == k);
            } else {
                assert(positions[positions.len() - 1] == k);
            }
        }
    }
}

/// What a load yields, for every listing.
///
/// Of a listing with N audio files, by their extension in any mix of case, and
/// M other entries, the catalog holds exactly N records. Their identifiers are
/// 0, 1, ..., N - 1, so no two are equal. The records stand in the order of the
/// listing: record `i` is made from the `i`-th audio file. Its title is the
/// tag's title where the tag holds one that is not empty, and the file name
/// otherwise; it is never empty.
pub proof fn lemma_load_yields(entries: Seq<EntryView>)
    requires
        entries.len() <= usize::MAX,
    ensures
        catalog_of(entries).len() == kept_entries(entries).len(),
        catalog_of(entries).len() + dropped_entries(entries).len() == entries.len(),
        catalog_of(entries).len() == kept_positions(entries).len(),
        forall|i: int|
            0 <= i < catalog_of(entries).len() ==> (#[trigger] catalog_of(entries)[i]).song_id == i,
        forall|i: int, j: int|
            0 <= i < catalog_of(entries).len() && 0 <= j < catalog_of(entries).len() && i != j
                ==> (#[trigger] catalog_of(entries)[i]).song_id != (#[trigger] catalog_of(
                entries,
            )[j]).song_id,
        forall|i: int, j: int|
            0 <= i < j < catalog_of(entries).len() ==> #[trigger] kept_positions(entries)[i]
                < #[trigger] kept_positions(entries)[j],
        forall|i: int|
            0 <= i < catalog_of(entries).len() ==> {
                let record = #[trigger] catalog_of(entries)[i];
                let source = entries[kept_positions(entries)[i]];
                &&& is_audio(source)
                &&& source.file_name is Some
                &&& record.path == source.path
                &&& record.file_name == source.file_name->0
                &&& record.display_title == match source.tag_title {
                    Some(title) => if title.len() > 0 {
                        title
                    } else {
                        source.file_name->0
                    },
                    None => source.file_name->0,
                }
                &&& record.display_title.len() > 0
            },
{
    lemma_kept_positions(entries);
    entries.lemma_filter_len(|e: EntryView| is_audio(e));
    assert forall|i: int| 0 <= i < catalog_of(entries).len() implies {
        let source = entries[kept_positions(entries)[i]];
        &&& source.file_name is Some
        &&& (#[trigger] catalog_of(entries)[i]).display_title.len() > 0
    } by {
        let source = entries[kept_positions(entries)[i]];
        assert(kept_entries(entries)[i] == source);
        lemma_extension_needs_name(source.file_name->0);
    }
}

/// In a freshly loaded catalog a record is found by its identifier at the
/// position that the identifier names, and no other identifier finds anything.
pub proof fn lemma_find_after_load(entries: Seq<EntryView>, song_id: usize)
    requires
        entries.len() <= usize::MAX,
    ensures
        position_of(catalog_of(entries), song_id) == if song_id < catalog_of(entries).len() {
            Some(song_id as int)
        } else {
            None
        },
{
    let catalog = catalog_of(entries);
    entries.lemma_filter_len(|e: EntryView| is_audio(e));
    lemma_first_with(catalog, song_id, 0);
    let first = first_with(catalog, song_id, 0);
    if song_id < catalog.len() {
        assert(catalog[song_id as int].song_id == song_id);
        if first < song_id {
            assert(catalog[first].song_id == first);
        }
    } else if first < catalog.len() {
        assert(catalog[first].song_id == first);
    }
}

/// A rename that was saved shows again after a fresh load.
///
/// Let the `k`-th entry of a listing be an audio file, and let its tag come to
/// hold the title `title` while nothing else in the folder changes. Then a
/// fresh load gives the catalog that the first load gave with that file's
/// record renamed to `title`. In particular the record's title is `title`
/// itself where `title` is not empty.
pub proof fn lemma_rename_survives_reload(entries: Seq<EntryView>, k: int, title: Seq<char>)
    requires
        0 <= k < entries.len(),
        is_audio(entries[k]),
    ensures
        ({
            let i = kept_entries(entries.take(k)).len() as int;
            let reread = entries.update(k, EntryView { tag_title: Some(title), ..entries[k] });
            &&& 0 <= i < catalog_of(entries).len()
            &&& kept_positions(entries)[i] == k
            &&& catalog_of(reread) == renamed(catalog_of(entries), i, title)
            &&& title.len() > 0 ==> catalog_of(reread)[i].display_title == title
        }),
{
    let i = kept_entries(entries.take(k)).len() as int;
    let changed = EntryView { tag_title: Some(title), ..entries[k] };
    let reread = entries.update(k, changed);
    lemma_kept_update(entries, k, changed);
    lemma_kept_at(entries, k);
    assert(catalog_of(reread) =~= renamed(catalog_of(entries), i, title));
}

/// The `k`-th entry of a listing, where it is an audio file, stands among the
/// kept entries behind those kept of the first `k`.
proof fn lemma_kept_at(entries: Seq<EntryView>, k: int)
    requires
        0 <= k < entries.len(),
        is_audio(entries[k]),
    ensures
        kept_entries(entries.take(k)).len() < kept_entries(entries).len(),
        kept_entries(entries)[kept_entries(entries.take(k)).len() as int] == entries[k],
        kept_positions(entries)[kept_entries(entries.take(k)).len() as int] == k,
    decreases entries.len(),
{
    reveal(Seq::filter);
    lemma_kept_positions(entries);
    let shorter = entries.drop_last();
    if k == entries.len() - 1 {
        assert(entries.take(k) =~= shorter);
        lemma_kept_positions(shorter);
    } else {
        assert(shorter.take(k) =~= entries.take(k));
        lemma_kept_at(shorter, k);
        lemma_kept_positions(shorter);
    }
}

/// Changing the `k`-th entry of a listing without changing its name changes the
/// kept entries at one place, if the entry is an audio file, and not at all
/// otherwise.
proof fn lemma_kept_update(entries: Seq<EntryView>, k: int, changed: EntryView)
    requires
        0 <= k < entries.len(),
        changed.file_name == entries[k].file_name,
    ensures
        kept_entries(entries.update(k, changed)) == if is_audio(entries[k]) {
            kept_entries(entries).update(kept_entries(entries.take(k)).len() as int, changed)
        } else {
            kept_entries(entries)
        },
    decreases entries.len(),
{
    reveal(Seq::filter);
    let shorter = entries.drop_last();
    let after = entries.update(k, changed);
    if k == entries.len() - 1 {
        assert(after.drop_last() =~= shorter);
        assert(entries.take(k) =~= shorter);
        if is_audio(entries[k]) {
            assert(kept_entries(after) =~= kept_entries(entries).update(
                kept_entries(shorter).len() as int,
                changed,
            ));
        }
    } else {
        assert(after.drop_last() =~= shorter.update(k, changed));
        assert(shorter.take(k) =~= entries.take(k));
        lemma_kept_update(shorter, k, changed);
        if is_audio(entries[k]) {
            lemma_kept_at(shorter, k);
            let i = kept_entries(entries.take(k)).len() as int;
            if is_audio(entries.last()) {
                assert(kept_entries(after) =~= kept_entries(entries).update(i, changed));
            }
        }
    }
}

} // verus!
