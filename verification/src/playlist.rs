//! The persisted playlist: an ordered sequence of songs whose on-disk file
//! holds one record line per song, in the same order. The surrounding
//! application reads and writes that file; this module owns the in-memory
//! sequence, membership, and the record lines to persist.

use vstd::prelude::*;

use crate::song::{lemma_serialise_round_trip, record_fields_ok, spec_deserialise, spec_serialise, wf_record, Song, SongView};

verus! {

/// Whether some song in `songs` has the url `url`. Song identity is by url,
/// so this is the playlist's membership test.
pub open spec fn has_url(songs: Seq<Song>, url: Seq<char>) -> bool {
    exists|i: int| 0 <= i < songs.len() && songs[i].url@ == url
}

/// The playlist's songs as mathematical values.
pub open spec fn deep_view(songs: Seq<Song>) -> Seq<SongView> {
    songs.map_values(|s: Song| s@)
}

/// An ordered, persisted collection of songs. Display order and persistence
/// order are the same: the record at position `i` of the playlist file is
/// `self.songs[i]`. The membership index is the set of urls present in
/// `songs`, kept as the spec-level [`Playlist::url_set`], so the invariant
/// that index and sequence agree holds by construction.
pub struct Playlist {
    pub songs: Vec<Song>,
}

impl Playlist {
    /// The membership index: exactly the urls present in the sequence.
    pub open spec fn url_set(self) -> Set<Seq<char>> {
        Set::new(|u: Seq<char>| has_url(self.songs@, u))
    }

    /// Build the playlist from the record lines of the playlist file,
    /// in file order.
    pub fn load_playlist(lines: Vec<String>) -> (p: Playlist)
        requires
            forall|i: int| 0 <= i < lines@.len() ==> wf_record(#[trigger] lines@[i]@),
        ensures
            deep_view(p.songs@) =~= lines@.map_values(|l: String| spec_deserialise(l@)),
    {
        let mut songs: Vec<Song> = Vec::new();
        let n = lines.len();
        let mut i: usize = 0;
        while i < n
            invariant
                i <= n,
                n == lines@.len(),
                forall|j: int| 0 <= j < lines@.len() ==> wf_record(#[trigger] lines@[j]@),
                songs@.len() == i,
                forall|j: int|
                    0 <= j < i ==> #[trigger] songs@[j]@ == spec_deserialise(lines@[j]@),
            decreases n - i,
        {
            songs.push(Song::deserialise(lines[i].clone()));
            i += 1;
        }
        Playlist { songs }
    }

    /// Append a song to the playlist. The caller appends
    /// `song.serialise()` as one new line to the playlist file, keeping the
    /// positional correspondence.
    pub fn add_song(&mut self, song: Song)
        ensures
            final(self).songs@ == old(self).songs@.push(song),
    {
        self.songs.push(song);
    }

    /// Whether a song with this url is already in the playlist.
    pub fn contains(&self, song: &Song) -> (r: bool)
        ensures
            r == has_url(self.songs@, song.url@),
            r == self.url_set().contains(song.url@),
    {
        let n = self.songs.len();
        let mut i: usize = 0;
        while i < n
            invariant
                i <= n,
                n == self.songs@.len(),
                forall|j: int| 0 <= j < i ==> self.songs@[j].url@ != song.url@,
            decreases n - i,
        {
            if self.songs[i].url == song.url {
                return true;
            }
            i += 1;
        }
        false
    }

    /// Remove the song at `idx`. The caller removes the record at the same
    /// position from the playlist file.
    pub fn remove_song(&mut self, idx: usize)
        requires
            idx < old(self).songs@.len(),
        ensures
            final(self).songs@ == old(self).songs@.remove(idx as int),
            final(self).songs@.len() == old(self).songs@.len() - 1,
    {
        self.songs.remove(idx);
    }

    /// Record that the song at `idx` now has a local audio file at `path`:
    /// its `file` field goes from whatever it held to `Some(path)`, and no
    /// other song changes. The caller persists the updated records.
    pub fn set_file(&mut self, idx: usize, path: String)
        requires
            idx < old(self).songs@.len(),
        ensures
            final(self).songs@.len() == old(self).songs@.len(),
            forall|j: int|
                0 <= j < old(self).songs@.len() && j != idx ==> final(self).songs@[j] == old(
                    self,
                ).songs@[j],
            final(self).songs@[idx as int]@ == (SongView {
                file: Some(path@),
                ..old(self).songs@[idx as int]@
            }),
    {
        let song = &self.songs[idx];
        let updated = Song {
            name: song.name.clone(),
            channel: song.channel.clone(),
            url: song.url.clone(),
            file: Some(path),
        };
        self.songs.set(idx, updated);
    }

    /// The record lines that persist this playlist, one per song, in order.
    pub fn record_lines(&self) -> (lines: Vec<String>)
        ensures
            lines@.len() == self.songs@.len(),
            forall|i: int|
                0 <= i < self.songs@.len() ==> #[trigger] lines@[i]@ == spec_serialise(
                    self.songs@[i]@,
                ),
    {
        let n = self.songs.len();
        let mut lines: Vec<String> = Vec::new();
        let mut i: usize = 0;
        while i < n
            invariant
                i <= n,
                n == self.songs@.len(),
                lines@.len() == i,
                forall|j: int|
                    0 <= j < i ==> #[trigger] lines@[j]@ == spec_serialise(self.songs@[j]@),
            decreases n - i,
        {
            lines.push(self.songs[i].serialise());
            i += 1;
        }
        lines
    }
}

/// Persisting a playlist and loading the file back restores exactly the
/// songs that were written: the record lines are well formed, and parsing
/// them, record by record, gives back the songs.
pub proof fn lemma_records_round_trip(views: Seq<SongView>)
    requires
        forall|i: int| 0 <= i < views.len() ==> record_fields_ok(#[trigger] views[i]),
    ensures
        forall|i: int|
            0 <= i < views.len() ==> wf_record(spec_serialise(#[trigger] views[i])),
        views.map_values(|v: SongView| spec_deserialise(spec_serialise(v))) =~= views,
{
    assert forall|i: int| 0 <= i < views.len() implies wf_record(
        spec_serialise(#[trigger] views[i]),
    ) && spec_deserialise(spec_serialise(views[i])) == views[i] by {
        lemma_serialise_round_trip(views[i]);
    }
}

/// After adding a song, the playlist contains its url.
pub proof fn lemma_add_then_contains(songs: Seq<Song>, song: Song)
    ensures
        has_url(songs.push(song), song.url@),
{
    assert(songs.push(song)[songs.len() as int] == song);
}

/// A url that no song of the playlist has is not contained: membership can
/// only come from an added song.
pub proof fn lemma_never_added_not_contained(songs: Seq<Song>, url: Seq<char>)
    requires
        forall|i: int| 0 <= i < songs.len() ==> songs[i].url@ != url,
    ensures
        !has_url(songs, url),
{
}

/// Removing a song shrinks the playlist by exactly one; and when the removed
/// song was the only one with its url, that url is no longer contained.
pub proof fn lemma_remove_last_url(songs: Seq<Song>, idx: int)
    requires
        0 <= idx < songs.len(),
        forall|j: int| 0 <= j < songs.len() && j != idx ==> songs[j].url@ != songs[idx].url@,
    ensures
        songs.remove(idx).len() == songs.len() - 1,
        !has_url(songs.remove(idx), songs[idx].url@),
{
    let rest = songs.remove(idx);
    assert forall|j: int| 0 <= j < rest.len() implies rest[j].url@ != songs[idx].url@ by {
        if j < idx {
            assert(rest[j] == songs[j]);
        } else {
            assert(rest[j] == songs[j + 1]);
        }
    }
}

} // verus!
