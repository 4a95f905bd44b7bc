//! Songs, the items a playlist holds.

use vstd::prelude::*;

verus! {

/// What a [`Song`] says, as plain text and a number.
pub struct SongView {
    pub title: Seq<char>,
    pub singer: Seq<char>,
    pub album: Seq<char>,
    pub duration: nat,
}

/// One track. The duration is in whole seconds.
#[derive(Debug, PartialEq, Eq)]
pub struct Song {
    pub title: String,
    pub singer: String,
    pub album: String,
    pub duration: u32,
}

impl View for Song {
    type V = SongView;

    open spec fn view(&self) -> SongView {
        SongView {
            title: self.title@,
            singer: self.singer@,
            album: self.album@,
            duration: self.duration as nat,
        }
    }
}

impl Clone for Song {
    /// A copy that says the same as `self`.
    fn clone(&self) -> (copy: Song)
        ensures
            copy@ == self@,
    {
        Song {
            title: self.title.clone(),
            singer: self.singer.clone(),
            album: self.album.clone(),
            duration: self.duration,
        }
    }
}

/// The views of `songs`, in the same order.
pub open spec fn song_views(songs: Seq<Song>) -> Seq<SongView> {
    songs.map_values(|s: Song| s@)
}

/// Copies a list of songs.
pub fn clone_songs(songs: &Vec<Song>) -> (copy: Vec<Song>)
    ensures
        song_views(copy@) == song_views(songs@),
{
    let mut copy: Vec<Song> = Vec::new();
    let mut i: usize = 0;
    while i < songs.len()
        invariant
            i <= songs.len(),
            copy.len() == i,
            forall|k: int| 0 <= k < i ==> (#[trigger] copy[k])@ == songs[k]@,
        decreases songs.len() - i,
    {
        copy.push(songs[i].clone());
        i += 1;
    }
    assert(song_views(copy@) =~= song_views(songs@));
    copy
}

} // verus!
