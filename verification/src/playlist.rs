//! Playlists: a name and the songs under it, in the order they were added.

use vstd::prelude::*;
use crate::song::{clone_songs, song_views, Song, SongView};

verus! {

/// What a [`Playlist`] holds: its name and its songs, first added first.
pub struct PlaylistView {
    pub name: Seq<char>,
    pub songs: Seq<SongView>,
}

/// A named, ordered collection of songs.
#[derive(Debug, PartialEq, Eq)]
pub struct Playlist {
    pub name: String,
    pub songs: Vec<Song>,
}

impl View for Playlist {
    type V = PlaylistView;

    open spec fn view(&self) -> PlaylistView {
        PlaylistView { name: self.name@, songs: song_views(self.songs@) }
    }
}

/// The playlist called `name` that holds no song.
pub open spec fn empty_playlist(name: Seq<char>) -> PlaylistView {
    PlaylistView { name, songs: Seq::empty() }
}

impl Playlist {
    /// A playlist called `name` with no song in it.
    pub fn new(name: String) -> (playlist: Playlist)
        ensures
            playlist@ == empty_playlist(name@),
    {
        let playlist = Playlist { name, songs: Vec::new() };
        assert(song_views(playlist.songs@) =~= Seq::empty());
        playlist
    }
}

impl Clone for Playlist {
    /// A copy with the same name and the same songs in the same order.
    fn clone(&self) -> (copy: Playlist)
        ensures
            copy@ == self@,
    {
        Playlist { name: self.name.clone(), songs: clone_songs(&self.songs) }
    }
}

} // verus!
