//! The store: every playlist of a session, found by name.

use vstd::prelude::*;
use crate::playlist::{empty_playlist, Playlist, PlaylistView};
use crate::song::{song_views, Song, SongView};

verus! {

/// The views of `playlists`, in the same order.
pub open spec fn playlist_views(playlists: Seq<Playlist>) -> Seq<PlaylistView> {
    playlists.map_values(|p: Playlist| p@)
}

/// The names of `entries`, in the same order.
pub open spec fn names_of(entries: Seq<PlaylistView>) -> Seq<Seq<char>> {
    entries.map_values(|p: PlaylistView| p.name)
}

/// No two of `entries` share a name.
pub open spec fn distinct_names(entries: Seq<PlaylistView>) -> bool {
    names_of(entries).no_duplicates()
}

/// Some playlist of `entries` is called `name`.
pub open spec fn has_playlist(entries: Seq<PlaylistView>, name: Seq<char>) -> bool {
    names_of(entries).contains(name)
}

/// Where the playlist called `name` stands in `entries`. Meaningful only where
/// there is one.
pub open spec fn position_of(entries: Seq<PlaylistView>, name: Seq<char>) -> int
    recommends
        has_playlist(entries, name),
{
    names_of(entries).index_of(name)
}

/// The songs of the playlist called `name`, if there is one.
pub open spec fn songs_in(entries: Seq<PlaylistView>, name: Seq<char>) -> Option<Seq<SongView>> {
    if has_playlist(entries, name) {
        Some(entries[position_of(entries, name)].songs)
    } else {
        None
    }
}

/// `entries` after a request to create `name`: a new empty playlist at the
/// end, unless the name is taken.
pub open spec fn with_playlist(entries: Seq<PlaylistView>, name: Seq<char>) -> Seq<PlaylistView> {
    if has_playlist(entries, name) {
        entries
    } else {
        entries.push(empty_playlist(name))
    }
}

/// `entries` after a request to add `song` to `name`: the song at the end of
/// that playlist, and nothing where no playlist has that name.
pub open spec fn with_song(entries: Seq<PlaylistView>, name: Seq<char>, song: SongView) -> Seq<
    PlaylistView,
> {
    if has_playlist(entries, name) {
        let at = position_of(entries, name);
        entries.update(at, PlaylistView { name, songs: entries[at].songs.push(song) })
    } else {
        entries
    }
}

/// What is kept of `items` when they are put into a store one after the
/// other: of several playlists with one name, the first.
pub open spec fn restored(items: Seq<PlaylistView>) -> Seq<PlaylistView>
    decreases items.len(),
{
    if items.len() == 0 {
        Seq::empty()
    } else {
        let before = restored(items.drop_last());
        if has_playlist(before, items.last().name) {
            before
        } else {
            before.push(items.last())
        }
    }
}

/// The texts of `strings`, in the same order.
pub open spec fn texts_of(strings: Seq<String>) -> Seq<Seq<char>> {
    strings.map_values(|s: String| s@)
}

/// Where names differ pairwise, a playlist stands where its name is looked up.
pub proof fn lemma_position_of(entries: Seq<PlaylistView>, name: Seq<char>, at: int)
    requires
        distinct_names(entries),
        0 <= at < entries.len(),
        entries[at].name == name,
    ensures
        has_playlist(entries, name),
        position_of(entries, name) == at,
{
    let names = names_of(entries);
    assert(names[at] == name);
    let chosen = names.index_of(name);
    assert(0 <= chosen < names.len() && names[chosen] == name);
}

/// A name that is looked up and found stands at a place of the sequence.
pub proof fn lemma_position_in_range(entries: Seq<PlaylistView>, name: Seq<char>)
    requires
        has_playlist(entries, name),
    ensures
        0 <= position_of(entries, name) < entries.len(),
        entries[position_of(entries, name)].name == name,
{
    let names = names_of(entries);
    let chosen = names.index_of(name);
    assert(0 <= chosen < names.len() && names[chosen] == name);
}

/// A playlist under a new name, put at the end, keeps the names pairwise
/// different.
pub proof fn lemma_push_distinct(entries: Seq<PlaylistView>, fresh: PlaylistView)
    requires
        distinct_names(entries),
        !has_playlist(entries, fresh.name),
    ensures
        distinct_names(entries.push(fresh)),
{
    let names = names_of(entries);
    let after = names_of(entries.push(fresh));
    assert(after =~= names.push(fresh.name));
    assert forall|i: int, j: int| 0 <= i < after.len() && 0 <= j < after.len() && i != j implies after[i]
        != after[j] by {
        if i < names.len() && j < names.len() {
            assert(names[i] != names[j]);
        } else if i < names.len() {
            assert(names[i] != fresh.name);
        } else {
            assert(names[j] != fresh.name);
        }
    }
}

/// Creating a playlist keeps the names pairwise different.
pub proof fn lemma_with_playlist_distinct(entries: Seq<PlaylistView>, name: Seq<char>)
    requires
        distinct_names(entries),
    ensures
        distinct_names(with_playlist(entries, name)),
{
    if !has_playlist(entries, name) {
        lemma_push_distinct(entries, empty_playlist(name));
    }
}

/// Adding a song changes no name.
pub proof fn lemma_with_song_names(entries: Seq<PlaylistView>, name: Seq<char>, song: SongView)
    ensures
        names_of(with_song(entries, name, song)) == names_of(entries),
{
    if has_playlist(entries, name) {
        lemma_position_in_range(entries, name);
    }
    assert(names_of(with_song(entries, name, song)) =~= names_of(entries));
}

/// What is restored has pairwise different names.
pub proof fn lemma_restored_distinct(items: Seq<PlaylistView>)
    ensures
        distinct_names(restored(items)),
    decreases items.len(),
{
    if items.len() > 0 {
        lemma_restored_distinct(items.drop_last());
        let before = restored(items.drop_last());
        if !has_playlist(before, items.last().name) {
            lemma_push_distinct(before, items.last());
        }
    }
}

/// How a request to create a playlist ended.
#[derive(Debug, Clone, Copy, PartialEq, Eq, Structural)]
pub enum AddPlaylistOutcome {
    /// The playlist now exists, empty.
    Created,
    /// A playlist of that name was there already; nothing changed.
    Duplicate,
}

/// How a request to add a song ended.
#[derive(Debug, Clone, Copy, PartialEq, Eq, Structural)]
pub enum AddSongOutcome {
    /// The song is now the last of the playlist.
    Added,
    /// No playlist has that name; nothing changed.
    NotFound,
}

/// All playlists of a session. No two share a name.
#[derive(Debug)]
pub struct PlaylistManager {
    playlists: Vec<Playlist>,
}

impl View for PlaylistManager {
    type V = Seq<PlaylistView>;

    /// The playlists, first created first.
    closed spec fn view(&self) -> Seq<PlaylistView> {
        playlist_views(self.playlists@)
    }
}

impl PlaylistManager {
    #[verifier::type_invariant]
    spec fn names_are_keys(&self) -> bool {
        distinct_names(self@)
    }

    /// A store with no playlist.
    pub fn new() -> (manager: PlaylistManager)
        ensures
            manager@ == Seq::<PlaylistView>::empty(),
    {
        let playlists: Vec<Playlist> = Vec::new();
        assert(playlist_views(playlists@) =~= Seq::<PlaylistView>::empty());
        PlaylistManager { playlists }
    }

    /// Moves the playlists out and leaves the store empty.
    fn take_playlists(&mut self) -> (taken: Vec<Playlist>)
        ensures
            playlist_views(taken@) == old(self)@,
            final(self)@ == Seq::<PlaylistView>::empty(),
    {
        let mut taken: Vec<Playlist> = Vec::new();
        assert(playlist_views(taken@) =~= Seq::<PlaylistView>::empty());
        std::mem::swap(&mut self.playlists, &mut taken);
        taken
    }

    /// The index of the playlist called `name`.
    fn find(&self, name: &String) -> (found: Option<usize>)
        ensures
            found is Some <==> has_playlist(self@, name@),
            found is Some ==> found->0 == position_of(self@, name@),
            found is Some ==> found->0 < self.playlists.len(),
    {
        proof {
            use_type_invariant(self);
        }
        let mut i: usize = 0;
        while i < self.playlists.len()
            invariant
                i <= self.playlists.len(),
                distinct_names(self@),
                forall|k: int| 0 <= k < i ==> (#[trigger] names_of(self@)[k]) != name@,
            decreases self.playlists.len() - i,
        {
            if self.playlists[i].name == *name {
                proof {
                    lemma_position_of(self@, name@, i as int);
                }
                return Some(i);
            }
            i += 1;
        }
        None
    }

    /// Creates an empty playlist called `name`, unless one of that name exists.
    pub fn add_playlist(&mut self, name: String) -> (outcome: AddPlaylistOutcome)
        ensures
            final(self)@ == with_playlist(old(self)@, name@),
            has_playlist(old(self)@, name@) ==> final(self)@ == old(self)@,
            has_playlist(final(self)@, name@),
            distinct_names(final(self)@),
            outcome == if has_playlist(old(self)@, name@) {
                AddPlaylistOutcome::Duplicate
            } else {
                AddPlaylistOutcome::Created
            },
    {
        proof {
            use_type_invariant(&*self);
        }
        match self.find(&name) {
            Some(_) => AddPlaylistOutcome::Duplicate,
            None => {
                let ghost before = self@;
                let ghost fresh = name@;
                let mut playlists = self.take_playlists();
                playlists.push(Playlist::new(name));
                assert(playlist_views(playlists@) =~= before.push(empty_playlist(fresh)));
                proof {
                    lemma_with_playlist_distinct(before, fresh);
                    assert(names_of(before.push(empty_playlist(fresh)))[before.len() as int]
                        == fresh);
                }
                self.playlists = playlists;
                AddPlaylistOutcome::Created
            },
        }
    }

    /// Appends `song` to the playlist called `playlist_name`, if there is one.
    pub fn add_song(&mut self, playlist_name: &str, song: Song) -> (outcome: AddSongOutcome)
        ensures
            final(self)@ == with_song(old(self)@, playlist_name@, song@),
            !has_playlist(old(self)@, playlist_name@) ==> final(self)@ == old(self)@,
            names_of(final(self)@) == names_of(old(self)@),
            distinct_names(final(self)@),
            outcome == if has_playlist(old(self)@, playlist_name@) {
                AddSongOutcome::Added
            } else {
                AddSongOutcome::NotFound
            },
    {
        proof {
            use_type_invariant(&*self);
        }
        let key = playlist_name.to_owned();
        match self.find(&key) {
            None => AddSongOutcome::NotFound,
            Some(at) => {
                let ghost before = self@;
                let ghost added = song@;
                let mut playlists = self.take_playlists();
                let ghost songs_before = playlists[at as int].songs@;
                playlists[at].songs.push(song);
                proof {
                    lemma_position_in_range(before, key@);
                    lemma_with_song_names(before, key@, added);
                    assert(song_views(songs_before.push(song)) =~= song_views(songs_before).push(
                        added,
                    ));
                    assert(playlist_views(playlists@) =~= with_song(before, key@, added));
                }
                self.playlists = playlists;
                AddSongOutcome::Added
            },
        }
    }

    /// The names of all playlists, first created first.
    pub fn list_playlists(&self) -> (names: Vec<String>)
        ensures
            texts_of(names@) == names_of(self@),
            texts_of(names@).no_duplicates(),
    {
        proof {
            use_type_invariant(self);
        }
        let mut names: Vec<String> = Vec::new();
        let mut i: usize = 0;
        while i < self.playlists.len()
            invariant
                i <= self.playlists.len(),
                names.len() == i,
                forall|k: int| 0 <= k < i ==> (#[trigger] names[k])@ == self.playlists[k].name@,
            decreases self.playlists.len() - i,
        {
            names.push(self.playlists[i].name.clone());
            i += 1;
        }
        assert(texts_of(names@) =~= names_of(self@));
        names
    }

    /// The songs of the playlist called `playlist_name`, first added first.
    pub fn list_songs(&self, playlist_name: &str) -> (songs: Option<&Vec<Song>>)
        ensures
            songs is Some <==> has_playlist(self@, playlist_name@),
            songs is Some ==> Some(song_views(songs->0@)) == songs_in(self@, playlist_name@),
    {
        let key = playlist_name.to_owned();
        match self.find(&key) {
            None => None,
            Some(at) => Some(&self.playlists[at].songs),
        }
    }

    /// A copy of every playlist, first created first: what a front end writes
    /// out to keep the store.
    pub fn save(&self) -> (saved: Vec<Playlist>)
        ensures
            playlist_views(saved@) == self@,
            distinct_names(playlist_views(saved@)),
    {
        proof {
            use_type_invariant(self);
        }
        let mut saved: Vec<Playlist> = Vec::new();
        let mut i: usize = 0;
        while i < self.playlists.len()
            invariant
                i <= self.playlists.len(),
                saved.len() == i,
                forall|k: int| 0 <= k < i ==> (#[trigger] saved[k])@ == self.playlists[k]@,
            decreases self.playlists.len() - i,
        {
            saved.push(self.playlists[i].clone());
            i += 1;
        }
        assert(playlist_views(saved@) =~= self@);
        saved
    }

    /// The store that a front end starts from: empty where nothing usable was
    /// `found`, else the playlists found, the first of each name.
    pub fn load(found: Option<Vec<Playlist>>) -> (manager: PlaylistManager)
        ensures
            manager@ == match found {
                Some(items) => restored(playlist_views(items@)),
                None => Seq::<PlaylistView>::empty(),
            },
            distinct_names(manager@),
    {
        let mut manager = PlaylistManager::new();
        match found {
            None => manager,
            Some(items) => {
                assert(playlist_views(Seq::<Playlist>::empty()) =~= Seq::<PlaylistView>::empty());
                let ghost all = items@;
                for item in it: items
                    invariant
                        it.seq() == all,
                        manager@ == restored(playlist_views(all.take(it.index() as int))),
                {
                    proof {
                        let done = it.index() as int;
                        assert(all.take(done + 1).drop_last() =~= all.take(done));
                        assert(playlist_views(all.take(done + 1)).drop_last() =~= playlist_views(
                            all.take(done),
                        ));
                    }
                    manager.put(item);
                }
                proof {
                    assert(all.take(all.len() as int) =~= all);
                    lemma_restored_distinct(playlist_views(all));
                }
                manager
            },
        }
    }

    /// Puts `playlist` at the end, unless its name is taken.
    fn put(&mut self, playlist: Playlist)
        ensures
            final(self)@ == if has_playlist(old(self)@, playlist@.name) {
                old(self)@
            } else {
                old(self)@.push(playlist@)
            },
    {
        proof {
            use_type_invariant(&*self);
        }
        if self.find(&playlist.name).is_none() {
            let ghost before = self@;
            let ghost fresh = playlist@;
            let mut playlists = self.take_playlists();
            playlists.push(playlist);
            proof {
                assert(playlist_views(playlists@) =~= before.push(fresh));
                lemma_push_distinct(before, fresh);
            }
            self.playlists = playlists;
        }
    }
}

} // verus!
