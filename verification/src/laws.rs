//! What holds of the store whatever it contains, stated over the views that
//! the operations' contracts speak of.

use vstd::prelude::*;
use crate::manager::{
    distinct_names, has_playlist, lemma_position_in_range, lemma_position_of, lemma_push_distinct,
    lemma_with_song_names, names_of, position_of, restored, songs_in, with_playlist, with_song,
};
use crate::playlist::{empty_playlist, PlaylistView};
use crate::song::SongView;

verus! {

/// How many times `name` stands in `names`.
pub open spec fn occurrences(names: Seq<Seq<char>>, name: Seq<char>) -> nat
    decreases names.len(),
{
    if names.len() == 0 {
        0
    } else {
        let earlier = occurrences(names.drop_last(), name);
        if names.last() == name {
            earlier + 1
        } else {
            earlier
        }
    }
}

/// A name that is not in a list occurs in it zero times.
pub proof fn lemma_absent_occurs_never(names: Seq<Seq<char>>, name: Seq<char>)
    requires
        !names.contains(name),
    ensures
        occurrences(names, name) == 0,
    decreases names.len(),
{
    if names.len() > 0 {
        let front = names.drop_last();
        assert(names.last() == names[names.len() - 1]);
        assert forall|i: int| 0 <= i < front.len() implies front[i] != name by {
            assert(front[i] == names[i]);
        }
        lemma_absent_occurs_never(front, name);
    }
}

/// In a list without repetition, a name that is in it occurs exactly once.
pub proof fn lemma_present_occurs_once(names: Seq<Seq<char>>, name: Seq<char>)
    requires
        names.no_duplicates(),
        names.contains(name),
    ensures
        occurrences(names, name) == 1,
    decreases names.len(),
{
    let front = names.drop_last();
    let at = choose|i: int| 0 <= i < names.len() && names[i] == name;
    assert forall|i: int, j: int| 0 <= i < front.len() && 0 <= j < front.len() && i != j implies front[i]
        != front[j] by {
        assert(front[i] == names[i] && front[j] == names[j]);
    }
    if names.last() == name {
        assert forall|i: int| 0 <= i < front.len() implies front[i] != name by {
            assert(front[i] == names[i]);
            assert(names[names.len() - 1] == name);
        }
        lemma_absent_occurs_never(front, name);
    } else {
        assert(at < front.len());
        assert(front[at] == name);
        lemma_present_occurs_once(front, name);
    }
}

/// Once a playlist has been asked for, the list of names holds its name
/// exactly once, whether it was created or was there before.
pub proof fn law_added_playlist_is_listed_once(entries: Seq<PlaylistView>, name: Seq<char>)
    requires
        distinct_names(entries),
    ensures
        occurrences(names_of(with_playlist(entries, name)), name) == 1,
{
    let after = with_playlist(entries, name);
    if has_playlist(entries, name) {
        lemma_present_occurs_once(names_of(after), name);
    } else {
        lemma_push_distinct(entries, empty_playlist(name));
        assert(names_of(after)[entries.len() as int] == name);
        lemma_present_occurs_once(names_of(after), name);
    }
}

/// Asking for a playlist whose name is taken changes nothing: as many
/// playlists as before, and the same songs under that name.
pub proof fn law_duplicate_playlist_changes_nothing(entries: Seq<PlaylistView>, name: Seq<char>)
    requires
        has_playlist(entries, name),
    ensures
        with_playlist(entries, name) == entries,
        with_playlist(entries, name).len() == entries.len(),
        songs_in(with_playlist(entries, name), name) == songs_in(entries, name),
{
}

/// A song for a playlist that does not exist changes nothing.
pub proof fn law_song_without_playlist_changes_nothing(
    entries: Seq<PlaylistView>,
    name: Seq<char>,
    song: SongView,
)
    requires
        !has_playlist(entries, name),
    ensures
        with_song(entries, name, song) == entries,
{
}

/// What was saved from a store is restored as it was: the same playlists in
/// the same order, each with the same songs in the same order.
pub proof fn law_saved_store_is_restored(entries: Seq<PlaylistView>)
    requires
        distinct_names(entries),
    ensures
        restored(entries) == entries,
    decreases entries.len(),
{
    if entries.len() > 0 {
        let front = entries.drop_last();
        let last = entries.last();
        let names = names_of(entries);
        assert forall|i: int, j: int| 0 <= i < front.len() && 0 <= j < front.len() && i != j implies names_of(
            front,
        )[i] != names_of(front)[j] by {
            assert(names[i] != names[j]);
        }
        law_saved_store_is_restored(front);
        assert forall|i: int| 0 <= i < front.len() implies names_of(front)[i] != last.name by {
            assert(names[i] != names[entries.len() - 1]);
        }
        assert(front.push(last) =~= entries);
    } else {
        assert(entries =~= Seq::<PlaylistView>::empty());
    }
}

/// After a request to create `name`, a lookup finds an empty playlist under
/// a name that was new, and under every other name what it found before.
pub proof fn law_lookup_after_add_playlist(
    entries: Seq<PlaylistView>,
    name: Seq<char>,
    other: Seq<char>,
)
    requires
        distinct_names(entries),
    ensures
        songs_in(with_playlist(entries, name), other) == if other == name && !has_playlist(
            entries,
            name,
        ) {
            Some(Seq::<SongView>::empty())
        } else {
            songs_in(entries, other)
        },
{
    if !has_playlist(entries, name) {
        let after = entries.push(empty_playlist(name));
        lemma_push_distinct(entries, empty_playlist(name));
        if other == name {
            lemma_position_of(after, name, entries.len() as int);
        } else if has_playlist(entries, other) {
            lemma_position_in_range(entries, other);
            lemma_position_of(after, other, position_of(entries, other));
        } else {
            assert forall|i: int| 0 <= i < after.len() implies names_of(after)[i] != other by {
                if i < entries.len() {
                    assert(names_of(entries)[i] != other);
                }
            }
        }
    }
}

/// After a request to add `song` to `name`, a lookup finds the song at the
/// end of that playlist if it exists, and under every other name what it
/// found before.
pub proof fn law_lookup_after_add_song(
    entries: Seq<PlaylistView>,
    name: Seq<char>,
    song: SongView,
    other: Seq<char>,
)
    requires
        distinct_names(entries),
    ensures
        songs_in(with_song(entries, name, song), other) == if other == name && has_playlist(
            entries,
            name,
        ) {
            Some(songs_in(entries, name)->0.push(song))
        } else {
            songs_in(entries, other)
        },
{
    lemma_with_song_names(entries, name, song);
    if has_playlist(entries, name) {
        lemma_position_in_range(entries, name);
        if has_playlist(entries, other) {
            lemma_position_in_range(entries, other);
        }
    }
}

} // verus!
