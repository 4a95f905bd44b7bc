//! The lines a front end shows: outcomes, names and songs as text.

use vstd::prelude::*;
use vstd::string::StringExecFns;
use crate::manager::{texts_of, AddPlaylistOutcome, AddSongOutcome};
use crate::song::{song_views, Song, SongView};

verus! {

/// The character of one decimal digit.
pub open spec fn digit_char(digit: nat) -> char
    recommends
        digit < 10,
{
    if digit == 0 {
        '0'
    } else if digit == 1 {
        '1'
    } else if digit == 2 {
        '2'
    } else if digit == 3 {
        '3'
    } else if digit == 4 {
        '4'
    } else if digit == 5 {
        '5'
    } else if digit == 6 {
        '6'
    } else if digit == 7 {
        '7'
    } else if digit == 8 {
        '8'
    } else {
        '9'
    }
}

/// `number` in decimal, without sign and without leading zeros.
pub open spec fn decimal(number: nat) -> Seq<char>
    decreases number,
{
    if number < 10 {
        seq![digit_char(number)]
    } else {
        decimal(number / 10).push(digit_char(number % 10))
    }
}

/// The line that describes one song.
pub open spec fn song_line(song: SongView) -> Seq<char> {
    "Title: "@ + song.title + ", Singer: "@ + song.singer + ", Album: "@ + song.album
        + ", Duration: "@ + decimal(song.duration) + "s"@
}

/// The line that names one playlist.
pub open spec fn playlist_line(name: Seq<char>) -> Seq<char> {
    "Playlist: "@ + name
}

/// The line above the songs of the playlist called `name`.
pub open spec fn songs_heading(name: Seq<char>) -> Seq<char> {
    "Songs in playlist "@ + name + ":"@
}

/// The lines that list `names`: one line each, or a single line that says
/// there is none.
pub open spec fn playlist_lines(names: Seq<Seq<char>>) -> Seq<Seq<char>> {
    if names.len() == 0 {
        seq!["No playlists available."@]
    } else {
        names.map_values(|name: Seq<char>| playlist_line(name))
    }
}

/// The lines that list the songs found under `name`: a heading and one line
/// for each song, or a single line that says no such playlist exists.
pub open spec fn song_lines(name: Seq<char>, songs: Option<Seq<SongView>>) -> Seq<Seq<char>> {
    match songs {
        Some(found) => seq![songs_heading(name)] + found.map_values(|song: SongView| song_line(song)),
        None => seq!["Playlist not found!"@],
    }
}

/// What is said after a request to create a playlist.
pub open spec fn playlist_outcome_text(outcome: AddPlaylistOutcome) -> Seq<char> {
    match outcome {
        AddPlaylistOutcome::Created => "Playlist created!"@,
        AddPlaylistOutcome::Duplicate => "Playlist already exists!"@,
    }
}

/// What is said after a request to add a song.
pub open spec fn song_outcome_text(outcome: AddSongOutcome) -> Seq<char> {
    match outcome {
        AddSongOutcome::Added => "Song added to playlist!"@,
        AddSongOutcome::NotFound => "Playlist not found!"@,
    }
}

/// The text of one decimal digit.
fn digit_text(digit: u32) -> (text: &'static str)
    requires
        digit < 10,
    ensures
        text@ == seq![digit_char(digit as nat)],
{
    proof {
        reveal_strlit("0");
        reveal_strlit("1");
        reveal_strlit("2");
        reveal_strlit("3");
        reveal_strlit("4");
        reveal_strlit("5");
        reveal_strlit("6");
        reveal_strlit("7");
        reveal_strlit("8");
        reveal_strlit("9");
    }
    let text = match digit {
        0 => "0",
        1 => "1",
        2 => "2",
        3 => "3",
        4 => "4",
        5 => "5",
        6 => "6",
        7 => "7",
        8 => "8",
        _ => "9",
    };
    assert(text@ =~= seq![digit_char(digit as nat)]);
    text
}

/// Writes `number` in decimal at the end of `out`.
fn append_decimal(out: &mut String, number: u32)
    ensures
        final(out)@ == old(out)@ + decimal(number as nat),
    decreases number,
{
    if number >= 10 {
        append_decimal(out, number / 10);
    }
    out.append(digit_text(number % 10));
    assert(out@ =~= old(out)@ + decimal(number as nat));
}

/// `number` in decimal.
pub fn decimal_text(number: u32) -> (text: String)
    ensures
        text@ == decimal(number as nat),
{
    let mut text = String::new();
    append_decimal(&mut text, number);
    assert(text@ =~= decimal(number as nat));
    text
}

/// The line that describes `song`: its fields in a fixed order.
pub fn describe_song(song: &Song) -> (line: String)
    ensures
        line@ == song_line(song@),
{
    let mut line = String::from_str("Title: ");
    line.append(song.title.as_str());
    line.append(", Singer: ");
    line.append(song.singer.as_str());
    line.append(", Album: ");
    line.append(song.album.as_str());
    line.append(", Duration: ");
    append_decimal(&mut line, song.duration);
    line.append("s");
    line
}

/// The lines that list the playlists called `names`.
pub fn describe_playlists(names: &Vec<String>) -> (lines: Vec<String>)
    ensures
        texts_of(lines@) == playlist_lines(texts_of(names@)),
{
    let mut lines: Vec<String> = Vec::new();
    if names.len() == 0 {
        lines.push(String::from_str("No playlists available."));
        assert(texts_of(lines@) =~= playlist_lines(texts_of(names@)));
        return lines;
    }
    let mut i: usize = 0;
    while i < names.len()
        invariant
            i <= names.len(),
            lines.len() == i,
            forall|k: int| 0 <= k < i ==> (#[trigger] lines[k])@ == playlist_line(names[k]@),
        decreases names.len() - i,
    {
        let mut line = String::from_str("Playlist: ");
        line.append(names[i].as_str());
        lines.push(line);
        i += 1;
    }
    assert(texts_of(lines@) =~= playlist_lines(texts_of(names@)));
    lines
}

/// The lines that list the songs found under `playlist_name`, or say that
/// nothing was found.
pub fn describe_songs(playlist_name: &str, songs: Option<&Vec<Song>>) -> (lines: Vec<String>)
    ensures
        texts_of(lines@) == song_lines(
            playlist_name@,
            match songs {
                Some(found) => Some(song_views(found@)),
                None => None,
            },
        ),
{
    let mut lines: Vec<String> = Vec::new();
    match songs {
        None => {
            lines.push(String::from_str("Playlist not found!"));
            assert(texts_of(lines@) =~= song_lines(playlist_name@, None));
        },
        Some(found) => {
            let mut heading = String::from_str("Songs in playlist ");
            heading.append(playlist_name);
            heading.append(":");
            lines.push(heading);
            let mut i: usize = 0;
            while i < found.len()
                invariant
                    i <= found.len(),
                    lines.len() == i + 1,
                    lines[0]@ == songs_heading(playlist_name@),
                    forall|k: int| 0 <= k < i ==> (#[trigger] lines[k + 1])@ == song_line(found[k]@),
                decreases found.len() - i,
            {
                lines.push(describe_song(&found[i]));
                i += 1;
            }
            proof {
                let shown = texts_of(lines@);
                let wanted = song_lines(playlist_name@, Some(song_views(found@)));
                assert(shown.len() == wanted.len());
                assert forall|j: int| 0 <= j < shown.len() implies shown[j] == wanted[j] by {
                    if j > 0 {
                        let k = j - 1;
                        assert(lines[k + 1]@ == song_line(found[k]@));
                    }
                }
                assert(shown =~= wanted);
            }
        },
    }
    lines
}

impl AddPlaylistOutcome {
    /// What to say of this outcome.
    pub fn message(&self) -> (text: String)
        ensures
            text@ == playlist_outcome_text(*self),
    {
        match self {
            AddPlaylistOutcome::Created => String::from_str("Playlist created!"),
            AddPlaylistOutcome::Duplicate => String::from_str("Playlist already exists!"),
        }
    }
}

impl AddSongOutcome {
    /// What to say of this outcome.
    pub fn message(&self) -> (text: String)
        ensures
            text@ == song_outcome_text(*self),
    {
        match self {
            AddSongOutcome::Added => String::from_str("Song added to playlist!"),
            AddSongOutcome::NotFound => String::from_str("Playlist not found!"),
        }
    }
}

} // verus!
