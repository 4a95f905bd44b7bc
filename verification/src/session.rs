//! The menu of a session: what the user may choose.

use vstd::prelude::*;
use vstd::string::StrSliceExecFns;

verus! {

/// What the user asked for at the menu.
#[derive(Debug, Clone, Copy, PartialEq, Eq, Structural)]
pub enum Choice {
    /// Create a playlist.
    NewPlaylist,
    /// Add a song to a playlist.
    AddSong,
    /// Show the names of all playlists.
    ShowPlaylists,
    /// Show the songs of one playlist.
    ShowSongs,
    /// Save everything and end the session.
    SaveAndExit,
    /// Anything else: the menu is shown again.
    Invalid,
}

/// The choice that `text` stands for: the digits one to five, each alone.
pub open spec fn choice_of(text: Seq<char>) -> Choice {
    if text.len() != 1 {
        Choice::Invalid
    } else if text[0] == '1' {
        Choice::NewPlaylist
    } else if text[0] == '2' {
        Choice::AddSong
    } else if text[0] == '3' {
        Choice::ShowPlaylists
    } else if text[0] == '4' {
        Choice::ShowSongs
    } else if text[0] == '5' {
        Choice::SaveAndExit
    } else {
        Choice::Invalid
    }
}

impl Choice {
    /// Reads a choice from what the user typed, without the white space
    /// around it.
    pub fn parse(text: &str) -> (choice: Choice)
        ensures
            choice == choice_of(text@),
    {
        if text.unicode_len() != 1 {
            return Choice::Invalid;
        }
        let typed = text.get_char(0);
        if typed == '1' {
            Choice::NewPlaylist
        } else if typed == '2' {
            Choice::AddSong
        } else if typed == '3' {
            Choice::ShowPlaylists
        } else if typed == '4' {
            Choice::ShowSongs
        } else if typed == '5' {
            Choice::SaveAndExit
        } else {
            Choice::Invalid
        }
    }

    /// Whether the session is over once this choice has been carried out.
    pub fn ends_session(&self) -> (over: bool)
        ensures
            over == (*self == Choice::SaveAndExit),
    {
        matches!(self, Choice::SaveAndExit)
    }
}

} // verus!
