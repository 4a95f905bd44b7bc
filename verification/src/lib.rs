//! A playlist store: named playlists, each an ordered list of songs.
//!
//! [`PlaylistManager`] owns the playlists of one session. Every operation hands
//! its outcome back as a value, so that a front end decides what to print and
//! where to keep the data between sessions.

pub mod laws;
pub mod manager;
pub mod playlist;
pub mod report;
pub mod session;
pub mod song;

pub use manager::{AddPlaylistOutcome, AddSongOutcome, PlaylistManager};
pub use playlist::{Playlist, PlaylistView};
pub use session::Choice;
pub use song::{Song, SongView};
