use playlist_manager::report::{decimal_text, describe_playlists, describe_song, describe_songs};
use playlist_manager::{AddPlaylistOutcome, AddSongOutcome, Choice, PlaylistManager, Song};

fn track(title: &str, singer: &str, album: &str, duration: u32) -> Song {
    Song {
        title: title.to_string(),
        singer: singer.to_string(),
        album: album.to_string(),
        duration,
    }
}

#[test]
fn decimal_text_of_small_numbers() {
    assert_eq!(decimal_text(0), "0");
    assert_eq!(decimal_text(7), "7");
    assert_eq!(decimal_text(9), "9");
    assert_eq!(decimal_text(10), "10");
    assert_eq!(decimal_text(180), "180");
    assert_eq!(decimal_text(1005), "1005");
}

#[test]
fn decimal_text_of_the_largest_number() {
    assert_eq!(decimal_text(u32::MAX), "4294967295");
}

#[test]
fn decimal_text_agrees_with_std() {
    for number in [0u32, 1, 12, 99, 100, 101, 65535, 1000000, 123456789, 4294967294] {
        assert_eq!(decimal_text(number), number.to_string());
    }
}

#[test]
fn song_line_has_the_fields_in_order() {
    let line = describe_song(&track("So What", "Miles Davis", "Kind of Blue", 562));
    assert_eq!(line, "Title: So What, Singer: Miles Davis, Album: Kind of Blue, Duration: 562s");
}

#[test]
fn song_line_with_empty_fields() {
    assert_eq!(describe_song(&track("", "", "", 0)), "Title: , Singer: , Album: , Duration: 0s");
}

#[test]
fn song_line_keeps_text_beyond_ascii() {
    let line = describe_song(&track("Año", "Björk", "音楽", 61));
    assert_eq!(line, "Title: Año, Singer: Björk, Album: 音楽, Duration: 61s");
}

#[test]
fn no_playlists_are_reported_as_such() {
    let manager = PlaylistManager::new();
    assert_eq!(
        describe_playlists(&manager.list_playlists()),
        vec!["No playlists available.".to_string()]
    );
}

#[test]
fn playlists_are_reported_one_per_line() {
    let mut manager = PlaylistManager::new();
    manager.add_playlist("Road Trip".to_string());
    manager.add_playlist("Jazz".to_string());
    assert_eq!(
        describe_playlists(&manager.list_playlists()),
        vec!["Playlist: Road Trip".to_string(), "Playlist: Jazz".to_string()]
    );
}

#[test]
fn missing_playlist_is_reported_as_not_found() {
    let manager = PlaylistManager::new();
    assert_eq!(
        describe_songs("Road Trip", manager.list_songs("Road Trip")),
        vec!["Playlist not found!".to_string()]
    );
}

#[test]
fn empty_playlist_is_reported_with_its_heading_only() {
    let mut manager = PlaylistManager::new();
    manager.add_playlist("Road Trip".to_string());
    assert_eq!(
        describe_songs("Road Trip", manager.list_songs("Road Trip")),
        vec!["Songs in playlist Road Trip:".to_string()]
    );
}

#[test]
fn road_trip_scenario_shows_exactly_one_song() {
    let mut manager = PlaylistManager::new();
    manager.add_playlist("Road Trip".to_string());
    manager.add_song("Road Trip", track("A", "B", "", 180));
    let lines = describe_songs("Road Trip", manager.list_songs("Road Trip"));
    assert_eq!(
        lines,
        vec![
            "Songs in playlist Road Trip:".to_string(),
            "Title: A, Singer: B, Album: , Duration: 180s".to_string(),
        ]
    );
}

#[test]
fn songs_are_reported_in_order() {
    let songs = vec![track("one", "x", "p", 1), track("two", "y", "q", 22)];
    assert_eq!(
        describe_songs("Mix", Some(&songs)),
        vec![
            "Songs in playlist Mix:".to_string(),
            "Title: one, Singer: x, Album: p, Duration: 1s".to_string(),
            "Title: two, Singer: y, Album: q, Duration: 22s".to_string(),
        ]
    );
}

#[test]
fn outcomes_have_their_messages() {
    assert_eq!(AddPlaylistOutcome::Created.message(), "Playlist created!");
    assert_eq!(AddPlaylistOutcome::Duplicate.message(), "Playlist already exists!");
    assert_eq!(AddSongOutcome::Added.message(), "Song added to playlist!");
    assert_eq!(AddSongOutcome::NotFound.message(), "Playlist not found!");
}

#[test]
fn menu_choices_are_the_digits_one_to_five() {
    assert_eq!(Choice::parse("1"), Choice::NewPlaylist);
    assert_eq!(Choice::parse("2"), Choice::AddSong);
    assert_eq!(Choice::parse("3"), Choice::ShowPlaylists);
    assert_eq!(Choice::parse("4"), Choice::ShowSongs);
    assert_eq!(Choice::parse("5"), Choice::SaveAndExit);
}

#[test]
fn anything_else_is_an_invalid_choice() {
    for text in ["", "0", "6", "9", "11", "1 ", " 1", "one", "x", "５", "-1"] {
        assert_eq!(Choice::parse(text), Choice::Invalid, "{:?}", text);
    }
}

#[test]
fn only_save_and_exit_ends_the_session() {
    assert!(Choice::SaveAndExit.ends_session());
    for choice in [
        Choice::NewPlaylist,
        Choice::AddSong,
        Choice::ShowPlaylists,
        Choice::ShowSongs,
        Choice::Invalid,
    ] {
        assert!(!choice.ends_session());
    }
}
