//! The state machine: the transition table, one scenario per rule.

use rmusic::application::{Application, ApplicationState, Effect, Key, Mode};
use rmusic::audio::SinkCommand;
use rmusic::playlist::Playlist;
use rmusic::song::Song;

fn song(url: &str) -> Song {
    Song {
        name: format!("name of {url}"),
        channel: "ch".to_string(),
        url: url.to_string(),
        file: None,
    }
}

fn filed_song(url: &str, file: &str) -> Song {
    Song { file: Some(file.to_string()), ..song(url) }
}

fn fresh() -> Application {
    Application::new(Playlist { songs: Vec::new() })
}

fn with_playlist(songs: Vec<Song>) -> Application {
    Application::new(Playlist { songs })
}

#[test]
fn starts_on_homepage_in_normal_mode() {
    let app = fresh();
    assert_eq!(app.state, ApplicationState::Homepage);
    assert_eq!(app.mode, Mode::Normal);
    assert_eq!(app.selection, 0);
    assert!(app.running);
}

#[test]
fn quit_clears_running_flag() {
    let mut app = fresh();
    let eff = app.handle_input(Key::Char('q'));
    assert!(eff.is_none());
    assert!(!app.running);
}

#[test]
fn selection_moves_and_clamps_on_homepage() {
    let mut app = fresh();
    app.handle_input(Key::Char('j'));
    assert_eq!(app.selection, 1);
    app.handle_input(Key::Char('j'));
    assert_eq!(app.selection, 2);
    // the homepage list has three entries: the selection stops there
    app.handle_input(Key::Char('j'));
    assert_eq!(app.selection, 2);
    app.handle_input(Key::Char('k'));
    assert_eq!(app.selection, 1);
    app.handle_input(Key::Char('k'));
    app.handle_input(Key::Char('k'));
    assert_eq!(app.selection, 0);
}

#[test]
fn enter_on_homepage_entry_zero_opens_search() {
    let mut app = fresh();
    let eff = app.handle_input(Key::Enter);
    assert!(eff.is_none());
    assert_eq!(app.state, ApplicationState::Search);
    assert_eq!(app.mode, Mode::Normal);
    assert_eq!(app.selection, 0);
}

#[test]
fn enter_on_homepage_entry_one_opens_playlist() {
    let mut app = fresh();
    app.handle_input(Key::Char('j'));
    let eff = app.handle_input(Key::Enter);
    assert!(eff.is_none());
    assert_eq!(app.state, ApplicationState::Playlist);
    assert_eq!(app.selection, 0);
}

#[test]
fn enter_on_homepage_entry_two_shuffles_filed_songs_into_queue() {
    let mut app = with_playlist(vec![
        filed_song("a", "/d/0.mp3"),
        song("b"),
        filed_song("c", "/d/1.mp3"),
        filed_song("d", "/d/2.mp3"),
    ]);
    app.handle_input(Key::Char('j'));
    app.handle_input(Key::Char('j'));
    let eff = app.handle_input(Key::Enter);
    assert!(eff.is_none());
    assert_eq!(app.state, ApplicationState::Homepage);
    // all filed songs are queued, in some order; the unfiled one is not
    let mut names = app.queue_names();
    names.sort();
    assert_eq!(names, vec!["name of a", "name of c", "name of d"]);
}

#[test]
fn space_toggles_playback() {
    let mut app = fresh();
    let eff = app.handle_input(Key::Char(' '));
    assert!(matches!(eff, Some(Effect::Sink(SinkCommand::Pause))));
    assert!(app.audio_player.paused);
    let eff = app.handle_input(Key::Char(' '));
    assert!(matches!(eff, Some(Effect::Sink(SinkCommand::Resume))));
    assert!(!app.audio_player.paused);
}

#[test]
fn right_arrow_skips_queue_head() {
    let mut app = with_playlist(vec![filed_song("a", "/d/0.mp3")]);
    let eff = app.handle_input(Key::Right);
    assert!(matches!(eff, Some(Effect::Sink(SinkCommand::SkipCurrent))));
    assert_eq!(app.audio_player.queue.len(), 0);
}

#[test]
fn input_mode_types_into_buffer_and_submits_query() {
    let mut app = fresh();
    app.handle_input(Key::Enter); // Search view
    app.handle_input(Key::Char('i')); // Input mode
    assert_eq!(app.mode, Mode::Input);
    app.handle_input(Key::Char('a'));
    app.handle_input(Key::Char('b'));
    app.handle_input(Key::Char('c'));
    assert_eq!(app.user_input, vec!['a', 'b', 'c']);
    let eff = app.handle_input(Key::Enter);
    match eff {
        Some(Effect::Search(q)) => assert_eq!(q, "abc"),
        _ => panic!("Enter in input mode should submit the query"),
    }
    // the mode stays Input until an explicit Esc
    assert_eq!(app.mode, Mode::Input);
}

#[test]
fn backspace_pops_then_esc_leaves_input_mode() {
    let mut app = fresh();
    app.handle_input(Key::Enter);
    app.handle_input(Key::Char('i'));
    app.handle_input(Key::Char('a'));
    app.handle_input(Key::Char('b'));
    app.handle_input(Key::Char('c'));
    app.handle_input(Key::Backspace);
    assert_eq!(app.user_input, vec!['a', 'b']);
    app.handle_input(Key::Esc);
    assert_eq!(app.mode, Mode::Normal);
    assert_eq!(app.user_input.len(), 0);
}

#[test]
fn backspace_in_normal_mode_returns_home() {
    let mut app = fresh();
    app.handle_input(Key::Enter); // Search
    app.handle_input(Key::Backspace);
    assert_eq!(app.state, ApplicationState::Homepage);
    assert_eq!(app.mode, Mode::Normal);
    // the homepage ignores Backspace
    app.handle_input(Key::Backspace);
    assert_eq!(app.state, ApplicationState::Homepage);
}

#[test]
fn enter_adds_selected_search_result_once() {
    let mut app = fresh();
    app.handle_input(Key::Enter); // Search view
    app.set_search_results(vec![song("u1"), song("u2")]);
    let eff = app.handle_input(Key::Enter);
    match eff {
        Some(Effect::PersistAppend(line)) => {
            assert_eq!(line, app.playlist.songs[0].serialise())
        },
        _ => panic!("adding a result should ask for a record append"),
    }
    assert_eq!(app.playlist.songs.len(), 1);
    assert_eq!(app.playlist.songs[0].url, "u1");
    // the same url is not added twice
    let eff = app.handle_input(Key::Enter);
    assert!(eff.is_none());
    assert_eq!(app.playlist.songs.len(), 1);
}

#[test]
fn enter_with_out_of_range_selection_is_a_no_op() {
    let mut app = fresh();
    app.handle_input(Key::Enter); // Search view, no results
    let eff = app.handle_input(Key::Enter);
    assert!(eff.is_none());
    assert_eq!(app.playlist.songs.len(), 0);
}

#[test]
fn delete_removes_selected_playlist_song() {
    let mut app = with_playlist(vec![song("a"), song("b")]);
    app.handle_input(Key::Char('j')); // Homepage entry 1
    app.handle_input(Key::Enter); // Playlist view
    app.handle_input(Key::Char('j')); // select the second song
    let eff = app.handle_input(Key::Delete);
    assert!(matches!(eff, Some(Effect::PersistRemove(1))));
    assert_eq!(app.playlist.songs.len(), 1);
    assert_eq!(app.playlist.songs[0].url, "a");
}

#[test]
fn delete_on_empty_playlist_is_a_no_op() {
    let mut app = fresh();
    app.handle_input(Key::Char('j'));
    app.handle_input(Key::Enter); // Playlist view, empty
    let eff = app.handle_input(Key::Delete);
    assert!(eff.is_none());
}

#[test]
fn enter_on_unfiled_playlist_song_requests_download() {
    let mut app = with_playlist(vec![song("a")]);
    app.handle_input(Key::Char('j'));
    app.handle_input(Key::Enter); // Playlist view
    let eff = app.handle_input(Key::Enter);
    assert!(matches!(eff, Some(Effect::Download { index: 0 })));
    // the state machine itself does not change anything yet
    assert_eq!(app.playlist.songs[0].file, None);
    assert_eq!(app.audio_player.queue.len(), 0);
}

#[test]
fn enter_on_filed_playlist_song_plays_it() {
    let mut app = with_playlist(vec![song("a"), filed_song("b", "/d/5.mp3")]);
    app.handle_input(Key::Char('j'));
    app.handle_input(Key::Enter); // Playlist view
    app.handle_input(Key::Char('j')); // select the filed song
    let eff = app.handle_input(Key::Enter);
    assert!(eff.is_none());
    assert_eq!(app.queue_names(), vec!["name of b"]);
    assert!(app.audio_player.pending_reset);
}

#[test]
fn append_key_queues_selected_playlist_song() {
    let mut app = with_playlist(vec![filed_song("a", "/d/0.mp3"), song("b")]);
    app.handle_input(Key::Char('j'));
    app.handle_input(Key::Enter); // Playlist view
    let eff = app.handle_input(Key::Char('a'));
    assert!(eff.is_none());
    assert_eq!(app.queue_names(), vec!["name of a"]);
    // appending does not ask for a reset
    assert!(!app.audio_player.pending_reset);
}

#[test]
fn unknown_keys_change_nothing() {
    let mut app = fresh();
    let eff = app.handle_input(Key::Other);
    assert!(eff.is_none());
    let eff = app.handle_input(Key::Char('z'));
    assert!(eff.is_none());
    assert_eq!(app.state, ApplicationState::Homepage);
    assert_eq!(app.selection, 0);
    assert!(app.running);
}
