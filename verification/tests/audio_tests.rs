//! The playback queue manager: queue order, play, skip, toggle, worker
//! ticks.

use rmusic::audio::{AudioPlayer, SinkCommand};
use rmusic::song::Song;

fn song(name: &str) -> Song {
    Song {
        name: name.to_string(),
        channel: "ch".to_string(),
        url: format!("https://example/{name}"),
        file: Some(format!("/data/{name}.mp3")),
    }
}

#[test]
fn append_keeps_fifo_order() {
    let mut player = AudioPlayer::new();
    player.append(song("first"));
    player.append(song("second"));
    player.append(song("third"));
    assert_eq!(player.get_queue(), vec!["first", "second", "third"]);
}

#[test]
fn play_replaces_queue_and_sets_reset() {
    let mut player = AudioPlayer::new();
    player.append(song("a"));
    player.append(song("b"));
    assert!(!player.pending_reset);
    player.play(song("c"));
    assert_eq!(player.get_queue(), vec!["c"]);
    assert!(player.pending_reset);
}

#[test]
fn skip_on_empty_queue_still_advances_sink() {
    let mut player = AudioPlayer::new();
    let cmd = player.skip();
    assert!(matches!(cmd, SinkCommand::SkipCurrent));
    assert_eq!(player.get_queue().len(), 0);
}

#[test]
fn skip_drops_head_and_advances_sink() {
    let mut player = AudioPlayer::new();
    player.append(song("A"));
    player.append(song("B"));
    let cmd = player.skip();
    assert!(matches!(cmd, SinkCommand::SkipCurrent));
    assert_eq!(player.get_queue(), vec!["B"]);
}

#[test]
fn toggle_twice_restores_paused_state() {
    let mut player = AudioPlayer::new();
    let before = player.paused;
    player.toggle();
    assert_eq!(player.paused, !before);
    player.toggle();
    assert_eq!(player.paused, before);
}

#[test]
fn toggle_commands_mirror_state() {
    let mut player = AudioPlayer::new();
    assert!(!player.paused);
    let first = player.toggle();
    assert!(matches!(first, SinkCommand::Pause));
    let second = player.toggle();
    assert!(matches!(second, SinkCommand::Resume));
}

#[test]
fn pause_and_resume_set_state() {
    let mut player = AudioPlayer::new();
    let c1 = player.pause();
    assert!(matches!(c1, SinkCommand::Pause));
    assert!(player.paused);
    let c2 = player.resume();
    assert!(matches!(c2, SinkCommand::Resume));
    assert!(!player.paused);
}

#[test]
fn tick_consumes_pending_reset_and_feeds_head() {
    let mut player = AudioPlayer::new();
    player.pause();
    player.play(song("now"));
    let plan = player.tick(false);
    assert!(plan.flush);
    assert!(!player.pending_reset);
    // the flush resumes playback
    assert!(!player.paused);
    // the flush empties the sink, so the head is fed at the same tick
    let fed = plan.feed.expect("head should be fed");
    assert_eq!(fed.name, "now");
    // the head is fed, not popped
    assert_eq!(player.get_queue(), vec!["now"]);
}

#[test]
fn tick_feeds_head_when_sink_idle() {
    let mut player = AudioPlayer::new();
    player.append(song("head"));
    player.append(song("next"));
    let plan = player.tick(true);
    assert!(!plan.flush);
    assert_eq!(plan.feed.expect("head should be fed").name, "head");
}

#[test]
fn tick_does_nothing_when_sink_busy() {
    let mut player = AudioPlayer::new();
    player.append(song("head"));
    let plan = player.tick(false);
    assert!(!plan.flush);
    assert!(plan.feed.is_none());
    assert_eq!(player.get_queue(), vec!["head"]);
}

#[test]
fn tick_on_empty_queue_feeds_nothing() {
    let mut player = AudioPlayer::new();
    let plan = player.tick(true);
    assert!(!plan.flush);
    assert!(plan.feed.is_none());
}
