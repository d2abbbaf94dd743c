//! The record line format: serialising and parsing songs.

use rmusic::song::Song;

fn song(name: &str, channel: &str, url: &str, file: Option<&str>) -> Song {
    Song {
        name: name.to_string(),
        channel: channel.to_string(),
        url: url.to_string(),
        file: file.map(|f| f.to_string()),
    }
}

#[test]
fn serialise_unfiled_song() {
    let s = song("n", "c", "u", None);
    assert_eq!(s.serialise(), "n˾c˾u˾_");
}

#[test]
fn serialise_filed_song() {
    let s = song("Track", "Channel", "https://example/e", Some("/data/1.mp3"));
    assert_eq!(s.serialise(), "Track˾Channel˾https://example/e˾/data/1.mp3");
}

#[test]
fn serialise_empty_fields() {
    let s = song("", "", "", None);
    assert_eq!(s.serialise(), "˾˾˾_");
}

#[test]
fn deserialise_four_fields() {
    let s = Song::deserialise("n˾c˾u˾/data/7.mp3".to_string());
    assert_eq!(s.name, "n");
    assert_eq!(s.channel, "c");
    assert_eq!(s.url, "u");
    assert_eq!(s.file, Some("/data/7.mp3".to_string()));
}

#[test]
fn deserialise_underscore_means_unfiled() {
    let s = Song::deserialise("n˾c˾u˾_".to_string());
    assert_eq!(s.file, None);
}

#[test]
fn deserialise_three_fields_means_unfiled() {
    let s = Song::deserialise("n˾c˾u".to_string());
    assert_eq!(s.name, "n");
    assert_eq!(s.channel, "c");
    assert_eq!(s.url, "u");
    assert_eq!(s.file, None);
}

#[test]
fn round_trip_unfiled() {
    let s = song("a name", "a channel", "https://example/x", None);
    let line = s.serialise();
    let back = Song::deserialise(line);
    assert_eq!(back.name, s.name);
    assert_eq!(back.channel, s.channel);
    assert_eq!(back.url, s.url);
    assert_eq!(back.file, s.file);
}

#[test]
fn round_trip_filed() {
    let s = song("a", "b", "c", Some("/d/12.mp3"));
    let back = Song::deserialise(s.serialise());
    assert_eq!(back.file, Some("/d/12.mp3".to_string()));
}
