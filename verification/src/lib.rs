//! A terminal music player's verified core: the track record type with its
//! on-disk record format, the persisted playlist, the playback queue manager,
//! and the interactive state machine that drives them.
//!
//! Everything that talks to the outside world (terminal, audio device,
//! search provider, downloader, file system) lives in the surrounding
//! application; this library holds the data and the decisions.

pub mod application;
pub mod audio;
pub mod ids;
pub mod playlist;
pub mod song;
