//! The interactive state machine. It owns the navigation state (view, mode,
//! selection, input buffer), the playlist, the cached search results and the
//! playback queue manager, and it maps every input key to a state change
//! plus at most one [`Effect`] — an outside action (sink command, search,
//! download, persistence) that the surrounding application performs. The
//! whole transition table is the relation [`next`], and
//! [`Application::handle_input`] is proved to follow it.

use vstd::prelude::*;

use rand::seq::SliceRandom;

use crate::audio::{names_of, spec_toggle, AudioPlayer, SinkCommand};
use crate::playlist::{has_url, Playlist};
use crate::song::{spec_serialise, Song};

verus! {

/// The view the interface is showing.
#[derive(PartialEq, Eq, Structural, Clone, Copy, Debug)]
pub enum ApplicationState {
    /// The landing menu: Browse Songs, View Playlist, Shuffle Play.
    Homepage,
    /// The search results list.
    Search,
    /// The persisted playlist.
    Playlist,
}

/// The sub-state of a view: list navigation and commands, or free-text
/// entry. Input mode is only ever entered from the Search view.
#[derive(PartialEq, Eq, Structural, Clone, Copy, Debug)]
pub enum Mode {
    Normal,
    Input,
}

/// An input event, as the state machine sees it. The surrounding
/// application translates whatever its input source delivers into one of
/// these; anything it does not recognise becomes `Other`.
#[derive(PartialEq, Eq, Structural, Clone, Copy, Debug)]
pub enum Key {
    Char(char),
    Backspace,
    Delete,
    Enter,
    Esc,
    Right,
    Other,
}

/// An outside action the state machine asks its caller to perform. Each key
/// produces at most one.
pub enum Effect {
    /// Carry this command to the audio sink.
    Sink(SinkCommand),
    /// Run a search with this query; the results come back through
    /// [`Application::set_search_results`].
    Search(String),
    /// The playlist entry at this index has no local file: allocate a fresh
    /// id, fetch the audio, then record the file through
    /// [`Playlist::set_file`] and persist the updated records.
    Download { index: usize },
    /// Append this record line to the playlist file.
    PersistAppend(String),
    /// Remove the record at this position from the playlist file.
    PersistRemove(usize),
}

/// The number of entries of the homepage menu.
pub const HOMEPAGE_ENTRIES: usize = 3;

/// The whole application state the machine drives.
pub struct Application {
    pub state: ApplicationState,
    pub mode: Mode,
    /// The selection index into the list the active view displays. It is
    /// clamped against that list's length before every use: an out-of-range
    /// index means "no selection" and the action is a no-op.
    pub selection: usize,
    pub user_input: Vec<char>,
    pub playlist: Playlist,
    pub search_results: Vec<Song>,
    pub running: bool,
    pub audio_player: AudioPlayer,
}

/// Moving the selection down one entry of a list of length `len`, stopping
/// at the last entry.
pub open spec fn sel_down(sel: nat, len: nat) -> nat {
    if sel + 1 < len {
        sel + 1
    } else {
        sel
    }
}

/// Moving the selection up one entry, stopping at the first.
pub open spec fn sel_up(sel: nat) -> nat {
    if sel > 0 {
        (sel - 1) as nat
    } else {
        0
    }
}

/// The filed songs of a playlist: those that already have a local audio
/// file.
pub open spec fn filed_songs(songs: Seq<Song>) -> Seq<Song> {
    songs.filter(|s: Song| s@.file is Some)
}

/// Everything except the input buffer is unchanged.
pub open spec fn same_but_input(pre: Application, post: Application) -> bool {
    &&& post.state == pre.state
    &&& post.mode == pre.mode
    &&& post.selection == pre.selection
    &&& post.running == pre.running
    &&& post.playlist == pre.playlist
    &&& post.search_results == pre.search_results
    &&& post.audio_player == pre.audio_player
}

/// Everything except the queue manager is unchanged.
pub open spec fn same_but_player(pre: Application, post: Application) -> bool {
    &&& post.state == pre.state
    &&& post.mode == pre.mode
    &&& post.selection == pre.selection
    &&& post.user_input == pre.user_input
    &&& post.running == pre.running
    &&& post.playlist == pre.playlist
    &&& post.search_results == pre.search_results
}

/// Everything except the playlist is unchanged.
pub open spec fn same_but_playlist(pre: Application, post: Application) -> bool {
    &&& post.state == pre.state
    &&& post.mode == pre.mode
    &&& post.selection == pre.selection
    &&& post.user_input == pre.user_input
    &&& post.running == pre.running
    &&& post.search_results == pre.search_results
    &&& post.audio_player == pre.audio_player
}

/// The queue grew at the tail by the filed playlist songs in some order:
/// what shuffle-play does. The order is random, so only the collection of
/// appended songs is determined.
pub open spec fn shuffled_queue(pre: Application, post: Application) -> bool {
    exists|perm: Seq<Song>|
        #[trigger] perm.to_multiset() == filed_songs(pre.playlist.songs@).to_multiset()
            && post.audio_player.queue@ == pre.audio_player.queue@ + perm
}

/// The transition for a character key. In Input mode it is appended to the
/// buffer; in Normal mode `q` quits, `j`/`k` move the selection over the
/// active list, space toggles playback, `i` (on Search) enters Input mode,
/// and `a` (on Playlist) appends the selected song to the play queue.
pub open spec fn next_char(
    pre: Application,
    c: char,
    post: Application,
    eff: Option<Effect>,
) -> bool {
    if pre.mode is Input {
        &&& post.user_input@ == pre.user_input@.push(c)
        &&& same_but_input(pre, post)
        &&& eff is None
    } else if c == 'q' {
        &&& post == (Application { running: false, ..pre })
        &&& eff is None
    } else if c == 'j' {
        &&& post == (Application { selection: post.selection, ..pre })
        &&& post.selection == sel_down(pre.selection as nat, pre.spec_list_len())
        &&& eff is None
    } else if c == 'k' {
        &&& post == (Application { selection: post.selection, ..pre })
        &&& post.selection == sel_up(pre.selection as nat)
        &&& eff is None
    } else if c == ' ' {
        &&& post == (Application {
            audio_player: (AudioPlayer {
                paused: spec_toggle(pre.audio_player.paused),
                ..pre.audio_player
            }),
            ..pre
        })
        &&& eff == Some(
            Effect::Sink(
                if pre.audio_player.paused {
                    SinkCommand::Resume
                } else {
                    SinkCommand::Pause
                },
            ),
        )
    } else if c == 'i' && pre.state is Search {
        &&& post == (Application { mode: Mode::Input, ..pre })
        &&& eff is None
    } else if c == 'a' && pre.state is Playlist {
        &&& if pre.selection < pre.playlist.songs@.len() {
            &&& post.audio_player.queue@ == pre.audio_player.queue@.push(
                pre.playlist.songs@[pre.selection as int],
            )
            &&& post.audio_player.pending_reset == pre.audio_player.pending_reset
            &&& post.audio_player.paused == pre.audio_player.paused
            &&& same_but_player(pre, post)
        } else {
            post == pre
        }
        &&& eff is None
    } else {
        &&& post == pre
        &&& eff is None
    }
}

/// The transition for Backspace: in Input mode it pops the last buffered
/// character; in Normal mode it returns Search and Playlist to the
/// homepage, discarding the input buffer, and the homepage ignores it.
pub open spec fn next_backspace(pre: Application, post: Application) -> bool {
    if pre.mode is Input {
        &&& post.user_input@ == (if pre.user_input@.len() > 0 {
            pre.user_input@.drop_last()
        } else {
            pre.user_input@
        })
        &&& same_but_input(pre, post)
    } else if pre.state is Homepage {
        post == pre
    } else {
        &&& post == (Application {
            state: ApplicationState::Homepage,
            user_input: post.user_input,
            ..pre
        })
        &&& post.user_input@ == Seq::<char>::empty()
    }
}

/// The transition for Delete: on the Playlist view with an in-range
/// selection it removes the selected song, here and at the same position in
/// the playlist file; anywhere else it is a no-op.
pub open spec fn next_delete(pre: Application, post: Application, eff: Option<Effect>) -> bool {
    if pre.state is Playlist && pre.selection < pre.playlist.songs@.len() {
        &&& post.playlist.songs@ == pre.playlist.songs@.remove(pre.selection as int)
        &&& same_but_playlist(pre, post)
        &&& eff == Some(Effect::PersistRemove(pre.selection))
    } else {
        &&& post == pre
        &&& eff is None
    }
}

/// The transition for Enter. On the homepage it opens Search (entry 0) or
/// Playlist (entry 1) with the selection reset, or starts shuffle-play
/// (entry 2). On the playlist it requests a download for an unfiled song
/// and plays a filed one. On Search, Input mode submits the buffer as a
/// query — the mode stays Input until an explicit Esc — and Normal mode
/// adds the selected result to the playlist unless its url is already
/// there.
pub open spec fn next_enter(pre: Application, post: Application, eff: Option<Effect>) -> bool {
    match pre.state {
        ApplicationState::Homepage => {
            if pre.selection == 0 {
                &&& post == (Application {
                    state: ApplicationState::Search,
                    selection: 0,
                    ..pre
                })
                &&& eff is None
            } else if pre.selection == 1 {
                &&& post == (Application {
                    state: ApplicationState::Playlist,
                    selection: 0,
                    ..pre
                })
                &&& eff is None
            } else if pre.selection == 2 {
                &&& shuffled_queue(pre, post)
                &&& post.audio_player.pending_reset == pre.audio_player.pending_reset
                &&& post.audio_player.paused == pre.audio_player.paused
                &&& same_but_player(pre, post)
                &&& eff is None
            } else {
                &&& post == pre
                &&& eff is None
            }
        },
        ApplicationState::Playlist => {
            if pre.mode is Normal && pre.selection < pre.playlist.songs@.len() {
                if pre.playlist.songs@[pre.selection as int]@.file is None {
                    &&& post == pre
                    &&& eff == Some(Effect::Download { index: pre.selection })
                } else {
                    &&& post.audio_player.queue@ == seq![
                        pre.playlist.songs@[pre.selection as int],
                    ]
                    &&& post.audio_player.pending_reset
                    &&& post.audio_player.paused == pre.audio_player.paused
                    &&& same_but_player(pre, post)
                    &&& eff is None
                }
            } else {
                &&& post == pre
                &&& eff is None
            }
        },
        ApplicationState::Search => {
            if pre.mode is Input {
                &&& post == pre
                &&& (eff matches Some(Effect::Search(q)) && q@ == pre.user_input@)
            } else if pre.selection < pre.search_results@.len() && !has_url(
                pre.playlist.songs@,
                pre.search_results@[pre.selection as int].url@,
            ) {
                &&& post.playlist.songs@ == pre.playlist.songs@.push(
                    pre.search_results@[pre.selection as int],
                )
                &&& same_but_playlist(pre, post)
                &&& (eff matches Some(Effect::PersistAppend(line)) && line@ == spec_serialise(
                    pre.search_results@[pre.selection as int]@,
                ))
            } else {
                &&& post == pre
                &&& eff is None
            }
        },
    }
}

/// The transition for Esc, from any view and mode: back to Normal mode with
/// an empty input buffer.
pub open spec fn next_esc(pre: Application, post: Application) -> bool {
    &&& post == (Application { mode: Mode::Normal, user_input: post.user_input, ..pre })
    &&& post.user_input@ == Seq::<char>::empty()
}

/// The transition for the Right arrow: skip — the queue head leaves (an
/// empty queue stays empty) and the sink is told to advance.
pub open spec fn next_right(pre: Application, post: Application, eff: Option<Effect>) -> bool {
    &&& post.audio_player.queue@ == (if pre.audio_player.queue@.len() > 0 {
        pre.audio_player.queue@.drop_first()
    } else {
        pre.audio_player.queue@
    })
    &&& post.audio_player.pending_reset == pre.audio_player.pending_reset
    &&& post.audio_player.paused == pre.audio_player.paused
    &&& same_but_player(pre, post)
    &&& eff == Some(Effect::Sink(SinkCommand::SkipCurrent))
}

/// The transition table: what one input key does to the whole application
/// state, and which outside action (if any) it requests.
pub open spec fn next(
    pre: Application,
    key: Key,
    post: Application,
    eff: Option<Effect>,
) -> bool {
    match key {
        Key::Char(c) => next_char(pre, c, post, eff),
        Key::Backspace => next_backspace(pre, post) && eff is None,
        Key::Delete => next_delete(pre, post, eff),
        Key::Enter => next_enter(pre, post, eff),
        Key::Esc => next_esc(pre, post) && eff is None,
        Key::Right => next_right(pre, post, eff),
        Key::Other => post == pre && eff is None,
    }
}

#[verifier::external_type_specification]
#[verifier::external_body]
pub struct ExThreadRng(rand::rngs::ThreadRng);

/// Relies on rand::rng: a handle to the thread-local random generator.
/// Nothing is assumed of the values it produces. (It aborts only if the
/// operating system cannot provide entropy at first use.)
#[verifier::external_body]
fn new_rng() -> rand::rngs::ThreadRng {
    rand::rng()
}

/// Relies on rand's SliceRandom::shuffle: it permutes the slice in place,
/// so whatever order comes out, the songs afterwards are exactly the songs
/// before.
#[verifier::external_body]
fn shuffle_songs(songs: &mut Vec<Song>, rng: &mut rand::rngs::ThreadRng)
    ensures
        final(songs)@.to_multiset() == old(songs)@.to_multiset(),
{
    songs.as_mut_slice().shuffle(rng)
}

/// Relies on std's FromIterator for String: collecting characters yields
/// the string of exactly those characters, in order.
#[verifier::external_body]
fn chars_to_string(v: &Vec<char>) -> (s: String)
    ensures
        s@ == v@,
{
    v.iter().collect()
}

impl Application {
    /// Input mode is only ever reachable on the Search view.
    pub open spec fn wf(self) -> bool {
        self.mode is Input ==> self.state is Search
    }

    /// The length of the list the active view displays: the selection is
    /// validated against this before every use.
    pub open spec fn spec_list_len(self) -> nat {
        match self.state {
            ApplicationState::Homepage => HOMEPAGE_ENTRIES as nat,
            ApplicationState::Search => self.search_results@.len(),
            ApplicationState::Playlist => self.playlist.songs@.len(),
        }
    }

    /// The initial state: homepage, Normal mode, selection 0, empty buffer
    /// and results, an idle queue manager, and the playlist the caller
    /// loaded (an unreadable playlist file loads as an empty playlist).
    pub fn new(playlist: Playlist) -> (app: Application)
        ensures
            app.state is Homepage,
            app.mode is Normal,
            app.selection == 0,
            app.user_input@ == Seq::<char>::empty(),
            app.playlist == playlist,
            app.search_results@ == Seq::<Song>::empty(),
            app.running,
            app.audio_player.queue@ == Seq::<Song>::empty(),
            !app.audio_player.pending_reset,
            !app.audio_player.paused,
            app.wf(),
    {
        Application {
            state: ApplicationState::Homepage,
            mode: Mode::Normal,
            selection: 0,
            user_input: Vec::new(),
            playlist,
            search_results: Vec::new(),
            running: true,
            audio_player: AudioPlayer::new(),
        }
    }

    /// Replace the cached search results with what the search provider
    /// returned.
    pub fn set_search_results(&mut self, results: Vec<Song>)
        ensures
            *final(self) == (Application { search_results: results, ..*old(self) }),
    {
        self.search_results = results;
    }

    /// The length of the active view's list.
    fn list_len(&self) -> (n: usize)
        ensures
            n == self.spec_list_len(),
    {
        match self.state {
            ApplicationState::Homepage => HOMEPAGE_ENTRIES,
            ApplicationState::Search => self.search_results.len(),
            ApplicationState::Playlist => self.playlist.songs.len(),
        }
    }

    /// Move the selection one entry down the active list.
    fn move_down(&mut self)
        ensures
            *final(self) == (Application { selection: final(self).selection, ..*old(self) }),
            final(self).selection == sel_down(
                old(self).selection as nat,
                old(self).spec_list_len(),
            ),
    {
        let len = self.list_len();
        if len > 0 && self.selection < len - 1 {
            self.selection = self.selection + 1;
        }
    }

    /// Move the selection one entry up.
    fn move_up(&mut self)
        ensures
            *final(self) == (Application { selection: final(self).selection, ..*old(self) }),
            final(self).selection == sel_up(old(self).selection as nat),
    {
        if self.selection > 0 {
            self.selection = self.selection - 1;
        }
    }

    /// Shuffle-play: append every filed playlist song to the play queue, in
    /// a random order. The queue's head and existing tail are not
    /// disturbed.
    fn shuffle(&mut self)
        ensures
            shuffled_queue(*old(self), *final(self)),
            final(self).audio_player.pending_reset == old(self).audio_player.pending_reset,
            final(self).audio_player.paused == old(self).audio_player.paused,
            same_but_player(*old(self), *final(self)),
    {
        let n = self.playlist.songs.len();
        let mut filed: Vec<Song> = Vec::new();
        proof {
            reveal(Seq::filter);
            assert(self.playlist.songs@.take(0) =~= Seq::<Song>::empty());
        }
        let mut i: usize = 0;
        while i < n
            invariant
                i <= n,
                n == self.playlist.songs@.len(),
                filed@ == filed_songs(self.playlist.songs@.take(i as int)),
            decreases n - i,
        {
            proof {
                reveal(Seq::filter);
                assert(self.playlist.songs@.take(i + 1).drop_last() =~= self.playlist.songs@.take(
                    i as int,
                ));
                assert(self.playlist.songs@.take(i + 1).last() == self.playlist.songs@[i as int]);
            }
            if self.playlist.songs[i].file.is_some() {
                filed.push(self.playlist.songs[i].clone());
            }
            i += 1;
        }
        proof {
            assert(self.playlist.songs@.take(n as int) =~= self.playlist.songs@);
        }
        let mut rng = new_rng();
        shuffle_songs(&mut filed, &mut rng);
        let ghost perm = filed@;
        let ghost q0 = self.audio_player.queue@;
        let m = filed.len();
        let mut j: usize = 0;
        while j < m
            invariant
                j <= m,
                m == filed@.len(),
                filed@ == perm,
                self.audio_player.queue@ == q0 + perm.take(j as int),
                self.audio_player.pending_reset == old(self).audio_player.pending_reset,
                self.audio_player.paused == old(self).audio_player.paused,
                same_but_player(*old(self), *self),
                q0 == old(self).audio_player.queue@,
                perm.to_multiset() == filed_songs(old(self).playlist.songs@).to_multiset(),
            decreases m - j,
        {
            let song = filed[j].clone();
            self.audio_player.append(song);
            proof {
                assert(q0 + perm.take(j + 1) =~= (q0 + perm.take(j as int)).push(perm[j as int]));
            }
            j += 1;
        }
        proof {
            assert(perm.take(m as int) =~= perm);
            assert(q0 + perm.take(m as int) == final(self).audio_player.queue@);
        }
    }

    /// Handle a character key, as [`next_char`] describes.
    fn on_char(&mut self, c: char) -> (eff: Option<Effect>)
        requires
            old(self).wf(),
        ensures
            next_char(*old(self), c, *final(self), eff),
            final(self).wf(),
    {
        if self.mode == Mode::Input {
            self.user_input.push(c);
            return None;
        }
        if c == 'q' {
            self.running = false;
            None
        } else if c == 'j' {
            self.move_down();
            None
        } else if c == 'k' {
            self.move_up();
            None
        } else if c == ' ' {
            let cmd = self.audio_player.toggle();
            Some(Effect::Sink(cmd))
        } else if c == 'i' && self.state == ApplicationState::Search {
            self.mode = Mode::Input;
            None
        } else if c == 'a' && self.state == ApplicationState::Playlist {
            if self.selection < self.playlist.songs.len() {
                let song = self.playlist.songs[self.selection].clone();
                self.audio_player.append(song);
            }
            None
        } else {
            None
        }
    }

    /// Handle Backspace, as [`next_backspace`] describes.
    fn on_backspace(&mut self)
        requires
            old(self).wf(),
        ensures
            next_backspace(*old(self), *final(self)),
            final(self).wf(),
    {
        match self.state {
            ApplicationState::Homepage => {},
            _ => {
                if self.mode == Mode::Input {
                    self.user_input.pop();
                } else {
                    self.state = ApplicationState::Homepage;
                    self.user_input.clear();
                }
            },
        }
    }

    /// Handle Delete, as [`next_delete`] describes.
    fn on_delete(&mut self) -> (eff: Option<Effect>)
        requires
            old(self).wf(),
        ensures
            next_delete(*old(self), *final(self), eff),
            final(self).wf(),
    {
        if self.state == ApplicationState::Playlist && self.selection < self.playlist.songs.len() {
            let idx = self.selection;
            self.playlist.remove_song(idx);
            Some(Effect::PersistRemove(idx))
        } else {
            None
        }
    }

    /// Add the selected search result to the playlist, unless its url is
    /// already there (adding is idempotent by url). Returns the record line
    /// to append to the playlist file when something was added.
    fn select_search_option(&mut self) -> (eff: Option<Effect>)
        ensures
            old(self).state is Search && old(self).mode is Normal ==> next_enter(
                *old(self),
                *final(self),
                eff,
            ),
            final(self).mode == old(self).mode,
            final(self).state == old(self).state,
    {
        if !(self.state == ApplicationState::Search && self.mode == Mode::Normal) {
            return None;
        }
        let idx = self.selection;
        if idx < self.search_results.len() {
            let song = self.search_results[idx].clone();
            if !self.playlist.contains(&song) {
                let line = song.serialise();
                self.playlist.add_song(song);
                return Some(Effect::PersistAppend(line));
            }
        }
        None
    }

    /// Handle Enter, as [`next_enter`] describes.
    fn on_enter(&mut self) -> (eff: Option<Effect>)
        requires
            old(self).wf(),
        ensures
            next_enter(*old(self), *final(self), eff),
            final(self).wf(),
    {
        match self.state {
            ApplicationState::Homepage => {
                if self.selection == 0 {
                    self.state = ApplicationState::Search;
                    self.selection = 0;
                } else if self.selection == 1 {
                    self.state = ApplicationState::Playlist;
                    self.selection = 0;
                } else if self.selection == 2 {
                    self.shuffle();
                }
                None
            },
            ApplicationState::Playlist => {
                if self.mode == Mode::Normal && self.selection < self.playlist.songs.len() {
                    if self.playlist.songs[self.selection].file.is_none() {
                        Some(Effect::Download { index: self.selection })
                    } else {
                        let song = self.playlist.songs[self.selection].clone();
                        self.audio_player.play(song);
                        None
                    }
                } else {
                    None
                }
            },
            ApplicationState::Search => {
                if self.mode == Mode::Input {
                    let q = chars_to_string(&self.user_input);
                    Some(Effect::Search(q))
                } else {
                    self.select_search_option()
                }
            },
        }
    }

    /// Handle one input key: move the state as the transition table
    /// [`next`] says, and hand back the outside action to perform, if the
    /// key asks for one.
    pub fn handle_input(&mut self, key: Key) -> (eff: Option<Effect>)
        requires
            old(self).wf(),
        ensures
            next(*old(self), key, *final(self), eff),
            final(self).wf(),
    {
        match key {
            Key::Char(c) => self.on_char(c),
            Key::Backspace => {
                self.on_backspace();
                None
            },
            Key::Delete => self.on_delete(),
            Key::Enter => self.on_enter(),
            Key::Esc => {
                self.mode = Mode::Normal;
                self.user_input.clear();
                None
            },
            Key::Right => {
                let cmd = self.audio_player.skip();
                Some(Effect::Sink(cmd))
            },
            Key::Other => None,
        }
    }

    /// A snapshot of the queued names, head first, for display.
    pub fn queue_names(&self) -> (names: Vec<String>)
        ensures
            names@.map_values(|n: String| n@) == names_of(self.audio_player.queue@),
    {
        self.audio_player.get_queue()
    }
}

} // verus!
