//! The playback queue manager. It owns the ordered play queue — head first,
//! "up next" after — and decides everything the audio sink has to do; the
//! surrounding application owns the sink itself, runs the worker loop on a
//! fixed tick, and carries each [`SinkCommand`] and [`TickPlan`] out against
//! the real device. The head of the queue models "currently playing": it is
//! removed only by an explicit skip, never by feeding it to the sink.

use vstd::prelude::*;

use crate::song::Song;

verus! {

/// An instruction for the audio sink, carried out by the owner of the
/// audio device.
#[derive(PartialEq, Eq, Structural, Clone, Copy, Debug)]
pub enum SinkCommand {
    /// Pause playback.
    Pause,
    /// Resume playback.
    Resume,
    /// Advance past the audio currently in the sink.
    SkipCurrent,
}

/// What one worker tick has to do to the sink: first flush it if a reset is
/// pending (clearing buffered audio and resuming playback), then feed it the
/// queue head if it would otherwise sit idle.
pub struct TickPlan {
    /// Flush the sink and resume playback before anything else.
    pub flush: bool,
    /// Open this song's audio and feed it to the sink; the song stays at the
    /// head of the queue. When feeding fails, the worker skips the head and
    /// goes on.
    pub feed: Option<Song>,
}

/// The queue manager's state: the play queue, the flag that orders the next
/// tick to flush the sink, and the paused state this manager holds the sink
/// in. Only this manager's commands touch the sink, so the flag mirrors the
/// sink's paused state exactly.
pub struct AudioPlayer {
    pub queue: Vec<Song>,
    pub pending_reset: bool,
    pub paused: bool,
}

/// The names of the queued songs, in queue order.
pub open spec fn names_of(songs: Seq<Song>) -> Seq<Seq<char>> {
    songs.map_values(|s: Song| s.name@)
}

/// The queue after appending `added`, one song at a time, oldest first —
/// the shape of any sequence of [`AudioPlayer::append`] calls.
pub open spec fn push_all(q: Seq<Song>, added: Seq<Song>) -> Seq<Song>
    decreases added.len(),
{
    if added.len() == 0 {
        q
    } else {
        push_all(q.push(added[0]), added.drop_first())
    }
}

/// What toggling does to the paused state.
pub open spec fn spec_toggle(paused: bool) -> bool {
    !paused
}

impl AudioPlayer {
    /// A fresh manager: empty queue, no reset pending, playback not paused.
    pub fn new() -> (player: AudioPlayer)
        ensures
            player.queue@ =~= Seq::<Song>::empty(),
            !player.pending_reset,
            !player.paused,
    {
        AudioPlayer { queue: Vec::new(), pending_reset: false, paused: false }
    }

    /// Replace the entire queue with `[song]` and order the next tick to
    /// flush whatever audio is in flight; every previously queued song is
    /// discarded, whatever the queue held.
    pub fn play(&mut self, song: Song)
        ensures
            final(self).queue@ =~= seq![song],
            final(self).pending_reset,
            final(self).paused == old(self).paused,
    {
        self.queue.clear();
        self.queue.push(song);
        self.pending_reset = true;
    }

    /// Push a song to the tail of the queue. The head — and anything the
    /// sink is playing — is not disturbed.
    pub fn append(&mut self, song: Song)
        ensures
            final(self).queue@ == old(self).queue@.push(song),
            final(self).pending_reset == old(self).pending_reset,
            final(self).paused == old(self).paused,
    {
        self.queue.push(song);
    }

    /// Drop the head of the queue, when there is one, and in every case
    /// instruct the sink to advance past the current audio: skipping an
    /// empty queue is a documented no-op on the queue, not an error.
    pub fn skip(&mut self) -> (c: SinkCommand)
        ensures
            c == SinkCommand::SkipCurrent,
            old(self).queue@.len() == 0 ==> final(self).queue@ == old(self).queue@,
            old(self).queue@.len() > 0 ==> final(self).queue@ == old(self).queue@.drop_first(),
            final(self).pending_reset == old(self).pending_reset,
            final(self).paused == old(self).paused,
    {
        if self.queue.len() > 0 {
            self.queue.remove(0);
            proof {
                assert(self.queue@ =~= old(self).queue@.drop_first());
            }
        }
        SinkCommand::SkipCurrent
    }

    /// Hold playback: the sink is to pause.
    pub fn pause(&mut self) -> (c: SinkCommand)
        ensures
            c == SinkCommand::Pause,
            final(self).paused,
            final(self).queue == old(self).queue,
            final(self).pending_reset == old(self).pending_reset,
    {
        self.paused = true;
        SinkCommand::Pause
    }

    /// Release playback: the sink is to resume.
    pub fn resume(&mut self) -> (c: SinkCommand)
        ensures
            c == SinkCommand::Resume,
            !final(self).paused,
            final(self).queue == old(self).queue,
            final(self).pending_reset == old(self).pending_reset,
    {
        self.paused = false;
        SinkCommand::Resume
    }

    /// Flip the paused state, pausing a running sink and resuming a paused
    /// one.
    pub fn toggle(&mut self) -> (c: SinkCommand)
        ensures
            final(self).paused == spec_toggle(old(self).paused),
            final(self).queue == old(self).queue,
            final(self).pending_reset == old(self).pending_reset,
            c == if old(self).paused {
                SinkCommand::Resume
            } else {
                SinkCommand::Pause
            },
    {
        if self.paused {
            self.resume()
        } else {
            self.pause()
        }
    }

    /// A point-in-time snapshot of the queued names, head first — FIFO
    /// insertion order.
    pub fn get_queue(&self) -> (names: Vec<String>)
        ensures
            names@.map_values(|n: String| n@) =~= names_of(self.queue@),
    {
        let n = self.queue.len();
        let mut names: Vec<String> = Vec::new();
        let mut i: usize = 0;
        while i < n
            invariant
                i <= n,
                n == self.queue@.len(),
                names@.len() == i,
                forall|j: int| 0 <= j < i ==> #[trigger] names@[j]@ == self.queue@[j].name@,
            decreases n - i,
        {
            names.push(self.queue[i].name.clone());
            i += 1;
        }
        names
    }

    /// One worker tick. A pending reset is consumed: the sink is flushed and
    /// playback resumes. Then — whether the sink was already idle or the
    /// flush just emptied it — the head of a non-empty queue is fed to the
    /// sink, without being popped. The queue itself never changes here.
    pub fn tick(&mut self, sink_idle: bool) -> (plan: TickPlan)
        ensures
            plan.flush == old(self).pending_reset,
            !final(self).pending_reset,
            final(self).queue == old(self).queue,
            final(self).paused == (if old(self).pending_reset {
                false
            } else {
                old(self).paused
            }),
            match plan.feed {
                Some(s) => (sink_idle || old(self).pending_reset) && old(self).queue@.len() > 0
                    && s == old(self).queue@[0],
                None => !((sink_idle || old(self).pending_reset) && old(self).queue@.len() > 0),
            },
    {
        let flush = self.pending_reset;
        if flush {
            self.pending_reset = false;
            self.paused = false;
        }
        let feed = if (sink_idle || flush) && self.queue.len() > 0 {
            Some(self.queue[0].clone())
        } else {
            None
        };
        TickPlan { flush, feed }
    }
}

/// FIFO order: appending songs one at a time, oldest first, leaves the queue
/// holding the old entries followed by the new ones in insertion order, so a
/// snapshot of the names comes out in insertion order.
pub proof fn lemma_append_fifo(q: Seq<Song>, added: Seq<Song>)
    ensures
        push_all(q, added) == q + added,
        names_of(push_all(q, added)) == names_of(q) + names_of(added),
    decreases added.len(),
{
    if added.len() == 0 {
        assert(q + added =~= q);
        assert(names_of(q) + names_of(added) =~= names_of(q));
    } else {
        lemma_append_fifo(q.push(added[0]), added.drop_first());
        assert(q.push(added[0]) + added.drop_first() =~= q + added);
        assert(names_of(q + added) =~= names_of(q) + names_of(added));
    }
}

/// Toggling playback twice restores the paused state it started from:
/// toggle is an involution.
pub proof fn lemma_toggle_involution(paused: bool)
    ensures
        spec_toggle(spec_toggle(paused)) == paused,
{
}

} // verus!
