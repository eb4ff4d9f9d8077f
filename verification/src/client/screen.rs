//! The state behind the client's bottom line: status messages wait in a
//! queue and are shown one per frame, oldest first; every 256 frames the
//! client measures its frame rate.

use vstd::prelude::*;
use std::collections::VecDeque;

verus! {

/// What the client's drawing loop keeps between frames.
pub struct DrawState {
    /// Messages not shown yet, newest at the front.
    pub queue: VecDeque<String>,
    /// The message shown on the bottom line.
    pub shown: String,
    /// Frames drawn, modulo 256.
    pub frame_count: u8,
}

/// The views of a sequence of strings.
pub open spec fn string_views(s: Seq<String>) -> Seq<Seq<char>> {
    s.map_values(|x: String| x@)
}

impl DrawState {
    /// Nothing queued, an empty bottom line, no frame drawn.
    pub fn new() -> (s: DrawState)
        ensures
            s.queue@.len() == 0,
            s.shown@.len() == 0,
            s.frame_count == 0,
    {
        DrawState { queue: VecDeque::new(), shown: String::new(), frame_count: 0 }
    }

    /// Queues a message to be shown after those queued before it.
    pub fn queue_message(&mut self, message: String)
        ensures
            final(self).queue@ == seq![message] + old(self).queue@,
            final(self).shown == old(self).shown,
            final(self).frame_count == old(self).frame_count,
    {
        self.queue.push_front(message);
    }

    /// Counts a frame; returns `true` when the count wraps around, that is
    /// once every 256 frames, when the frame rate is due.
    pub fn next_frame(&mut self) -> (due: bool)
        ensures
            final(self).frame_count == (old(self).frame_count + 1) % 256,
            due == (final(self).frame_count == 0),
            final(self).queue@ == old(self).queue@,
            final(self).shown == old(self).shown,
    {
        self.frame_count = self.frame_count.wrapping_add(1);
        self.frame_count == 0
    }

    /// Moves the oldest queued message, if any, onto the bottom line.
    pub fn show_oldest(&mut self)
        ensures
            old(self).queue@.len() == 0 ==> final(self).queue@ == old(self).queue@,
            old(self).queue@.len() == 0 ==> final(self).shown@ == old(self).shown@,
            old(self).queue@.len() > 0 ==> final(self).queue@ == old(self).queue@.drop_last(),
            old(self).queue@.len() > 0 ==> final(self).shown@ == old(self).queue@.last()@,
            final(self).frame_count == old(self).frame_count,
    {
        match self.queue.pop_back() {
            Some(message) => {
                let mut line = String::new();
                line.append(message.as_str());
                self.shown = line;
            },
            None => {},
        }
    }
}

/// Messages leave the queue in the order they entered it: the next one shown
/// is the oldest, and a message queued later waits behind it.
pub proof fn lemma_queue_is_fifo(queue: Seq<String>, message: String)
    ensures
        queue.len() > 0 ==> (seq![message] + queue).last() == queue.last()
            && (seq![message] + queue).drop_last() == seq![message] + queue.drop_last(),
        queue.len() == 0 ==> (seq![message] + queue).last() == message,
{
    if queue.len() > 0 {
        assert((seq![message] + queue).drop_last() =~= seq![message] + queue.drop_last());
    }
}

/// The frame rate comes due exactly once in any 256 consecutive frames:
/// counting `k` more frames from `count` wraps to zero exactly for
/// `k == 256 - count`.
pub proof fn lemma_frame_rate_due_once_per_256(count: u8, k: int)
    requires
        1 <= k <= 256,
    ensures
        ((count + k) % 256 == 0) <==> k == 256 - count,
{
}

} // verus!
