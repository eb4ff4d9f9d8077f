//! The log viewer: it files every incoming event under its level, one pane
//! per level, and each pane shows the newest events that fit in it.

use vstd::prelude::*;
use crate::shared::error_util::{views, copy_string};
use crate::shared::message::client_logging::{spec_index, MessageToLogProcess};

verus! {

/// The events received so far, one list per level (trace, debug, info,
/// warn, error), oldest first.
pub struct MessageBuffers {
    pub buffers: [Vec<String>; 5],
}

/// The contents of the five lists.
pub open spec fn buffer_views(b: [Vec<String>; 5]) -> Seq<Seq<Seq<char>>> {
    b@.map_values(|v: Vec<String>| views(v@))
}

/// The newest `limit` entries of `s` (all of them when there are fewer).
pub open spec fn newest(s: Seq<Seq<char>>, limit: nat) -> Seq<Seq<char>> {
    if s.len() <= limit {
        s
    } else {
        s.skip(s.len() - limit)
    }
}

impl MessageBuffers {
    /// Five empty lists.
    pub fn new() -> (b: MessageBuffers)
        ensures
            forall|i: int| 0 <= i < 5 ==> (#[trigger] buffer_views(b.buffers)[i]).len() == 0,
    {
        let b = MessageBuffers { buffers: [Vec::new(), Vec::new(), Vec::new(), Vec::new(), Vec::new()] };
        proof {
            assert forall|i: int| 0 <= i < 5 implies (#[trigger] buffer_views(b.buffers)[i]).len() == 0 by {
                assert(b.buffers@[i]@.len() == 0);
            }
        }
        b
    }

    /// Files an event at the end of its level's list.
    pub fn route(&mut self, message: MessageToLogProcess)
        ensures
            buffer_views(final(self).buffers) == buffer_views(old(self).buffers).update(
                spec_index(message.level) as int,
                buffer_views(old(self).buffers)[spec_index(message.level) as int].push(
                    message.formatted_event@,
                ),
            ),
    {
        let i = message.level.index();
        let ghost before = buffer_views(self.buffers);
        let ghost old_arr = self.buffers@;
        let ghost text = message.formatted_event;
        self.buffers[i].push(message.formatted_event);
        proof {
            assert(self.buffers@[i as int]@ == old_arr[i as int]@.push(text));
            assert(forall|k: int| 0 <= k < 5 && k != i ==> self.buffers@[k] == old_arr[k]);
            assert(views(self.buffers@[i as int]@) =~= views(old_arr[i as int]@).push(text@));
            assert(buffer_views(self.buffers) =~= before.update(
                i as int,
                before[i as int].push(message.formatted_event@),
            ));
        }
    }

    /// The newest `limit` events of one level, oldest first.
    pub fn visible(&self, level: usize, limit: u8) -> (shown: Vec<String>)
        requires
            level < 5,
        ensures
            views(shown@) == newest(buffer_views(self.buffers)[level as int], limit as nat),
    {
        let buffer = &self.buffers[level];
        let len = buffer.len();
        let start = len.saturating_sub(limit as usize);
        let mut shown: Vec<String> = Vec::new();
        let mut i = start;
        proof {
            assert(buffer_views(self.buffers)[level as int] == views(buffer@));
        }
        while i < len
            invariant
                start <= i <= len,
                len == buffer@.len(),
                views(shown@) == views(buffer@).subrange(start as int, i as int),
            decreases len - i,
        {
            let s = copy_string(&buffer[i]);
            let ghost before = shown@;
            shown.push(s);
            proof {
                assert(views(shown@) =~= views(before).push(s@));
                assert(views(buffer@).subrange(start as int, i + 1) =~= views(buffer@).subrange(
                    start as int,
                    i as int,
                ).push(buffer@[i as int]@));
            }
            i = i + 1;
        }
        proof {
            assert(views(buffer@).subrange(start as int, len as int) =~= newest(
                views(buffer@),
                limit as nat,
            ));
        }
        shown
    }
}

/// How many events fit in a pane of the given height: the height taken
/// modulo 256 (it is narrowed to a byte), less the two border rows, and no
/// less than zero.
pub open spec fn spec_display_limit(height: u16) -> u8 {
    if height % 256 >= 2 {
        (height % 256 - 2) as u8
    } else {
        0
    }
}

/// How many events fit in a pane of the given height.
pub fn display_limit(height: u16) -> (n: u8)
    ensures
        n == spec_display_limit(height),
{
    let h = #[verifier::truncate] (height as u8);
    assert(h == height % 256) by (bit_vector)
        requires
            h == height as u8,
    ;
    h.saturating_sub(2)
}

/// How many events each pane showed at the last frame.
pub struct DisplayLimits {
    pub limits: [u8; 5],
}

impl DisplayLimits {
    /// No pane shows anything before the first frame is laid out.
    pub fn new() -> (d: DisplayLimits)
        ensures
            forall|i: int| 0 <= i < 5 ==> #[trigger] d.limits@[i] == 0,
    {
        DisplayLimits { limits: [0, 0, 0, 0, 0] }
    }

    /// Takes the pane heights of the frame just laid out (the first panes,
    /// in order) and records how many events each of them fits.
    pub fn update(&mut self, heights: &Vec<u16>)
        requires
            heights.len() <= 5,
        ensures
            forall|i: int|
                0 <= i < 5 ==> #[trigger] final(self).limits@[i] == if i < heights.len() {
                    spec_display_limit(heights[i])
                } else {
                    old(self).limits@[i]
                },
    {
        let mut i: usize = 0;
        while i < heights.len()
            invariant
                i <= heights.len() <= 5,
                forall|k: int|
                    0 <= k < 5 ==> #[trigger] self.limits@[k] == if k < i {
                        spec_display_limit(heights[k])
                    } else {
                        old(self).limits@[k]
                    },
            decreases heights.len() - i,
        {
            self.limits[i] = display_limit(heights[i]);
            i = i + 1;
        }
    }
}

/// A pane never shows more events than fit in it, and what it shows is the
/// end of its list.
pub proof fn lemma_newest_fits(s: Seq<Seq<char>>, limit: nat)
    ensures
        newest(s, limit).len() <= limit,
        newest(s, limit).len() <= s.len(),
        newest(s, limit) == s.subrange(s.len() - newest(s, limit).len(), s.len() as int),
{
    if s.len() <= limit {
        assert(s.subrange(0, s.len() as int) =~= s);
    }
}

/// A pane fits at most 253 events, and none when it is less than three rows
/// high (modulo 256).
pub proof fn lemma_display_limit_bounds(height: u16)
    ensures
        spec_display_limit(height) <= 253,
        height % 256 < 3 ==> spec_display_limit(height) == 0,
{
}

} // verus!
