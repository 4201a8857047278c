//! The simulation state: live cells, the single save slot, play/pause,
//! speed, the generation counter, and the transient status message.
//!
//! Speed is a multiplier in half-steps: `speed_steps` many halves, so
//! `2` is the default multiplier of one, and the floor of one step keeps
//! the multiplier at one half. Time reaches this module only as plain
//! millisecond counts handed in by the caller.

use vstd::prelude::*;
use crate::cells::{CellSet, Coord};
use crate::engine::advanced;
use crate::engine::advance;

verus! {

/// Base interval between generations at a multiplier of one, in ms.
pub const UPDATE_MS: u64 = 200;

/// How long a status message stays on screen, in ms.
pub const MSG_DISPLAY_MS: u64 = 1000;

/// The transient status message kinds.
#[derive(Clone, Copy, PartialEq, Eq, Structural, Debug)]
pub enum StatusMsg {
    /// The live cells were copied into the save slot.
    Saved,
    /// The save slot was copied back over the live cells.
    Loaded,
}

/// The whole simulation state.
pub struct SimState {
    /// The currently live cells.
    pub alive: CellSet,
    /// The single snapshot slot; an independent copy of a past live set.
    pub save: CellSet,
    /// Whether generations advance automatically.
    pub is_playing: bool,
    /// Speed multiplier in half-steps; at least 1 (a multiplier of 0.5).
    pub speed_steps: u32,
    /// Generations advanced since the last reset.
    pub generation: u64,
    /// When the last generation advance happened, in ms.
    pub last_updated_ms: u64,
    /// The status message now showing, if any.
    pub msg: Option<StatusMsg>,
    /// When the current message was set, in ms.
    pub msg_start_ms: u64,
}

/// Milliseconds from `start` to `now`, zero if the clock ran backward.
pub open spec fn elapsed_ms(now: u64, start: u64) -> int {
    if now >= start {
        now - start
    } else {
        0
    }
}

/// The tick interval at `steps` half-steps of speed: the base interval
/// divided by the multiplier `steps / 2`, rounded to the nearest ms.
pub open spec fn tick_interval_ms(steps: int) -> int
    recommends
        steps >= 1,
{
    (4 * UPDATE_MS + steps) / (2 * steps)
}

/// Whether a generation tick is owed at time `now`.
pub open spec fn tick_due(pre: SimState, now: u64) -> bool {
    pre.is_playing && elapsed_ms(now, pre.last_updated_ms) > tick_interval_ms(
        pre.speed_steps as int,
    )
}

/// Whether the showing message has outlived its display window at `now`.
pub open spec fn msg_expired(pre: SimState, now: u64) -> bool {
    pre.msg is Some && elapsed_ms(now, pre.msg_start_ms) > MSG_DISPLAY_MS
}

/// Fields untouched by every mutator below except the two snapshot ones.
pub open spec fn same_msg(pre: SimState, post: SimState) -> bool {
    post.msg == pre.msg && post.msg_start_ms == pre.msg_start_ms
}

/// Speed and tick clock untouched.
pub open spec fn same_pace(pre: SimState, post: SimState) -> bool {
    post.speed_steps == pre.speed_steps && post.last_updated_ms == pre.last_updated_ms
}

/// Effect of the play/pause toggle: only the flag flips.
pub open spec fn play_toggled(pre: SimState, post: SimState) -> bool {
    &&& post.is_playing == !pre.is_playing
    &&& post.alive@ == pre.alive@
    &&& post.save@ == pre.save@
    &&& post.generation == pre.generation
    &&& same_pace(pre, post)
    &&& same_msg(pre, post)
}

/// Effect of a generation reset: paused, counter zeroed, cells kept.
pub open spec fn generation_reset(pre: SimState, post: SimState) -> bool {
    &&& !post.is_playing
    &&& post.generation == 0
    &&& post.alive@ == pre.alive@
    &&& post.save@ == pre.save@
    &&& same_pace(pre, post)
    &&& same_msg(pre, post)
}

/// Effect of a clear: paused, counter zeroed, live cells emptied,
/// the save slot kept.
pub open spec fn board_cleared(pre: SimState, post: SimState) -> bool {
    &&& !post.is_playing
    &&& post.generation == 0
    &&& post.alive@ == Set::<Coord>::empty()
    &&& post.save@ == pre.save@
    &&& same_pace(pre, post)
    &&& same_msg(pre, post)
}

/// Effect of taking a snapshot at time `now`: the save slot becomes a
/// copy of the live cells and the saved message starts showing.
pub open spec fn snapshot_saved(pre: SimState, post: SimState, now: u64) -> bool {
    &&& post.save@ == pre.alive@
    &&& post.alive@ == pre.alive@
    &&& post.is_playing == pre.is_playing
    &&& post.generation == pre.generation
    &&& same_pace(pre, post)
    &&& post.msg == Some(StatusMsg::Saved)
    &&& post.msg_start_ms == now
}

/// Effect of restoring the snapshot at time `now`: the live cells are
/// overwritten — never merged — with the save slot's contents, and the
/// loaded message starts showing.
pub open spec fn snapshot_restored(pre: SimState, post: SimState, now: u64) -> bool {
    &&& post.alive@ == pre.save@
    &&& post.save@ == pre.save@
    &&& post.is_playing == pre.is_playing
    &&& post.generation == pre.generation
    &&& same_pace(pre, post)
    &&& post.msg == Some(StatusMsg::Loaded)
    &&& post.msg_start_ms == now
}

/// Effect of a speed increase: one more half-step, held only at the
/// top of the machine range.
pub open spec fn speed_increased(pre: SimState, post: SimState) -> bool {
    &&& post.speed_steps == if pre.speed_steps < u32::MAX {
        (pre.speed_steps + 1) as u32
    } else {
        pre.speed_steps
    }
    &&& post.alive@ == pre.alive@
    &&& post.save@ == pre.save@
    &&& post.is_playing == pre.is_playing
    &&& post.generation == pre.generation
    &&& post.last_updated_ms == pre.last_updated_ms
    &&& same_msg(pre, post)
}

/// Effect of a speed decrease: one half-step down, but never below one
/// half-step — the floor of the sequence 1.0, 0.5, 0.5, ...
pub open spec fn speed_decreased(pre: SimState, post: SimState) -> bool {
    &&& post.speed_steps == if pre.speed_steps >= 2 {
        (pre.speed_steps - 1) as u32
    } else {
        pre.speed_steps
    }
    &&& post.alive@ == pre.alive@
    &&& post.save@ == pre.save@
    &&& post.is_playing == pre.is_playing
    &&& post.generation == pre.generation
    &&& post.last_updated_ms == pre.last_updated_ms
    &&& same_msg(pre, post)
}

/// Effect of adding the cell `c` while paused.
pub open spec fn cell_added(pre: SimState, post: SimState, c: Coord) -> bool {
    &&& post.alive@ == pre.alive@.insert(c)
    &&& post.save@ == pre.save@
    &&& post.is_playing == pre.is_playing
    &&& post.generation == pre.generation
    &&& same_pace(pre, post)
    &&& same_msg(pre, post)
}

/// Effect of removing the cell `c` while paused.
pub open spec fn cell_removed(pre: SimState, post: SimState, c: Coord) -> bool {
    &&& post.alive@ == pre.alive@.remove(c)
    &&& post.save@ == pre.save@
    &&& post.is_playing == pre.is_playing
    &&& post.generation == pre.generation
    &&& same_pace(pre, post)
    &&& same_msg(pre, post)
}

impl SimState {
    /// Well-formed: both cell sets are duplicate-free and the speed is
    /// at least one half-step.
    pub open spec fn wf(&self) -> bool {
        self.alive.wf() && self.save.wf() && self.speed_steps >= 1
    }

    /// A fresh paused state at time `now_ms`: no cells, no save, a
    /// multiplier of one, generation zero, no message.
    pub fn new(now_ms: u64) -> (r: SimState)
        ensures
            r.wf(),
            r.alive@ == Set::<Coord>::empty(),
            r.save@ == Set::<Coord>::empty(),
            !r.is_playing,
            r.speed_steps == 2,
            r.generation == 0,
            r.last_updated_ms == now_ms,
            r.msg is None,
            r.msg_start_ms == now_ms,
    {
        SimState {
            alive: CellSet::new(),
            save: CellSet::new(),
            is_playing: false,
            speed_steps: 2,
            generation: 0,
            last_updated_ms: now_ms,
            msg: None,
            msg_start_ms: now_ms,
        }
    }

    /// Flips play/pause.
    pub fn toggle_play(&mut self)
        requires
            old(self).wf(),
        ensures
            final(self).wf(),
            play_toggled(*old(self), *final(self)),
    {
        self.is_playing = !self.is_playing;
    }

    /// Pauses and zeroes the generation counter; cells are kept.
    pub fn reset_generation(&mut self)
        requires
            old(self).wf(),
        ensures
            final(self).wf(),
            generation_reset(*old(self), *final(self)),
    {
        self.is_playing = false;
        self.generation = 0;
    }

    /// Pauses, empties the live cells and zeroes the generation counter;
    /// the save slot is kept.
    pub fn clear(&mut self)
        requires
            old(self).wf(),
        ensures
            final(self).wf(),
            board_cleared(*old(self), *final(self)),
    {
        self.is_playing = false;
        self.alive.clear();
        self.generation = 0;
    }

    /// Copies the live cells into the save slot and shows the saved
    /// message from time `now_ms`.
    pub fn save_snapshot(&mut self, now_ms: u64)
        requires
            old(self).wf(),
        ensures
            final(self).wf(),
            snapshot_saved(*old(self), *final(self), now_ms),
    {
        self.save = self.alive.duplicate();
        self.msg = Some(StatusMsg::Saved);
        self.msg_start_ms = now_ms;
    }

    /// Overwrites the live cells with the save slot's contents and shows
    /// the loaded message from time `now_ms`. An empty save slot still
    /// overwrites: the live cells become empty.
    pub fn restore_snapshot(&mut self, now_ms: u64)
        requires
            old(self).wf(),
        ensures
            final(self).wf(),
            snapshot_restored(*old(self), *final(self), now_ms),
    {
        self.alive = self.save.duplicate();
        self.msg = Some(StatusMsg::Loaded);
        self.msg_start_ms = now_ms;
    }

    /// One half-step faster; held at the top of the machine range, as a
    /// bounded counter must be.
    pub fn increase_speed(&mut self)
        requires
            old(self).wf(),
        ensures
            final(self).wf(),
            speed_increased(*old(self), *final(self)),
    {
        if self.speed_steps < u32::MAX {
            self.speed_steps = self.speed_steps + 1;
        }
    }

    /// One half-step slower, only while above the floor of one half-step.
    pub fn decrease_speed(&mut self)
        requires
            old(self).wf(),
        ensures
            final(self).wf(),
            speed_decreased(*old(self), *final(self)),
    {
        if self.speed_steps >= 2 {
            self.speed_steps = self.speed_steps - 1;
        }
    }

    /// Adds a live cell; only ever called while paused.
    pub fn add_cell(&mut self, c: Coord)
        requires
            old(self).wf(),
            !old(self).is_playing,
        ensures
            final(self).wf(),
            cell_added(*old(self), *final(self), c),
    {
        self.alive.insert(c);
    }

    /// Removes a live cell; only ever called while paused.
    pub fn remove_cell(&mut self, c: Coord)
        requires
            old(self).wf(),
            !old(self).is_playing,
        ensures
            final(self).wf(),
            cell_removed(*old(self), *final(self), c),
    {
        self.alive.remove(c);
    }

    /// The speed multiplier in tenths, for display with one decimal
    /// place: 5 per half-step, so the default of one reads as 10.
    pub fn speed_tenths(&self) -> (r: u64)
        ensures
            r == self.speed_steps as int * 5,
    {
        self.speed_steps as u64 * 5
    }

    /// How many cells are live.
    pub fn alive_count(&self) -> (n: usize)
        requires
            self.wf(),
        ensures
            n == self.alive@.len(),
    {
        self.alive.len()
    }

    /// Clears the message once its display window has elapsed at `now_ms`;
    /// reports whether anything changed, for redraw gating.
    pub fn expire_message_if_due(&mut self, now_ms: u64) -> (changed: bool)
        ensures
            changed == msg_expired(*old(self), now_ms),
            final(self).msg == if msg_expired(*old(self), now_ms) {
                None::<StatusMsg>
            } else {
                old(self).msg
            },
            final(self).msg_start_ms == old(self).msg_start_ms,
            final(self).alive == old(self).alive,
            final(self).save == old(self).save,
            final(self).is_playing == old(self).is_playing,
            final(self).speed_steps == old(self).speed_steps,
            final(self).generation == old(self).generation,
            final(self).last_updated_ms == old(self).last_updated_ms,
    {
        let due = if self.msg.is_some() {
            elapsed(now_ms, self.msg_start_ms) > MSG_DISPLAY_MS
        } else {
            false
        };
        if due {
            self.msg = None;
        }
        due
    }

    /// The tick phase at time `now_ms` in a `width` x `height` viewport:
    /// advances one generation when playing and the interval for the
    /// current speed has elapsed, and expires a stale message; reports
    /// whether a redraw is owed.
    pub fn update(&mut self, now_ms: u64, width: u16, height: u16) -> (redraw: bool)
        requires
            old(self).wf(),
            old(self).generation < u64::MAX,
        ensures
            final(self).wf(),
            redraw == (tick_due(*old(self), now_ms) || msg_expired(*old(self), now_ms)),
            tick_due(*old(self), now_ms) ==> {
                &&& final(self).alive@ == advanced(
                    old(self).alive@,
                    width as int,
                    height as int,
                )
                &&& final(self).generation == old(self).generation + 1
                &&& final(self).last_updated_ms == now_ms
            },
            !tick_due(*old(self), now_ms) ==> {
                &&& final(self).alive@ == old(self).alive@
                &&& final(self).generation == old(self).generation
                &&& final(self).last_updated_ms == old(self).last_updated_ms
            },
            final(self).save@ == old(self).save@,
            final(self).is_playing == old(self).is_playing,
            final(self).speed_steps == old(self).speed_steps,
            final(self).msg == if msg_expired(*old(self), now_ms) {
                None::<StatusMsg>
            } else {
                old(self).msg
            },
            final(self).msg_start_ms == old(self).msg_start_ms,
    {
        let mut redraw = false;
        if self.is_playing {
            if elapsed(now_ms, self.last_updated_ms) > tick_interval(self.speed_steps) {
                let next = advance(&self.alive, width, height);
                self.alive = next;
                self.generation = self.generation + 1;
                self.last_updated_ms = now_ms;
                redraw = true;
            }
        }
        let expired = self.expire_message_if_due(now_ms);
        redraw || expired
    }
}

/// Milliseconds from `start` to `now`, zero if the clock ran backward.
pub fn elapsed(now_ms: u64, start_ms: u64) -> (e: u64)
    ensures
        e == elapsed_ms(now_ms, start_ms),
{
    if now_ms >= start_ms {
        now_ms - start_ms
    } else {
        0
    }
}

/// The tick interval in ms for `steps` half-steps of speed.
pub fn tick_interval(steps: u32) -> (r: u64)
    requires
        steps >= 1,
    ensures
        r == tick_interval_ms(steps as int),
{
    let s = steps as u64;
    (4 * UPDATE_MS + s) / (2 * s)
}

/// Law: `tick_interval_ms` is the base interval divided by the
/// multiplier `steps / 2`, rounded to the nearest whole millisecond
/// (halves round up): the interval times `steps / 2` lands within half
/// a step of the base interval.
pub proof fn lemma_tick_interval_rounds_to_nearest(steps: int)
    requires
        steps >= 1,
    ensures
        2 * steps * tick_interval_ms(steps) <= 4 * UPDATE_MS + steps,
        2 * steps * tick_interval_ms(steps) > 4 * UPDATE_MS - steps,
{
    let n = 4 * UPDATE_MS + steps;
    let d = 2 * steps;
    vstd::arithmetic::div_mod::lemma_fundamental_div_mod(n, d);
    vstd::arithmetic::div_mod::lemma_mod_bound(n, d);
}

/// Law: a snapshot, any later reshaping of the live cells that leaves
/// the save slot alone, then a restore, yield exactly the live set
/// captured at save time.
pub proof fn lemma_save_restore_round_trip(
    s0: SimState,
    s1: SimState,
    s2: SimState,
    s3: SimState,
    t1: u64,
    t2: u64,
)
    requires
        snapshot_saved(s0, s1, t1),
        s2.save@ == s1.save@,
        snapshot_restored(s2, s3, t2),
    ensures
        s3.alive@ == s0.alive@,
{
}

/// Law: a speed decrease never takes the speed below one half-step,
/// so the multiplier never drops below one half.
pub proof fn lemma_speed_floor(pre: SimState, post: SimState)
    requires
        pre.speed_steps >= 1,
        speed_decreased(pre, post),
    ensures
        post.speed_steps >= 1,
{
}

} // verus!
