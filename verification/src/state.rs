//! The latest known snapshot and the rules by which it goes stale.

use crate::render::Context;
use vstd::prelude::*;

verus! {

/// Milliseconds without an update after which the display counts as degraded.
pub const DEGRADED_AFTER_MS: u64 = 2_000;

/// Milliseconds without an update after which the snapshot is dropped.
pub const DISCONNECT_AFTER_MS: u64 = 60_000;

/// The time between the last update and `now`, zero if `now` is the earlier.
pub open spec fn elapsed_ms(last_update: u64, now: u64) -> int {
    if now >= last_update {
        now - last_update
    } else {
        0
    }
}

/// What a render tick finds.
#[derive(Clone, Copy, Debug)]
pub struct Staleness {
    /// The snapshot to draw, `None` when disconnected.
    pub state: Option<Context>,
    /// No update came for `DEGRADED_AFTER_MS` or longer.
    pub degraded: bool,
    /// This tick dropped a snapshot: the moment of disconnecting.
    pub disconnected: bool,
}

/// What a tick at `now` finds, given the snapshot held and the time of the
/// last update. A snapshot is dropped once `DISCONNECT_AFTER_MS` have passed.
pub open spec fn staleness(state: Option<Context>, last_update: u64, now: u64) -> Staleness {
    let elapsed = elapsed_ms(last_update, now);
    Staleness {
        state: if elapsed >= DISCONNECT_AFTER_MS {
            None
        } else {
            state
        },
        degraded: elapsed >= DEGRADED_AFTER_MS,
        disconnected: elapsed >= DISCONNECT_AFTER_MS && state is Some,
    }
}

/// The snapshot left after ticks at each of `times` in turn.
pub open spec fn state_after_ticks(
    state: Option<Context>,
    last_update: u64,
    times: Seq<u64>,
) -> Option<Context>
    decreases times.len(),
{
    if times.len() == 0 {
        state
    } else {
        state_after_ticks(
            staleness(state, last_update, times[0]).state,
            last_update,
            times.drop_first(),
        )
    }
}

/// How many of the ticks at `times` report a disconnect.
pub open spec fn disconnects_in_ticks(
    state: Option<Context>,
    last_update: u64,
    times: Seq<u64>,
) -> nat
    decreases times.len(),
{
    if times.len() == 0 {
        0
    } else {
        let first = staleness(state, last_update, times[0]);
        let rest = disconnects_in_ticks(first.state, last_update, times.drop_first());
        if first.disconnected {
            rest + 1
        } else {
            rest
        }
    }
}

/// The single slot that holds the latest snapshot, with the time of its last
/// update in milliseconds of a monotonic clock.
#[derive(Clone, Copy, Debug)]
pub struct DisplayState {
    state: Option<Context>,
    last_update: u64,
}

impl DisplayState {
    /// The snapshot held, `None` when disconnected.
    pub closed spec fn state_spec(&self) -> Option<Context> {
        self.state
    }

    /// The time of the last update.
    pub closed spec fn last_update_spec(&self) -> u64 {
        self.last_update
    }

    /// A disconnected display whose last update was at `now`.
    pub fn new(now: u64) -> (display: DisplayState)
        ensures
            display.state_spec() is None,
            display.last_update_spec() == now,
    {
        DisplayState { state: None, last_update: now }
    }

    /// The snapshot held, `None` when disconnected.
    pub fn state(&self) -> (state: Option<Context>)
        ensures
            state == self.state_spec(),
    {
        self.state
    }

    /// The time of the last update.
    pub fn last_update(&self) -> (last_update: u64)
        ensures
            last_update == self.last_update_spec(),
    {
        self.last_update
    }

    /// Takes a new snapshot, received at `now`.
    pub fn set_state(&mut self, ctx: Context, now: u64)
        ensures
            final(self).state_spec() == Some(ctx),
            final(self).last_update_spec() == now,
    {
        self.state = Some(ctx);
        self.last_update = now;
    }

    /// Drops the snapshot on a reset received at `now`.
    pub fn reset_state(&mut self, now: u64)
        ensures
            final(self).state_spec() is None,
            final(self).last_update_spec() == now,
    {
        self.state = None;
        self.last_update = now;
    }

    /// A render tick at `now`: drops a snapshot that got no update for
    /// `DISCONNECT_AFTER_MS`, and tells what to draw.
    pub fn tick(&mut self, now: u64) -> (found: Staleness)
        ensures
            found == staleness(old(self).state_spec(), old(self).last_update_spec(), now),
            final(self).state_spec() == found.state,
            final(self).last_update_spec() == old(self).last_update_spec(),
    {
        let elapsed: u64 = if now >= self.last_update {
            now - self.last_update
        } else {
            0
        };
        let mut disconnected = false;
        if elapsed >= DISCONNECT_AFTER_MS {
            disconnected = self.state.is_some();
            self.state = None;
        }
        Staleness { state: self.state, degraded: elapsed >= DEGRADED_AFTER_MS, disconnected }
    }
}

/// After an update at `t0`, a tick before `t0 + DISCONNECT_AFTER_MS` keeps the
/// snapshot and a tick at or after it finds none. The tick reports the
/// display as degraded from `t0 + DEGRADED_AFTER_MS` on, and not before.
pub proof fn lemma_snapshot_lifetime(ctx: Context, t0: u64, now: u64)
    requires
        t0 <= now,
    ensures
        now - t0 < DISCONNECT_AFTER_MS ==> staleness(Some(ctx), t0, now).state == Some(ctx),
        now - t0 >= DISCONNECT_AFTER_MS ==> staleness(Some(ctx), t0, now).state is None,
        staleness(Some(ctx), t0, now).degraded <==> now - t0 >= DEGRADED_AFTER_MS,
        DEGRADED_AFTER_MS <= now - t0 < DISCONNECT_AFTER_MS ==> staleness(
            Some(ctx),
            t0,
            now,
        ).degraded && staleness(Some(ctx), t0, now).state == Some(ctx),
{
}

/// After an update at `t0` and any number of ticks at later times, the
/// snapshot is still there if every tick came before
/// `t0 + DISCONNECT_AFTER_MS`, and gone if one came at or after it. The
/// disconnect is reported by one tick and no more.
pub proof fn lemma_ticks_after_update(ctx: Context, t0: u64, times: Seq<u64>)
    requires
        forall|i: int| 0 <= i < times.len() ==> t0 <= times[i],
    ensures
        (forall|i: int| 0 <= i < times.len() ==> times[i] - t0 < DISCONNECT_AFTER_MS)
            ==> state_after_ticks(Some(ctx), t0, times) == Some(ctx) && disconnects_in_ticks(
            Some(ctx),
            t0,
            times,
        ) == 0,
        (exists|i: int| 0 <= i < times.len() && times[i] - t0 >= DISCONNECT_AFTER_MS)
            ==> state_after_ticks(Some(ctx), t0, times) is None && disconnects_in_ticks(
            Some(ctx),
            t0,
            times,
        ) == 1,
    decreases times.len(),
{
    if times.len() > 0 {
        let rest = times.drop_first();
        if times[0] - t0 >= DISCONNECT_AFTER_MS {
            lemma_ticks_without_snapshot(t0, rest);
        } else {
            lemma_ticks_after_update(ctx, t0, rest);
            if exists|i: int| 0 <= i < times.len() && times[i] - t0 >= DISCONNECT_AFTER_MS {
                let i = choose|i: int| 0 <= i < times.len() && times[i] - t0 >= DISCONNECT_AFTER_MS;
                assert(rest[i - 1] == times[i]);
            }
        }
    }
}

/// Ticks find nothing and report nothing while no snapshot is held.
pub proof fn lemma_ticks_without_snapshot(last_update: u64, times: Seq<u64>)
    ensures
        state_after_ticks(None, last_update, times) is None,
        disconnects_in_ticks(None, last_update, times) == 0,
    decreases times.len(),
{
    if times.len() > 0 {
        lemma_ticks_without_snapshot(last_update, times.drop_first());
    }
}

} // verus!
