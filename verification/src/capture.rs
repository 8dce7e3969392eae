//! Freshness gate and capture-loop decisions.
//!
//! The producer sometimes advances its sequence counter on a stale buffer, so
//! a frame counts as fresh only when the counter moved *and* a cheap
//! structural probe — the per-wheel suspension-travel group, chosen because it
//! is in continuous motion — differs from the last frame let through.
//!
//! The capture loop itself lives in the unverified shell; everything it
//! decides — backoff after misses, the graphics cadence gate, the elapsed
//! persistence cadence, the stop token — is computed here from plain values.

use vstd::prelude::*;

use crate::frames::{PhysicsRecord, WheelsRecord};

verus! {

/// Sleep after a miss while the producer is active, in microseconds.
pub const POLL_INTERVAL_US: u64 = 500;

/// Sleep after a long run of misses (producer paused), in microseconds.
pub const IDLE_SLEEP_US: u64 = 16_000;

/// Consecutive misses after which the loop switches to the idle sleep.
pub const IDLE_THRESHOLD: u32 = 20;

/// Minimum spacing of two graphics records, in microseconds.
pub const GRAPHICS_INTERVAL_US: i64 = 16_000;

/// Spacing of elapsed-seconds persistence for external observers, in
/// microseconds.
pub const ELAPSED_WRITE_INTERVAL_US: i64 = 1_000_000;

/// Sleep between polls while waiting for new data, in microseconds.
pub fn poll_interval() -> (r: u64)
    ensures
        r == POLL_INTERVAL_US,
{
    POLL_INTERVAL_US
}

// ------------------------------------------------------------------ gate

/// Rejects stale physics frames by sequence counter and content probe.
pub struct FreshnessGate {
    /// At least one frame has already been let through.
    pub primed: bool,
    /// Sequence counter of the last frame let through.
    pub last_sequence: i32,
    /// Suspension-travel probe of the last frame let through.
    pub last_suspension: WheelsRecord,
}

impl FreshnessGate {
    /// Whether `p` goes through in the current state: the sequence
    /// counter must have moved, and — once a frame has gone through — the
    /// suspension-travel probe must differ too.
    pub open spec fn passes(self, p: PhysicsRecord) -> bool {
        &&& p.packet_id != self.last_sequence
        &&& (self.primed ==> p.suspension_travel != self.last_suspension)
    }

    /// The state after letting through `p`.
    pub open spec fn updated(self, p: PhysicsRecord) -> FreshnessGate {
        FreshnessGate { primed: true, last_sequence: p.packet_id, last_suspension: p.suspension_travel }
    }

    /// A fresh gate: primed on nothing, sequence counter zero, as at capture
    /// start.
    pub fn new() -> (r: FreshnessGate)
        ensures
            !r.primed,
            r.last_sequence == 0,
    {
        FreshnessGate {
            primed: false,
            last_sequence: 0,
            last_suspension: WheelsRecord { front_left: 0, front_right: 0, rear_left: 0, rear_right: 0 },
        }
    }

    /// Offer a decoded frame; true exactly when it is fresh, in which case
    /// it is remembered.
    pub fn offer_frame(&mut self, p: &PhysicsRecord) -> (r: bool)
        ensures
            r == old(self).passes(*p),
            r ==> *final(self) == old(self).updated(*p),
            !r ==> *final(self) == *old(self),
    {
        if p.packet_id != self.last_sequence && (!self.primed || !wheels_eq(
            &p.suspension_travel,
            &self.last_suspension,
        )) {
            self.primed = true;
            self.last_sequence = p.packet_id;
            self.last_suspension = p.suspension_travel;
            true
        } else {
            false
        }
    }
}

/// Field-wise equality of two wheel groups.
fn wheels_eq(a: &WheelsRecord, b: &WheelsRecord) -> (r: bool)
    ensures
        r == (*a == *b),
{
    a.front_left == b.front_left && a.front_right == b.front_right && a.rear_left == b.rear_left
        && a.rear_right == b.rear_right
}

/// No exact duplicate is ever emitted: of two consecutively emitted
/// frames, the sequence counter differs and so does the continuous-motion
/// probe.
pub proof fn lemma_gate_never_duplicates(g: FreshnessGate, a: PhysicsRecord, b: PhysicsRecord)
    requires
        g.passes(a),
        g.updated(a).passes(b),
    ensures
        b.packet_id != a.packet_id,
        b.suspension_travel != a.suspension_travel,
{
}

// ------------------------------------------------------------------ stop

/// Coordinated stop token: the interrupt handler or the stop-file prober
/// flips it; the capture loop reads it.
pub struct CaptureControl {
    stopping: bool,
}

impl CaptureControl {
    /// A stop has been requested.
    pub closed spec fn stop_was_requested(self) -> bool {
        self.stopping
    }

    /// A control that lets the capture run.
    pub fn new() -> (r: CaptureControl)
        ensures
            !r.stop_was_requested(),
    {
        CaptureControl { stopping: false }
    }

    /// Ask the capture to stop at the next poll.
    pub fn request_stop(&mut self)
        ensures
            final(self).stop_was_requested(),
    {
        self.stopping = true;
    }

    /// The capture is still running.
    pub fn recording_active(&self) -> (r: bool)
        ensures
            r == !self.stop_was_requested(),
    {
        !self.stopping
    }

    /// The capture should wind down.
    pub fn should_stop(&self) -> (r: bool)
        ensures
            r == self.stop_was_requested(),
    {
        self.stopping
    }
}

// ------------------------------------------------------------------ loop

/// What the loop does with a fresh frame, beyond recording it.
pub struct HitActions {
    /// Record a graphics frame too: a full graphics interval has passed.
    pub record_graphics: bool,
    /// Persist elapsed seconds for external observers.
    pub write_elapsed: bool,
}

/// Decision state of the capture loop.
pub struct CaptureClock {
    graphics_enabled: bool,
    consecutive_misses: u32,
    last_graphics_us: i64,
    last_elapsed_write_us: i64,
}

impl CaptureClock {
    /// Misses since the last fresh frame.
    pub closed spec fn misses(self) -> u32 {
        self.consecutive_misses
    }

    /// Graphics recording is enabled for this run.
    pub closed spec fn graphics_enabled(self) -> bool {
        self.graphics_enabled
    }

    /// Time the last graphics frame was recorded.
    pub closed spec fn last_graphics_us(self) -> i64 {
        self.last_graphics_us
    }

    /// Time elapsed seconds were last persisted.
    pub closed spec fn last_elapsed_write_us(self) -> i64 {
        self.last_elapsed_write_us
    }

    /// Start the loop clock at `now_us`.
    pub fn new(graphics_enabled: bool, now_us: i64) -> (r: CaptureClock)
        requires
            now_us >= 0,
        ensures
            r.misses() == 0,
            r.graphics_enabled() == graphics_enabled,
            r.last_graphics_us() == now_us,
            r.last_elapsed_write_us() == now_us,
    {
        CaptureClock {
            graphics_enabled,
            consecutive_misses: 0,
            last_graphics_us: now_us,
            last_elapsed_write_us: now_us,
        }
    }

    /// A fresh frame arrived at `now_us`: reset the miss counter and decide
    /// the side actions.  A graphics record is due when at least one
    /// graphics interval has passed; elapsed persistence is due about once
    /// per second.
    pub fn on_hit(&mut self, now_us: i64) -> (r: HitActions)
        requires
            0 <= old(self).last_graphics_us() <= now_us,
            0 <= old(self).last_elapsed_write_us() <= now_us,
        ensures
            final(self).misses() == 0,
            final(self).graphics_enabled() == old(self).graphics_enabled(),
            r.record_graphics == (old(self).graphics_enabled() && now_us - old(
                self,
            ).last_graphics_us() >= GRAPHICS_INTERVAL_US),
            r.write_elapsed == (now_us - old(self).last_elapsed_write_us()
                >= ELAPSED_WRITE_INTERVAL_US),
            final(self).last_graphics_us() == if r.record_graphics {
                now_us
            } else {
                old(self).last_graphics_us()
            },
            final(self).last_elapsed_write_us() == if r.write_elapsed {
                now_us
            } else {
                old(self).last_elapsed_write_us()
            },
    {
        self.consecutive_misses = 0;
        let record_graphics = self.graphics_enabled && now_us - self.last_graphics_us
            >= GRAPHICS_INTERVAL_US;
        if record_graphics {
            self.last_graphics_us = now_us;
        }
        let write_elapsed = now_us - self.last_elapsed_write_us >= ELAPSED_WRITE_INTERVAL_US;
        if write_elapsed {
            self.last_elapsed_write_us = now_us;
        }
        HitActions { record_graphics, write_elapsed }
    }

    /// Nothing fresh this poll: count the miss and pick the sleep — short
    /// while the producer is active, long once it looks paused.
    pub fn on_miss(&mut self) -> (r: u64)
        ensures
            final(self).misses() == if old(self).misses() == u32::MAX {
                u32::MAX
            } else {
                (old(self).misses() + 1) as u32
            },
            r == if final(self).misses() >= IDLE_THRESHOLD {
                IDLE_SLEEP_US
            } else {
                POLL_INTERVAL_US
            },
            final(self).graphics_enabled() == old(self).graphics_enabled(),
            final(self).last_graphics_us() == old(self).last_graphics_us(),
            final(self).last_elapsed_write_us() == old(self).last_elapsed_write_us(),
    {
        if self.consecutive_misses < u32::MAX {
            self.consecutive_misses = self.consecutive_misses + 1;
        }
        if self.consecutive_misses >= IDLE_THRESHOLD {
            IDLE_SLEEP_US
        } else {
            POLL_INTERVAL_US
        }
    }
}

} // verus!
