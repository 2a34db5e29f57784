//! The idle housekeeping of one room.
//!
//! Every room is probed at a fixed interval with a heartbeat event. A room
//! that nobody listens to for long enough is asked to be closed. The task
//! that owns the timer lives with the caller; what a tick means is decided
//! here.

use vstd::prelude::*;

verus! {

/// Seconds between two heartbeat probes of a room.
pub const KEEP_ALIVE_PING: u64 = 30;

/// Consecutive idle probes after which a room is asked to be closed: ten
/// minutes of inactivity.
pub const MAX_INTERVAL_MISSES: u64 = 20;

/// How many close requests the queue to the shutdown coordinator holds.
pub const SHUTDOWN_QUEUE_SIZE: usize = 10;

/// What a probe is worth a log line for.
#[derive(Copy, Clone, Debug, PartialEq, Eq, Structural)]
pub enum Remark {
    /// Nothing changed.
    Nothing,
    /// The room had listeners at the probe before and has none now.
    BecameIdle,
    /// The room has listeners again, after so many idle probes.
    BecameActive { idle_ticks: u64 },
}

/// The outcome of one probe.
#[derive(Copy, Clone, Debug, PartialEq, Eq, Structural)]
pub struct TickReport {
    /// What to log, if anything.
    pub remark: Remark,
    /// Whether to ask the shutdown coordinator to close the room.
    pub request_close: bool,
}

/// The idle counter after a probe: a live listener resets it, an idle probe
/// adds one. The counter stops at the largest `u64`.
pub open spec fn idle_after(idle: u64, connections_alive: bool) -> u64 {
    if connections_alive {
        0
    } else if idle < u64::MAX {
        (idle + 1) as u64
    } else {
        idle
    }
}

/// What one probe reports, given the idle counter before it: the change of
/// state worth logging, and a close request once the counter has reached the
/// threshold.
pub open spec fn report_of(idle: u64, connections_alive: bool) -> TickReport {
    TickReport {
        remark: if connections_alive && idle != 0 {
            Remark::BecameActive { idle_ticks: idle }
        } else if !connections_alive && idle == 0 {
            Remark::BecameIdle
        } else {
            Remark::Nothing
        },
        request_close: idle_after(idle, connections_alive) >= MAX_INTERVAL_MISSES,
    }
}

/// The time a room has been idle for, in seconds.
pub fn idle_seconds(idle_ticks: u64) -> (seconds: u128)
    ensures
        seconds == idle_ticks * KEEP_ALIVE_PING,
{
    let ticks: u128 = idle_ticks as u128;
    let interval: u128 = KEEP_ALIVE_PING as u128;
    assert(ticks * interval <= u64::MAX * 30) by (nonlinear_arith)
        requires
            ticks <= u64::MAX,
            interval == 30,
    ;
    ticks * interval
}

/// The idle counter of one room.
#[derive(Debug)]
pub struct Housekeeper {
    intervals_elapsed: u64,
}

impl View for Housekeeper {
    type V = u64;

    closed spec fn view(&self) -> u64 {
        self.intervals_elapsed
    }
}

impl Housekeeper {
    /// The housekeeper of a room that was just opened: no idle probe yet.
    pub fn new() -> (fresh: Housekeeper)
        ensures
            fresh@ == 0,
    {
        Housekeeper { intervals_elapsed: 0 }
    }

    /// The number of consecutive probes that found no listener.
    pub fn idle_ticks(&self) -> (idle: u64)
        ensures
            idle == self@,
    {
        self.intervals_elapsed
    }

    /// Takes the outcome of one heartbeat probe: whether at least one
    /// listener was live.
    pub fn tick(&mut self, connections_alive: bool) -> (report: TickReport)
        ensures
            final(self)@ == idle_after(old(self)@, connections_alive),
            report == report_of(old(self)@, connections_alive),
    {
        let before: u64 = self.intervals_elapsed;
        let remark = if connections_alive {
            self.intervals_elapsed = 0;
            if before != 0 {
                Remark::BecameActive { idle_ticks: before }
            } else {
                Remark::Nothing
            }
        } else {
            if before < u64::MAX {
                self.intervals_elapsed = before + 1;
            }
            if before == 0 {
                Remark::BecameIdle
            } else {
                Remark::Nothing
            }
        };
        TickReport { remark, request_close: self.intervals_elapsed >= MAX_INTERVAL_MISSES }
    }
}

/// The idle counter after a sequence of probes, each given by whether a
/// listener was live.
pub open spec fn idle_after_all(idle: u64, probes: Seq<bool>) -> u64
    decreases probes.len(),
{
    if probes.len() == 0 {
        idle
    } else {
        idle_after(idle_after_all(idle, probes.drop_last()), probes.last())
    }
}

/// The report of the last probe of a sequence that is not empty.
pub open spec fn last_report(idle: u64, probes: Seq<bool>) -> TickReport
    recommends
        probes.len() > 0,
{
    report_of(idle_after_all(idle, probes.drop_last()), probes.last())
}

/// So many probes in a row that found no listener.
pub open spec fn idle_probes(count: nat) -> Seq<bool> {
    Seq::new(count, |i: int| false)
}

/// A run of idle probes counts up from zero, one by one.
pub proof fn lemma_idle_probes_count_up(count: nat)
    requires
        count <= u64::MAX,
    ensures
        idle_after_all(0, idle_probes(count)) == count,
    decreases count,
{
    if count > 0 {
        lemma_idle_probes_count_up((count - 1) as nat);
        assert(idle_probes(count).drop_last() =~= idle_probes((count - 1) as nat));
    }
}

/// A room stays open while it has been idle for fewer probes than the
/// threshold, and is asked to be closed at the probe that reaches it: of a
/// fresh room's first `count` idle probes in a row, the last one requests
/// the close exactly if `count` is at least the threshold.
pub proof fn lemma_idle_room_closes_at_threshold(count: nat)
    requires
        0 < count <= u64::MAX,
    ensures
        last_report(0, idle_probes(count)).request_close == (count >= MAX_INTERVAL_MISSES),
{
    lemma_idle_probes_count_up((count - 1) as nat);
    assert(idle_probes(count).drop_last() =~= idle_probes((count - 1) as nat));
}

/// A live listener resets the idle counter, whatever came before: after any
/// sequence of probes, one that finds a listener leaves the counter at zero
/// and requests no close.
pub proof fn lemma_listener_resets_idle_counter(idle: u64, probes: Seq<bool>)
    ensures
        idle_after_all(idle, probes.push(true)) == 0,
        !last_report(idle, probes.push(true)).request_close,
{
    assert(probes.push(true).drop_last() =~= probes);
}

} // verus!
