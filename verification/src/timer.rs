use vstd::prelude::*;

use rand::rngs::ThreadRng;
use rand::Rng;

use crate::state::{State, CANDIDATE};

verus! {

/// Shortest election timeout, in milliseconds.
pub const MIN_TIMEOUT_MS: u64 = 1500;

/// Election timeouts are shorter than this, in milliseconds.
pub const MAX_TIMEOUT_MS: u64 = 3000;

#[verifier::external_type_specification]
#[verifier::external_body]
pub struct ExThreadRng(rand::rngs::ThreadRng);

/// Calls `rand::thread_rng`, the generator of the calling thread, seeded by
/// the system. Nothing is claimed of what it holds.
#[verifier::external_body]
fn thread_rng() -> (rng: ThreadRng) {
    rand::thread_rng()
}

/// Calls `rand::Rng::gen_range` on `u64`. Its documentation promises a value
/// in `[low, high)` and a panic when `low >= high`; which value comes out is
/// chance, and nothing more is claimed.
#[verifier::external_body]
fn gen_range(rng: &mut ThreadRng, low: u64, high: u64) -> (value: u64)
    requires
        low < high,
    ensures
        low <= value < high,
{
    rng.gen_range(low, high)
}

/// Draws an election timeout at random, in milliseconds, from
/// `[MIN_TIMEOUT_MS, MAX_TIMEOUT_MS)` (ten times the range of the Raft
/// paper, so that a run can be followed by eye).
fn get_random_timer_duration() -> (ms: u128)
    ensures
        MIN_TIMEOUT_MS <= ms < MAX_TIMEOUT_MS,
{
    let mut rng = thread_rng();
    let ms: u64 = gen_range(&mut rng, MIN_TIMEOUT_MS, MAX_TIMEOUT_MS);
    ms as u128
}

/// The election timer of a node. Times are milliseconds on a clock that the
/// caller reads; `start` is when the timer last started.
pub struct Timer {
    pub start: u128,
    pub max_duration: u128,
}

/// Milliseconds from `start` to `now`, zero where the clock reads earlier
/// than `start`.
pub open spec fn elapsed_ms(start: u128, now: u128) -> int {
    if now >= start {
        now - start
    } else {
        0
    }
}

/// Whether a timer that started at `start` with timeout `max_duration` has
/// run out at `now`.
pub open spec fn timed_out(start: u128, max_duration: u128, now: u128) -> bool {
    elapsed_ms(start, now) >= max_duration
}

/// The node's state after a turn of the timer that started at `start` with
/// timeout `max_duration`, at the time `now`.
pub open spec fn state_after_tick(s: State, start: u128, max_duration: u128, now: u128) -> State {
    let fired = timed_out(start, max_duration, now);
    State {
        start_election: if fired { true } else { s.start_election },
        node_type: if fired { CANDIDATE } else { s.node_type },
        reset_timer: false,
        ..s
    }
}

/// When the timer counts from after such a turn: it restarts at `now` if it
/// ran out or if a message had arrived.
pub open spec fn start_after_tick(s: State, start: u128, max_duration: u128, now: u128) -> u128 {
    if timed_out(start, max_duration, now) || s.reset_timer {
        now
    } else {
        start
    }
}

impl Timer {
    /// A timer started at `now_ms` with the timeout `max_duration`.
    pub fn from_duration(now_ms: u128, max_duration: u128) -> (timer: Timer)
        ensures
            timer.start == now_ms,
            timer.max_duration == max_duration,
    {
        Timer { start: now_ms, max_duration }
    }

    /// A timer started at `now_ms` with a timeout drawn at random from
    /// `[MIN_TIMEOUT_MS, MAX_TIMEOUT_MS)`.
    pub fn new(now_ms: u128) -> (timer: Timer)
        ensures
            timer.start == now_ms,
            MIN_TIMEOUT_MS <= timer.max_duration < MAX_TIMEOUT_MS,
    {
        Timer::from_duration(now_ms, get_random_timer_duration())
    }

    /// One turn of the timer at the time `now_ms`.
    ///
    /// If the timeout has run out without a message, the node becomes a
    /// candidate and raises `start_election`, and the timer restarts. Then,
    /// if a message has arrived since the last turn (`reset_timer`), the
    /// timer restarts and the flag goes down. Returns whether the timeout ran
    /// out.
    pub fn tick(&mut self, node_state: &mut State, now_ms: u128) -> (fired: bool)
        ensures
            fired == timed_out(old(self).start, old(self).max_duration, now_ms),
            *final(node_state) == state_after_tick(
                *old(node_state),
                old(self).start,
                old(self).max_duration,
                now_ms,
            ),
            final(self).start == start_after_tick(
                *old(node_state),
                old(self).start,
                old(self).max_duration,
                now_ms,
            ),
            final(self).max_duration == old(self).max_duration,
            old(node_state).wf() ==> final(node_state).wf(),
    {
        let elapsed_time: u128 = if now_ms >= self.start {
            now_ms - self.start
        } else {
            0
        };
        let fired = elapsed_time >= self.max_duration;
        if fired {
            self.start = now_ms;
            node_state.start_election = true;
            node_state.node_type = CANDIDATE;
        }
        if node_state.reset_timer {
            self.start = now_ms;
            node_state.reset_timer = false;
        }
        fired
    }
}

} // verus!
