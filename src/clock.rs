use vstd::prelude::*;
use crate::outcomes::State;

verus! {

/// A Fischer clock: seconds each seat starts with, and seconds credited after each own move.
#[derive(Debug, Clone, Copy, PartialEq, Eq, Hash, Structural)]
pub struct TimerConfig {
    pub initial_time_secs: u64,
    pub increment_secs: u64,
}

/// Milliseconds a seat has left after a move: the increment is credited unless the move
/// was forced by a timeout, then the time spent is debited, never going below zero.
pub open spec fn settled_remaining(remaining: int, elapsed: int, increment: int, forced: bool) -> int {
    let credited = if forced { remaining } else { remaining + increment };
    if credited > elapsed {
        credited - elapsed
    } else {
        0
    }
}

/// Settles the acting seat's clock for one move (all values in milliseconds).
pub fn settle_clock(remaining_ms: u64, elapsed_ms: u64, increment_ms: u64, forced: bool) -> (r: u64)
    requires
        remaining_ms as int + increment_ms as int <= u64::MAX,
    ensures
        r as int == settled_remaining(remaining_ms as int, elapsed_ms as int, increment_ms as int, forced),
        r >= 0,
{
    let credited = if forced { remaining_ms } else { remaining_ms + increment_ms };
    if credited > elapsed_ms {
        credited - elapsed_ms
    } else {
        0
    }
}

/// The four seats' clocks at game start, in milliseconds.
pub fn initial_clocks(config: TimerConfig) -> (r: [u64; 4])
    requires
        config.initial_time_secs as int * 1000 <= u64::MAX,
    ensures
        forall|i: int| 0 <= i < 4 ==> #[trigger] r@[i] as int == config.initial_time_secs as int * 1000,
{
    let ms = config.initial_time_secs * 1000;
    [ms, ms, ms, ms]
}

/// A table has a turn running, and so a timeout armed, only while bidding or playing tricks.
pub open spec fn timer_armed_in(s: State) -> bool {
    s matches State::Betting(_) || s matches State::Trick(_)
}

/// Whether a timeout must be armed after a move left the table in `s`; a terminal phase has none.
pub fn needs_timer(s: State) -> (b: bool)
    ensures
        b == timer_armed_in(s),
        s.is_terminal_spec() ==> !b,
{
    match s {
        State::Betting(_) => true,
        State::Trick(_) => true,
        _ => false,
    }
}

/// What the scheduler does when an armed timeout fires.
#[derive(Debug, Clone, Copy, PartialEq, Eq, Structural)]
pub enum TimeoutAction {
    /// A move already raced the timeout, or the table is no longer in play.
    Stale,
    /// First-round bidding timed out: the table is aborted.
    Abort,
    /// A bid of one is placed for the seat.
    ForceBet(i32),
    /// A card drawn at random from the legal set is played for the seat.
    ForceCard,
}

pub open spec fn timeout_decision(s: State, first_round: bool, armed_seat: usize, acting_seat: usize) -> TimeoutAction {
    if armed_seat != acting_seat || !timer_armed_in(s) {
        TimeoutAction::Stale
    } else if s matches State::Betting(_) {
        if first_round {
            TimeoutAction::Abort
        } else {
            TimeoutAction::ForceBet(1)
        }
    } else {
        TimeoutAction::ForceCard
    }
}

/// Decides what a fired timeout does, from the table's phase, whether it is in its first
/// round, the seat the timeout was armed for, and the seat now to act.
pub fn timeout_policy(s: State, first_round: bool, armed_seat: usize, acting_seat: usize) -> (a: TimeoutAction)
    ensures
        a == timeout_decision(s, first_round, armed_seat, acting_seat),
{
    if armed_seat != acting_seat {
        return TimeoutAction::Stale;
    }
    match s {
        State::Betting(_) => if first_round {
            TimeoutAction::Abort
        } else {
            TimeoutAction::ForceBet(1)
        },
        State::Trick(_) => TimeoutAction::ForceCard,
        _ => TimeoutAction::Stale,
    }
}

/// Clock of the acting seat after a restart: the wall time elapsed since the persisted turn
/// start is debited, floored at zero; a start time in the future debits nothing.
pub fn restored_remaining(remaining_ms: u64, turn_started_at_ms: u64, now_ms: u64) -> (r: u64)
    ensures
        now_ms >= turn_started_at_ms ==> r as int == settled_remaining(
            remaining_ms as int, now_ms - turn_started_at_ms, 0, true),
        now_ms < turn_started_at_ms ==> r == remaining_ms,
        r <= remaining_ms,
{
    if now_ms < turn_started_at_ms {
        return remaining_ms;
    }
    let elapsed = now_ms - turn_started_at_ms;
    if remaining_ms > elapsed {
        remaining_ms - elapsed
    } else {
        0
    }
}

/// A timeout armed for `seat`, due after `duration_ms`.
#[derive(Debug, Clone, Copy, PartialEq, Eq, Structural)]
pub struct ArmedTimeout {
    pub seat: usize,
    pub duration_ms: u64,
}

/// The clocks of a timed table: each seat's remaining milliseconds, when the current turn
/// began (epoch milliseconds), and the single pending timeout, if any.
#[derive(Debug, Clone, Copy)]
pub struct TableClock {
    pub config: TimerConfig,
    pub remaining_ms: [u64; 4],
    pub turn_started_at_ms: Option<u64>,
    pub pending: Option<ArmedTimeout>,
}

/// Limit on the configured seconds, so that clock arithmetic stays in `u64`.
pub const MAX_CLOCK_SECS: u64 = 1000000000;

impl TableClock {
    pub open spec fn increment_ms(&self) -> int {
        self.config.increment_secs as int * 1000
    }

    /// Configured times fit the clock arithmetic.
    pub open spec fn wf(&self) -> bool {
        &&& self.config.initial_time_secs <= MAX_CLOCK_SECS
        &&& self.config.increment_secs <= MAX_CLOCK_SECS
    }

    pub fn new(config: TimerConfig) -> (c: TableClock)
        requires
            config.initial_time_secs <= MAX_CLOCK_SECS,
            config.increment_secs <= MAX_CLOCK_SECS,
        ensures
            c.wf(),
            c.config == config,
            forall|i: int| 0 <= i < 4 ==> #[trigger] c.remaining_ms@[i] as int == config.initial_time_secs as int * 1000,
            c.turn_started_at_ms is None,
            c.pending is None,
    {
        TableClock { config, remaining_ms: initial_clocks(config), turn_started_at_ms: None, pending: None }
    }

    /// Before a move by `seat` at `now_ms`: the pending timeout is cancelled, the seat is credited
    /// the increment unless the move was forced by a timeout, and debited the time since its turn
    /// began, never below zero.
    pub fn before_move(&mut self, seat: usize, now_ms: u64, forced: bool)
        requires
            old(self).wf(),
            seat < 4,
            old(self).remaining_ms@[seat as int] as int + old(self).increment_ms() <= u64::MAX,
        ensures
            final(self).wf(),
            final(self).pending is None,
            final(self).config == old(self).config,
            final(self).turn_started_at_ms == old(self).turn_started_at_ms,
            final(self).remaining_ms@[seat as int] as int == settled_remaining(
                old(self).remaining_ms@[seat as int] as int,
                match old(self).turn_started_at_ms {
                    Some(t) => if now_ms >= t { now_ms - t } else { 0int },
                    None => 0int,
                },
                old(self).increment_ms(), forced),
            forall|i: int| 0 <= i < 4 && i != seat ==> #[trigger] final(self).remaining_ms@[i] == old(self).remaining_ms@[i],
    {
        self.pending = None;
        let elapsed: u64 = match self.turn_started_at_ms {
            Some(t) => if now_ms >= t { now_ms - t } else { 0 },
            None => 0,
        };
        let inc = self.config.increment_secs * 1000;
        let r = settle_clock(self.remaining_ms[seat], elapsed, inc, forced);
        self.remaining_ms[seat] = r;
    }

    /// After a move left the table in phase `s` with `next_seat` to act, at `now_ms`: while the
    /// table is in play its turn restarts and exactly one timeout is armed for the next seat's
    /// remaining time; in any other phase nothing is pending and no turn runs.
    pub fn after_move(&mut self, s: State, next_seat: usize, now_ms: u64)
        requires
            next_seat < 4,
        ensures
            final(self).config == old(self).config,
            final(self).remaining_ms == old(self).remaining_ms,
            timer_armed_in(s) ==> final(self).turn_started_at_ms == Some(now_ms)
                && final(self).pending == Some(ArmedTimeout {
                    seat: next_seat,
                    duration_ms: old(self).remaining_ms@[next_seat as int],
                }),
            !timer_armed_in(s) ==> final(self).turn_started_at_ms is None && final(self).pending is None,
            s.is_terminal_spec() ==> final(self).turn_started_at_ms is None && final(self).pending is None,
    {
        if needs_timer(s) {
            self.turn_started_at_ms = Some(now_ms);
            self.pending = Some(ArmedTimeout { seat: next_seat, duration_ms: self.remaining_ms[next_seat] });
        } else {
            self.turn_started_at_ms = None;
            self.pending = None;
        }
    }

    /// A fired timeout armed for `armed_seat`, with `acting_seat` now to act: unless it is stale,
    /// the acting seat's clock is set to zero and the timeout is spent; the policy says what follows.
    pub fn on_timeout(&mut self, s: State, first_round: bool, armed_seat: usize, acting_seat: usize) -> (a: TimeoutAction)
        requires
            acting_seat < 4,
        ensures
            a == timeout_decision(s, first_round, armed_seat, acting_seat),
            a == TimeoutAction::Stale ==> *final(self) == *old(self),
            a != TimeoutAction::Stale ==> {
                &&& final(self).remaining_ms@ == old(self).remaining_ms@.update(acting_seat as int, 0u64)
                &&& final(self).pending is None
                &&& final(self).config == old(self).config
                &&& final(self).turn_started_at_ms == old(self).turn_started_at_ms
            },
    {
        let a = timeout_policy(s, first_round, armed_seat, acting_seat);
        match a {
            TimeoutAction::Stale => {},
            _ => {
                self.remaining_ms[acting_seat] = 0;
                self.pending = None;
            },
        }
        a
    }

    /// Removing the table cancels its pending timeout.
    pub fn cancel(&mut self)
        ensures
            final(self).pending is None,
            final(self).remaining_ms == old(self).remaining_ms,
            final(self).config == old(self).config,
    {
        self.pending = None;
    }
}

/// Settling a clock never leaves a negative remainder, and a timeout move earns no increment.
pub proof fn clock_never_negative(remaining: int, elapsed: int, increment: int)
    requires
        remaining >= 0,
        elapsed >= 0,
        increment >= 0,
    ensures
        settled_remaining(remaining, elapsed, increment, false) >= 0,
        settled_remaining(remaining, elapsed, increment, true) >= 0,
        settled_remaining(remaining, elapsed, increment, true) <= settled_remaining(remaining, elapsed, increment, false),
{
}

} // verus!
