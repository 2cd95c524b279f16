//! The status indicator's timing, in its two forms: as a task of its own
//! that toggles and then sleeps for one period, and inlined into a polling
//! loop that compares elapsed time with the period on every pass.

use vstd::prelude::*;
use crate::indicator::LedState;

verus! {

/// The indicator as a task of its own. Each pass reads the shared cell,
/// toggles the output, and sleeps for the period of the state it read; a
/// state published during the sleep is picked up by the next pass.
pub struct Blinker {
    high: bool,
}

impl Blinker {
    /// The level that the output is driven to.
    pub closed spec fn level(&self) -> bool {
        self.high
    }

    /// An indicator whose output starts at the given level.
    pub fn new(high: bool) -> (blinker: Blinker)
        ensures
            blinker.level() == high,
    {
        Blinker { high }
    }

    /// The level that the output is driven to.
    pub fn is_high(&self) -> (high: bool)
        ensures
            high == self.level(),
    {
        self.high
    }

    /// One pass: toggles the output once and tells how long to sleep, which
    /// is the period of the state that `cell` holds at this moment.
    pub fn step(&mut self, cell: u8) -> (pause_ms: u64)
        ensures
            final(self).level() == !old(self).level(),
            pause_ms == LedState::decode(cell).period_ms(),
    {
        self.high = !self.high;
        LedState::from_u8(cell).blink_period_ms()
    }
}

/// When pass `k` of the task toggles the output, counted in milliseconds
/// from its first toggle, if pass `i` read `reads[i]` from the cell.
pub open spec fn toggle_time(reads: Seq<LedState>, k: int) -> int
    decreases k,
{
    if k <= 0 {
        0
    } else {
        toggle_time(reads, k - 1) + reads[k - 1].period_ms()
    }
}

/// A state read by one pass sets the distance to the next toggle and to no
/// other: a period that has gone stale is used for one sleep at most.
pub proof fn lemma_read_sets_next_pause_only(reads: Seq<LedState>, k: int)
    requires
        0 <= k < reads.len(),
    ensures
        toggle_time(reads, k + 1) - toggle_time(reads, k) == reads[k].period_ms(),
{
}

/// While the cell holds one state, toggle `k` falls exactly `k` periods
/// after the first: nothing drifts.
pub proof fn lemma_constant_state_toggles_on_the_period(
    reads: Seq<LedState>,
    shown: LedState,
    k: int,
)
    requires
        0 <= k <= reads.len(),
        forall|i: int| 0 <= i < k ==> reads[i] == shown,
    ensures
        toggle_time(reads, k) == k * shown.period_ms(),
    decreases k,
{
    let period = shown.period_ms() as int;
    if k > 0 {
        lemma_constant_state_toggles_on_the_period(reads, shown, k - 1);
        assert(reads[k - 1] == shown);
        assert(k * period == (k - 1) * period + period) by (nonlinear_arith);
    } else {
        assert(k * period == 0) by (nonlinear_arith)
            requires
                k == 0,
        ;
    }
}

/// With one state held for `n` periods, the toggles that fall into that
/// span are exactly the first `n`: one per period, none twice.
pub proof fn lemma_n_periods_hold_n_toggles(reads: Seq<LedState>, shown: LedState, n: int, k: int)
    requires
        0 <= n <= reads.len(),
        0 <= k <= n,
        forall|i: int| 0 <= i < n ==> reads[i] == shown,
    ensures
        toggle_time(reads, k) < n * shown.period_ms() <==> k < n,
{
    lemma_constant_state_toggles_on_the_period(reads, shown, k);
    let period = shown.period_ms() as int;
    assert(period > 0);
    if k < n {
        assert(k * period < n * period) by (nonlinear_arith)
            requires
                0 <= k < n,
                period > 0,
        ;
    } else {
        assert(k == n);
    }
}

/// The inline indicator's state as contracts see it.
pub struct InlineState {
    /// The level that the output is driven to.
    pub high: bool,
    /// The clock reading at the last toggle, in milliseconds.
    pub last_toggle_ms: u64,
}

/// Whether a toggle is due: at least one period has passed since the last
/// one. A clock reading before the last toggle counts as no time passed.
pub open spec fn toggle_due(last_toggle_ms: u64, now_ms: u64, period_ms: u64) -> bool {
    now_ms >= last_toggle_ms && now_ms - last_toggle_ms >= period_ms
}

/// What one poll does to the state.
pub open spec fn poll_spec(before: InlineState, now_ms: u64, shown: LedState) -> InlineState {
    if toggle_due(before.last_toggle_ms, now_ms, shown.period_ms()) {
        InlineState { high: !before.high, last_toggle_ms: now_ms }
    } else {
        before
    }
}

/// The indicator inlined into a polling loop: no task and no sleep, one
/// check of the monotonic clock per pass of the loop.
pub struct InlineIndicator {
    high: bool,
    last_toggle_ms: u64,
}

impl View for InlineIndicator {
    type V = InlineState;

    closed spec fn view(&self) -> InlineState {
        InlineState { high: self.high, last_toggle_ms: self.last_toggle_ms }
    }
}

impl InlineIndicator {
    /// An indicator whose output is at the given level since `now_ms`.
    pub fn new(high: bool, now_ms: u64) -> (indicator: InlineIndicator)
        ensures
            indicator@ == (InlineState { high, last_toggle_ms: now_ms }),
    {
        InlineIndicator { high, last_toggle_ms: now_ms }
    }

    /// The level that the output is driven to.
    pub fn is_high(&self) -> (high: bool)
        ensures
            high == self@.high,
    {
        self.high
    }

    /// The clock reading at the last toggle.
    pub fn last_toggle_ms(&self) -> (at: u64)
        ensures
            at == self@.last_toggle_ms,
    {
        self.last_toggle_ms
    }

    /// One check: toggles, at most once, if the period of the state shown
    /// has passed since the last toggle, and says whether it did.
    pub fn poll(&mut self, now_ms: u64, shown: LedState) -> (toggled: bool)
        ensures
            toggled == toggle_due(old(self)@.last_toggle_ms, now_ms, shown.period_ms()),
            final(self)@ == poll_spec(old(self)@, now_ms, shown),
    {
        let period = shown.blink_period_ms();
        if now_ms >= self.last_toggle_ms && now_ms - self.last_toggle_ms >= period {
            self.high = !self.high;
            self.last_toggle_ms = now_ms;
            true
        } else {
            false
        }
    }
}

/// A toggle that is due stays due until it is made: a check that comes
/// late makes it up, it is not dropped.
pub proof fn lemma_missed_toggle_is_made_up(
    last_toggle_ms: u64,
    due_at_ms: u64,
    polled_at_ms: u64,
    period_ms: u64,
)
    requires
        toggle_due(last_toggle_ms, due_at_ms, period_ms),
        due_at_ms <= polled_at_ms,
    ensures
        toggle_due(last_toggle_ms, polled_at_ms, period_ms),
{
}

/// Between two toggles lies at least one period, and no more than one
/// period and the gap between the two checks around the deadline.
pub proof fn lemma_toggle_within_polling_latency(
    last_toggle_ms: u64,
    earlier_poll_ms: u64,
    later_poll_ms: u64,
    period_ms: u64,
)
    requires
        last_toggle_ms <= earlier_poll_ms <= later_poll_ms,
        !toggle_due(last_toggle_ms, earlier_poll_ms, period_ms),
        toggle_due(last_toggle_ms, later_poll_ms, period_ms),
    ensures
        period_ms <= later_poll_ms - last_toggle_ms < period_ms + (later_poll_ms - earlier_poll_ms),
{
}

/// A second check at the same clock reading never toggles again.
pub proof fn lemma_one_toggle_per_instant(before: InlineState, now_ms: u64, shown: LedState)
    ensures
        poll_spec(poll_spec(before, now_ms, shown), now_ms, shown) == poll_spec(
            before,
            now_ms,
            shown,
        ),
{
}

/// Both forms of the indicator take their period from the state shown, so
/// in both `Connecting` blinks strictly faster than `Connected`: the task
/// sleeps shorter after reading it, and the polling check comes due
/// earlier, never later.
pub proof fn lemma_both_forms_blink_faster_while_connecting(
    reads: Seq<LedState>,
    fast: int,
    slow: int,
    last_toggle_ms: u64,
    now_ms: u64,
)
    requires
        0 <= fast < reads.len(),
        0 <= slow < reads.len(),
        reads[fast] == LedState::Connecting,
        reads[slow] == LedState::Connected,
    ensures
        toggle_time(reads, fast + 1) - toggle_time(reads, fast) < toggle_time(reads, slow + 1)
            - toggle_time(reads, slow),
        toggle_due(last_toggle_ms, now_ms, LedState::Connected.period_ms()) ==> toggle_due(
            last_toggle_ms,
            now_ms,
            LedState::Connecting.period_ms(),
        ),
        now_ms - last_toggle_ms == LedState::Connecting.period_ms() ==> toggle_due(
            last_toggle_ms,
            now_ms,
            LedState::Connecting.period_ms(),
        ) && !toggle_due(last_toggle_ms, now_ms, LedState::Connected.period_ms()),
{
}

} // verus!
