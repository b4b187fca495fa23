//! The timer that paces the broadcast.
//!
//! The timer owns no clock. Whoever drives it reads the clock and asks the
//! timer at that reading.

use vstd::prelude::*;

verus! {

/// The time between two broadcasts, in milliseconds.
pub const BROADCAST_PERIOD_MS: u64 = 5000;

/// A broadcast is due once a full period has passed since the last one.
pub open spec fn is_due(last_fire_ms: int, now_ms: int) -> bool {
    now_ms - last_fire_ms >= BROADCAST_PERIOD_MS
}

/// The timer that paces the broadcast. It is polled, not woken: it fires
/// only when it is asked and a full period has passed since it last fired.
#[derive(Clone, Copy, Debug, PartialEq, Eq, Structural)]
pub struct BroadcastTimer {
    /// The clock reading at which the timer last fired, or at which it was
    /// started if it has not fired yet.
    pub last_fire_ms: u64,
}

impl BroadcastTimer {
    /// A timer started at the clock reading `now_ms`.
    pub fn new(now_ms: u64) -> (timer: BroadcastTimer)
        ensures
            timer.last_fire_ms == now_ms,
    {
        BroadcastTimer { last_fire_ms: now_ms }
    }

    /// The timer after it was asked at the clock reading `now_ms`: if a
    /// broadcast was due, the next period starts at `now_ms`.
    pub open spec fn polled(self, now_ms: u64) -> BroadcastTimer {
        if is_due(self.last_fire_ms as int, now_ms as int) {
            BroadcastTimer { last_fire_ms: now_ms }
        } else {
            self
        }
    }

    /// Asks the timer at the clock reading `now_ms` whether to broadcast now.
    /// If so, the next period starts at `now_ms`.
    pub fn poll(&mut self, now_ms: u64) -> (fire: bool)
        ensures
            fire == is_due(old(self).last_fire_ms as int, now_ms as int),
            *final(self) == old(self).polled(now_ms),
    {
        if now_ms >= self.last_fire_ms && now_ms - self.last_fire_ms >= BROADCAST_PERIOD_MS {
            self.last_fire_ms = now_ms;
            true
        } else {
            false
        }
    }
}

/// Two broadcasts in a row are at least a period apart, however often and
/// at whatever readings the timer is asked in between.
pub proof fn law_fires_are_a_period_apart(timer: BroadcastTimer, first_ms: u64, second_ms: u64)
    requires
        is_due(timer.last_fire_ms as int, first_ms as int),
        is_due(timer.polled(first_ms).last_fire_ms as int, second_ms as int),
    ensures
        second_ms - first_ms >= BROADCAST_PERIOD_MS,
{
}

/// A timer that is not due stays as it is, so asking it early or twice at
/// the same reading does no harm; and right after it fired it is not due.
pub proof fn law_early_poll_changes_nothing(timer: BroadcastTimer, now_ms: u64)
    ensures
        !is_due(timer.last_fire_ms as int, now_ms as int) ==> timer.polled(now_ms) == timer,
        !is_due(timer.polled(now_ms).last_fire_ms as int, now_ms as int),
        timer.polled(now_ms).polled(now_ms) == timer.polled(now_ms),
{
}

/// The timer that was started at the reading `start_ms` and then asked at
/// each of `readings` in turn.
pub open spec fn after_polls(start_ms: u64, readings: Seq<u64>) -> BroadcastTimer
    decreases readings.len(),
{
    if readings.len() == 0 {
        BroadcastTimer { last_fire_ms: start_ms }
    } else {
        after_polls(start_ms, readings.drop_last()).polled(readings.last())
    }
}

/// A clock that ticks on the period: its readings rise strictly from the
/// start, and every whole number of periods since the start that lies within
/// the readings is itself a reading.
pub open spec fn ticks_on_the_period(start_ms: u64, readings: Seq<u64>) -> bool {
    &&& forall|i: int| 0 <= i < readings.len() ==> start_ms < #[trigger] readings[i]
    &&& forall|i: int, j: int|
        0 <= i < j < readings.len() ==> #[trigger] readings[i] < #[trigger] readings[j]
    &&& forall|k: int|
        1 <= k && readings.len() > 0 && start_ms + k * BROADCAST_PERIOD_MS <= readings.last()
            ==> readings.contains(#[trigger] ((start_ms + k * BROADCAST_PERIOD_MS) as u64))
}

/// The number of whole periods between the start and a later reading.
pub open spec fn periods_since(start_ms: u64, now_ms: u64) -> int {
    (now_ms - start_ms) / (BROADCAST_PERIOD_MS as int)
}

/// The first readings of a clock that ticks on the period are such a clock.
proof fn lemma_prefix_ticks_on_the_period(start_ms: u64, readings: Seq<u64>, n: int)
    requires
        ticks_on_the_period(start_ms, readings),
        0 <= n <= readings.len(),
    ensures
        ticks_on_the_period(start_ms, readings.take(n)),
{
    let prefix = readings.take(n);
    assert forall|k: int|
        1 <= k && prefix.len() > 0 && start_ms + k * BROADCAST_PERIOD_MS
            <= prefix.last() implies prefix.contains(
        #[trigger] ((start_ms + k * BROADCAST_PERIOD_MS) as u64),
    ) by {
        let multiple = (start_ms + k * BROADCAST_PERIOD_MS) as u64;
        assert(prefix.last() == readings[n - 1]);
        assert(readings[n - 1] <= readings.last());
        assert(readings.contains(multiple));
        let i = choose|i: int| 0 <= i < readings.len() && readings[i] == multiple;
        assert(i < n) by {
            if i >= n {
                assert(readings[n - 1] < readings[i]);
            }
        }
        assert(prefix[i] == multiple);
    }
}

/// What the last of a clock's readings does to the timer, for a clock that
/// ticks on the period: the timer fires at it exactly if it is a whole number
/// of periods since the start, and afterwards the timer's period starts at
/// the last such point.
proof fn lemma_polls(start_ms: u64, readings: Seq<u64>)
    requires
        ticks_on_the_period(start_ms, readings),
    ensures
        readings.len() == 0 ==> after_polls(start_ms, readings).last_fire_ms == start_ms,
        readings.len() > 0 ==> after_polls(start_ms, readings).last_fire_ms == start_ms
            + periods_since(start_ms, readings.last()) * BROADCAST_PERIOD_MS,
        readings.len() > 0 ==> (is_due(
            after_polls(start_ms, readings.drop_last()).last_fire_ms as int,
            readings.last() as int,
        ) <==> periods_since(start_ms, readings.last()) * BROADCAST_PERIOD_MS == readings.last()
            - start_ms),
    decreases readings.len(),
{
    if readings.len() > 0 {
        let earlier = readings.drop_last();
        let now = readings.last();
        assert(earlier =~= readings.take(readings.len() - 1));
        lemma_prefix_ticks_on_the_period(start_ms, readings, readings.len() - 1);
        lemma_polls(start_ms, earlier);
        let last_fire = after_polls(start_ms, earlier).last_fire_ms;
        let periods = periods_since(start_ms, last_fire);
        assert(start_ms < now);
        if earlier.len() > 0 {
            assert(earlier.last() == readings[readings.len() - 2]);
            assert(earlier.last() < now);
        }
        assert(last_fire == start_ms + periods * BROADCAST_PERIOD_MS);
        assert(last_fire < now);
        if is_due(last_fire as int, now as int) {
            let next = (start_ms + (periods + 1) * BROADCAST_PERIOD_MS) as u64;
            assert(readings.contains(next));
            let i = choose|i: int| 0 <= i < readings.len() && readings[i] == next;
            assert(i == readings.len() - 1) by {
                if i < readings.len() - 1 {
                    assert(earlier.len() > 0);
                    assert(readings[i] <= earlier.last()) by {
                        if i < readings.len() - 2 {
                            assert(readings[i] < readings[readings.len() - 2]);
                        }
                    }
                }
            }
            assert(now == next);
        }
    }
}

/// The cadence under a clock that ticks on the period. Let the timer be
/// started at `start_ms` and asked at each of `readings` in turn. Then it
/// fires at a reading exactly if that reading is a whole number of periods
/// since the start: at five seconds, ten, fifteen and so on, and at no
/// reading in between. After a reading, the timer's period starts at the
/// last such point.
pub proof fn law_cadence(start_ms: u64, readings: Seq<u64>, n: int)
    requires
        ticks_on_the_period(start_ms, readings),
        0 <= n < readings.len(),
    ensures
        is_due(
            after_polls(start_ms, readings.take(n)).last_fire_ms as int,
            readings[n] as int,
        ) <==> periods_since(start_ms, readings[n]) * BROADCAST_PERIOD_MS == readings[n] - start_ms,
        after_polls(start_ms, readings.take(n + 1)).last_fire_ms == start_ms + periods_since(
            start_ms,
            readings[n],
        ) * BROADCAST_PERIOD_MS,
{
    let upto = readings.take(n + 1);
    lemma_prefix_ticks_on_the_period(start_ms, readings, n + 1);
    lemma_polls(start_ms, upto);
    assert(upto.drop_last() =~= readings.take(n));
    assert(upto.last() == readings[n]);
}

/// The readings of a clock that is read every `step_ms` after the start,
/// `count` times: `start_ms + step_ms`, `start_ms + 2 * step_ms`, and so on.
pub open spec fn regular_readings(start_ms: u64, step_ms: u64, count: nat) -> Seq<u64> {
    Seq::new(count, |i: int| (start_ms + (i + 1) * step_ms) as u64)
}

/// The `i`-th of `count` steps ends after the start and no later than the
/// last one.
proof fn lemma_within_the_steps(i: int, count: int, step: int)
    requires
        0 <= i < count,
        step > 0,
    ensures
        0 < (i + 1) * step <= count * step,
{
    assert(0 < (i + 1) * step <= count * step) by (nonlinear_arith)
        requires
            0 <= i < count,
            step > 0,
    ;
}

/// A clock that is read at a fixed step which divides the period ticks on
/// the period: read every second, say, or every 250 milliseconds.
pub proof fn law_regular_clock_ticks_on_the_period(start_ms: u64, step_ms: u64, count: nat)
    requires
        step_ms > 0,
        BROADCAST_PERIOD_MS % step_ms == 0,
        start_ms + count * step_ms <= u64::MAX,
    ensures
        ticks_on_the_period(start_ms, regular_readings(start_ms, step_ms, count)),
{
    let readings = regular_readings(start_ms, step_ms, count);
    let step = step_ms as int;
    let period = BROADCAST_PERIOD_MS as int;
    assert forall|i: int| 0 <= i < readings.len() implies start_ms < #[trigger] readings[i] by {
        lemma_within_the_steps(i, count as int, step);
    }
    assert forall|i: int, j: int| 0 <= i < j < readings.len() implies #[trigger] readings[i]
        < #[trigger] readings[j] by {
        lemma_within_the_steps(i, count as int, step);
        lemma_within_the_steps(j, count as int, step);
        assert((i + 1) * step < (j + 1) * step) by (nonlinear_arith)
            requires
                0 <= i < j,
                step > 0,
        ;
    }
    assert forall|k: int|
        1 <= k && readings.len() > 0 && start_ms + k * BROADCAST_PERIOD_MS
            <= readings.last() implies readings.contains(
        #[trigger] ((start_ms + k * BROADCAST_PERIOD_MS) as u64),
    ) by {
        let steps_per_period = period / step;
        vstd::arithmetic::div_mod::lemma_fundamental_div_mod(period, step);
        assert(period == step * steps_per_period);
        let i = k * steps_per_period - 1;
        lemma_within_the_steps(count - 1, count as int, step);
        assert(readings.last() == start_ms + count * step);
        assert((i + 1) * step == k * period && 0 <= i < count) by (nonlinear_arith)
            requires
                i == k * steps_per_period - 1,
                period == step * steps_per_period,
                period > 0,
                step > 0,
                k >= 1,
                k * period <= count * step,
        ;
        lemma_within_the_steps(i, count as int, step);
        assert(readings[i] == start_ms + k * BROADCAST_PERIOD_MS);
    }
}

} // verus!
