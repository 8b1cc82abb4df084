//! Keys, events, and the clock that paces the ticks.

use vstd::prelude::*;

verus! {

/// A key press, as far as the interface tells keys apart.
#[derive(Debug, Clone, Copy, PartialEq, Eq, Structural)]
pub enum Key {
    /// A character key, case preserved.
    Char(char),
    /// Any other key.
    Other,
}

/// What the event source delivers, in the order generated.
#[derive(Debug, Clone, Copy, PartialEq, Eq)]
pub enum Event<I> {
    /// A key arrived.
    Input(I),
    /// The tick interval elapsed without one.
    Tick,
}

/// The default tick interval, in milliseconds.
pub const TICK_RATE_MS: u64 = 200;

/// The time since the last tick, when the clock reads `now`.
///
/// A clock that reads earlier than the last tick counts as no time passed.
pub open spec fn elapsed(last_tick: u64, now: u64) -> int {
    if now >= last_tick {
        now - last_tick
    } else {
        0
    }
}

/// The decisions of the event source: how long to wait for a key, and
/// whether a round ends with a tick.
///
/// All times are milliseconds on one monotonic clock of the caller's choice.
#[derive(Debug, Clone, Copy, PartialEq, Eq, Structural)]
pub struct EventSource {
    /// The interval between two ticks.
    pub tick_rate: u64,
    /// When the interval clock was last reset.
    pub last_tick: u64,
}

impl EventSource {
    /// Whether the interval has run out when the clock reads `now`.
    pub open spec fn tick_due(self, now: u64) -> bool {
        elapsed(self.last_tick, now) >= self.tick_rate
    }

    /// What is left of the interval when the clock reads `now`.
    pub open spec fn window(self, now: u64) -> int {
        if self.tick_due(now) {
            0
        } else {
            self.tick_rate - elapsed(self.last_tick, now)
        }
    }

    /// The events of one round, in the order generated: the key that
    /// arrived, if one did, and then a tick if the interval has run out and
    /// the previous tick has been consumed.
    pub open spec fn round<I>(self, key: Option<I>, now: u64, tick_pending: bool) -> Seq<
        Event<I>,
    > {
        let input = match key {
            Some(k) => seq![Event::Input(k)],
            None => Seq::empty(),
        };
        if self.tick_due(now) && !tick_pending {
            input.push(Event::Tick)
        } else {
            input
        }
    }

    /// The source after a round that ended at `now`: once the interval has
    /// run out the clock restarts at `now`, whether the tick was delivered
    /// or, the previous one still pending, left out.
    pub open spec fn after_round(self, now: u64) -> EventSource {
        if self.tick_due(now) {
            EventSource { tick_rate: self.tick_rate, last_tick: now }
        } else {
            self
        }
    }

    /// A source whose interval clock starts at `now`.
    pub fn new(tick_rate: u64, now: u64) -> (source: EventSource)
        ensures
            source == (EventSource { tick_rate, last_tick: now }),
    {
        EventSource { tick_rate, last_tick: now }
    }

    /// How long to wait for a key: the tick interval minus the time since
    /// the last tick, and nothing once the interval has run out.
    pub fn timeout(&self, now: u64) -> (wait: u64)
        ensures
            wait == self.window(now),
    {
        let passed = if now >= self.last_tick {
            now - self.last_tick
        } else {
            0
        };
        if passed >= self.tick_rate {
            0
        } else {
            self.tick_rate - passed
        }
    }

    /// Ends one round: `key` is what arrived within the window, `now` what
    /// the clock reads afterwards, and `tick_pending` whether the consumer
    /// still holds a tick that it has not taken.
    ///
    /// Returns the events to deliver, in order, and restarts the interval
    /// clock if the interval has run out.
    pub fn emit<I>(&mut self, key: Option<I>, now: u64, tick_pending: bool) -> (events: Vec<
        Event<I>,
    >)
        ensures
            events@ == old(self).round(key, now, tick_pending),
            *final(self) == old(self).after_round(now),
    {
        let mut events: Vec<Event<I>> = Vec::new();
        match key {
            Some(k) => {
                events.push(Event::Input(k));
            },
            None => {},
        }
        let passed = if now >= self.last_tick {
            now - self.last_tick
        } else {
            0
        };
        if passed >= self.tick_rate {
            if !tick_pending {
                events.push(Event::Tick);
            }
            self.last_tick = now;
        }
        events
    }
}

/// Waiting out the window makes the tick due: a round that ends when the
/// timeout has run out, or later, finds the interval elapsed.
pub proof fn lemma_window_reaches_tick(source: EventSource, now: u64, later: u64)
    requires
        source.last_tick <= now,
        now + source.window(now) <= later,
    ensures
        source.tick_due(later),
{
}

/// One round of the event source: the key that arrived within the window,
/// if one did, and what the clock read when the round ended.
#[derive(Debug, Clone, Copy, PartialEq, Eq, Structural)]
pub struct Round {
    pub key: Option<Key>,
    pub now: u64,
}

/// The events that a source delivers over `rounds`, in order, to a consumer
/// that takes every event as soon as it is emitted.
pub open spec fn delivered(source: EventSource, rounds: Seq<Round>) -> Seq<Event<Key>>
    decreases rounds.len(),
{
    if rounds.len() == 0 {
        Seq::empty()
    } else {
        source.round(rounds[0].key, rounds[0].now, false) + delivered(
            source.after_round(rounds[0].now),
            rounds.skip(1),
        )
    }
}

/// The source after `rounds`.
pub open spec fn after_rounds(source: EventSource, rounds: Seq<Round>) -> EventSource
    decreases rounds.len(),
{
    if rounds.len() == 0 {
        source
    } else {
        after_rounds(source.after_round(rounds[0].now), rounds.skip(1))
    }
}

/// When each of `rounds` ended.
pub open spec fn times_of(rounds: Seq<Round>) -> Seq<u64> {
    Seq::new(rounds.len(), |i: int| rounds[i].now)
}

impl EventSource {
    /// Runs the source over `rounds`, for a consumer that takes every event
    /// as soon as it is emitted, and returns the events in the order
    /// generated.
    pub fn pump(&mut self, rounds: &Vec<Round>) -> (events: Vec<Event<Key>>)
        ensures
            events@ == delivered(*old(self), rounds@),
            *final(self) == after_rounds(*old(self), rounds@),
    {
        let mut events: Vec<Event<Key>> = Vec::new();
        let mut i: usize = 0;
        assert(rounds@.skip(0) =~= rounds@);
        while i < rounds.len()
            invariant
                i <= rounds@.len(),
                events@ + delivered(*self, rounds@.skip(i as int)) == delivered(
                    *old(self),
                    rounds@,
                ),
                after_rounds(*self, rounds@.skip(i as int)) == after_rounds(*old(self), rounds@),
            decreases rounds@.len() - i,
        {
            let round = rounds[i];
            let ghost before = *self;
            let ghost rest = rounds@.skip(i as int);
            let ghost so_far = events@;
            let mut emitted = self.emit(round.key, round.now, false);
            proof {
                assert(rest[0] == round);
                assert(rest.skip(1) =~= rounds@.skip(i + 1));
                assert(delivered(before, rest) == emitted@ + delivered(*self, rest.skip(1)));
                assert(so_far + (emitted@ + delivered(*self, rest.skip(1))) =~= (so_far
                    + emitted@) + delivered(*self, rest.skip(1)));
            }
            events.append(&mut emitted);
            i += 1;
        }
        assert(events@ + Seq::<Event<Key>>::empty() =~= events@);
        events
    }
}

/// Whether `events` holds a tick.
pub open spec fn has_tick<I>(events: Seq<Event<I>>) -> bool {
    exists|i: int| 0 <= i < events.len() && events[i] is Tick
}

/// Two ticks are never closer than the tick interval: a round that delivers
/// a tick ends at least one interval after the clock was last reset, and no
/// round that ends less than one interval later delivers another.
pub proof fn lemma_ticks_are_spaced<I>(
    source: EventSource,
    key: Option<I>,
    now: u64,
    tick_pending: bool,
    later_key: Option<I>,
    later: u64,
    later_pending: bool,
)
    requires
        has_tick(source.round(key, now, tick_pending)),
        now <= later < now + source.tick_rate,
    ensures
        now - source.last_tick >= source.tick_rate,
        !has_tick(source.after_round(now).round(later_key, later, later_pending)),
{
}

/// The ticks that a source delivers over rounds that end at `times`, when no
/// key arrives and the consumer takes each tick before the next round ends.
pub open spec fn idle_ticks(source: EventSource, times: Seq<u64>) -> nat
    decreases times.len(),
{
    if times.len() == 0 {
        0
    } else {
        let first: nat = if has_tick(source.round::<Key>(None, times[0], false)) {
            1
        } else {
            0
        };
        first + idle_ticks(source.after_round(times[0]), times.skip(1))
    }
}

/// Whether `times` are the ends of successive rounds in which no key
/// arrives: each round begins where the one before ended, the first at
/// `start`, and ends when its window has run out, or up to `jitter` later.
pub open spec fn idle_rounds(source: EventSource, start: u64, times: Seq<u64>, jitter: u64) -> bool
    decreases times.len(),
{
    times.len() > 0 ==> {
        &&& start + source.window(start) <= times[0] <= start + source.window(start) + jitter
        &&& idle_rounds(source.after_round(times[0]), times[0], times.skip(1), jitter)
    }
}

/// The first rounds of idle rounds are idle rounds.
proof fn lemma_idle_rounds_prefix(
    source: EventSource,
    start: u64,
    times: Seq<u64>,
    jitter: u64,
    count: int,
)
    requires
        idle_rounds(source, start, times, jitter),
        0 <= count <= times.len(),
    ensures
        idle_rounds(source, start, times.take(count), jitter),
    decreases times.len(),
{
    if count > 0 {
        lemma_idle_rounds_prefix(
            source.after_round(times[0]),
            times[0],
            times.skip(1),
            jitter,
            count - 1,
        );
        assert(times.take(count).skip(1) =~= times.skip(1).take(count - 1));
    }
}

/// Every idle round of a fresh source delivers one tick, and the rounds
/// end one interval apart, give or take the jitter.
proof fn lemma_idle_rounds_tick(source: EventSource, times: Seq<u64>, jitter: u64)
    requires
        source.tick_rate > 0,
        idle_rounds(source, source.last_tick, times, jitter),
        times.len() > 0,
    ensures
        idle_ticks(source, times) == times.len(),
        source.last_tick + times.len() * source.tick_rate <= times.last(),
        times.last() <= source.last_tick + times.len() * (source.tick_rate + jitter),
    decreases times.len(),
{
    let rate = source.tick_rate as int;
    let n = times.len() as int;
    let next = source.after_round(times[0]);
    let tick: Seq<Event<Key>> = source.round::<Key>(None, times[0], false);
    assert(tick[0] is Tick);
    assert(n * rate == (n - 1) * rate + rate) by (nonlinear_arith);
    assert(n * (rate + jitter) == (n - 1) * (rate + jitter) + (rate + jitter)) by (nonlinear_arith);
    assert(next.last_tick == times[0] && next.tick_rate == rate);
    assert(source.last_tick + rate <= times[0] <= source.last_tick + rate + jitter);
    if n > 1 {
        lemma_idle_rounds_tick(next, times.skip(1), jitter);
        assert(times.skip(1).last() == times.last());
        assert(times.skip(1).len() == n - 1);
        assert(times[0] + (n - 1) * rate <= times.last());
        assert(times.last() <= times[0] + (n - 1) * (rate + jitter));
    } else {
        assert(idle_ticks(next, times.skip(1)) == 0);
        assert(times.last() == times[0]);
        assert((n - 1) * rate == 0) by (nonlinear_arith)
            requires
                n == 1,
        ;
        assert((n - 1) * (rate + jitter) == 0) by (nonlinear_arith)
            requires
                n == 1,
        ;
    }
    assert(source.last_tick + n * rate <= times.last());
}

/// How many ticks an idle stretch holds.
///
/// Take a fresh source and let no key arrive. Of its rounds, let `times`
/// be the ends of those that end within `horizon` of the start, and `next`
/// the end of the first that does not, each round ending at most `jitter`
/// after its window has run out. Then the ticks delivered within the
/// horizon are at most `horizon / tick_rate` and at least
/// `horizon / (tick_rate + jitter)`, both rounded down: five at most and
/// four at least in one second at an interval of 200 ms, if no round is
/// more than 50 ms late.
pub proof fn lemma_idle_tick_count(
    source: EventSource,
    times: Seq<u64>,
    next: u64,
    jitter: u64,
    horizon: u64,
)
    requires
        source.tick_rate > 0,
        idle_rounds(source, source.last_tick, times.push(next), jitter),
        forall|i: int| 0 <= i < times.len() ==> times[i] <= source.last_tick + horizon,
        next > source.last_tick + horizon,
    ensures
        idle_ticks(source, times) * source.tick_rate <= horizon,
        (idle_ticks(source, times) + 1) * (source.tick_rate + jitter) > horizon,
{
    let all = times.push(next);
    lemma_idle_rounds_prefix(source, source.last_tick, all, jitter, times.len() as int);
    assert(all.take(times.len() as int) =~= times);
    lemma_idle_rounds_tick(source, all, jitter);
    assert(all.last() == next && all.len() == times.len() + 1);
    if times.len() > 0 {
        lemma_idle_rounds_tick(source, times, jitter);
        assert(times[times.len() - 1] <= source.last_tick + horizon);
    } else {
        assert(idle_ticks(source, times) * source.tick_rate == 0) by (nonlinear_arith)
            requires
                idle_ticks(source, times) == 0,
        ;
    }
}

/// Rounds in which no key arrives deliver ticks and nothing else, as many
/// as [`idle_ticks`] counts.
proof fn lemma_delivered_idle(source: EventSource, rounds: Seq<Round>)
    requires
        forall|i: int| 0 <= i < rounds.len() ==> (#[trigger] rounds[i]).key is None,
    ensures
        delivered(source, rounds).len() == idle_ticks(source, times_of(rounds)),
        forall|k: int|
            0 <= k < delivered(source, rounds).len() ==> #[trigger] delivered(
                source,
                rounds,
            )[k] is Tick,
    decreases rounds.len(),
{
    if rounds.len() > 0 {
        let first = source.round(rounds[0].key, rounds[0].now, false);
        let rest = rounds.skip(1);
        assert(rounds[0].key is None);
        assert forall|i: int| 0 <= i < rest.len() implies (#[trigger] rest[i]).key is None by {
            assert(rest[i] == rounds[i + 1]);
        }
        lemma_delivered_idle(source.after_round(rounds[0].now), rest);
        assert(times_of(rounds).skip(1) =~= times_of(rest));
        assert(times_of(rounds)[0] == rounds[0].now);
        assert(first == source.round::<Key>(None, rounds[0].now, false));
        if source.tick_due(rounds[0].now) {
            assert(first.len() == 1 && first[0] is Tick);
        } else {
            assert(first.len() == 0);
        }
    }
}

/// What an idle stretch delivers.
///
/// Take a fresh source, a consumer that takes every event as soon as it is
/// emitted, and let no key arrive. Of the source's rounds, let `rounds` be
/// those that end within `horizon` of the start, and `next` the end of the
/// first that does not, each round ending at most `jitter` after its window
/// has run out. Then what is delivered within the horizon is ticks and
/// nothing else, at most `horizon / tick_rate` and at least
/// `horizon / (tick_rate + jitter)` of them, both rounded down. In one
/// second at an interval of 200 ms that is at least four ticks and at most
/// six, if no round is more than 50 ms late.
pub proof fn lemma_idle_stretch(
    source: EventSource,
    rounds: Seq<Round>,
    next: u64,
    jitter: u64,
    horizon: u64,
)
    requires
        source.tick_rate > 0,
        forall|i: int| 0 <= i < rounds.len() ==> (#[trigger] rounds[i]).key is None,
        idle_rounds(source, source.last_tick, times_of(rounds).push(next), jitter),
        forall|i: int|
            0 <= i < rounds.len() ==> (#[trigger] rounds[i]).now <= source.last_tick + horizon,
        next > source.last_tick + horizon,
    ensures
        forall|k: int|
            0 <= k < delivered(source, rounds).len() ==> #[trigger] delivered(
                source,
                rounds,
            )[k] is Tick,
        delivered(source, rounds).len() * source.tick_rate <= horizon,
        (delivered(source, rounds).len() + 1) * (source.tick_rate + jitter) > horizon,
        source.tick_rate == 200 && horizon == 1000 && jitter <= 50 ==> 4 <= delivered(
            source,
            rounds,
        ).len() <= 6,
{
    let times = times_of(rounds);
    lemma_delivered_idle(source, rounds);
    assert forall|i: int| 0 <= i < times.len() implies times[i] <= source.last_tick + horizon by {
        assert(times[i] == rounds[i].now);
    }
    lemma_idle_tick_count(source, times, next, jitter, horizon);
    let n = delivered(source, rounds).len() as int;
    if source.tick_rate == 200 && horizon == 1000 && jitter <= 50 {
        assert(n * 200 <= 1000);
        assert((n + 1) * (200 + jitter) > 1000);
        assert((n + 1) * (200 + jitter) <= (n + 1) * 250) by (nonlinear_arith)
            requires
                n >= 0,
                jitter <= 50,
        ;
        assert((n + 1) * 250 > 1000);
    }
}

} // verus!
