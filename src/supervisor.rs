use vstd::prelude::*;
use crate::report::{parse_battery, parse_report, BatteryState};

verus! {

/// Re-query interval while readings are missing or stale, in milliseconds.
pub const FAST_POLL_MS: u64 = 2000;

/// Re-query interval in steady state, in milliseconds.
pub const NORMAL_POLL_MS: u64 = 300_000;

/// Silence after the last reading past which the device counts as quiet.
pub const QUIET_AFTER_MS: u64 = 10_000;

/// How long one read waits for a report.
pub const READ_TIMEOUT_MS: u64 = 2000;

/// Pause before enumerating again after a failure.
pub const BACKOFF_MS: u64 = 2000;

/// Where the supervisor stands with the device.
#[derive(Clone, Copy, Debug, PartialEq, Eq, Structural)]
pub enum Phase {
    /// No session; waiting out the backoff before enumerating.
    Disconnected,
    /// Enumerating and probing candidates.
    Connecting,
    /// A validated session is open and polled.
    Connected,
    /// The receiver of notifications is gone; nothing more is done.
    Stopped,
}

/// What the driver of the loop reports back after carrying out an action.
#[derive(Debug)]
pub enum Event {
    /// The backoff is over (or the loop starts).
    Tick,
    /// The platform's HID subsystem could not be initialised.
    EnumerationFailed,
    /// No allowlisted candidate opened and accepted the trial query.
    NoDevice,
    /// A candidate opened and accepted the trial query: it is the session.
    DeviceReady,
    /// The status query was written.
    QuerySent,
    /// Writing the status query failed.
    QueryFailed,
    /// A read completed with these bytes; empty on timeout.
    ReportRead(Vec<u8>),
    /// A read failed at the transport level.
    ReadFailed,
    /// The change notification was delivered.
    Delivered,
    /// The change notification could not be delivered: the receiver is gone.
    DeliveryFailed,
}

/// What the driver of the loop is asked to do next.
#[derive(Clone, Copy, Debug, PartialEq, Eq, Structural)]
pub enum Action {
    /// Initialise enumeration and look for a working device.
    Locate,
    /// Drop any session and sleep this many milliseconds, then report `Tick`.
    Sleep(u64),
    /// Send the status query on the session.
    Query,
    /// Read one report, waiting at most this many milliseconds.
    Read(u64),
    /// Hand this new reading to the application.
    Notify(BatteryState),
    /// Leave the loop for good.
    Stop,
}

/// The polling supervisor's state. Times are milliseconds on a monotonic clock.
#[derive(Clone, Copy, Debug)]
pub struct Supervisor {
    pub phase: Phase,
    /// The last reading forwarded during this session.
    pub last: Option<BatteryState>,
    /// When the status query was last sent.
    pub last_query_ms: u64,
    /// When a report last yielded a reading.
    pub last_rx_ms: u64,
}

/// Milliseconds from `since` to `now`, zero if `now` is earlier.
pub open spec fn elapsed(since: u64, now: u64) -> u64 {
    if now >= since { (now - since) as u64 } else { 0 }
}

/// The re-query interval: fast while no reading has come yet or while the
/// last one is older than the quiet threshold, normal otherwise.
pub open spec fn poll_interval_spec(last: Option<BatteryState>, last_rx_ms: u64, now: u64) -> u64 {
    if last is None || elapsed(last_rx_ms, now) > QUIET_AFTER_MS {
        FAST_POLL_MS
    } else {
        NORMAL_POLL_MS
    }
}

/// What a connected supervisor does once a report has been dealt with:
/// query when the interval has run out since the last query, else read on.
pub open spec fn cadence_action(s: Supervisor, now: u64) -> Action {
    if elapsed(s.last_query_ms, now) >= poll_interval_spec(s.last, s.last_rx_ms, now) {
        Action::Query
    } else {
        Action::Read(READ_TIMEOUT_MS)
    }
}

/// What a phase waits on when an event comes that it has no use for.
pub open spec fn resume_action(p: Phase) -> Action {
    match p {
        Phase::Disconnected => Action::Sleep(BACKOFF_MS),
        Phase::Connecting => Action::Locate,
        Phase::Connected => Action::Read(READ_TIMEOUT_MS),
        Phase::Stopped => Action::Stop,
    }
}

/// The state after a transport failure, and the backoff it asks for.
pub open spec fn drop_session(s: Supervisor) -> (Supervisor, Action) {
    (Supervisor { phase: Phase::Disconnected, ..s }, Action::Sleep(BACKOFF_MS))
}

/// One transition of the supervisor: the next state and action after event
/// `e` at time `now`.
pub open spec fn next(s: Supervisor, e: Event, now: u64) -> (Supervisor, Action) {
    if s.phase == Phase::Stopped {
        (s, Action::Stop)
    } else if e is DeliveryFailed {
        (Supervisor { phase: Phase::Stopped, ..s }, Action::Stop)
    } else {
        match s.phase {
            Phase::Disconnected => match e {
                Event::Tick => (Supervisor { phase: Phase::Connecting, ..s }, Action::Locate),
                _ => (s, resume_action(s.phase)),
            },
            Phase::Connecting => match e {
                Event::EnumerationFailed | Event::NoDevice => drop_session(s),
                Event::DeviceReady => (
                    Supervisor {
                        phase: Phase::Connected,
                        last: None,
                        last_query_ms: now,
                        last_rx_ms: now,
                    },
                    Action::Query,
                ),
                _ => (s, resume_action(s.phase)),
            },
            _ => match e {
                Event::QuerySent => (Supervisor { last_query_ms: now, ..s }, Action::Read(READ_TIMEOUT_MS)),
                Event::QueryFailed | Event::ReadFailed => drop_session(s),
                Event::ReportRead(bytes) => match parse_report(bytes@) {
                    Some(b) => {
                        let s1 = Supervisor { last_rx_ms: now, ..s };
                        if s.last != Some(b) {
                            (Supervisor { last: Some(b), ..s1 }, Action::Notify(b))
                        } else {
                            (s1, cadence_action(s1, now))
                        }
                    },
                    None => (s, cadence_action(s, now)),
                },
                Event::Delivered => (s, cadence_action(s, now)),
                _ => (s, resume_action(s.phase)),
            },
        }
    }
}

/// The final state and the actions after feeding timed events one by one.
pub open spec fn run(s: Supervisor, evs: Seq<(Event, u64)>) -> (Supervisor, Seq<Action>)
    decreases evs.len(),
{
    if evs.len() == 0 {
        (s, seq![])
    } else {
        let (s1, a) = next(s, evs[0].0, evs[0].1);
        let (s2, rest) = run(s1, evs.drop_first());
        (s2, seq![a] + rest)
    }
}

/// Whether an event, on a connected session, leaves reading `b` as the
/// last one: a report that yields `b` or nothing, a sent query, a delivery.
pub open spec fn keeps_reading(e: Event, b: BatteryState) -> bool {
    match e {
        Event::ReportRead(v) => parse_report(v@) is None || parse_report(v@) == Some(b),
        Event::QuerySent | Event::Delivered => true,
        _ => false,
    }
}

/// Once reading `b` has been forwarded, further reports of the same reading
/// (mixed with queries, deliveries and unrelated traffic) announce nothing,
/// and the session stays connected with `b` as its last reading.
pub proof fn lemma_repeated_reading_silent(s: Supervisor, b: BatteryState, evs: Seq<(Event, u64)>)
    requires
        s.phase == Phase::Connected,
        s.last == Some(b),
        forall|i: int| 0 <= i < evs.len() ==> keeps_reading(#[trigger] evs[i].0, b),
    ensures
        run(s, evs).0.phase == Phase::Connected,
        run(s, evs).0.last == Some(b),
        run(s, evs).1.len() == evs.len(),
        forall|i: int| 0 <= i < run(s, evs).1.len() ==> !(#[trigger] run(s, evs).1[i] is Notify),
    decreases evs.len(),
{
    if evs.len() > 0 {
        assert(keeps_reading(evs[0].0, b));
        let (s1, a) = next(s, evs[0].0, evs[0].1);
        let tail = evs.drop_first();
        assert forall|i: int| 0 <= i < tail.len() implies keeps_reading(#[trigger] tail[i].0, b) by {
            assert(tail[i] == evs[i + 1]);
            assert(keeps_reading(evs[i + 1].0, b));
        }
        lemma_repeated_reading_silent(s1, b, tail);
        let acts = run(s, evs).1;
        assert forall|i: int| 0 <= i < acts.len() implies !(#[trigger] acts[i] is Notify) by {
            if i > 0 {
                assert(acts[i] == run(s1, tail).1[i - 1]);
            }
        }
    }
}

/// Identical consecutive readings are announced exactly once: a report of a
/// new reading `b` yields one notification, and no event after it that keeps
/// `b` as the last reading yields another.
pub proof fn lemma_notify_once(s: Supervisor, bytes: Vec<u8>, b: BatteryState, t: u64, evs: Seq<(Event, u64)>)
    requires
        s.phase == Phase::Connected,
        parse_report(bytes@) == Some(b),
        s.last != Some(b),
        forall|i: int| 0 <= i < evs.len() ==> keeps_reading(#[trigger] evs[i].0, b),
    ensures
        run(s, seq![(Event::ReportRead(bytes), t)] + evs).1[0] == Action::Notify(b),
        forall|i: int|
            1 <= i < run(s, seq![(Event::ReportRead(bytes), t)] + evs).1.len() ==> !(
            #[trigger] run(s, seq![(Event::ReportRead(bytes), t)] + evs).1[i] is Notify),
{
    let all = seq![(Event::ReportRead(bytes), t)] + evs;
    assert(all[0] == (Event::ReportRead(bytes), t));
    assert(all.drop_first() =~= evs);
    let (s1, a) = next(s, all[0].0, all[0].1);
    assert(a == Action::Notify(b));
    lemma_repeated_reading_silent(s1, b, evs);
    let acts = run(s, all).1;
    assert forall|i: int| 1 <= i < acts.len() implies !(#[trigger] acts[i] is Notify) by {
        assert(acts[i] == run(s1, evs).1[i - 1]);
    }
}

/// A transport error on a connected session drops it and backs off; when the
/// backoff is over the supervisor enumerates afresh.
pub proof fn lemma_transport_error_reconnects(s: Supervisor, failure: Event, t1: u64, t2: u64)
    requires
        s.phase == Phase::Connected,
        failure is ReadFailed || failure is QueryFailed,
    ensures
        next(s, failure, t1).0.phase == Phase::Disconnected,
        next(s, failure, t1).1 == Action::Sleep(BACKOFF_MS),
        next(next(s, failure, t1).0, Event::Tick, t2).0.phase == Phase::Connecting,
        next(next(s, failure, t1).0, Event::Tick, t2).1 == Action::Locate,
{
}

/// Whether events are whole failed enumeration rounds: each a failure to
/// enumerate or to find a device, then the tick that ends the backoff.
pub open spec fn failed_rounds(evs: Seq<(Event, u64)>) -> bool
    decreases evs.len(),
{
    evs.len() == 0 || (evs.len() >= 2 && (evs[0].0 is EnumerationFailed || evs[0].0 is NoDevice)
        && evs[1].0 is Tick && failed_rounds(evs.subrange(2, evs.len() as int)))
}

/// Failed enumeration rounds, however many, leave the supervisor enumerating
/// again, asking only for backoffs and new attempts; the first attempt that
/// finds a device connects it and sends the status query.
pub proof fn lemma_retries_until_connected(s: Supervisor, evs: Seq<(Event, u64)>, t: u64)
    requires
        s.phase == Phase::Connecting,
        failed_rounds(evs),
    ensures
        run(s, evs).0.phase == Phase::Connecting,
        forall|i: int|
            0 <= i < run(s, evs).1.len() ==> #[trigger] run(s, evs).1[i] == Action::Sleep(BACKOFF_MS)
                || run(s, evs).1[i] == Action::Locate,
        next(run(s, evs).0, Event::DeviceReady, t).0.phase == Phase::Connected,
        next(run(s, evs).0, Event::DeviceReady, t).1 == Action::Query,
    decreases evs.len(),
{
    if evs.len() > 0 {
        let tail = evs.drop_first();
        let rest = evs.subrange(2, evs.len() as int);
        assert(tail.drop_first() =~= rest);
        assert(tail[0] == evs[1]);
        let (s1, a1) = next(s, evs[0].0, evs[0].1);
        let (s2, a2) = next(s1, tail[0].0, tail[0].1);
        lemma_retries_until_connected(s2, rest, t);
        assert(run(s1, tail) == (run(s2, rest).0, seq![a2] + run(s2, rest).1));
        assert(run(s, evs) == (run(s1, tail).0, seq![a1] + run(s1, tail).1));
        let acts = run(s, evs).1;
        assert(acts =~= seq![a1] + (seq![a2] + run(s2, rest).1));
        assert forall|i: int| 0 <= i < acts.len() implies #[trigger] acts[i] == Action::Sleep(BACKOFF_MS)
            || acts[i] == Action::Locate by {
            if i >= 2 {
                assert(acts[i] == run(s2, rest).1[i - 2]);
            }
        }
    }
}

/// The re-query interval for the given history, in milliseconds.
pub fn poll_interval(last: Option<BatteryState>, last_rx_ms: u64, now: u64) -> (r: u64)
    ensures
        r == poll_interval_spec(last, last_rx_ms, now),
        last is None ==> r == FAST_POLL_MS,
        last is Some && now >= last_rx_ms && now - last_rx_ms > QUIET_AFTER_MS ==> r == FAST_POLL_MS,
        last is Some && now >= last_rx_ms && now - last_rx_ms <= QUIET_AFTER_MS ==> r == NORMAL_POLL_MS,
{
    if last.is_none() || now.saturating_sub(last_rx_ms) > QUIET_AFTER_MS {
        FAST_POLL_MS
    } else {
        NORMAL_POLL_MS
    }
}

/// Records reading `b` as the last one; true exactly when it differs from
/// the one recorded before, that is when it is news.
pub fn record_reading(last: &mut Option<BatteryState>, b: BatteryState) -> (changed: bool)
    ensures
        changed == (*old(last) != Some(b)),
        *final(last) == Some(b),
{
    let changed = match *last {
        Some(l) => !(l.percent == b.percent && l.charging == b.charging),
        None => true,
    };
    *last = Some(b);
    changed
}

impl Supervisor {
    /// A supervisor that has no session yet; its first event is `Tick`.
    pub fn new() -> (s: Supervisor)
        ensures
            s.phase == Phase::Disconnected,
            s.last is None,
    {
        Supervisor { phase: Phase::Disconnected, last: None, last_query_ms: 0, last_rx_ms: 0 }
    }

    fn cadence(&self, now: u64) -> (a: Action)
        ensures
            a == cadence_action(*self, now),
    {
        let every = poll_interval(self.last, self.last_rx_ms, now);
        if now.saturating_sub(self.last_query_ms) >= every {
            Action::Query
        } else {
            Action::Read(READ_TIMEOUT_MS)
        }
    }

    fn resume(&self) -> (a: Action)
        ensures
            a == resume_action(self.phase),
    {
        match self.phase {
            Phase::Disconnected => Action::Sleep(BACKOFF_MS),
            Phase::Connecting => Action::Locate,
            Phase::Connected => Action::Read(READ_TIMEOUT_MS),
            Phase::Stopped => Action::Stop,
        }
    }

    /// Takes the outcome of the last action at time `now` and returns the next
    /// action: enumerate, back off, query, read, notify or stop.
    pub fn step(&mut self, e: Event, now: u64) -> (a: Action)
        ensures
            (*final(self), a) == next(*old(self), e, now),
    {
        if self.phase == Phase::Stopped {
            return Action::Stop;
        }
        if let Event::DeliveryFailed = e {
            self.phase = Phase::Stopped;
            return Action::Stop;
        }
        match self.phase {
            Phase::Disconnected => match e {
                Event::Tick => {
                    self.phase = Phase::Connecting;
                    Action::Locate
                },
                _ => self.resume(),
            },
            Phase::Connecting => match e {
                Event::EnumerationFailed | Event::NoDevice => {
                    self.phase = Phase::Disconnected;
                    Action::Sleep(BACKOFF_MS)
                },
                Event::DeviceReady => {
                    self.phase = Phase::Connected;
                    self.last = None;
                    self.last_query_ms = now;
                    self.last_rx_ms = now;
                    Action::Query
                },
                _ => self.resume(),
            },
            _ => match e {
                Event::QuerySent => {
                    self.last_query_ms = now;
                    Action::Read(READ_TIMEOUT_MS)
                },
                Event::QueryFailed | Event::ReadFailed => {
                    self.phase = Phase::Disconnected;
                    Action::Sleep(BACKOFF_MS)
                },
                Event::ReportRead(bytes) => match parse_battery(bytes.as_slice()) {
                    Some(b) => {
                        self.last_rx_ms = now;
                        if record_reading(&mut self.last, b) {
                            Action::Notify(b)
                        } else {
                            self.cadence(now)
                        }
                    },
                    None => self.cadence(now),
                },
                Event::Delivered => self.cadence(now),
                _ => self.resume(),
            },
        }
    }
}

} // verus!
