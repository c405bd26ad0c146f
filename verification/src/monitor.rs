//! The staleness monitor: a two-state machine driven by successive readings
//! of the marker's modification time.
//!
//! The only signal is whether a reading equals the one before it. Wall-clock
//! time never enters, so the machine is indifferent to clock skew between the
//! host that writes the marker and the host that watches it.

use vstd::prelude::*;

verus! {

/// Whether the heartbeat is currently arriving.
#[derive(Clone, Copy, Debug, PartialEq, Eq, Structural)]
pub enum LivenessState {
    Up,
    Down,
}

/// What a poll cycle asks the notifier to announce.
#[derive(Clone, Copy, Debug, PartialEq, Eq, Structural)]
pub enum AlertKind {
    /// The marker stopped changing.
    Down,
    /// The marker changes again.
    Recovered,
}

/// The two polling cadences, in seconds: slow while healthy, fast while
/// degraded.
#[derive(Clone, Copy, Debug, PartialEq, Eq, Structural)]
pub struct Cadence {
    pub up: u64,
    pub down: u64,
}

/// Why the monitor cannot go on.
#[derive(Clone, Copy, Debug, PartialEq, Eq, Structural)]
pub enum MonitorFault {
    /// The marker could not be read when the monitor started.
    InitialUnreadable,
    /// The marker could not be read during a later cycle.
    MarkerUnreadable,
}

/// The monitor's whole state: the liveness verdict and the reading it was
/// last compared against.
#[derive(Clone, Copy, Debug, PartialEq, Eq, Structural)]
pub struct Monitor {
    pub state: LivenessState,
    pub observed: u64,
}

impl Monitor {
    /// The state a monitor starts in when the marker reads `initial`.
    pub open spec fn start(initial: u64) -> Monitor {
        Monitor { state: LivenessState::Up, observed: initial }
    }

    /// The state after one cycle that read `t_new`.
    pub open spec fn next(self, t_new: u64) -> Monitor {
        let stale = t_new == self.observed;
        let state = match self.state {
            LivenessState::Up => if stale {
                LivenessState::Down
            } else {
                LivenessState::Up
            },
            LivenessState::Down => if stale {
                LivenessState::Down
            } else {
                LivenessState::Up
            },
        };
        Monitor { state, observed: t_new }
    }

    /// The alert that the cycle reading `t_new` raises, if any.
    pub open spec fn alert(self, t_new: u64) -> Option<AlertKind> {
        let stale = t_new == self.observed;
        match self.state {
            LivenessState::Up => if stale {
                Some(AlertKind::Down)
            } else {
                None
            },
            LivenessState::Down => if stale {
                None
            } else {
                Some(AlertKind::Recovered)
            },
        }
    }

    /// The state after the cycles that read `readings`, in order.
    pub open spec fn run(self, readings: Seq<u64>) -> Monitor
        decreases readings.len(),
    {
        if readings.len() == 0 {
            self
        } else {
            self.run(readings.drop_last()).next(readings.last())
        }
    }

    /// The alert of each of the cycles that read `readings`: entry `i` is what
    /// cycle `i` raised.
    pub open spec fn alerts(self, readings: Seq<u64>) -> Seq<Option<AlertKind>> {
        Seq::new(readings.len(), |i: int| self.run(readings.take(i)).alert(readings[i]))
    }

    /// How long to sleep before the next reading.
    pub open spec fn pause(self, cadence: Cadence) -> u64 {
        match self.state {
            LivenessState::Up => cadence.up,
            LivenessState::Down => cadence.down,
        }
    }

    /// A monitor that has just read `initial` for the first time.
    pub fn new(initial: u64) -> (m: Monitor)
        ensures
            m == Monitor::start(initial),
    {
        Monitor { state: LivenessState::Up, observed: initial }
    }

    /// Starts from the first attempt to read the marker; a marker that cannot
    /// be read at startup is fatal.
    pub fn begin(reading: Option<u64>) -> (r: Result<Monitor, MonitorFault>)
        ensures
            r == match reading {
                Some(t) => Ok::<Monitor, MonitorFault>(Monitor::start(t)),
                None => Err::<Monitor, MonitorFault>(MonitorFault::InitialUnreadable),
            },
    {
        match reading {
            Some(t) => Ok(Monitor::new(t)),
            None => Err(MonitorFault::InitialUnreadable),
        }
    }

    /// The current verdict.
    pub fn state(&self) -> (s: LivenessState)
        ensures
            s == self.state,
    {
        self.state
    }

    /// The reading that the next one will be compared against.
    pub fn observed(&self) -> (t: u64)
        ensures
            t == self.observed,
    {
        self.observed
    }

    /// Whether the heartbeat is missing.
    pub fn is_down(&self) -> (b: bool)
        ensures
            b == (self.state == LivenessState::Down),
    {
        match self.state {
            LivenessState::Down => true,
            LivenessState::Up => false,
        }
    }

    /// Seconds to sleep before the next reading: the long interval while up,
    /// the short one while down.
    pub fn interval(&self, cadence: &Cadence) -> (secs: u64)
        ensures
            secs == self.pause(*cadence),
    {
        match self.state {
            LivenessState::Up => cadence.up,
            LivenessState::Down => cadence.down,
        }
    }

    /// One poll cycle: compares the fresh reading with the previous one,
    /// moves between `Up` and `Down`, and says which alert to send.
    pub fn observe(&mut self, t_new: u64) -> (alert: Option<AlertKind>)
        ensures
            *final(self) == old(self).next(t_new),
            alert == old(self).alert(t_new),
    {
        let stale = t_new == self.observed;
        let alert = match self.state {
            LivenessState::Up => if stale {
                self.state = LivenessState::Down;
                Some(AlertKind::Down)
            } else {
                None
            },
            LivenessState::Down => if stale {
                None
            } else {
                self.state = LivenessState::Up;
                Some(AlertKind::Recovered)
            },
        };
        self.observed = t_new;
        alert
    }

    /// One poll cycle from the attempt to read the marker. A failed read ends
    /// the monitor and leaves its state as it was.
    pub fn poll(&mut self, reading: Option<u64>) -> (r: Result<Option<AlertKind>, MonitorFault>)
        ensures
            match reading {
                Some(t) => *final(self) == old(self).next(t) && r == Ok::<
                    Option<AlertKind>,
                    MonitorFault,
                >(old(self).alert(t)),
                None => *final(self) == *old(self) && r == Err::<Option<AlertKind>, MonitorFault>(
                    MonitorFault::MarkerUnreadable,
                ),
            },
    {
        match reading {
            Some(t) => Ok(self.observe(t)),
            None => Err(MonitorFault::MarkerUnreadable),
        }
    }
}

/// The readings a monitor has compared so far: the one it started from,
/// then one per cycle.
pub open spec fn history(initial: u64, readings: Seq<u64>) -> Seq<u64> {
    seq![initial] + readings
}

/// Running one more cycle is running the earlier ones and then stepping once.
pub proof fn lemma_run_push(m: Monitor, readings: Seq<u64>, t: u64)
    ensures
        m.run(readings.push(t)) == m.run(readings).next(t),
{
    assert(readings.push(t).drop_last() =~= readings);
    assert(readings.push(t).last() == t);
}

/// After any cycle the monitor remembers the reading of that cycle; when the
/// cycle began it remembered the entry before it in the history; and it is
/// down exactly if the two are equal.
pub proof fn lemma_run_last(m: Monitor, readings: Seq<u64>)
    requires
        readings.len() > 0,
    ensures
        m.run(readings).observed == readings.last(),
        m.run(readings.drop_last()).observed == history(m.observed, readings)[readings.len() - 1],
        m.run(readings).state == LivenessState::Down <==> readings.last() == history(
            m.observed,
            readings,
        )[readings.len() - 1],
    decreases readings.len(),
{
    let earlier = readings.drop_last();
    if earlier.len() > 0 {
        lemma_run_last(m, earlier);
        assert(earlier.last() == readings[readings.len() - 2]);
    }
}

/// The state is a function of the last two readings alone: a monitor that
/// started from `initial` and has since read `readings` is down if and only
/// if the two most recent entries of its history are equal. Before the first
/// cycle it is up.
pub proof fn lemma_down_iff_last_two_equal(initial: u64, readings: Seq<u64>)
    ensures
        readings.len() == 0 ==> Monitor::start(initial).run(readings).state == LivenessState::Up,
        readings.len() > 0 ==> (Monitor::start(initial).run(readings).state == LivenessState::Down
            <==> history(initial, readings)[readings.len() as int] == history(
            initial,
            readings,
        )[readings.len() - 1]),
{
    if readings.len() > 0 {
        lemma_run_last(Monitor::start(initial), readings);
    }
}

/// Whether two histories agree, position by position, on which consecutive
/// readings are equal.
pub open spec fn same_equality_pattern(a: Seq<u64>, b: Seq<u64>) -> bool {
    &&& a.len() == b.len()
    &&& forall|i: int|
        #![trigger a[i]]
        0 <= i < a.len() - 1 ==> ((a[i] == a[i + 1]) <==> (b[i] == b[i + 1]))
}

/// The actual time values do not matter: two monitors whose histories have
/// the same pattern of equal neighbours end in the same state and raise the
/// same alerts, cycle by cycle.
pub proof fn lemma_pattern_decides(a0: u64, a: Seq<u64>, b0: u64, b: Seq<u64>)
    requires
        same_equality_pattern(history(a0, a), history(b0, b)),
    ensures
        Monitor::start(a0).run(a).state == Monitor::start(b0).run(b).state,
        Monitor::start(a0).alerts(a) == Monitor::start(b0).alerts(b),
{
    let ha = history(a0, a);
    let hb = history(b0, b);
    let ma = Monitor::start(a0);
    let mb = Monitor::start(b0);
    assert(a.len() == b.len());
    assert forall|n: int| 0 <= n <= a.len() implies (#[trigger] ma.run(a.take(n))).state == mb.run(
        b.take(n),
    ).state by {
        if n > 0 {
            lemma_run_last(ma, a.take(n));
            lemma_run_last(mb, b.take(n));
            assert(ha[n] == a.take(n).last());
            assert(hb[n] == b.take(n).last());
            assert(history(a0, a.take(n))[n - 1] == ha[n - 1]);
            assert(history(b0, b.take(n))[n - 1] == hb[n - 1]);
            assert((ha[n - 1] == ha[n - 1 + 1]) <==> (hb[n - 1] == hb[n - 1 + 1]));
        }
    }
    assert(a.take(a.len() as int) =~= a);
    assert(b.take(b.len() as int) =~= b);
    assert forall|i: int| 0 <= i < a.len() implies ma.alerts(a)[i] == mb.alerts(b)[i] by {
        let pa = ma.run(a.take(i));
        let pb = mb.run(b.take(i));
        assert(pa.state == pb.state);
        if i > 0 {
            lemma_run_last(ma, a.take(i));
            lemma_run_last(mb, b.take(i));
            assert(a.take(i).last() == ha[i]);
            assert(b.take(i).last() == hb[i]);
        }
        assert(pa.observed == ha[i]);
        assert(pb.observed == hb[i]);
        assert(a[i] == ha[i + 1]);
        assert(b[i] == hb[i + 1]);
        assert((ha[i] == ha[i + 1]) <==> (hb[i] == hb[i + 1]));
    }
    assert(ma.alerts(a) =~= mb.alerts(b));
}

/// An alert marks a change of state and nothing else: "down" is raised
/// exactly on a step from up to down, "recovered" exactly on a step from
/// down to up, and a step that leaves the state as it was raises nothing.
pub proof fn lemma_alert_iff_transition(m: Monitor, t_new: u64)
    ensures
        m.alert(t_new) == Some(AlertKind::Down) <==> (m.state == LivenessState::Up && m.next(
            t_new,
        ).state == LivenessState::Down),
        m.alert(t_new) == Some(AlertKind::Recovered) <==> (m.state == LivenessState::Down
            && m.next(t_new).state == LivenessState::Up),
        m.alert(t_new) is None <==> m.next(t_new).state == m.state,
{
}

/// The same, for cycle `i` of a whole run: the alert of that cycle tells the
/// state before it from the state after it.
pub proof fn lemma_alert_per_cycle(m: Monitor, readings: Seq<u64>, i: int)
    requires
        0 <= i < readings.len(),
    ensures
        m.alerts(readings)[i] == Some(AlertKind::Down) <==> (m.run(readings.take(i)).state
            == LivenessState::Up && m.run(readings.take(i + 1)).state == LivenessState::Down),
        m.alerts(readings)[i] == Some(AlertKind::Recovered) <==> (m.run(readings.take(i)).state
            == LivenessState::Down && m.run(readings.take(i + 1)).state == LivenessState::Up),
        m.alerts(readings)[i] is None <==> m.run(readings.take(i + 1)).state == m.run(
            readings.take(i),
        ).state,
{
    assert(readings.take(i + 1) =~= readings.take(i).push(readings[i]));
    lemma_run_push(m, readings.take(i), readings[i]);
}

/// While no alert is raised the state does not move.
proof fn lemma_quiet_stretch(m: Monitor, readings: Seq<u64>, i: int, j: int)
    requires
        0 <= i <= j <= readings.len(),
        forall|k: int| i <= k < j ==> m.alerts(readings)[k] is None,
    ensures
        m.run(readings.take(j)).state == m.run(readings.take(i)).state,
    decreases j - i,
{
    if i < j {
        lemma_quiet_stretch(m, readings, i, j - 1);
        lemma_alert_per_cycle(m, readings, j - 1);
    }
}

/// No alert is sent twice in a row: of two alerts with only quiet cycles
/// between them, one is "down" and the other "recovered".
pub proof fn lemma_alerts_alternate(m: Monitor, readings: Seq<u64>, i: int, j: int)
    requires
        0 <= i < j < readings.len(),
        m.alerts(readings)[i] is Some,
        m.alerts(readings)[j] is Some,
        forall|k: int| i < k < j ==> m.alerts(readings)[k] is None,
    ensures
        m.alerts(readings)[i] != m.alerts(readings)[j],
{
    lemma_alert_per_cycle(m, readings, i);
    lemma_alert_per_cycle(m, readings, j);
    lemma_quiet_stretch(m, readings, i + 1, j);
}

/// The first alert of a monitor that starts up is "down".
pub proof fn lemma_first_alert_is_down(initial: u64, readings: Seq<u64>, j: int)
    requires
        0 <= j < readings.len(),
        Monitor::start(initial).alerts(readings)[j] is Some,
        forall|k: int| 0 <= k < j ==> Monitor::start(initial).alerts(readings)[k] is None,
    ensures
        Monitor::start(initial).alerts(readings)[j] == Some(AlertKind::Down),
{
    let m = Monitor::start(initial);
    lemma_quiet_stretch(m, readings, 0, j);
    assert(readings.take(0) =~= Seq::<u64>::empty());
    lemma_alert_per_cycle(m, readings, j);
}

} // verus!
