//! A timeout that can be armed again, disarmed, and that fires once.
//!
//! The watchdog keeps no clock. Whoever owns it tells it the time, in
//! milliseconds on a clock that never runs backwards, with each signal and
//! each poll. It starts stopped, `Reset` arms it for the time of the signal
//! plus its timeout, `Stop` disarms it, and the first poll at or after the
//! deadline of an armed watchdog fires. After that nothing moves it.

use vstd::prelude::*;

verus! {

/// What the owner tells a watchdog.
#[derive(Clone, Copy, Debug, PartialEq, Eq, Structural)]
pub enum Signal {
    /// Arm the timer anew, whatever deadline it had.
    Reset,
    /// Disarm the timer until the next `Reset`.
    Stop,
}

/// What a watchdog hands out when it fires.
#[derive(Clone, Copy, Debug, PartialEq, Eq, Structural)]
pub struct Expired;

/// The timer of a watchdog, as a value.
pub enum Timer {
    Stopped,
    Armed { deadline: nat },
    Fired,
}

/// One thing that happens to a watchdog.
pub enum Input {
    Signal(Signal, nat),
    Poll(nat),
}

/// A watchdog, as a value: its timeout and its timer.
pub struct WatchdogModel {
    pub timeout: nat,
    pub timer: Timer,
}

impl WatchdogModel {
    /// A watchdog that nothing has touched yet.
    pub open spec fn fresh(timeout: nat) -> WatchdogModel {
        WatchdogModel { timeout, timer: Timer::Stopped }
    }

    /// The watchdog after `signal` at time `now`.
    pub open spec fn signal(self, signal: Signal, now: nat) -> WatchdogModel {
        match (self.timer, signal) {
            (Timer::Fired, _) => self,
            (_, Signal::Reset) => WatchdogModel {
                timer: Timer::Armed { deadline: now + self.timeout },
                ..self
            },
            (_, Signal::Stop) => WatchdogModel { timer: Timer::Stopped, ..self },
        }
    }

    /// Whether a poll at time `now` fires.
    pub open spec fn due(self, now: nat) -> bool {
        self.timer matches Timer::Armed { deadline } && now >= deadline
    }

    /// The watchdog after a poll at time `now`.
    pub open spec fn poll(self, now: nat) -> WatchdogModel {
        if self.due(now) {
            WatchdogModel { timer: Timer::Fired, ..self }
        } else {
            self
        }
    }

    /// The time at which an armed watchdog is due.
    pub open spec fn deadline(self) -> Option<nat> {
        match self.timer {
            Timer::Armed { deadline } => Some(deadline),
            _ => None,
        }
    }

    /// The watchdog after `input`.
    pub open spec fn step(self, input: Input) -> WatchdogModel {
        match input {
            Input::Signal(signal, now) => self.signal(signal, now),
            Input::Poll(now) => self.poll(now),
        }
    }

    /// Whether `input` makes the watchdog fire.
    pub open spec fn fires_on(self, input: Input) -> bool {
        input matches Input::Poll(now) && self.due(now)
    }

    /// The watchdog after all of `inputs`, in order.
    pub open spec fn run(self, inputs: Seq<Input>) -> WatchdogModel
        decreases inputs.len(),
    {
        if inputs.len() == 0 {
            self
        } else {
            self.step(inputs[0]).run(inputs.drop_first())
        }
    }

    /// How often the watchdog fires over `inputs`.
    pub open spec fn fire_count(self, inputs: Seq<Input>) -> nat
        decreases inputs.len(),
    {
        if inputs.len() == 0 {
            0
        } else {
            let now: nat = if self.fires_on(inputs[0]) {
                1
            } else {
                0
            };
            now + self.step(inputs[0]).fire_count(inputs.drop_first())
        }
    }
}

/// The polls at `times`, one after the other, with no signal between them.
pub open spec fn polls(times: Seq<nat>) -> Seq<Input> {
    Seq::new(times.len(), |i: int| Input::Poll(times[i]))
}

/// A watchdog. It starts stopped and fires at most once.
#[derive(Debug)]
pub struct Watchdog {
    timeout: u64,
    armed_at: Option<u64>,
    fired: bool,
}

impl View for Watchdog {
    type V = WatchdogModel;

    closed spec fn view(&self) -> WatchdogModel {
        WatchdogModel {
            timeout: self.timeout as nat,
            timer: if self.fired {
                Timer::Fired
            } else {
                match self.armed_at {
                    Some(at) => Timer::Armed { deadline: (at + self.timeout) as nat },
                    None => Timer::Stopped,
                }
            },
        }
    }
}

impl Watchdog {
    /// A stopped watchdog with the given timeout in milliseconds.
    pub fn with_timeout(timeout: u64) -> (watchdog: Watchdog)
        ensures
            watchdog@ == WatchdogModel::fresh(timeout as nat),
    {
        Watchdog { timeout, armed_at: None, fired: false }
    }

    /// The timeout in milliseconds.
    pub fn timeout(&self) -> (timeout: u64)
        ensures
            timeout == self@.timeout,
    {
        self.timeout
    }

    /// Takes a signal at time `now`. A watchdog that has fired ignores it.
    pub fn signal(&mut self, signal: Signal, now: u64)
        ensures
            final(self)@ == old(self)@.signal(signal, now as nat),
    {
        if !self.fired {
            match signal {
                Signal::Reset => {
                    self.armed_at = Some(now);
                },
                Signal::Stop => {
                    self.armed_at = None;
                },
            }
        }
    }

    /// Looks at the timer at time `now`, and fires if it is armed and its
    /// deadline has come.
    pub fn poll(&mut self, now: u64) -> (expired: Option<Expired>)
        ensures
            final(self)@ == old(self)@.poll(now as nat),
            expired.is_some() == old(self)@.due(now as nat),
    {
        if self.fired {
            return None;
        }
        match self.armed_at {
            Some(at) => {
                if now >= at && now - at >= self.timeout {
                    self.fired = true;
                    Some(Expired)
                } else {
                    None
                }
            },
            None => None,
        }
    }

    /// The time at which an armed watchdog is due, where a clock of 64 bits
    /// can reach it.
    pub fn deadline(&self) -> (deadline: Option<u64>)
        ensures
            match deadline {
                Some(at) => self@.deadline() == Some(at as nat),
                None => !(self@.deadline() matches Some(at) && at <= u64::MAX),
            },
    {
        if self.fired {
            return None;
        }
        match self.armed_at {
            Some(at) => at.checked_add(self.timeout),
            None => None,
        }
    }

    /// Whether the watchdog has fired.
    pub fn has_fired(&self) -> (fired: bool)
        ensures
            fired == (self@.timer == Timer::Fired),
    {
        self.fired
    }
}

/// A watchdog fires at most once, whatever is done to it.
pub proof fn lemma_fires_at_most_once(watchdog: WatchdogModel, inputs: Seq<Input>)
    ensures
        watchdog.fire_count(inputs) <= 1,
        watchdog.timer == Timer::Fired ==> watchdog.fire_count(inputs) == 0,
        watchdog.fire_count(inputs) == 1 ==> watchdog.run(inputs).timer == Timer::Fired,
    decreases inputs.len(),
{
    if inputs.len() > 0 {
        lemma_fires_at_most_once(watchdog.step(inputs[0]), inputs.drop_first());
        if watchdog.fires_on(inputs[0]) {
            lemma_fired_is_final(watchdog.step(inputs[0]), inputs.drop_first());
        }
    }
}

/// Once a watchdog has fired, no signal and no poll changes it.
pub proof fn lemma_fired_is_final(watchdog: WatchdogModel, inputs: Seq<Input>)
    requires
        watchdog.timer == Timer::Fired,
    ensures
        watchdog.run(inputs) == watchdog,
    decreases inputs.len(),
{
    if inputs.len() > 0 {
        lemma_fired_is_final(watchdog.step(inputs[0]), inputs.drop_first());
    }
}

/// A stopped watchdog does not fire, however often it is polled.
pub proof fn lemma_stopped_stays_silent(watchdog: WatchdogModel, times: Seq<nat>)
    requires
        watchdog.timer == Timer::Stopped,
    ensures
        watchdog.fire_count(polls(times)) == 0,
        watchdog.run(polls(times)) == watchdog,
    decreases times.len(),
{
    if times.len() > 0 {
        assert(polls(times).drop_first() =~= polls(times.drop_first()));
        lemma_stopped_stays_silent(watchdog, times.drop_first());
    }
}

/// After a `Reset` at time `start` and with no further signal, polls before
/// `start + timeout` do not fire and leave the watchdog armed as it was.
pub proof fn lemma_silent_before_deadline(watchdog: WatchdogModel, start: nat, times: Seq<nat>)
    requires
        watchdog.timer != Timer::Fired,
        forall|i: int| 0 <= i < times.len() ==> times[i] < start + watchdog.timeout,
    ensures
        watchdog.signal(Signal::Reset, start).fire_count(polls(times)) == 0,
        watchdog.signal(Signal::Reset, start).run(polls(times)) == watchdog.signal(
            Signal::Reset,
            start,
        ),
    decreases times.len(),
{
    if times.len() > 0 {
        let armed = watchdog.signal(Signal::Reset, start);
        assert(polls(times)[0] == Input::Poll(times[0]));
        assert(!armed.due(times[0]));
        assert(polls(times).drop_first() =~= polls(times.drop_first()));
        lemma_silent_before_deadline(watchdog, start, times.drop_first());
    }
}

/// After a `Reset` at time `start` and with no further signal, the watchdog
/// fires exactly once if some poll comes at or after `start + timeout`, and
/// it does so at the first such poll.
pub proof fn lemma_fires_once_at_deadline(
    watchdog: WatchdogModel,
    start: nat,
    times: Seq<nat>,
    first: int,
)
    requires
        watchdog.timer != Timer::Fired,
        0 <= first < times.len(),
        times[first] >= start + watchdog.timeout,
        forall|i: int| 0 <= i < first ==> times[i] < start + watchdog.timeout,
    ensures
        watchdog.signal(Signal::Reset, start).fire_count(polls(times)) == 1,
        watchdog.signal(Signal::Reset, start).run(polls(times.take(first))).fires_on(
            Input::Poll(times[first]),
        ),
        watchdog.signal(Signal::Reset, start).fire_count(polls(times.take(first))) == 0,
    decreases times.len(),
{
    let armed = watchdog.signal(Signal::Reset, start);
    assert(polls(times)[0] == Input::Poll(times[0]));
    assert(polls(times).drop_first() =~= polls(times.drop_first()));
    if first == 0 {
        assert(armed.due(times[0]));
        assert(times.take(0) =~= Seq::<nat>::empty());
        assert(polls(Seq::<nat>::empty()) =~= Seq::<Input>::empty());
        lemma_fires_at_most_once(armed.step(polls(times)[0]), polls(times).drop_first());
    } else {
        assert(!armed.due(times[0]));
        let rest = times.drop_first();
        lemma_fires_once_at_deadline(watchdog, start, rest, first - 1);
        let head = times.take(first);
        assert(polls(head)[0] == Input::Poll(times[0]));
        assert(polls(head).drop_first() =~= polls(rest.take(first - 1)));
    }
}

/// A watchdog with timeout `timeout` that is reset at time 0 and gets no
/// other signal never fires before `timeout`, and fires exactly once if it
/// is polled at or after `timeout`.
pub proof fn lemma_reset_at_zero(timeout: nat, times: Seq<nat>)
    ensures
        (forall|i: int| 0 <= i < times.len() ==> times[i] < timeout)
            ==> WatchdogModel::fresh(timeout).signal(Signal::Reset, 0).fire_count(polls(times)) == 0,
        (exists|i: int| 0 <= i < times.len() && times[i] >= timeout)
            ==> WatchdogModel::fresh(timeout).signal(Signal::Reset, 0).fire_count(polls(times)) == 1,
{
    let fresh = WatchdogModel::fresh(timeout);
    if forall|i: int| 0 <= i < times.len() ==> times[i] < timeout {
        lemma_silent_before_deadline(fresh, 0, times);
    }
    if exists|i: int| 0 <= i < times.len() && times[i] >= timeout {
        lemma_first_at_or_after(times, timeout);
        lemma_fires_once_at_deadline(fresh, 0, times, first_at_or_after(times, timeout));
    }
}

/// A watchdog with timeout `timeout` that is reset at time `timeout / 2` and
/// gets no other signal does not fire before `3 * timeout / 2`.
pub proof fn lemma_reset_at_half(timeout: nat, times: Seq<nat>)
    requires
        forall|i: int| 0 <= i < times.len() ==> times[i] < 3 * timeout / 2,
    ensures
        WatchdogModel::fresh(timeout).signal(Signal::Reset, timeout / 2).fire_count(polls(times)) == 0,
{
    lemma_silent_before_deadline(WatchdogModel::fresh(timeout), timeout / 2, times);
}

/// The first index of `times` whose time is at or after `bound`.
pub open spec fn first_at_or_after(times: Seq<nat>, bound: nat) -> int
    decreases times.len(),
{
    if times.len() == 0 || times[0] >= bound {
        0
    } else {
        1 + first_at_or_after(times.drop_first(), bound)
    }
}

proof fn lemma_first_at_or_after(times: Seq<nat>, bound: nat)
    requires
        exists|i: int| 0 <= i < times.len() && times[i] >= bound,
    ensures
        0 <= first_at_or_after(times, bound) < times.len(),
        times[first_at_or_after(times, bound)] >= bound,
        forall|j: int| 0 <= j < first_at_or_after(times, bound) ==> times[j] < bound,
    decreases times.len(),
{
    if times[0] < bound {
        let i = choose|i: int| 0 <= i < times.len() && times[i] >= bound;
        let rest = times.drop_first();
        assert(rest[i - 1] == times[i]);
        lemma_first_at_or_after(rest, bound);
        let first = first_at_or_after(rest, bound);
        assert forall|j: int| 0 <= j < first + 1 implies times[j] < bound by {
            if j > 0 {
                assert(rest[j - 1] == times[j]);
            }
        }
    }
}

} // verus!
