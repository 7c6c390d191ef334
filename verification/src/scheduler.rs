//! The reminder timer, counted in polling units.
//!
//! Time is simulated: the caller reports every polling unit that has passed
//! with a call of [`Scheduler::tick`], or several at once with
//! [`Scheduler::advance`], and is told whether the Notifier is due. The timer
//! never reads a clock and never sleeps.

use vstd::arithmetic::div_mod::lemma_fundamental_div_mod_converse;
use vstd::prelude::*;

verus! {

/// The abstract state of the timer.
pub struct Timer {
    /// Polling units between two firings; at least one.
    pub interval: nat,
    /// Polling units since the last firing, or since the start; below `interval`.
    pub phase: nat,
    /// Whether a stop was requested.
    pub stopped: bool,
}

impl Timer {
    /// A timer that was just started: nothing has elapsed, no stop was requested.
    pub open spec fn start(interval: nat) -> Timer {
        Timer { interval, phase: 0, stopped: false }
    }

    pub open spec fn wf(self) -> bool {
        self.interval > 0 && self.phase < self.interval
    }

    /// Whether the polling unit that passes next makes the Notifier due.
    pub open spec fn due_next(self) -> bool {
        !self.stopped && self.phase + 1 == self.interval
    }

    /// The timer after one more polling unit.
    pub open spec fn tick(self) -> Timer {
        if self.stopped {
            self
        } else if self.phase + 1 == self.interval {
            Timer { phase: 0, ..self }
        } else {
            Timer { phase: self.phase + 1, ..self }
        }
    }

    /// The timer after a stop request.
    pub open spec fn stop(self) -> Timer {
        Timer { stopped: true, ..self }
    }

    /// The timer after `n` more polling units.
    pub open spec fn after(self, n: nat) -> Timer
        decreases n,
    {
        if n == 0 {
            self
        } else {
            self.tick().after((n - 1) as nat)
        }
    }

    /// How often the Notifier becomes due during the next `n` polling units.
    pub open spec fn fires(self, n: nat) -> nat
        decreases n,
    {
        if n == 0 {
            0
        } else {
            (if self.due_next() { 1nat } else { 0nat }) + self.tick().fires((n - 1) as nat)
        }
    }
}

/// A running timer that started `phase` units after its last firing fires
/// `floor((phase + n) / interval)` times within `n` polling units, and is then
/// `(phase + n) mod interval` units past its last firing.
pub proof fn lemma_fires_closed_form(t: Timer, n: nat)
    requires
        t.wf(),
        !t.stopped,
    ensures
        t.fires(n) == (t.phase + n) / t.interval,
        t.after(n) == (Timer { phase: (t.phase + n) % t.interval, ..t }),
    decreases n,
{
    let i = t.interval as int;
    if n == 0 {
        lemma_fundamental_div_mod_converse(t.phase as int, i, 0, t.phase as int);
    } else {
        let next = t.tick();
        lemma_fires_closed_form(next, (n - 1) as nat);
        let q = (next.phase + n - 1) / i;
        let r = (next.phase + n - 1) % i;
        vstd::arithmetic::div_mod::lemma_fundamental_div_mod(next.phase + n - 1, i);
        if t.phase + 1 == t.interval {
            assert(t.phase + n == (q + 1) * i + r) by (nonlinear_arith)
                requires
                    t.phase + 1 == i,
                    next.phase == 0,
                    next.phase + n - 1 == i * q + r,
            ;
            lemma_fundamental_div_mod_converse((t.phase + n) as int, i, q + 1, r);
        } else {
            assert(t.phase + n == q * i + r) by (nonlinear_arith)
                requires
                    next.phase == t.phase + 1,
                    next.phase + n - 1 == i * q + r,
            ;
            lemma_fundamental_div_mod_converse((t.phase + n) as int, i, q, r);
        }
    }
}

/// A timer that has run for `d` polling units since its start, with no stop
/// requested, has fired `floor(d / interval)` times.
pub proof fn lemma_fires_floor_of_elapsed(interval: nat, d: nat)
    requires
        interval > 0,
    ensures
        Timer::start(interval).fires(d) == d / interval,
{
    lemma_fires_closed_form(Timer::start(interval), d);
}

/// A timer does not fire at its start: it fires for the first time when one
/// whole interval has passed.
pub proof fn lemma_first_fire_after_one_interval(interval: nat, d: nat)
    requires
        interval > 0,
    ensures
        d < interval ==> Timer::start(interval).fires(d) == 0,
        d == interval ==> Timer::start(interval).fires(d) == 1,
{
    lemma_fires_closed_form(Timer::start(interval), d);
    if d < interval {
        lemma_fundamental_div_mod_converse(d as int, interval as int, 0, d as int);
    } else if d == interval {
        lemma_fundamental_div_mod_converse(d as int, interval as int, 1, 0);
    }
}

/// Once a stop was requested the timer never fires again and never changes,
/// however many polling units pass.
pub proof fn lemma_no_fire_after_stop(t: Timer, n: nat)
    ensures
        t.stop().fires(n) == 0,
        t.stop().after(n) == t.stop(),
    decreases n,
{
    if n > 0 {
        lemma_no_fire_after_stop(t.stop(), (n - 1) as nat);
    }
}

/// Polling units add up: `m + n` units are `m` units followed by `n` units.
pub proof fn lemma_fires_additive(t: Timer, m: nat, n: nat)
    ensures
        t.fires(m + n) == t.fires(m) + t.after(m).fires(n),
        t.after(m + n) == t.after(m).after(n),
    decreases m,
{
    if m > 0 {
        lemma_fires_additive(t.tick(), (m - 1) as nat, n);
    }
}

/// How the timer is driven: how long a polling unit is, how many of them lie
/// between two reminders, and how often the clock is looked at.
#[derive(Debug, Clone, Copy, PartialEq, Eq)]
pub struct Timing {
    interval: u64,
    tick_minutes: u32,
    poll_millis: u64,
}

/// The timing as plain numbers.
pub struct TimingView {
    /// Polling units between two reminders.
    pub interval: nat,
    /// Minutes to a polling unit.
    pub tick_minutes: nat,
    /// Milliseconds between two looks at the clock.
    pub poll_millis: nat,
}

impl View for Timing {
    type V = TimingView;

    closed spec fn view(&self) -> TimingView {
        TimingView {
            interval: self.interval as nat,
            tick_minutes: self.tick_minutes as nat,
            poll_millis: self.poll_millis as nat,
        }
    }
}

impl Timing {
    /// A timing with the given numbers. None of them may be zero.
    pub fn new(interval: u64, tick_minutes: u32, poll_millis: u64) -> (timing: Option<Timing>)
        ensures
            timing is Some <==> interval > 0 && tick_minutes > 0 && poll_millis > 0,
            timing matches Some(t) ==> t@ == (TimingView {
                interval: interval as nat,
                tick_minutes: tick_minutes as nat,
                poll_millis: poll_millis as nat,
            }),
    {
        if interval == 0 || tick_minutes == 0 || poll_millis == 0 {
            None
        } else {
            Some(Timing { interval, tick_minutes, poll_millis })
        }
    }

    /// Polling units between two reminders.
    pub fn interval(&self) -> (n: u64)
        ensures
            n == self@.interval,
    {
        self.interval
    }

    /// Minutes to a polling unit.
    pub fn tick_minutes(&self) -> (n: u32)
        ensures
            n == self@.tick_minutes,
    {
        self.tick_minutes
    }

    /// Milliseconds between two looks at the clock.
    pub fn poll_millis(&self) -> (n: u64)
        ensures
            n == self@.poll_millis,
    {
        self.poll_millis
    }
}

impl Default for Timing {
    /// A reminder every minute, with a look at the clock every tenth of a
    /// second.
    fn default() -> (timing: Timing)
        ensures
            timing@ == (TimingView { interval: 1, tick_minutes: 1, poll_millis: 100 }),
    {
        Timing { interval: 1, tick_minutes: 1, poll_millis: 100 }
    }
}

/// The timer that decides when the Notifier is due.
#[derive(Debug, Clone, Copy)]
pub struct Scheduler {
    interval: u64,
    phase: u64,
    stopped: bool,
}

impl View for Scheduler {
    type V = Timer;

    closed spec fn view(&self) -> Timer {
        Timer { interval: self.interval as nat, phase: self.phase as nat, stopped: self.stopped }
    }
}

impl Scheduler {
    /// What holds of every timer: its interval is not zero, and less than one
    /// interval has passed since it last fired.
    #[verifier::type_invariant]
    pub open spec fn well_formed(self) -> bool {
        self@.wf()
    }

    /// Starts a timer that fires once every `interval` polling units, for the
    /// first time `interval` units from now. There is no timer for an interval
    /// of zero.
    pub fn new(interval: u64) -> (s: Option<Scheduler>)
        ensures
            interval == 0 <==> s is None,
            s matches Some(t) ==> t@ == Timer::start(interval as nat) && t@.wf(),
    {
        if interval == 0 {
            None
        } else {
            Some(Scheduler { interval, phase: 0, stopped: false })
        }
    }

    /// The polling units between two firings.
    pub fn interval(&self) -> (i: u64)
        ensures
            i == self@.interval,
    {
        self.interval
    }

    /// The polling units that have passed since the last firing, or since the
    /// start.
    pub fn phase(&self) -> (p: u64)
        ensures
            p == self@.phase,
    {
        self.phase
    }

    /// Whether a stop was requested.
    pub fn is_stopped(&self) -> (b: bool)
        ensures
            b == self@.stopped,
            self@.wf(),
    {
        proof {
            use_type_invariant(self);
        }
        self.stopped
    }

    /// Lets one polling unit pass, and says whether the Notifier is due now.
    pub fn tick(&mut self) -> (due: bool)
        ensures
            due == old(self)@.due_next(),
            final(self)@ == old(self)@.tick(),
            old(self)@.wf(),
            final(self)@.wf(),
    {
        proof {
            use_type_invariant(&*self);
        }
        if self.stopped {
            false
        } else if self.phase == self.interval - 1 {
            self.phase = 0;
            true
        } else {
            self.phase = self.phase + 1;
            false
        }
    }

    /// Lets `units` polling units pass at once, and says how often the Notifier
    /// became due in that time.
    pub fn advance(&mut self, units: u64) -> (fired: u64)
        ensures
            fired == old(self)@.fires(units as nat),
            final(self)@ == old(self)@.after(units as nat),
            old(self)@.wf(),
            final(self)@.wf(),
            !old(self)@.stopped ==> fired == (old(self)@.phase + units as nat) / old(self)@.interval
                && final(self)@ == (Timer {
                phase: (old(self)@.phase + units as nat) % old(self)@.interval,
                ..old(self)@
            }),
            old(self)@.stopped ==> fired == 0 && final(self)@ == old(self)@,
    {
        proof {
            use_type_invariant(&*self);
        }
        if self.stopped {
            proof {
                lemma_no_fire_after_stop(self@, units as nat);
            }
            return 0;
        }
        proof {
            lemma_fires_closed_form(self@, units as nat);
        }
        let whole: u64 = units / self.interval;
        let rest: u64 = units % self.interval;
        let ghost i = self.interval as int;
        let ghost p = self.phase as int;
        proof {
            vstd::arithmetic::div_mod::lemma_fundamental_div_mod(units as int, i);
        }
        if rest >= self.interval - self.phase {
            proof {
                assert(p + units == (whole + 1) * i + (rest - (i - p))) by (nonlinear_arith)
                    requires
                        units == i * whole + rest,
                ;
                lemma_fundamental_div_mod_converse(p + units, i, whole + 1, rest - (i - p));
                assert(whole + 1 <= u64::MAX) by (nonlinear_arith)
                    requires
                        units == i * whole + rest,
                        rest >= i - p,
                        0 <= p < i,
                        units <= u64::MAX,
                        whole >= 0,
                ;
            }
            self.phase = rest - (self.interval - self.phase);
            whole + 1
        } else {
            proof {
                assert(p + units == whole * i + (p + rest)) by (nonlinear_arith)
                    requires
                        units == i * whole + rest,
                ;
                lemma_fundamental_div_mod_converse(p + units, i, whole as int, p + rest);
            }
            self.phase = self.phase + rest;
            whole
        }
    }

    /// Requests a stop: from now on the Notifier is never due again.
    pub fn stop(&mut self)
        ensures
            final(self)@ == old(self)@.stop(),
            old(self)@.wf(),
            final(self)@.wf(),
    {
        proof {
            use_type_invariant(&*self);
        }
        self.stopped = true;
    }
}

} // verus!
