//! The application loop: it hands the timer's firings to the Notifier and
//! waits for the tray to ask for the end.
//!
//! The loop itself never waits, sleeps or shows anything. It is told what
//! happened, one event at a time, and answers with what is to be done; the
//! caller performs that and reports what happens next.

use crate::notification::{reminder, reminder_payload, Activation, NotificationPayload, PayloadView};
use crate::scheduler::{lemma_fires_closed_form, Scheduler, Timer};
use crate::tray::TrayEvent;
use vstd::prelude::*;

verus! {

/// Where the application is in its life.
#[derive(Debug, Clone, Copy, PartialEq, Eq, Structural)]
pub enum AppState {
    /// The timer runs and reminders are shown.
    Running,
    /// The user asked to quit; the timer was told to stop and has not yet
    /// acknowledged it.
    ShuttingDown,
    /// The timer has stopped; the process ends.
    Terminated,
}

/// Something that happened.
#[derive(Debug, Clone, Copy, PartialEq, Eq, Structural)]
pub enum Event {
    /// One polling unit has passed.
    Tick,
    /// The tray reported something.
    Tray(TrayEvent),
    /// The timer acknowledged the stop request.
    SchedulerStopped,
    /// The user activated a toast.
    Activated(Activation),
}

/// Something to be done.
#[derive(Debug, Clone)]
pub enum Action {
    /// Nothing.
    Nothing,
    /// Show this toast.
    Notify(NotificationPayload),
    /// Stop the timer, wait until it has stopped, and report
    /// `Event::SchedulerStopped`.
    StopScheduler,
    /// End the process.
    Exit,
}

/// Something to be done, as plain values.
pub enum ActionView {
    Nothing,
    Notify(PayloadView),
    StopScheduler,
    Exit,
}

impl View for Action {
    type V = ActionView;

    open spec fn view(&self) -> ActionView {
        match self {
            Action::Nothing => ActionView::Nothing,
            Action::Notify(payload) => ActionView::Notify(payload@),
            Action::StopScheduler => ActionView::StopScheduler,
            Action::Exit => ActionView::Exit,
        }
    }
}

/// The abstract state of the application.
pub struct AppModel {
    pub state: AppState,
    pub timer: Timer,
}

impl AppModel {
    /// The application at its start, with a timer that fires every `interval`
    /// polling units.
    pub open spec fn start(interval: nat) -> AppModel {
        AppModel { state: AppState::Running, timer: Timer::start(interval) }
    }

    /// The timer is well formed, and it runs exactly as long as the
    /// application does.
    pub open spec fn wf(self) -> bool {
        self.timer.wf() && (self.state == AppState::Running <==> !self.timer.stopped)
    }

    /// The state after `event`.
    pub open spec fn step(self, event: Event) -> AppModel {
        match event {
            Event::Tick => AppModel { timer: self.timer.tick(), ..self },
            Event::Tray(TrayEvent::Quit) => if self.state == AppState::Running {
                AppModel { state: AppState::ShuttingDown, timer: self.timer.stop() }
            } else {
                self
            },
            Event::SchedulerStopped => if self.state == AppState::ShuttingDown {
                AppModel { state: AppState::Terminated, ..self }
            } else {
                self
            },
            Event::Activated(_) => self,
        }
    }

    /// What is to be done on `event`.
    pub open spec fn action(self, event: Event) -> ActionView {
        match event {
            Event::Tick => if self.timer.due_next() {
                ActionView::Notify(reminder())
            } else {
                ActionView::Nothing
            },
            Event::Tray(TrayEvent::Quit) => if self.state == AppState::Running {
                ActionView::StopScheduler
            } else {
                ActionView::Nothing
            },
            Event::SchedulerStopped => if self.state == AppState::ShuttingDown {
                ActionView::Exit
            } else {
                ActionView::Nothing
            },
            Event::Activated(_) => ActionView::Nothing,
        }
    }

    /// The state after all of `events`, from the first to the last.
    pub open spec fn run(self, events: Seq<Event>) -> AppModel
        decreases events.len(),
    {
        if events.len() == 0 {
            self
        } else {
            self.step(events.first()).run(events.drop_first())
        }
    }

    /// What is to be done on each of `events`, in their order.
    pub open spec fn actions(self, events: Seq<Event>) -> Seq<ActionView>
        decreases events.len(),
    {
        if events.len() == 0 {
            Seq::empty()
        } else {
            seq![self.action(events.first())] + self.step(events.first()).actions(
                events.drop_first(),
            )
        }
    }
}

/// How many of `actions` are `wanted`.
pub open spec fn count(actions: Seq<ActionView>, wanted: ActionView) -> nat
    decreases actions.len(),
{
    if actions.len() == 0 {
        0
    } else {
        (if actions.first() == wanted { 1nat } else { 0nat }) + count(actions.drop_first(), wanted)
    }
}

/// How many of `actions` show a toast.
pub open spec fn notifications(actions: Seq<ActionView>) -> nat
    decreases actions.len(),
{
    if actions.len() == 0 {
        0
    } else {
        (if actions.first() is Notify { 1nat } else { 0nat }) + notifications(actions.drop_first())
    }
}

/// How far the application has come: it only ever moves forward.
pub open spec fn progress(state: AppState) -> nat {
    match state {
        AppState::Running => 0,
        AppState::ShuttingDown => 1,
        AppState::Terminated => 2,
    }
}

/// `n` polling units in a row, and nothing else.
pub open spec fn ticks(n: nat) -> Seq<Event> {
    Seq::new(n, |i: int| Event::Tick)
}

/// An event leaves the state well formed and never moves it back.
pub proof fn lemma_step_moves_forward(m: AppModel, event: Event)
    requires
        m.wf(),
    ensures
        m.step(event).wf(),
        progress(m.step(event).state) >= progress(m.state),
{
}

/// Whatever happens, the state stays well formed and never moves back.
pub proof fn lemma_run_moves_forward(m: AppModel, events: Seq<Event>)
    requires
        m.wf(),
    ensures
        m.run(events).wf(),
        progress(m.run(events).state) >= progress(m.state),
        m.actions(events).len() == events.len(),
    decreases events.len(),
{
    if events.len() > 0 {
        lemma_step_moves_forward(m, events.first());
        lemma_run_moves_forward(m.step(events.first()), events.drop_first());
    }
}

/// Activating a toast changes nothing and asks for nothing, whatever the
/// argument was: the closing button, the body, an unknown argument, and the
/// timer button too, behind which there is no timer yet.
pub proof fn lemma_activation_has_no_effect(m: AppModel, activation: Activation)
    ensures
        m.step(Event::Activated(activation)) == m,
        m.action(Event::Activated(activation)) == ActionView::Nothing,
{
}

/// Once the application has terminated, no event changes it or asks for
/// anything.
pub proof fn lemma_terminated_is_final(m: AppModel, events: Seq<Event>)
    requires
        m.wf(),
        m.state == AppState::Terminated,
    ensures
        m.run(events) == m,
        forall|i: int| 0 <= i < events.len() ==> m.actions(events)[i] == ActionView::Nothing,
    decreases events.len(),
{
    if events.len() > 0 {
        let rest = events.drop_first();
        lemma_terminated_is_final(m, rest);
        lemma_run_moves_forward(m, rest);
        assert forall|i: int| 0 <= i < events.len() implies m.actions(events)[i]
            == ActionView::Nothing by {
            if i > 0 {
                assert(m.actions(events)[i] == m.actions(rest)[i - 1]);
            }
        }
    }
}

/// However many requests to quit arrive, and whenever, the timer is told to
/// stop at most once and the process is ended at most once: once exactly where
/// the events lead out of `Running`, respectively into `Terminated`.
pub proof fn lemma_terminates_once(m: AppModel, events: Seq<Event>)
    requires
        m.wf(),
    ensures
        count(m.actions(events), ActionView::StopScheduler) == (if m.state == AppState::Running
            && m.run(events).state != AppState::Running {
            1nat
        } else {
            0nat
        }),
        count(m.actions(events), ActionView::Exit) == (if m.state != AppState::Terminated
            && m.run(events).state == AppState::Terminated {
            1nat
        } else {
            0nat
        }),
    decreases events.len(),
{
    if events.len() > 0 {
        let next = m.step(events.first());
        let rest = events.drop_first();
        lemma_terminates_once(next, rest);
        lemma_run_moves_forward(next, rest);
        assert(m.actions(events).drop_first() =~= next.actions(rest));
    }
}

/// Once the application is shutting down, the timer's acknowledgement
/// terminates it, whatever else happens before and after.
pub proof fn lemma_acknowledgement_terminates(m: AppModel, events: Seq<Event>, j: int)
    requires
        m.wf(),
        m.state != AppState::Running,
        0 <= j < events.len(),
        events[j] == Event::SchedulerStopped,
    ensures
        m.run(events).state == AppState::Terminated,
    decreases events.len(),
{
    let next = m.step(events.first());
    let rest = events.drop_first();
    lemma_step_moves_forward(m, events.first());
    if j == 0 {
        lemma_run_moves_forward(next, rest);
    } else {
        lemma_acknowledgement_terminates(next, rest, j - 1);
    }
}

/// A request to quit, delivered at any time, terminates the application as
/// soon as the timer has acknowledged the stop, whatever else happens before,
/// between and after, further requests to quit included.
pub proof fn lemma_quit_terminates(m: AppModel, events: Seq<Event>, i: int, j: int)
    requires
        m.wf(),
        0 <= i < j < events.len(),
        events[i] == Event::Tray(TrayEvent::Quit),
        events[j] == Event::SchedulerStopped,
    ensures
        m.run(events).state == AppState::Terminated,
    decreases events.len(),
{
    let next = m.step(events.first());
    let rest = events.drop_first();
    lemma_step_moves_forward(m, events.first());
    if i == 0 {
        lemma_acknowledgement_terminates(next, rest, j - 1);
    } else {
        lemma_quit_terminates(next, rest, i - 1, j - 1);
    }
}

/// Once the timer was told to stop, no toast is shown any more, whatever
/// happens and however much time passes.
pub proof fn lemma_no_notification_after_quit(m: AppModel, events: Seq<Event>)
    requires
        m.wf(),
        m.state != AppState::Running,
    ensures
        notifications(m.actions(events)) == 0,
    decreases events.len(),
{
    if events.len() > 0 {
        let next = m.step(events.first());
        let rest = events.drop_first();
        lemma_step_moves_forward(m, events.first());
        lemma_no_notification_after_quit(next, rest);
        assert(m.actions(events).drop_first() =~= next.actions(rest));
    }
}

/// While the application runs, `n` polling units show as many toasts as the
/// timer fires in them, each of them the reminder, and leave the application
/// running.
pub proof fn lemma_ticks_notify_as_timer_fires(m: AppModel, n: nat)
    requires
        m.wf(),
        m.state == AppState::Running,
    ensures
        notifications(m.actions(ticks(n))) == m.timer.fires(n),
        m.run(ticks(n)) == (AppModel { state: AppState::Running, timer: m.timer.after(n) }),
        forall|i: int|
            0 <= i < n ==> {
                let action = #[trigger] m.actions(ticks(n))[i];
                action == ActionView::Nothing || action == ActionView::Notify(reminder())
            },
    decreases n,
{
    if n > 0 {
        let next = m.step(Event::Tick);
        let rest = ticks((n - 1) as nat);
        assert(ticks(n).drop_first() =~= rest);
        lemma_ticks_notify_as_timer_fires(next, (n - 1) as nat);
        lemma_run_moves_forward(next, rest);
        let all = m.actions(ticks(n));
        assert(all.drop_first() =~= next.actions(rest));
        assert forall|i: int| 0 <= i < n implies {
            let action = #[trigger] m.actions(ticks(n))[i];
            action == ActionView::Nothing || action == ActionView::Notify(reminder())
        } by {
            if i > 0 {
                assert(all[i] == next.actions(rest)[i - 1]);
            }
        }
    }
}

/// An application that has run for `d` polling units since its start, with no
/// request to quit, has shown `floor(d / interval)` toasts.
pub proof fn lemma_notifications_floor_of_elapsed(interval: nat, d: nat)
    requires
        interval > 0,
    ensures
        notifications(AppModel::start(interval).actions(ticks(d))) == d / interval,
{
    let m = AppModel::start(interval);
    lemma_ticks_notify_as_timer_fires(m, d);
    lemma_fires_closed_form(m.timer, d);
}

/// The application: its state and its timer.
pub struct App {
    state: AppState,
    scheduler: Scheduler,
}

impl View for App {
    type V = AppModel;

    closed spec fn view(&self) -> AppModel {
        AppModel { state: self.state, timer: self.scheduler@ }
    }
}

impl App {
    /// What holds of every application: its timer is well formed, and runs
    /// exactly as long as the application does.
    #[verifier::type_invariant]
    pub open spec fn well_formed(self) -> bool {
        self@.wf()
    }

    /// Starts the application with a timer that fires every `interval` polling
    /// units. There is none for an interval of zero.
    pub fn new(interval: u64) -> (app: Option<App>)
        ensures
            interval == 0 <==> app is None,
            app matches Some(a) ==> a@ == AppModel::start(interval as nat) && a@.wf(),
    {
        match Scheduler::new(interval) {
            Some(scheduler) => Some(App { state: AppState::Running, scheduler }),
            None => None,
        }
    }

    /// Where the application is in its life.
    pub fn state(&self) -> (state: AppState)
        ensures
            state == self@.state,
            self@.wf(),
    {
        proof {
            use_type_invariant(self);
        }
        self.state
    }

    /// Takes note of `event` and says what is to be done.
    pub fn handle(&mut self, event: Event) -> (action: Action)
        ensures
            final(self)@ == old(self)@.step(event),
            action@ == old(self)@.action(event),
            old(self)@.wf(),
            final(self)@.wf(),
    {
        proof {
            use_type_invariant(&*self);
        }
        match event {
            Event::Tick => {
                let mut scheduler = self.scheduler;
                let due = scheduler.tick();
                self.scheduler = scheduler;
                if due {
                    Action::Notify(reminder_payload())
                } else {
                    Action::Nothing
                }
            },
            Event::Tray(TrayEvent::Quit) => {
                match self.state {
                    AppState::Running => {
                        let mut scheduler = self.scheduler;
                        scheduler.stop();
                        *self = App { state: AppState::ShuttingDown, scheduler };
                        Action::StopScheduler
                    },
                    _ => Action::Nothing,
                }
            },
            Event::SchedulerStopped => {
                match self.state {
                    AppState::ShuttingDown => {
                        self.state = AppState::Terminated;
                        Action::Exit
                    },
                    _ => Action::Nothing,
                }
            },
            Event::Activated(_) => Action::Nothing,
        }
    }
}

} // verus!
