use lazy_eye::app_loop::{Action, App, AppState, Event};
use lazy_eye::notification::{parse_activation, Activation, NotificationPayload};
use lazy_eye::tray::TrayEvent;

fn is_nothing(action: &Action) -> bool {
    matches!(action, Action::Nothing)
}

fn assert_reminder(payload: &NotificationPayload) {
    assert_eq!(payload.scenario, "reminder");
    assert_eq!(payload.body, "Time to let your eyes rest.");
    let actions: Vec<(&str, &str)> =
        payload.actions.iter().map(|a| (a.label.as_str(), a.argument.as_str())).collect();
    assert_eq!(actions, vec![("Start Timer", "start_timer"), ("Dismiss", "dismiss")]);
}

fn run(app: &mut App, events: &[Event]) -> Vec<Action> {
    events.iter().map(|event| app.handle(*event)).collect()
}

fn notifications(actions: &[Action]) -> usize {
    actions.iter().filter(|a| matches!(a, Action::Notify(_))).count()
}

fn exits(actions: &[Action]) -> usize {
    actions.iter().filter(|a| matches!(a, Action::Exit)).count()
}

fn stop_requests(actions: &[Action]) -> usize {
    actions.iter().filter(|a| matches!(a, Action::StopScheduler)).count()
}

#[test]
fn there_is_no_application_for_an_interval_of_zero() {
    assert!(App::new(0).is_none());
    assert_eq!(App::new(1).unwrap().state(), AppState::Running);
}

#[test]
fn five_units_at_an_interval_of_two_show_two_reminders() {
    let mut app = App::new(2).unwrap();
    let mut payloads = Vec::new();
    for _ in 0..5 {
        match app.handle(Event::Tick) {
            Action::Notify(payload) => payloads.push(payload),
            Action::Nothing => {}
            other => panic!("{:?}", other),
        }
    }
    assert_eq!(payloads.len(), 2);
    for payload in &payloads {
        assert_reminder(payload);
    }
    assert_eq!(app.state(), AppState::Running);
}

#[test]
fn the_reminders_come_on_the_second_and_the_fourth_unit() {
    let mut app = App::new(2).unwrap();
    let actions = run(&mut app, &[Event::Tick; 5]);
    let shown: Vec<bool> = actions.iter().map(|a| matches!(a, Action::Notify(_))).collect();
    assert_eq!(shown, vec![false, true, false, true, false]);
}

#[test]
fn ticks_show_floor_of_elapsed_over_interval_reminders() {
    for interval in 1..=10u64 {
        for elapsed in 0..=40usize {
            let mut app = App::new(interval).unwrap();
            let actions = run(&mut app, &vec![Event::Tick; elapsed]);
            assert_eq!(notifications(&actions) as u64, elapsed as u64 / interval);
            assert_eq!(exits(&actions), 0);
            assert_eq!(stop_requests(&actions), 0);
        }
    }
}

#[test]
fn quit_stops_the_timer_and_its_acknowledgement_ends_the_process() {
    let mut app = App::new(2).unwrap();
    assert!(matches!(app.handle(Event::Tray(TrayEvent::Quit)), Action::StopScheduler));
    assert_eq!(app.state(), AppState::ShuttingDown);
    assert!(matches!(app.handle(Event::SchedulerStopped), Action::Exit));
    assert_eq!(app.state(), AppState::Terminated);
}

#[test]
fn many_requests_to_quit_terminate_exactly_once() {
    let quit = Event::Tray(TrayEvent::Quit);
    let sequences: Vec<Vec<Event>> = vec![
        vec![quit, Event::SchedulerStopped],
        vec![quit, quit, quit, Event::SchedulerStopped],
        vec![quit, Event::SchedulerStopped, quit, quit],
        vec![quit, quit, Event::SchedulerStopped, Event::SchedulerStopped, quit],
        vec![Event::Tick, quit, Event::Tick, quit, Event::SchedulerStopped, Event::Tick, quit],
        vec![Event::SchedulerStopped, Event::Tick, quit, Event::SchedulerStopped],
        vec![
            Event::Activated(Activation::Dismiss),
            quit,
            Event::Activated(Activation::StartTimer),
            Event::SchedulerStopped,
            Event::Activated(Activation::Unrecognized),
        ],
    ];
    for events in sequences {
        let mut app = App::new(3).unwrap();
        let actions = run(&mut app, &events);
        assert_eq!(stop_requests(&actions), 1, "{:?}", events);
        assert_eq!(exits(&actions), 1, "{:?}", events);
        assert_eq!(app.state(), AppState::Terminated, "{:?}", events);
    }
}

#[test]
fn quit_terminates_whenever_it_is_delivered() {
    for before in 0..=7usize {
        let mut app = App::new(3).unwrap();
        let shown = notifications(&run(&mut app, &vec![Event::Tick; before]));
        assert_eq!(shown, before / 3);
        assert!(matches!(app.handle(Event::Tray(TrayEvent::Quit)), Action::StopScheduler));
        assert!(matches!(app.handle(Event::SchedulerStopped), Action::Exit));
        assert_eq!(app.state(), AppState::Terminated);
    }
}

#[test]
fn an_acknowledgement_without_a_request_to_quit_is_ignored() {
    let mut app = App::new(2).unwrap();
    assert!(is_nothing(&app.handle(Event::SchedulerStopped)));
    assert_eq!(app.state(), AppState::Running);
    assert!(is_nothing(&app.handle(Event::Tick)));
    assert!(matches!(app.handle(Event::Tick), Action::Notify(_)));
}

#[test]
fn no_reminder_is_shown_once_the_timer_was_told_to_stop() {
    for before in 0..=5usize {
        let mut app = App::new(2).unwrap();
        run(&mut app, &vec![Event::Tick; before]);
        app.handle(Event::Tray(TrayEvent::Quit));
        let during = run(&mut app, &[Event::Tick; 10]);
        assert_eq!(notifications(&during), 0);
        assert!(during.iter().all(is_nothing));
        app.handle(Event::SchedulerStopped);
        let after = run(&mut app, &[Event::Tick; 10]);
        assert!(after.iter().all(is_nothing));
    }
}

#[test]
fn a_terminated_application_ignores_everything() {
    let mut app = App::new(1).unwrap();
    run(&mut app, &[Event::Tray(TrayEvent::Quit), Event::SchedulerStopped]);
    let actions = run(
        &mut app,
        &[
            Event::Tick,
            Event::Tray(TrayEvent::Quit),
            Event::SchedulerStopped,
            Event::Activated(Activation::StartTimer),
            Event::Tick,
        ],
    );
    assert!(actions.iter().all(is_nothing));
    assert_eq!(app.state(), AppState::Terminated);
}

#[test]
fn activating_a_toast_has_no_effect() {
    for argument in ["dismiss", "", "bogus", "start_timer", "DISMISS", "\u{1F441}"] {
        for prelude in [
            vec![],
            vec![Event::Tick],
            vec![Event::Tray(TrayEvent::Quit)],
            vec![Event::Tray(TrayEvent::Quit), Event::SchedulerStopped],
        ] {
            let mut touched = App::new(2).unwrap();
            let mut untouched = App::new(2).unwrap();
            run(&mut touched, &prelude);
            run(&mut untouched, &prelude);
            let state = touched.state();
            let action = touched.handle(Event::Activated(parse_activation(argument)));
            assert!(is_nothing(&action), "{:?}", argument);
            assert_eq!(touched.state(), state);
            let follow_up = [Event::Tick, Event::Tick, Event::Tray(TrayEvent::Quit), Event::Tick];
            let a = run(&mut touched, &follow_up);
            let b = run(&mut untouched, &follow_up);
            assert_eq!(format!("{:?}", a), format!("{:?}", b));
            assert_eq!(touched.state(), untouched.state());
        }
    }
}
