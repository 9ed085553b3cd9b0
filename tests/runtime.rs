use unitdeck::action::Action;
use unitdeck::model::{ActiveState, Scope, UnitId, UnitWithStatus};
use unitdeck::runtime::{listing_done, state_change_done, App, Control, Effect};
use unitdeck::view::{Reaction, Request, Verb};

fn id(name: &str) -> UnitId {
    UnitId { name: name.to_string(), scope: Scope::User }
}

#[test]
fn quit_stops_the_loop() {
    let mut app = App::new(Scope::User, vec![]);
    app.enqueue(Action::Quit);
    assert!(matches!(app.step(), Some((Effect::Nothing, Control::Shutdown))));
    assert!(app.stopped);
    assert!(app.is_idle());
    app.enqueue(Action::ToggleHelp);
    assert!(app.step().is_none());
    assert!(!app.home.show_help);
}

#[test]
fn actions_behind_quit_are_not_taken() {
    let mut app = App::new(Scope::User, vec![]);
    app.enqueue(Action::Quit);
    app.enqueue(Action::ToggleHelp);
    assert!(matches!(app.step(), Some((_, Control::Shutdown))));
    assert!(app.step().is_none());
    assert!(!app.home.show_help);
}

#[test]
fn empty_queue_gives_nothing() {
    let mut app = App::new(Scope::Global, vec!["a.service".to_string()]);
    assert!(app.step().is_none());
    assert_eq!(app.home.limit_units, vec!["a.service".to_string()]);
}

#[test]
fn suspend_then_resume_and_render() {
    let mut app = App::new(Scope::User, vec![]);
    app.enqueue(Action::Suspend);
    assert!(matches!(app.step(), Some((Effect::Nothing, Control::Suspend))));
    assert!(!app.should_suspend);
    assert!(matches!(app.step(), Some((Effect::Nothing, Control::Continue))));
    assert!(matches!(app.step(), Some((Effect::Render, Control::Continue))));
    assert!(app.step().is_none());
}

#[test]
fn lifecycle_actions_are_handled_inline() {
    let mut app = App::new(Scope::User, vec![]);
    app.enqueue(Action::DebouncedRender);
    app.enqueue(Action::Resize(80, 24));
    app.enqueue(Action::EditUnitFile { unit: id("a"), path: "/tmp/a.service".to_string() });
    assert!(matches!(app.step(), Some((Effect::Debounce, Control::Continue))));
    assert!(matches!(app.step(), Some((Effect::Render, Control::Continue))));
    match app.step() {
        Some((Effect::EditUnitFile { unit, path }, Control::Continue)) => {
            assert_eq!(unit.name, "a");
            assert_eq!(path, "/tmp/a.service");
        },
        _ => panic!("expected an edit"),
    }
}

#[test]
fn reducer_follow_ups_are_queued() {
    let mut app = App::new(Scope::User, vec![]);
    app.enqueue(Action::ToggleHelp);
    assert!(matches!(app.step(), Some((Effect::Nothing, Control::Continue))));
    assert!(app.home.show_help);
    assert!(matches!(app.step(), Some((Effect::Render, Control::Continue))));
}

#[test]
fn start_success_refreshes_and_shows_active() {
    let mut app = App::new(Scope::User, vec![]);
    app.enqueue(Action::StartService(id("web")));
    match app.step() {
        Some((Effect::Reacted(Reaction::Call(Request::SetUnitState { unit, verb })), Control::Continue)) => {
            assert_eq!(unit.name, "web");
            assert_eq!(verb, Verb::Start);
        },
        _ => panic!("expected a start request"),
    }
    app.enqueue(state_change_done(Ok(())));
    assert!(matches!(app.step(), Some((Effect::Reacted(Reaction::Call(Request::ListUnits)), Control::Continue))));
    let listed = vec![UnitWithStatus {
        name: "web".to_string(),
        scope: Scope::User,
        description: "web server".to_string(),
        active_state: ActiveState::Active,
        enablement_state: None,
    }];
    app.enqueue(listing_done(Ok(listed)));
    app.step();
    assert_eq!(app.home.units.len(), 1);
    assert!(app.home.units[0].is_active());
}

#[test]
fn service_errors_become_error_actions() {
    match state_change_done(Err("denied".to_string())) {
        Action::EnterError(m) => assert_eq!(m, "denied"),
        _ => panic!("expected an error"),
    }
    match listing_done(Err("no bus".to_string())) {
        Action::EnterError(m) => assert_eq!(m, "no bus"),
        _ => panic!("expected an error"),
    }
}

#[test]
fn new_runtime_starts_fresh() {
    let app = App::new(Scope::Global, vec!["a.service".to_string()]);
    assert_eq!(app.scope, Scope::Global);
    assert_eq!(app.limit_units, vec!["a.service".to_string()]);
    assert!(!app.should_quit && !app.should_suspend && !app.stopped);
    assert!(app.is_idle());
    assert_eq!(app.home.mode, unitdeck::model::Mode::ServiceList);
    assert!(app.home.units.is_empty() && app.home.logs.is_empty());
    assert_eq!(app.home.scroll, 0);
    assert!(!app.home.task_active && !app.home.show_help && !app.home.show_logger);
    assert!(app.home.unit_file_path.is_none() && app.home.log_unit.is_none());
}
