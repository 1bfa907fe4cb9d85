use podwatch::app::state::list::{Action, Dispatch, Signal};
use podwatch::app::state::pods::Pod;
use podwatch::app::state::AppState;
use podwatch::app::ui::overlay::{Overlay, Overlays};
use podwatch::app::ui::{draw, draw_at, draw_default_at, draw_layout, draw_title, Constraint, Panel, Screen};
use podwatch::app::{App, AppReturn, Global};
use podwatch::client::{Client, Request, RunError};
use podwatch::input::key::Key;
use podwatch::input::{key_event, InputEvent};
use podwatch::k8s::reflector::Event;
use podwatch::k8s::{ObjectMeta, Time};
use podwatch::{log_level, Args, LogLevel};
use std::sync::Arc;

const NOW: Time = Time(1_700_000_000);

fn app() -> App {
    App::new(Args { namespace: Some("prod".to_string()), verbose: 2 })
}

fn pod(name: &str) -> Arc<Pod> {
    Arc::new(Pod {
        metadata: ObjectMeta {
            name: Some(name.to_string()),
            generate_name: None,
            namespace: Some("prod".to_string()),
            uid: Some(format!("uid-{name}")),
            creation_timestamp: None,
            deletion_timestamp: None,
        },
        status: None,
    })
}

fn is_pods(app: &App) -> bool {
    matches!(app.state(), AppState::Pods(_))
}

fn is_deployments(app: &App) -> bool {
    matches!(app.state(), AppState::Deployments(_))
}

#[test]
fn new_app_shows_pods() {
    let app = app();
    assert!(is_pods(&app));
    assert_eq!(*app.global(), Global { logs: false, help: false });
    assert_eq!(app.args().namespace, Some("prod".to_string()));
    assert_eq!(app.client().namespace(), Some(&"prod".to_string()));
    assert_eq!(app.client().verbose(), 2);
    assert_eq!(app.watchers_started(), 1);
}

#[test]
fn quit_keys_exit() {
    let mut a = app();
    assert_eq!(a.do_action(Key::Ctrl('c')), AppReturn::Exit);
    assert_eq!(a.do_action(Key::Char('q')), AppReturn::Exit);
    assert_eq!(a.do_action(Key::Esc), AppReturn::Exit);
    assert_eq!(a.do_action(Key::Ctrl('q')), AppReturn::Continue);
    assert_eq!(a.do_action(Key::Char('c')), AppReturn::Continue);
    assert_eq!(a.watchers_started(), 1);
}

#[test]
fn escape_closes_the_help_first() {
    let mut a = app();
    assert_eq!(a.do_action(Key::Char('h')), AppReturn::Continue);
    assert!(a.global().help);
    assert_eq!(a.do_action(Key::Esc), AppReturn::Continue);
    assert!(!a.global().help);
    assert_eq!(a.do_action(Key::Esc), AppReturn::Exit);
}

#[test]
fn toggles() {
    let mut a = app();
    a.do_action(Key::Char('l'));
    assert_eq!(*a.global(), Global { logs: true, help: false });
    a.do_action(Key::Char('?'));
    assert_eq!(*a.global(), Global { logs: true, help: true });
    a.do_action(Key::Char('l'));
    a.do_action(Key::Char('h'));
    assert_eq!(*a.global(), Global::default());
}

#[test]
fn view_keys_switch_views() {
    let mut a = app();
    assert_eq!(a.do_action(Key::Char('d')), AppReturn::Continue);
    assert!(is_deployments(&a));
    assert_eq!(a.watchers_started(), 2);
    a.do_action(Key::Char('p'));
    assert!(is_pods(&a));
    a.do_action(Key::Char('p'));
    assert!(is_pods(&a));
    assert_eq!(a.watchers_started(), 4);
    a.do_action(Key::Left);
    assert!(is_deployments(&a));
    a.do_action(Key::Left);
    assert!(is_pods(&a));
    a.do_action(Key::Right);
    assert!(is_deployments(&a));
    a.do_action(Key::Right);
    assert!(is_pods(&a));
    assert_eq!(a.watchers_started(), 8);
    a.prev();
    assert!(is_deployments(&a));
    a.next();
    assert!(is_pods(&a));
}

#[test]
fn a_switch_starts_a_fresh_watcher() {
    let mut a = app();
    assert_eq!(a.advance_pods(Signal::Begin), Some(Action::Connect));
    assert_eq!(a.advance_pods(Signal::Connected), Some(Action::Watch));
    a.advance_pods(Signal::Watched(Event::Added(pod("a"))));
    draw_at(&mut a, &NOW);
    a.do_action(Key::Char('k'));
    a.do_action(Key::Char('d'));
    assert_eq!(a.next_request(), Dispatch::Idle);
    assert_eq!(a.advance_pods(Signal::Watched(Event::Added(pod("b")))), None);
    a.do_action(Key::Char('p'));
    match a.state() {
        AppState::Pods(w) => {
            assert!(w.items().is_none());
            assert_eq!(w.selected(), None);
            assert_eq!(w.queued(), 0);
        },
        _ => panic!("not the pod view"),
    }
}

#[test]
fn other_keys_reach_the_list() {
    let mut a = app();
    a.advance_pods(Signal::Begin);
    a.advance_pods(Signal::Connected);
    a.advance_pods(Signal::Watched(Event::Added(pod("a"))));
    a.advance_pods(Signal::Watched(Event::Added(pod("b"))));
    draw_at(&mut a, &NOW);
    assert_eq!(a.do_action(Key::Down), AppReturn::Continue);
    assert_eq!(a.do_action(Key::Char('k')), AppReturn::Continue);
    assert_eq!(
        a.next_request(),
        Dispatch::Send(Request::DeletePod {
            namespace: "prod".to_string(),
            name: "b".to_string(),
            uid: Some("uid-b".to_string()),
        })
    );
    assert_eq!(a.advance_deployments(Signal::Begin), None);
}

#[test]
fn events_are_handled() {
    let mut a = app();
    assert_eq!(a.on_event(InputEvent::Render), AppReturn::Continue);
    assert_eq!(a.on_event(InputEvent::Input(Key::Char('d'))), AppReturn::Continue);
    assert!(is_deployments(&a));
    assert_eq!(a.on_event(InputEvent::Input(Key::Char('q'))), AppReturn::Exit);
    assert_eq!(a.on_event(InputEvent::Quit), AppReturn::Exit);
    assert_eq!(key_event(Some(Key::Up)), InputEvent::Input(Key::Up));
    assert_eq!(key_event(None), InputEvent::Quit);
}

#[test]
fn initializing_view_does_nothing() {
    let mut state = AppState::default();
    assert!(matches!(state, AppState::Initializing));
    assert!(state.render_at(&NOW).is_none());
    assert!(state.render().is_none());
    state.on_key(Key::Down);
    assert_eq!(state.next_request(), Dispatch::Idle);
    assert_eq!(state.advance_pods(Signal::Begin), None);
    assert_eq!(state.advance_deployments(Signal::Begin), None);
}

#[test]
fn screen_has_title_view_and_log() {
    let mut a = app();
    match draw_default_at(&mut a, &NOW) {
        Screen::Default { title, layout, main, logs } => {
            assert_eq!(title, "Podium (prod)");
            assert_eq!(layout, vec![Constraint::Length(3), Constraint::Percentage(60)]);
            assert!(matches!(main, Some(Panel::Table(..))));
            assert!(!logs);
        },
        Screen::Help => panic!("the help is shown"),
    }
    a.do_action(Key::Char('l'));
    match draw(&mut a) {
        Screen::Default { layout, logs, .. } => {
            assert_eq!(
                layout,
                vec![Constraint::Length(3), Constraint::Percentage(60), Constraint::Percentage(40)]
            );
            assert!(logs);
        },
        Screen::Help => panic!("the help is shown"),
    }
}

#[test]
fn help_covers_the_screen() {
    let mut a = app();
    a.advance_pods(Signal::Begin);
    a.advance_pods(Signal::Connected);
    a.advance_pods(Signal::Watched(Event::Added(pod("a"))));
    a.do_action(Key::Char('h'));
    assert_eq!(draw_at(&mut a, &NOW), Screen::Help);
    match a.state() {
        AppState::Pods(w) => assert_eq!(w.selected(), None),
        _ => panic!("not the pod view"),
    }
    a.do_action(Key::Char('h'));
    assert!(matches!(draw_at(&mut a, &NOW), Screen::Default { .. }));
    match a.state() {
        AppState::Pods(w) => assert_eq!(w.selected(), Some(0)),
        _ => panic!("not the pod view"),
    }
}

#[test]
fn title_names_the_namespace() {
    assert_eq!(draw_title(&Args { namespace: Some("kube-system".to_string()), verbose: 0 }), "Podium (kube-system)");
    assert_eq!(draw_title(&Args { namespace: None, verbose: 0 }), "Podium (<current>)");
    assert_eq!(draw_layout(false).len(), 2);
    assert_eq!(draw_layout(true).len(), 3);
}

#[test]
fn verbosity_sets_the_log_level() {
    assert_eq!(log_level(0), LogLevel::Warn);
    assert_eq!(log_level(1), LogLevel::Info);
    assert_eq!(log_level(2), LogLevel::Debug);
    assert_eq!(log_level(3), LogLevel::Trace);
    assert_eq!(log_level(255), LogLevel::Trace);
}

#[test]
fn client_keeps_its_settings() {
    let client = Client::new(Args { namespace: None, verbose: 7 });
    assert_eq!(client.namespace(), None);
    assert_eq!(client.verbose(), 7);
    let copy = client.clone();
    assert_eq!(copy.verbose(), 7);
    let named = Client::new(Args { namespace: Some("x".to_string()), verbose: 0 }).clone();
    assert_eq!(named.namespace(), Some(&"x".to_string()));
    let args = Args { namespace: Some("y".to_string()), verbose: 1 }.clone();
    assert_eq!(args.namespace, Some("y".to_string()));
    assert_eq!(args.verbose, 1);
}

#[test]
fn failures_have_their_text() {
    assert_eq!(
        RunError::Config("no file".to_string()).to_text(),
        "Failed to evaluate configuration: no file"
    );
    assert_eq!(RunError::Kube("tls".to_string()).to_text(), "Failed to create client: tls");
    assert_eq!(RunError::Operation("nope".to_string()).to_text(), "Failed to create client: nope");
}

#[test]
fn overlays_stack() {
    let mut overlays = Overlays::default();
    assert!(overlays.top().is_none());
    let first = overlays.push(Overlay::Message("one".to_string()));
    let second = overlays.push(Overlay::Message("two".to_string()));
    assert_eq!(first.index(), 0);
    assert_eq!(second.index(), 1);
    assert_eq!(overlays.top(), Some(&Overlay::Message("two".to_string())));
}
