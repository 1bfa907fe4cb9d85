use podwatch::app::state::deployments::{
    Deployment, DeploymentSpec, DeploymentStatus, Deployments, Msg,
};
use podwatch::app::state::list::{Action, Dispatch, ListResource, ListWatcher, Signal};
use podwatch::app::ui::state::TableState;
use podwatch::app::ui::{Color, Constraint, Panel, Style};
use podwatch::client::{Client, Request};
use podwatch::input::key::Key;
use podwatch::k8s::reflector::Event;
use podwatch::k8s::scale::scaled;
use podwatch::k8s::{ObjectMeta, Time};
use podwatch::Args;
use std::sync::Arc;

const NOW: Time = Time(1_700_000_000);

fn deployment(name: &str, wanted: Option<i32>) -> Deployment {
    Deployment {
        metadata: ObjectMeta {
            name: Some(name.to_string()),
            generate_name: None,
            namespace: Some("default".to_string()),
            uid: None,
            creation_timestamp: Some(Time(NOW.0 - 3 * 3600)),
            deletion_timestamp: None,
        },
        spec: Some(DeploymentSpec { replicas: wanted }),
        status: None,
    }
}

fn with_status(name: &str, ready: i32, total: i32, updated: i32, available: i32) -> Deployment {
    let mut d = deployment(name, Some(total));
    d.status = Some(DeploymentStatus {
        ready_replicas: Some(ready),
        replicas: Some(total),
        updated_replicas: Some(updated),
        available_replicas: Some(available),
    });
    d
}

fn scale_to(name: &str, replicas: i32) -> Option<Request> {
    Some(Request::ScaleDeployment { name: name.to_string(), replicas })
}

#[test]
fn scale_by_delta_saturates_and_skips_no_change() {
    assert_eq!(scaled(2, -5), Some(-3));
    assert_eq!(scaled(2, 1), Some(3));
    assert_eq!(scaled(2, 0), None);
    assert_eq!(scaled(i32::MAX, 1), None);
    assert_eq!(scaled(i32::MAX - 1, 5), Some(i32::MAX));
    assert_eq!(scaled(i32::MIN, -1), None);
    assert_eq!(scaled(i32::MIN + 1, -5), Some(i32::MIN));
    assert_eq!(scaled(i32::MIN, i32::MAX), Some(-1));
    assert_eq!(scaled(-2147483647, i32::MIN), Some(i32::MIN));
}

#[test]
fn scale_request_uses_the_count_at_command_time() {
    assert_eq!(Deployments::scale(&deployment("web", Some(2)), -5), scale_to("web", -3));
    assert_eq!(Deployments::scale(&deployment("web", Some(2)), 1), scale_to("web", 3));
    assert_eq!(Deployments::scale(&deployment("web", Some(2)), 0), None);
    assert_eq!(Deployments::scale(&deployment("web", None), 1), scale_to("web", 1));
    let mut bare = deployment("web", None);
    bare.spec = None;
    assert_eq!(Deployments::scale(&bare, -1), scale_to("web", -1));
    assert_eq!(Deployments::scale(&deployment("web", Some(i32::MAX)), 1), None);
}

#[test]
fn process_maps_commands_to_requests() {
    let d = Arc::new(deployment("api", Some(4)));
    assert_eq!(
        Deployments::process(Msg::Restart(d.clone())),
        Some(Request::RestartDeployment { name: "api".to_string() })
    );
    assert_eq!(Deployments::process(Msg::ScaleUp(d.clone())), scale_to("api", 5));
    assert_eq!(Deployments::process(Msg::ScaleDown(d)), scale_to("api", 3));
    let top = Arc::new(deployment("top", Some(i32::MAX)));
    assert_eq!(Deployments::process(Msg::ScaleUp(top)), None);
    assert_eq!(
        Deployments::restart(&deployment("api", None)),
        Request::RestartDeployment { name: "api".to_string() }
    );
}

#[test]
fn keys_map_to_commands_on_the_selection() {
    let items = vec![Arc::new(deployment("b", Some(1))), Arc::new(deployment("a", Some(2)))];
    let mut state = TableState::new();
    state.select(Some(1));
    match Deployments::on_key(&items, &state, Key::Char('r')) {
        Some(Msg::Restart(d)) => assert_eq!(d.metadata.name_any(), "b"),
        _ => panic!("no restart"),
    }
    match Deployments::on_key(&items, &state, Key::Char('+')) {
        Some(Msg::ScaleUp(d)) => assert_eq!(d.metadata.name_any(), "b"),
        _ => panic!("no scale up"),
    }
    state.select(Some(0));
    match Deployments::on_key(&items, &state, Key::Char('-')) {
        Some(Msg::ScaleDown(d)) => assert_eq!(d.metadata.name_any(), "a"),
        _ => panic!("no scale down"),
    }
    assert!(Deployments::on_key(&items, &state, Key::Char('k')).is_none());
    assert!(Deployments::on_key(&items, &state, Key::Enter).is_none());
    state.select(Some(2));
    assert!(Deployments::on_key(&items, &state, Key::Char('r')).is_none());
    state.select(None);
    assert!(Deployments::on_key(&items, &state, Key::Char('+')).is_none());
}

#[test]
fn with_selection_indexes_the_sorted_list() {
    let items = vec![
        Arc::new(deployment("zeta", None)),
        Arc::new(deployment("alpha", None)),
        Arc::new(deployment("mid", None)),
    ];
    let mut state = TableState::new();
    assert!(Deployments::with_selection(&items, &state).is_none());
    state.select(Some(0));
    assert_eq!(Deployments::with_selection(&items, &state).unwrap().metadata.name_any(), "alpha");
    state.select(Some(2));
    assert_eq!(Deployments::with_selection(&items, &state).unwrap().metadata.name_any(), "zeta");
    state.select(Some(3));
    assert!(Deployments::with_selection(&items, &state).is_none());
}

#[test]
fn row_shows_counts_and_age() {
    let row = Deployments::make_row(&with_status("web", 2, 3, 1, 2), &NOW);
    assert_eq!(row.cells, vec!["web", "2/3", "1", "2", "3h"]);
    assert_eq!(row.style, Style { fg: Some(Color::Yellow), bg: None, bold: false });
}

#[test]
fn row_styles_follow_readiness() {
    let red = Style { fg: Some(Color::Red), bg: None, bold: false };
    assert_eq!(Deployments::make_row(&with_status("a", 0, 3, 0, 0), &NOW).style, red);
    assert_eq!(Deployments::make_row(&with_status("a", 0, 0, 0, 0), &NOW).style, red);
    assert_eq!(Deployments::make_row(&with_status("a", 3, 3, 3, 3), &NOW).style, Style::default());
    assert_eq!(Deployments::make_row(&with_status("a", 4, 3, 3, 3), &NOW).style, Style::default());
    assert_eq!(Deployments::make_row(&deployment("a", Some(3)), &NOW).style, red);
}

#[test]
fn row_without_status_shows_zeros() {
    let mut d = deployment("web", Some(3));
    d.metadata.creation_timestamp = None;
    let row = Deployments::make_row(&d, &NOW);
    assert_eq!(row.cells, vec!["web", "0/0", "0", "0", ""]);
    d.status = Some(DeploymentStatus {
        ready_replicas: None,
        replicas: Some(5),
        updated_replicas: None,
        available_replicas: Some(-1),
    });
    let row = Deployments::make_row(&d, &NOW);
    assert_eq!(row.cells, vec!["web", "0/5", "0", "-1", ""]);
}

#[test]
fn table_is_sorted_by_name() {
    let mut items = vec![
        Arc::new(with_status("web", 1, 1, 1, 1)),
        Arc::new(with_status("api", 0, 2, 0, 0)),
    ];
    let table = Deployments::render_table(&mut items, &NOW);
    assert_eq!(table.title, "Deployments");
    assert_eq!(table.header, vec!["Name", "Ready", "Updated", "Available", "Age"]);
    assert_eq!(
        table.widths,
        vec![Constraint::Min(64), Constraint::Min(15), Constraint::Min(10), Constraint::Min(10)]
    );
    assert_eq!(table.rows.len(), 2);
    assert_eq!(table.rows[0].cells[0], "api");
    assert_eq!(table.rows[1].cells[0], "web");
    assert_eq!(items[0].metadata.name_any(), "api");
}

#[test]
fn watcher_scales_the_selected_deployment() {
    let mut w: ListWatcher<Deployments> =
        ListWatcher::new(Client::new(Args { namespace: None, verbose: 0 }));
    assert_eq!(w.advance(Signal::Begin), Action::Connect);
    assert_eq!(w.advance(Signal::Connected), Action::Watch);
    w.advance(Signal::Watched(Event::Added(Arc::new(deployment("web", Some(2))))));
    w.advance(Signal::Watched(Event::Added(Arc::new(deployment("api", Some(7))))));
    match w.render_at(&NOW) {
        Panel::Table(table, selected) => {
            assert_eq!(table.rows.len(), 2);
            assert_eq!(selected, Some(0));
        },
        Panel::Error(_) => panic!("an error is shown"),
    }
    w.on_key(Key::Char('+'));
    w.on_key(Key::Down);
    w.on_key(Key::Char('-'));
    w.on_key(Key::Char('r'));
    w.advance(Signal::Watched(Event::Modified(Arc::new(deployment("web", Some(50))))));
    assert_eq!(w.next_request(), Dispatch::Send(scale_to("api", 8).unwrap()));
    assert_eq!(w.next_request(), Dispatch::Send(scale_to("web", 1).unwrap()));
    assert_eq!(
        w.next_request(),
        Dispatch::Send(Request::RestartDeployment { name: "web".to_string() })
    );
    assert_eq!(w.next_request(), Dispatch::Idle);
}

#[test]
fn default_deployment_is_empty() {
    let d = Deployment::default();
    assert_eq!(Deployments::make_row(&d, &NOW).cells, vec!["", "0/0", "0", "0", ""]);
    assert_eq!(Deployments::scale(&d, 1), scale_to("", 1));
    let s = DeploymentStatus::default();
    assert!(s.ready_replicas.is_none() && s.replicas.is_none());
}
