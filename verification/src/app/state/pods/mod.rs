//! The pod view: what a pod shows in its row, and how a pod is killed.
pub mod data;

use crate::app::state::list::{
    cells5, header5, item_at, selected_item, ListResource, ListWatcher,
};
use crate::app::state::pods::data::{
    derived_state, make_ready, make_restarts_at, make_state_at, readiness, restart_summary,
    state_text, PodState, PodStateView, PodStatus,
};
use crate::app::ui::state::TableState;
use crate::app::ui::{plain, Color, Constraint, Row, RowView, Style, Table, TableView};
use crate::client::{Client, Request, RequestView};
use crate::input::key::Key;
use crate::k8s::order::{sort_by_name, sorted_by_name};
use crate::k8s::{age_between, ago_at, ObjectMeta, Resource, Time};
use std::sync::Arc;
use vstd::prelude::*;
use vstd::string::StringExecFns;

verus! {

/// A pod, as far as the dashboard reads it.
#[derive(Clone, Debug)]
pub struct Pod {
    pub metadata: ObjectMeta,
    pub status: Option<PodStatus>,
}

impl Default for Pod {
    fn default() -> (pod: Pod)
        ensures
            pod.metadata.name is None,
            pod.metadata.generate_name is None,
            pod.metadata.namespace is None,
            pod.metadata.uid is None,
            pod.metadata.creation_timestamp is None,
            pod.metadata.deletion_timestamp is None,
            pod.status is None,
    {
        Pod { metadata: ObjectMeta::default(), status: None }
    }
}

impl Resource for Pod {
    open spec fn spec_meta(&self) -> ObjectMeta {
        self.metadata
    }

    fn meta(&self) -> (meta: &ObjectMeta) {
        &self.metadata
    }
}

/// A command on a pod.
#[derive(Debug)]
pub enum Msg {
    /// Kill the pod, as it was when the command was given.
    KillPod(Arc<Pod>),
}

/// The kind of the pod view.
pub struct Pods;

impl Pods {
    /// A watcher of pods that has not begun its work.
    pub fn new(client: Client) -> (watcher: ListWatcher<Pods>)
        ensures
            watcher.fresh(client),
    {
        ListWatcher::new(client)
    }
}

/// The state of a pod as seen at `now`. A pod that is being deleted is
/// terminating, whatever its containers say.
pub open spec fn pod_state(pod: Pod, now: Time) -> PodStateView {
    if pod.metadata.deletion_timestamp is Some {
        PodStateView::Terminating
    } else {
        match pod.status {
            Some(status) => derived_state(status, now),
            None => PodStateView::Unknown,
        }
    }
}

/// The style of the row of a pod in the given state.
pub open spec fn state_style(state: PodStateView) -> Style {
    match state {
        PodStateView::Pending => Style { fg: None, bg: Some(Color::Rgb(128, 0, 128)), bold: false },
        PodStateView::Error => Style { fg: None, bg: Some(Color::Rgb(128, 0, 0)), bold: true },
        PodStateView::CrashLoopBackOff => Style {
            fg: None,
            bg: Some(Color::Rgb(128, 0, 0)),
            bold: false,
        },
        PodStateView::Terminating => Style {
            fg: None,
            bg: Some(Color::Rgb(128, 128, 0)),
            bold: false,
        },
        _ => plain(),
    }
}

/// The text of an optional text: nothing where there is none.
pub open spec fn text_or_empty(text: Option<Seq<char>>) -> Seq<char> {
    match text {
        Some(text) => text,
        None => Seq::empty(),
    }
}

/// The age of an object as seen at `now`; nothing where its creation is
/// not recorded or lies ahead.
pub open spec fn age_text(meta: ObjectMeta, now: Time) -> Seq<char> {
    match meta.creation_timestamp {
        Some(created) => text_or_empty(age_between(created, now)),
        None => Seq::empty(),
    }
}

/// The row of a pod as seen at `now`: its name, readiness, state, restarts
/// and age.
pub open spec fn pod_row(pod: Pod, now: Time) -> RowView {
    RowView {
        cells: seq![
            pod.metadata.spec_name_any(),
            match pod.status {
                Some(status) => text_or_empty(readiness(status)),
                None => Seq::empty(),
            },
            state_text(pod_state(pod, now)),
            match pod.status {
                Some(status) => match restart_summary(status, now) {
                    Some(text) => text,
                    None => "0"@,
                },
                None => "0"@,
            },
            age_text(pod.metadata, now),
        ],
        style: state_style(pod_state(pod, now)),
    }
}

/// The age of an object as seen at `now`.
pub fn make_age(meta: &ObjectMeta, now: &Time) -> (text: String)
    ensures
        text@ == age_text(*meta, *now),
{
    match &meta.creation_timestamp {
        Some(created) => match ago_at(created, now) {
            Some(text) => text,
            None => String::new(),
        },
        None => String::new(),
    }
}

fn style_of(state: &PodState) -> (style: Style)
    ensures
        style == state_style(state@),
{
    match state {
        PodState::Pending => Style { fg: None, bg: Some(Color::Rgb(128, 0, 128)), bold: false },
        PodState::Error => Style { fg: None, bg: Some(Color::Rgb(128, 0, 0)), bold: true },
        PodState::CrashLoopBackOff => Style {
            fg: None,
            bg: Some(Color::Rgb(128, 0, 0)),
            bold: false,
        },
        PodState::Terminating => Style { fg: None, bg: Some(Color::Rgb(128, 128, 0)), bold: false },
        _ => Style { fg: None, bg: None, bold: false },
    }
}

/// The row of a pod as seen at `now`.
pub fn make_row(pod: &Pod, now: &Time) -> (row: Row)
    ensures
        row.deep_view() == pod_row(*pod, *now),
{
    let name = pod.metadata.name_any();
    let ready = match &pod.status {
        Some(status) => match make_ready(status) {
            Some(text) => text,
            None => String::new(),
        },
        None => String::new(),
    };
    let state = if pod.metadata.deletion_timestamp.is_some() {
        PodState::Terminating
    } else {
        match &pod.status {
            Some(status) => make_state_at(status, now),
            None => PodState::Unknown,
        }
    };
    let restarts = match &pod.status {
        Some(status) => match make_restarts_at(status, now) {
            Some(text) => text,
            None => String::from_str("0"),
        },
        None => String::from_str("0"),
    };
    let age = make_age(&pod.metadata, now);
    let style = style_of(&state);
    let shown = state.to_text();
    let cells = cells5(name, ready, shown, restarts, age);
    assert(cells.deep_view() =~= pod_row(*pod, *now).cells);
    Row { cells, style }
}

/// The rows of the pods as seen at `now`, one for each, in their order.
pub open spec fn pod_rows(items: Seq<Arc<Pod>>, now: Time) -> Seq<RowView> {
    Seq::new(items.len(), |i: int| pod_row(*items[i], now))
}

/// What killing a pod asks of the backend: to delete the pod of that name
/// in its namespace if it still has the same unique id. A pod without a
/// namespace is left alone.
pub open spec fn kill_request(pod: Pod) -> Option<RequestView> {
    match pod.metadata.namespace {
        Some(namespace) => Some(
            RequestView::DeletePod {
                namespace: namespace@,
                name: pod.metadata.spec_name_any(),
                uid: pod.metadata.uid.deep_view(),
            },
        ),
        None => None,
    }
}

/// What killing a pod asks of the backend.
pub fn execute_kill(pod: &Pod) -> (request: Option<Request>)
    ensures
        request.deep_view() == kill_request(*pod),
{
    match &pod.metadata.namespace {
        Some(namespace) => {
            let uid = match &pod.metadata.uid {
                Some(uid) => Some(uid.clone()),
                None => None,
            };
            Some(
                Request::DeletePod {
                    namespace: namespace.clone(),
                    name: pod.metadata.name_any(),
                    uid,
                },
            )
        },
        None => None,
    }
}

impl ListResource for Pods {
    type Resource = Pod;

    type Message = Msg;

    open spec fn table(items: Seq<Arc<Pod>>, now: Time) -> TableView {
        TableView {
            title: "Pods"@,
            header: seq!["Name"@, "Ready"@, "State"@, "Restarts"@, "Age"@],
            widths: seq![
                Constraint::Min(64),
                Constraint::Min(10),
                Constraint::Min(20),
                Constraint::Min(15),
                Constraint::Min(10),
            ],
            rows: pod_rows(items, now),
        }
    }

    fn render_table(items: &mut Vec<Arc<Pod>>, now: &Time) -> (table: Table) {
        sort_by_name(items);
        let mut rows: Vec<Row> = Vec::new();
        let mut i: usize = 0;
        while i < items.len()
            invariant
                i <= items.len(),
                rows.len() == i,
                forall|j: int| 0 <= j < i ==> rows[j].deep_view() == pod_row(*items[j], *now),
            decreases items.len() - i,
        {
            rows.push(make_row(&items[i], now));
            i += 1;
        }
        assert(rows.deep_view() =~= pod_rows(items@, *now));
        let mut widths: Vec<Constraint> = Vec::new();
        widths.push(Constraint::Min(64));
        widths.push(Constraint::Min(10));
        widths.push(Constraint::Min(20));
        widths.push(Constraint::Min(15));
        widths.push(Constraint::Min(10));
        assert(widths@ =~= seq![
            Constraint::Min(64),
            Constraint::Min(10),
            Constraint::Min(20),
            Constraint::Min(15),
            Constraint::Min(10),
        ]);
        Table {
            title: String::from_str("Pods"),
            header: header5("Name", "Ready", "State", "Restarts", "Age"),
            widths,
            rows,
        }
    }

    /// The key `k` kills the selected pod; no other key is a command.
    open spec fn message(items: Seq<Arc<Pod>>, selected: Option<usize>, key: Key) -> Option<Msg> {
        if key == Key::Char('k') {
            match item_at(sorted_by_name(items), selected) {
                Some(pod) => Some(Msg::KillPod(pod)),
                None => None,
            }
        } else {
            None
        }
    }

    fn on_key(items: &Vec<Arc<Pod>>, state: &TableState, key: Key) -> (message: Option<Msg>) {
        match key {
            Key::Char('k') => match selected_item(items, state) {
                Some(pod) => Some(Msg::KillPod(pod)),
                None => None,
            },
            _ => None,
        }
    }

    open spec fn request(message: Msg) -> Option<RequestView> {
        match message {
            Msg::KillPod(pod) => kill_request(*pod),
        }
    }

    fn process(message: Msg) -> (request: Option<Request>) {
        match message {
            Msg::KillPod(pod) => execute_kill(&pod),
        }
    }
}

} // verus!
