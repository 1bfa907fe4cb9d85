//! The deployment view: what a deployment shows in its row, and how it is
//! restarted and scaled.
use crate::app::state::list::{cells5, header5, item_at, selected_item, ListResource};
use crate::app::state::pods::{age_text, make_age};
use crate::app::ui::state::TableState;
use crate::app::ui::{plain, Color, Constraint, Row, RowView, Style, Table, TableView};
use crate::client::{Request, RequestView};
use crate::input::key::Key;
use crate::k8s::order::{sort_by_name, sorted_by_name};
use crate::k8s::scale::{scale_target, scaled};
use crate::k8s::{ObjectMeta, Resource, Time};
use crate::text::{push_signed_decimal, signed_decimal, signed_decimal_string};
use std::sync::Arc;
use vstd::prelude::*;
use vstd::string::StringExecFns;

verus! {

/// What a deployment should be.
#[derive(Clone, Debug)]
pub struct DeploymentSpec {
    pub replicas: Option<i32>,
}

/// What a deployment is.
#[derive(Clone, Debug)]
pub struct DeploymentStatus {
    pub ready_replicas: Option<i32>,
    pub replicas: Option<i32>,
    pub updated_replicas: Option<i32>,
    pub available_replicas: Option<i32>,
}

/// A deployment, as far as the dashboard reads it.
#[derive(Clone, Debug)]
pub struct Deployment {
    pub metadata: ObjectMeta,
    pub spec: Option<DeploymentSpec>,
    pub status: Option<DeploymentStatus>,
}

impl Default for Deployment {
    fn default() -> (deployment: Deployment)
        ensures
            deployment.metadata.name is None,
            deployment.metadata.generate_name is None,
            deployment.metadata.namespace is None,
            deployment.metadata.uid is None,
            deployment.metadata.creation_timestamp is None,
            deployment.metadata.deletion_timestamp is None,
            deployment.spec is None,
            deployment.status is None,
    {
        Deployment { metadata: ObjectMeta::default(), spec: None, status: None }
    }
}

impl Default for DeploymentStatus {
    fn default() -> (status: DeploymentStatus)
        ensures
            status.ready_replicas is None,
            status.replicas is None,
            status.updated_replicas is None,
            status.available_replicas is None,
    {
        DeploymentStatus {
            ready_replicas: None,
            replicas: None,
            updated_replicas: None,
            available_replicas: None,
        }
    }
}

impl Resource for Deployment {
    open spec fn spec_meta(&self) -> ObjectMeta {
        self.metadata
    }

    fn meta(&self) -> (meta: &ObjectMeta) {
        &self.metadata
    }
}

/// A command on a deployment, as it was when the command was given.
pub enum Msg {
    Restart(Arc<Deployment>),
    ScaleUp(Arc<Deployment>),
    ScaleDown(Arc<Deployment>),
}

/// The kind of the deployment view.
pub struct Deployments;

/// A count that may be absent: zero where it is.
pub open spec fn count_or_zero(count: Option<i32>) -> i32 {
    match count {
        Some(count) => count,
        None => 0,
    }
}

/// The counts that the row of a deployment shows: ready, total, updated
/// and available replicas; all zero without a status.
pub open spec fn replica_counts(deployment: Deployment) -> (i32, i32, i32, i32) {
    match deployment.status {
        Some(status) => (
            count_or_zero(status.ready_replicas),
            count_or_zero(status.replicas),
            count_or_zero(status.updated_replicas),
            count_or_zero(status.available_replicas),
        ),
        None => (0, 0, 0, 0),
    }
}

/// The style of the row of a deployment: red with no replica ready, yellow
/// with fewer ready than there are.
pub open spec fn readiness_style(ready: i32, total: i32) -> Style {
    if ready == 0 {
        Style { fg: Some(Color::Red), bg: None, bold: false }
    } else if ready < total {
        Style { fg: Some(Color::Yellow), bg: None, bold: false }
    } else {
        plain()
    }
}

/// The row of a deployment as seen at `now`: its name, ready over total
/// replicas, updated replicas, available replicas and age.
pub open spec fn deployment_row(deployment: Deployment, now: Time) -> RowView {
    let (ready, total, updated, available) = replica_counts(deployment);
    RowView {
        cells: seq![
            deployment.metadata.spec_name_any(),
            signed_decimal(ready as int).push('/') + signed_decimal(total as int),
            signed_decimal(updated as int),
            signed_decimal(available as int),
            age_text(deployment.metadata, now),
        ],
        style: readiness_style(ready, total),
    }
}

/// The rows of the deployments as seen at `now`, one for each, in their
/// order.
pub open spec fn deployment_rows(items: Seq<Arc<Deployment>>, now: Time) -> Seq<RowView> {
    Seq::new(items.len(), |i: int| deployment_row(*items[i], now))
}

/// The number of replicas that a deployment should have so far: zero where
/// none is set.
pub open spec fn wanted_replicas(deployment: Deployment) -> i32 {
    match deployment.spec {
        Some(spec) => count_or_zero(spec.replicas),
        None => 0,
    }
}

/// What scaling a deployment by `amount` asks of the backend: to set the
/// number of replicas to the sum of the number wanted when the command was
/// given and `amount`, kept within the bounds of the number type; nothing
/// where that is the number wanted already.
pub open spec fn scale_request(deployment: Deployment, amount: i32) -> Option<RequestView> {
    match scale_target(wanted_replicas(deployment), amount) {
        Some(replicas) => Some(
            RequestView::ScaleDeployment { name: deployment.metadata.spec_name_any(), replicas },
        ),
        None => None,
    }
}

/// What restarting a deployment asks of the backend.
pub open spec fn restart_request(deployment: Deployment) -> RequestView {
    RequestView::RestartDeployment { name: deployment.metadata.spec_name_any() }
}

fn or_zero(count: Option<i32>) -> (value: i32)
    ensures
        value == count_or_zero(count),
{
    match count {
        Some(count) => count,
        None => 0,
    }
}

impl Deployments {
    /// The selected deployment: the one in the selected row of the
    /// deployments in the order of their names; none where no row of the
    /// list is selected.
    pub fn with_selection(
        deployments: &Vec<Arc<Deployment>>,
        state: &TableState,
    ) -> (selected: Option<Arc<Deployment>>)
        ensures
            selected == item_at(sorted_by_name(deployments@), state.selection()),
    {
        selected_item(deployments, state)
    }

    /// The row of a deployment as seen at `now`.
    pub fn make_row(deployment: &Deployment, now: &Time) -> (row: Row)
        ensures
            row.deep_view() == deployment_row(*deployment, *now),
    {
        let name = deployment.metadata.name_any();
        let (ready, total, updated, available) = match &deployment.status {
            Some(status) => (
                or_zero(status.ready_replicas),
                or_zero(status.replicas),
                or_zero(status.updated_replicas),
                or_zero(status.available_replicas),
            ),
            None => (0, 0, 0, 0),
        };
        let age = make_age(&deployment.metadata, now);
        let style = if ready == 0 {
            Style { fg: Some(Color::Red), bg: None, bold: false }
        } else if ready < total {
            Style { fg: Some(Color::Yellow), bg: None, bold: false }
        } else {
            Style { fg: None, bg: None, bold: false }
        };
        let mut fraction = String::new();
        proof {
            reveal_strlit("/");
        }
        push_signed_decimal(&mut fraction, ready as i64);
        fraction.append("/");
        push_signed_decimal(&mut fraction, total as i64);
        assert(fraction@ =~= deployment_row(*deployment, *now).cells[1]);
        let updated_text = signed_decimal_string(updated as i64);
        let available_text = signed_decimal_string(available as i64);
        let cells = cells5(name, fraction, updated_text, available_text, age);
        assert(cells.deep_view() =~= deployment_row(*deployment, *now).cells);
        Row { cells, style }
    }

    /// What restarting a deployment asks of the backend.
    pub fn restart(deployment: &Deployment) -> (request: Request)
        ensures
            request.deep_view() == restart_request(*deployment),
    {
        Request::RestartDeployment { name: deployment.metadata.name_any() }
    }

    /// What scaling a deployment by `amount` asks of the backend.
    pub fn scale(deployment: &Deployment, amount: i32) -> (request: Option<Request>)
        ensures
            request.deep_view() == scale_request(*deployment, amount),
    {
        let current: i32 = match &deployment.spec {
            Some(spec) => or_zero(spec.replicas),
            None => 0,
        };
        match scaled(current, amount) {
            Some(replicas) => Some(
                Request::ScaleDeployment { name: deployment.metadata.name_any(), replicas },
            ),
            None => None,
        }
    }
}

impl ListResource for Deployments {
    type Resource = Deployment;

    type Message = Msg;

    open spec fn table(items: Seq<Arc<Deployment>>, now: Time) -> TableView {
        TableView {
            title: "Deployments"@,
            header: seq!["Name"@, "Ready"@, "Updated"@, "Available"@, "Age"@],
            widths: seq![
                Constraint::Min(64),
                Constraint::Min(15),
                Constraint::Min(10),
                Constraint::Min(10),
            ],
            rows: deployment_rows(items, now),
        }
    }

    fn render_table(items: &mut Vec<Arc<Deployment>>, now: &Time) -> (table: Table) {
        sort_by_name(items);
        let mut rows: Vec<Row> = Vec::new();
        let mut i: usize = 0;
        while i < items.len()
            invariant
                i <= items.len(),
                rows.len() == i,
                forall|j: int|
                    0 <= j < i ==> rows[j].deep_view() == deployment_row(*items[j], *now),
            decreases items.len() - i,
        {
            rows.push(Deployments::make_row(&items[i], now));
            i += 1;
        }
        assert(rows.deep_view() =~= deployment_rows(items@, *now));
        let mut widths: Vec<Constraint> = Vec::new();
        widths.push(Constraint::Min(64));
        widths.push(Constraint::Min(15));
        widths.push(Constraint::Min(10));
        widths.push(Constraint::Min(10));
        assert(widths@ =~= seq![
            Constraint::Min(64),
            Constraint::Min(15),
            Constraint::Min(10),
            Constraint::Min(10),
        ]);
        Table {
            title: String::from_str("Deployments"),
            header: header5("Name", "Ready", "Updated", "Available", "Age"),
            widths,
            rows,
        }
    }

    /// The key `r` restarts the selected deployment, `+` scales it up by
    /// one and `-` down by one; no other key is a command.
    open spec fn message(
        items: Seq<Arc<Deployment>>,
        selected: Option<usize>,
        key: Key,
    ) -> Option<Msg> {
        match item_at(sorted_by_name(items), selected) {
            Some(deployment) => if key == Key::Char('r') {
                Some(Msg::Restart(deployment))
            } else if key == Key::Char('+') {
                Some(Msg::ScaleUp(deployment))
            } else if key == Key::Char('-') {
                Some(Msg::ScaleDown(deployment))
            } else {
                None
            },
            None => None,
        }
    }

    fn on_key(items: &Vec<Arc<Deployment>>, state: &TableState, key: Key) -> (message: Option<
        Msg,
    >) {
        match key {
            Key::Char('r') => match Deployments::with_selection(items, state) {
                Some(deployment) => Some(Msg::Restart(deployment)),
                None => None,
            },
            Key::Char('+') => match Deployments::with_selection(items, state) {
                Some(deployment) => Some(Msg::ScaleUp(deployment)),
                None => None,
            },
            Key::Char('-') => match Deployments::with_selection(items, state) {
                Some(deployment) => Some(Msg::ScaleDown(deployment)),
                None => None,
            },
            _ => None,
        }
    }

    open spec fn request(message: Msg) -> Option<RequestView> {
        match message {
            Msg::Restart(deployment) => Some(restart_request(*deployment)),
            Msg::ScaleUp(deployment) => scale_request(*deployment, 1),
            Msg::ScaleDown(deployment) => scale_request(*deployment, -1i32),
        }
    }

    fn process(message: Msg) -> (request: Option<Request>) {
        match message {
            Msg::Restart(deployment) => Some(Deployments::restart(&deployment)),
            Msg::ScaleUp(deployment) => Deployments::scale(&deployment, 1),
            Msg::ScaleDown(deployment) => Deployments::scale(&deployment, -1),
        }
    }
}

} // verus!
