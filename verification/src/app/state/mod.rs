//! The views of the dashboard, one per kind of object.
pub mod deployments;
pub mod list;
pub mod pods;

use crate::app::state::deployments::{Deployment, Deployments};
use crate::app::state::list::{
    advanced, dispatched, keyed, rendered, Action, Dispatch, DispatchView, ListWatcher, Signal,
};
use crate::app::state::pods::{Pod, Pods};
use crate::app::ui::Panel;
use crate::input::key::Key;
use crate::k8s::Time;
use vstd::prelude::*;

verus! {

/// The view that the dashboard is in.
pub enum AppState {
    Initializing,
    Pods(ListWatcher<Pods>),
    Deployments(ListWatcher<Deployments>),
}

impl Default for AppState {
    fn default() -> (state: AppState)
        ensures
            state is Initializing,
    {
        AppState::Initializing
    }
}

/// How drawing relates the view before it to the view after it and to the
/// panel: the list of the view is drawn; before a view is chosen nothing
/// is.
pub open spec fn view_rendered(
    before: AppState,
    now: Time,
    after: AppState,
    panel: Option<Panel>,
) -> bool {
    match before {
        AppState::Initializing => after is Initializing && panel is None,
        AppState::Pods(was) => {
            &&& after matches AppState::Pods(is)
            &&& panel matches Some(shown)
            &&& is.settings() == was.settings()
            &&& is.queue() == was.queue()
            &&& rendered::<Pods>(was.state(), now, is.state(), shown.deep_view())
        },
        AppState::Deployments(was) => {
            &&& after matches AppState::Deployments(is)
            &&& panel matches Some(shown)
            &&& is.settings() == was.settings()
            &&& is.queue() == was.queue()
            &&& rendered::<Deployments>(was.state(), now, is.state(), shown.deep_view())
        },
    }
}

/// How a key relates the view before it to the view after it: the list of
/// the view takes the key; before a view is chosen it is lost.
pub open spec fn view_keyed(before: AppState, key: Key, after: AppState) -> bool {
    match before {
        AppState::Initializing => after is Initializing,
        AppState::Pods(was) => {
            &&& after matches AppState::Pods(is)
            &&& is.settings() == was.settings()
            &&& keyed::<Pods>(was.state(), was.queue(), key, is.state(), is.queue())
        },
        AppState::Deployments(was) => {
            &&& after matches AppState::Deployments(is)
            &&& is.settings() == was.settings()
            &&& keyed::<Deployments>(was.state(), was.queue(), key, is.state(), is.queue())
        },
    }
}

/// How a dispatch relates the view before it to the view after it: the
/// list of the view hands out its oldest command; before a view is chosen
/// there is none.
pub open spec fn view_dispatched(before: AppState, after: AppState, dispatch: DispatchView) -> bool {
    match before {
        AppState::Initializing => after is Initializing && dispatch == DispatchView::Idle,
        AppState::Pods(was) => {
            &&& after matches AppState::Pods(is)
            &&& is.settings() == was.settings()
            &&& is.state() == was.state()
            &&& dispatched::<Pods>(was.queue(), is.queue(), dispatch)
        },
        AppState::Deployments(was) => {
            &&& after matches AppState::Deployments(is)
            &&& is.settings() == was.settings()
            &&& is.state() == was.state()
            &&& dispatched::<Deployments>(was.queue(), is.queue(), dispatch)
        },
    }
}

/// How a step of the watch of pods relates the view before it to the view
/// after it: the list of pods takes the step; in any other view nothing
/// changes and there is nothing to do.
pub open spec fn pods_advanced(
    before: AppState,
    signal: Signal<Pod>,
    after: AppState,
    action: Option<Action>,
) -> bool {
    match before {
        AppState::Pods(was) => {
            &&& after matches AppState::Pods(is)
            &&& action matches Some(next)
            &&& is.settings() == was.settings()
            &&& is.queue() == was.queue()
            &&& advanced(was.state(), signal, is.state(), next)
        },
        _ => after == before && action is None,
    }
}

/// How a step of the watch of deployments relates the view before it to
/// the view after it: the list of deployments takes the step; in any other
/// view nothing changes and there is nothing to do.
pub open spec fn deployments_advanced(
    before: AppState,
    signal: Signal<Deployment>,
    after: AppState,
    action: Option<Action>,
) -> bool {
    match before {
        AppState::Deployments(was) => {
            &&& after matches AppState::Deployments(is)
            &&& action matches Some(next)
            &&& is.settings() == was.settings()
            &&& is.queue() == was.queue()
            &&& advanced(was.state(), signal, is.state(), next)
        },
        _ => after == before && action is None,
    }
}

impl AppState {
    /// What the main part of the screen is to show at `now`.
    pub fn render_at(&mut self, now: &Time) -> (panel: Option<Panel>)
        ensures
            view_rendered(*old(self), *now, *final(self), panel),
    {
        match self {
            AppState::Pods(pods) => Some(pods.render_at(now)),
            AppState::Deployments(deployments) => Some(deployments.render_at(now)),
            AppState::Initializing => None,
        }
    }

    /// What the main part of the screen is to show now, by the system
    /// clock.
    pub fn render(&mut self) -> (panel: Option<Panel>)
        ensures
            exists|at: Time| view_rendered(*old(self), at, *final(self), panel),
    {
        let at = crate::k8s::now();
        self.render_at(&at)
    }

    /// Hands a key to the list of the view.
    pub fn on_key(&mut self, key: Key)
        ensures
            view_keyed(*old(self), key, *final(self)),
    {
        match self {
            AppState::Pods(pods) => pods.on_key(key),
            AppState::Deployments(deployments) => deployments.on_key(key),
            AppState::Initializing => {},
        }
    }

    /// Takes the command that has waited longest in the view.
    pub fn next_request(&mut self) -> (dispatch: Dispatch)
        ensures
            view_dispatched(*old(self), *final(self), dispatch.deep_view()),
    {
        match self {
            AppState::Pods(pods) => pods.next_request(),
            AppState::Deployments(deployments) => deployments.next_request(),
            AppState::Initializing => Dispatch::Idle,
        }
    }

    /// Takes one step of the watch of pods. Where the view is not that of
    /// pods nothing changes and there is nothing to do.
    pub fn advance_pods(&mut self, signal: Signal<Pod>) -> (action: Option<Action>)
        ensures
            pods_advanced(*old(self), signal, *final(self), action),
    {
        match self {
            AppState::Pods(pods) => Some(pods.advance(signal)),
            _ => None,
        }
    }

    /// Takes one step of the watch of deployments. Where the view is not
    /// that of deployments nothing changes and there is nothing to do.
    pub fn advance_deployments(&mut self, signal: Signal<Deployment>) -> (action: Option<Action>)
        ensures
            deployments_advanced(*old(self), signal, *final(self), action),
    {
        match self {
            AppState::Deployments(deployments) => Some(deployments.advance(signal)),
            _ => None,
        }
    }
}

} // verus!
