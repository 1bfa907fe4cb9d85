//! The dashboard's state and what keys do to it.
pub mod state;
pub mod ui;

use crate::app::state::deployments::Deployment;
use crate::app::state::list::{Action, Dispatch, ListWatcher, Signal};
use crate::app::state::pods::Pod;
use crate::app::state::{
    deployments_advanced, pods_advanced, view_dispatched, view_keyed, view_rendered, AppState,
};
use crate::app::ui::Panel;
use crate::k8s::Time;
use crate::client::Client;
use crate::input::key::Key;
use crate::input::InputEvent;
use crate::Args;
use vstd::prelude::*;

verus! {

/// Whether the dashboard goes on after a key.
#[derive(Clone, Copy, Debug, PartialEq, Eq, Structural)]
pub enum AppReturn {
    Exit,
    Continue,
}

/// What is switched on for the whole screen.
#[derive(Clone, Copy, Debug, PartialEq, Eq, Structural)]
pub struct Global {
    /// Whether the log is shown below the view.
    pub logs: bool,
    /// Whether the help is shown in place of the view.
    pub help: bool,
}

impl Default for Global {
    fn default() -> (global: Global)
        ensures
            global == (Global { logs: false, help: false }),
    {
        Global { logs: false, help: false }
    }
}

/// The dashboard: the view it is in, its settings, and what is switched
/// on.
pub struct App {
    state: AppState,
    client: Client,
    args: Args,
    global: Global,
    started: u64,
}

/// The count after one more watcher was made; it starts over after the
/// largest number.
pub open spec fn one_more(count: u64) -> u64 {
    if count == u64::MAX {
        0
    } else {
        (count + 1) as u64
    }
}

/// Whether `after` is the dashboard `before` in a new view of pods, with a
/// fresh watcher.
pub open spec fn switched_to_pods(before: App, after: App) -> bool {
    &&& after.view() matches AppState::Pods(watcher)
    &&& watcher.fresh(before.settings())
    &&& after.switches() == before.switches()
    &&& after.watchers() == one_more(before.watchers())
}

/// Whether `after` is the dashboard `before` in a new view of deployments,
/// with a fresh watcher.
pub open spec fn switched_to_deployments(before: App, after: App) -> bool {
    &&& after.view() matches AppState::Deployments(watcher)
    &&& watcher.fresh(before.settings())
    &&& after.switches() == before.switches()
    &&& after.watchers() == one_more(before.watchers())
}

/// Whether `after` is the dashboard `before` in the other of the two views;
/// before a view is chosen there is no other.
pub open spec fn cycled(before: App, after: App) -> bool {
    match before.view() {
        AppState::Initializing => {
            &&& after.view() is Initializing
            &&& after.switches() == before.switches()
            &&& after.watchers() == before.watchers()
        },
        AppState::Pods(_) => switched_to_deployments(before, after),
        AppState::Deployments(_) => switched_to_pods(before, after),
    }
}

/// Whether all but the view stayed as it was.
pub open spec fn unmoved(before: App, after: App) -> bool {
    &&& after.settings() == before.settings()
    &&& after.options() == before.options()
    &&& after.switches() == before.switches()
    &&& after.watchers() == before.watchers()
}

/// Whether view and watcher count stayed as they were.
pub open spec fn same_view(before: App, after: App) -> bool {
    &&& after.view() == before.view()
    &&& after.watchers() == before.watchers()
}

/// What a key does to the dashboard. `Ctrl-c` and `q` end it. `Esc` closes
/// the help where it is open and ends the dashboard where it is not. `d`
/// and `p` open the views of deployments and of pods, each time with a
/// fresh watcher; the left and right keys go to the other view. `l`
/// switches the log, `h` and `?` the help. Every other key goes to the
/// list of the view.
pub open spec fn acted(before: App, key: Key, after: App, outcome: AppReturn) -> bool {
    &&& after.settings() == before.settings()
    &&& after.options() == before.options()
    &&& if key == Key::Ctrl('c') || key == Key::Char('q') {
        &&& outcome == AppReturn::Exit
        &&& same_view(before, after)
        &&& after.switches() == before.switches()
    } else if key == Key::Esc {
        &&& same_view(before, after)
        &&& if before.switches().help {
            &&& outcome == AppReturn::Continue
            &&& after.switches() == (Global { help: false, ..before.switches() })
        } else {
            &&& outcome == AppReturn::Exit
            &&& after.switches() == before.switches()
        }
    } else {
        &&& outcome == AppReturn::Continue
        &&& if key == Key::Char('d') {
            switched_to_deployments(before, after)
        } else if key == Key::Char('p') {
            switched_to_pods(before, after)
        } else if key == Key::Char('l') {
            &&& same_view(before, after)
            &&& after.switches() == (Global { logs: !before.switches().logs, ..before.switches() })
        } else if key == Key::Char('h') || key == Key::Char('?') {
            &&& same_view(before, after)
            &&& after.switches() == (Global { help: !before.switches().help, ..before.switches() })
        } else if key == Key::Left || key == Key::Right {
            cycled(before, after)
        } else {
            &&& view_keyed(before.view(), key, after.view())
            &&& after.switches() == before.switches()
            &&& after.watchers() == before.watchers()
        }
    }
}

impl App {
    /// The view that the dashboard is in.
    pub closed spec fn view(&self) -> AppState {
        self.state
    }

    /// The settings with which the backend is reached.
    pub closed spec fn settings(&self) -> Client {
        self.client
    }

    /// The command line options.
    pub closed spec fn options(&self) -> Args {
        self.args
    }

    /// What is switched on.
    pub closed spec fn switches(&self) -> Global {
        self.global
    }

    /// How many watchers the dashboard has made so far, counted up to the
    /// largest number and over again from zero.
    pub closed spec fn watchers(&self) -> u64 {
        self.started
    }

    /// A dashboard in the view of pods, with nothing switched on.
    pub fn new(args: Args) -> (app: Self)
        ensures
            app.options() == args,
            app.settings().args() == args,
            app.switches() == (Global { logs: false, help: false }),
            app.watchers() == 1,
            app.view() matches AppState::Pods(watcher) && watcher.fresh(app.settings()),
    {
        let client = Client::new(args.clone());
        Self {
            state: AppState::Pods(ListWatcher::new(client.clone())),
            client,
            args,
            global: Global { logs: false, help: false },
            started: 1,
        }
    }

    fn count_watcher(&mut self)
        ensures
            final(self).watchers() == one_more(old(self).watchers()),
            final(self).view() == old(self).view(),
            final(self).settings() == old(self).settings(),
            final(self).options() == old(self).options(),
            final(self).switches() == old(self).switches(),
    {
        self.started = if self.started == u64::MAX {
            0
        } else {
            self.started + 1
        };
    }

    fn show_pods(&mut self)
        ensures
            switched_to_pods(*old(self), *final(self)),
            final(self).settings() == old(self).settings(),
            final(self).options() == old(self).options(),
    {
        self.state = AppState::Pods(ListWatcher::new(self.client.clone()));
        self.count_watcher();
    }

    fn show_deployments(&mut self)
        ensures
            switched_to_deployments(*old(self), *final(self)),
            final(self).settings() == old(self).settings(),
            final(self).options() == old(self).options(),
    {
        self.state = AppState::Deployments(ListWatcher::new(self.client.clone()));
        self.count_watcher();
    }

    /// Handles a key.
    pub fn do_action(&mut self, key: Key) -> (outcome: AppReturn)
        ensures
            acted(*old(self), key, *final(self), outcome),
    {
        match key {
            Key::Ctrl('c') => {
                return AppReturn::Exit;
            },
            Key::Char('q') => {
                return AppReturn::Exit;
            },
            Key::Esc => {
                if self.global.help {
                    self.global.help = false;
                } else {
                    return AppReturn::Exit;
                }
            },
            Key::Char('d') => self.show_deployments(),
            Key::Char('p') => self.show_pods(),
            Key::Char('l') => {
                self.global.logs = !self.global.logs;
            },
            Key::Char('h') => {
                self.global.help = !self.global.help;
            },
            Key::Char('?') => {
                self.global.help = !self.global.help;
            },
            Key::Left => self.prev(),
            Key::Right => self.next(),
            _ => {
                self.state.on_key(key);
            },
        }
        AppReturn::Continue
    }

    /// Handles an event: a key acts, a tick of the render clock changes
    /// nothing, and the end of the events ends the dashboard.
    pub fn on_event(&mut self, event: InputEvent) -> (outcome: AppReturn)
        ensures
            match event {
                InputEvent::Input(key) => acted(*old(self), key, *final(self), outcome),
                InputEvent::Render => *final(self) == *old(self) && outcome == AppReturn::Continue,
                InputEvent::Quit => *final(self) == *old(self) && outcome == AppReturn::Exit,
            },
    {
        match event {
            InputEvent::Input(key) => self.do_action(key),
            InputEvent::Render => AppReturn::Continue,
            InputEvent::Quit => AppReturn::Exit,
        }
    }

    /// The view that the dashboard is in.
    pub fn state(&self) -> (state: &AppState)
        ensures
            *state == self.view(),
    {
        &self.state
    }

    /// What is switched on.
    pub fn global(&self) -> (global: &Global)
        ensures
            *global == self.switches(),
    {
        &self.global
    }

    /// The command line options.
    pub fn args(&self) -> (args: &Args)
        ensures
            *args == self.options(),
    {
        &self.args
    }

    /// The settings with which the backend is reached.
    pub fn client(&self) -> (client: &Client)
        ensures
            *client == self.settings(),
    {
        &self.client
    }

    /// How many watchers the dashboard has made so far. The number changes
    /// exactly when a new watcher takes the place of the one before, whose
    /// work is then to be dropped.
    pub fn watchers_started(&self) -> (count: u64)
        ensures
            count == self.watchers(),
    {
        self.started
    }

    /// What the main part of the screen is to show at `now`.
    pub fn render_at(&mut self, now: &Time) -> (panel: Option<Panel>)
        ensures
            view_rendered(old(self).view(), *now, final(self).view(), panel),
            unmoved(*old(self), *final(self)),
    {
        self.state.render_at(now)
    }

    /// Takes the command that has waited longest in the view.
    pub fn next_request(&mut self) -> (dispatch: Dispatch)
        ensures
            view_dispatched(old(self).view(), final(self).view(), dispatch.deep_view()),
            unmoved(*old(self), *final(self)),
    {
        self.state.next_request()
    }

    /// Takes one step of the watch of pods. Where the view is not that of
    /// pods nothing changes and there is nothing to do.
    pub fn advance_pods(&mut self, signal: Signal<Pod>) -> (action: Option<Action>)
        ensures
            pods_advanced(old(self).view(), signal, final(self).view(), action),
            unmoved(*old(self), *final(self)),
    {
        self.state.advance_pods(signal)
    }

    /// Takes one step of the watch of deployments. Where the view is not
    /// that of deployments nothing changes and there is nothing to do.
    pub fn advance_deployments(&mut self, signal: Signal<Deployment>) -> (action: Option<Action>)
        ensures
            deployments_advanced(old(self).view(), signal, final(self).view(), action),
            unmoved(*old(self), *final(self)),
    {
        self.state.advance_deployments(signal)
    }

    /// Goes to the view before this one.
    pub fn prev(&mut self)
        ensures
            cycled(*old(self), *final(self)),
            final(self).settings() == old(self).settings(),
            final(self).options() == old(self).options(),
    {
        match &self.state {
            AppState::Initializing => {},
            AppState::Pods(_) => self.show_deployments(),
            AppState::Deployments(_) => self.show_pods(),
        }
    }

    /// Goes to the view after this one.
    pub fn next(&mut self)
        ensures
            cycled(*old(self), *final(self)),
            final(self).settings() == old(self).settings(),
            final(self).options() == old(self).options(),
    {
        match &self.state {
            AppState::Initializing => {},
            AppState::Pods(_) => self.show_deployments(),
            AppState::Deployments(_) => self.show_pods(),
        }
    }
}

} // verus!
