//! A watched list of objects of one kind: the view that the screen shows,
//! the queue of commands, and the steps that keep both going.
use crate::app::ui::state::{next_index, prev_index, Paging, TableState};
use crate::app::ui::{Panel, PanelView, Table, TableView};
use crate::client::{Client, Request, RequestView};
use crate::input::key::Key;
use crate::k8s::order::{sort_by_name, sorted_by_name};
use crate::k8s::reflector::{apply_event, snapshot_of, Event, Snapshot};
use crate::k8s::{now, share, ObjectIdentity, Resource, Time};
use std::collections::VecDeque;
use std::sync::Arc;
use vstd::prelude::*;
use vstd::string::StringExecFns;

verus! {

/// What a kind of object brings to a watched list: how its objects fill a
/// table, which keys stand for which commands, and what each command asks
/// of the backend.
pub trait ListResource: Sized {
    /// The kind of object.
    type Resource: Resource;

    /// A command on an object of the kind.
    type Message;

    /// The table of these objects as seen at `now`.
    spec fn table(items: Seq<Arc<Self::Resource>>, now: Time) -> TableView;

    /// Puts the objects in the order of their names and makes their table.
    fn render_table(items: &mut Vec<Arc<Self::Resource>>, now: &Time) -> (table: Table)
        ensures
            final(items)@ == sorted_by_name(old(items)@),
            table.deep_view() == Self::table(final(items)@, *now),
    ;

    /// The command that a key stands for, given the objects and the index
    /// of the selected row among them in the order of their names.
    spec fn message(
        items: Seq<Arc<Self::Resource>>,
        selected: Option<usize>,
        key: Key,
    ) -> Option<Self::Message>;

    fn on_key(items: &Vec<Arc<Self::Resource>>, state: &TableState, key: Key) -> (message:
        Option<Self::Message>)
        ensures
            message == Self::message(items@, state.selection(), key),
    ;

    /// What a command asks of the backend; nothing where it would change
    /// nothing.
    spec fn request(message: Self::Message) -> Option<RequestView>;

    fn process(message: Self::Message) -> (request: Option<Request>)
        ensures
            request.deep_view() == Self::request(message),
    ;
}

/// How many commands can wait at once.
pub const QUEUE_CAPACITY: usize = 10;

/// The commands that wait to be carried out, in the order in which they
/// came. At most `QUEUE_CAPACITY` wait at once.
pub struct CommandQueue<M> {
    pending: VecDeque<M>,
}

impl<M> View for CommandQueue<M> {
    type V = Seq<M>;

    closed spec fn view(&self) -> Seq<M> {
        self.pending@
    }
}

impl<M> CommandQueue<M> {
    #[verifier::type_invariant]
    spec fn bounded(self) -> bool {
        self.pending@.len() <= QUEUE_CAPACITY
    }

    /// An empty queue.
    pub fn new() -> (queue: Self)
        ensures
            queue@ == Seq::<M>::empty(),
    {
        CommandQueue { pending: VecDeque::new() }
    }

    /// How many commands wait.
    pub fn len(&self) -> (len: usize)
        ensures
            len == self@.len(),
            len <= QUEUE_CAPACITY,
    {
        proof {
            use_type_invariant(self);
        }
        self.pending.len()
    }

    /// Adds a command behind those that wait, without waiting for room.
    /// With the queue full the command is dropped and the answer is
    /// `false`.
    pub fn enqueue(&mut self, message: M) -> (accepted: bool)
        ensures
            accepted == (old(self)@.len() < QUEUE_CAPACITY),
            final(self)@ == enqueued(old(self)@, message),
    {
        proof {
            use_type_invariant(&*self);
        }
        if self.pending.len() < QUEUE_CAPACITY {
            let mut pending: VecDeque<M> = VecDeque::new();
            std::mem::swap(&mut pending, &mut self.pending);
            pending.push_back(message);
            self.pending = pending;
            true
        } else {
            false
        }
    }

    /// Takes the command that has waited longest, if any waits.
    pub fn dequeue(&mut self) -> (message: Option<M>)
        ensures
            old(self)@.len() == 0 ==> message is None && final(self)@ == old(self)@,
            old(self)@.len() > 0 ==> message == Some(old(self)@[0]) && final(self)@ == old(
                self,
            )@.drop_first(),
    {
        proof {
            use_type_invariant(&*self);
        }
        let mut pending: VecDeque<M> = VecDeque::new();
        std::mem::swap(&mut pending, &mut self.pending);
        let message = pending.pop_front();
        assert(message is Some ==> pending@ =~= old(self)@.drop_first());
        self.pending = pending;
        message
    }
}

/// The queue after a command asked to join it: behind the others where
/// there was room, dropped where there was none.
pub open spec fn enqueued<M>(queue: Seq<M>, message: M) -> Seq<M> {
    if queue.len() < QUEUE_CAPACITY {
        queue.push(message)
    } else {
        queue
    }
}

/// The queue after an optional command asked to join it.
pub open spec fn enqueued_if_any<M>(queue: Seq<M>, message: Option<M>) -> Seq<M> {
    match message {
        Some(message) => enqueued(queue, message),
        None => queue,
    }
}

/// What the screen shows of a watched list: nothing yet, the objects and
/// the selection among them, or the cause of a failure.
pub enum State<K: Resource> {
    Loading,
    List(Snapshot<K>, TableState),
    Error(String),
}

impl<K: Resource> State<K> {
    /// The index of the selected row; none where no list is shown.
    pub open spec fn selection(&self) -> Option<usize> {
        match self {
            State::List(_, state) => state.selection(),
            _ => None,
        }
    }

    /// The objects of the list; none where no list is shown.
    pub open spec fn objects(&self) -> Option<Map<ObjectIdentity, Arc<K>>> {
        match self {
            State::List(snapshot, _) => Some(snapshot@),
            _ => None,
        }
    }

    /// The cause of the failure; none where none is shown.
    pub open spec fn cause(&self) -> Option<Seq<char>> {
        match self {
            State::Error(cause) => Some(cause@),
            _ => None,
        }
    }
}

/// What the one who watches the backend reports to the list.
pub enum Signal<K> {
    /// The work begins, or begins again after a failure.
    Begin,
    /// A watch of the backend was opened.
    Connected,
    /// No watch could be opened, and why.
    ConnectFailed(String),
    /// The watch has listed all objects anew: they take the place of what
    /// was known.
    Listed(Vec<Arc<K>>),
    /// The watch reports an event.
    Watched(Event<K>),
    /// The watch reports a failure, and which.
    WatchFailed(String),
    /// The watch has ended.
    WatchClosed,
}

/// What a watch of the backend yields, one at a time. A full list of the
/// objects comes object by object, between its beginning and its end.
pub enum WatchItem<K> {
    /// A full list begins.
    Init,
    /// An object of the list that has begun.
    InitApply(Arc<K>),
    /// The list is complete.
    InitDone,
    /// An object was added or has changed.
    Apply(Arc<K>),
    /// An object is gone.
    Delete(Arc<K>),
}

/// A full list in the making: the objects that a watch has listed since the
/// list began, if one has begun.
pub struct Listing<K> {
    listed: Option<Vec<Arc<K>>>,
}

/// How taking in what a watch yields relates the list in the making before
/// and after it to the signal that is due, if any. The beginning of a list
/// starts an empty one, and a list in the making takes each listed object
/// in, both without a signal. The end of the list hands the objects over as
/// one signal, an empty list where none had begun. An object that is listed
/// while no list is in the making counts as added; an object applied as
/// modified, one deleted as removed, and these leave a list in the making
/// as it is.
pub open spec fn collected<K>(
    before: Option<Seq<Arc<K>>>,
    item: WatchItem<K>,
    after: Option<Seq<Arc<K>>>,
    signal: Option<Signal<K>>,
) -> bool {
    match item {
        WatchItem::Init => after == Some(Seq::<Arc<K>>::empty()) && signal is None,
        WatchItem::InitApply(object) => match before {
            Some(objects) => after == Some(objects.push(object)) && signal is None,
            None => after is None && signal == Some(Signal::Watched(Event::Added(object))),
        },
        WatchItem::InitDone => {
            &&& after is None
            &&& signal matches Some(Signal::Listed(objects))
            &&& objects@ == match before {
                Some(listed) => listed,
                None => Seq::empty(),
            }
        },
        WatchItem::Apply(object) => after == before && signal == Some(
            Signal::Watched(Event::Modified(object)),
        ),
        WatchItem::Delete(object) => after == before && signal == Some(
            Signal::Watched(Event::Removed(object)),
        ),
    }
}

impl<K> Listing<K> {
    /// The objects listed so far; none where no list is in the making.
    pub closed spec fn pending(&self) -> Option<Seq<Arc<K>>> {
        match self.listed {
            Some(objects) => Some(objects@),
            None => None,
        }
    }

    /// No list in the making: the state in which a watch begins.
    pub fn new() -> (listing: Self)
        ensures
            listing.pending() is None,
    {
        Listing { listed: None }
    }

    /// Takes in what the watch has yielded and says which signal is due
    /// for it, if any.
    pub fn feed(&mut self, item: WatchItem<K>) -> (signal: Option<Signal<K>>)
        ensures
            collected(old(self).pending(), item, final(self).pending(), signal),
    {
        match item {
            WatchItem::Init => {
                self.listed = Some(Vec::new());
                None
            },
            WatchItem::InitApply(object) => {
                let mut listed: Option<Vec<Arc<K>>> = None;
                std::mem::swap(&mut listed, &mut self.listed);
                match listed {
                    Some(mut objects) => {
                        objects.push(object);
                        self.listed = Some(objects);
                        None
                    },
                    None => Some(Signal::Watched(Event::Added(object))),
                }
            },
            WatchItem::InitDone => {
                let mut listed: Option<Vec<Arc<K>>> = None;
                std::mem::swap(&mut listed, &mut self.listed);
                match listed {
                    Some(objects) => Some(Signal::Listed(objects)),
                    None => Some(Signal::Listed(Vec::new())),
                }
            },
            WatchItem::Apply(object) => Some(Signal::Watched(Event::Modified(object))),
            WatchItem::Delete(object) => Some(Signal::Watched(Event::Removed(object))),
        }
    }
}

/// What the list asks of the one who watches the backend.
#[derive(Clone, Copy, Debug, PartialEq, Eq, Structural)]
pub enum Action {
    /// Open a watch, and report `Connected` or `ConnectFailed`.
    Connect,
    /// Wait for the watch, and report what it yields.
    Watch,
    /// Drop the watch, if any, and report `Begin` at once.
    Retry,
}

/// What the list asks of the one who carries out commands.
#[derive(Clone, Debug, PartialEq, Eq)]
pub enum Dispatch {
    /// No command waits.
    Idle,
    /// A command was taken that asks nothing of the backend.
    Skip,
    /// A command was taken: send this request, and only then ask again.
    Send(Request),
}

/// What a dispatch is as a mathematical value.
pub enum DispatchView {
    Idle,
    Skip,
    Send(RequestView),
}

impl DeepView for Dispatch {
    type V = DispatchView;

    open spec fn deep_view(&self) -> DispatchView {
        match self {
            Dispatch::Idle => DispatchView::Idle,
            Dispatch::Skip => DispatchView::Skip,
            Dispatch::Send(request) => DispatchView::Send(request.deep_view()),
        }
    }
}

/// The selection that a list keeps when it is drawn with `total` rows: a
/// set selection stays as it is, whatever the list holds; an unset one
/// falls on the first row of a list that has one.
pub open spec fn kept_selection(selected: Option<usize>, total: nat) -> Option<usize> {
    match selected {
        Some(index) => Some(index),
        None => if total > 0 {
            Some(0)
        } else {
            None
        },
    }
}

/// The row that is drawn as selected in a list of `total` rows: the kept
/// selection where that is a row of the list, the last row where it lies
/// beyond the end, and none in an empty list.
pub open spec fn drawn_selection(selected: Option<usize>, total: nat) -> Option<usize> {
    match kept_selection(selected, total) {
        Some(index) => if total == 0 {
            None
        } else if index >= total {
            Some((total - 1) as usize)
        } else {
            Some(index)
        },
        None => None,
    }
}

/// The selection falls on the first row once and is never put back there.
/// Drawing a list that has a row sets an unset selection to the first row.
/// Drawing leaves every set selection as it is, whatever the list holds by
/// then, so that a later drawing leaves it alone as well. What is drawn as
/// selected is always a row of the list, and the selected row itself where
/// the list has it.
pub proof fn lemma_selection_defaults_once(selected: Option<usize>, total: nat, later: nat)
    ensures
        selected is None && total > 0 ==> kept_selection(selected, total) == Some(0usize),
        selected is None && total == 0 ==> kept_selection(selected, total) is None,
        selected is Some ==> kept_selection(selected, total) == selected,
        kept_selection(selected, total) is Some ==> kept_selection(
            kept_selection(selected, total),
            later,
        ) == kept_selection(selected, total),
        total == 0 ==> drawn_selection(selected, total) is None,
        total > 0 ==> (drawn_selection(selected, total) matches Some(index) && index < total),
        selected matches Some(index) && index < total ==> drawn_selection(selected, total)
            == selected,
{
}

/// A watched list: what the screen shows of it, and the commands that wait.
pub struct Context<R: ListResource> {
    state: State<R::Resource>,
    tx: CommandQueue<R::Message>,
}

impl<R: ListResource> Context<R> {
    /// What the screen shows of the list.
    pub closed spec fn state(&self) -> State<R::Resource> {
        self.state
    }

    /// The commands that wait, oldest first.
    pub closed spec fn queue(&self) -> Seq<R::Message> {
        self.tx@
    }

    /// A list of which nothing is known yet and for which no command
    /// waits.
    pub fn new() -> (ctx: Self)
        ensures
            ctx.state() is Loading,
            ctx.queue() == Seq::<R::Message>::empty(),
    {
        Context { state: State::Loading, tx: CommandQueue::new() }
    }

    /// How many commands wait: never more than the queue has room for.
    pub fn queued(&self) -> (len: usize)
        ensures
            len == self.queue().len(),
            len <= QUEUE_CAPACITY,
    {
        self.tx.len()
    }

    /// The index of the selected row; none where no list is shown.
    pub fn selected(&self) -> (index: Option<usize>)
        ensures
            index == self.state().selection(),
    {
        match &self.state {
            State::List(_, state) => state.selected(),
            _ => None,
        }
    }

    /// The objects of the list, each once; none where no list is shown.
    pub fn items(&self) -> (items: Option<Vec<Arc<R::Resource>>>)
        ensures
            match self.state() {
                State::List(snapshot, _) => items matches Some(listed) && listed@
                    == snapshot.listing(),
                _ => items is None,
            },
    {
        match &self.state {
            State::List(snapshot, _) => Some(snapshot.state()),
            _ => None,
        }
    }

    /// Adds a command to the queue; `false` where the queue is full and
    /// the command is dropped.
    pub fn enqueue(&mut self, message: R::Message) -> (accepted: bool)
        ensures
            accepted == (old(self).queue().len() < QUEUE_CAPACITY),
            final(self).queue() == enqueued(old(self).queue(), message),
            final(self).state() == old(self).state(),
    {
        self.tx.enqueue(message)
    }

    /// Takes one step of the watch. `Begin` shows the list as loading and
    /// asks for a watch. While loading, an opened watch shows an empty list
    /// with nothing selected, and a failure to open one shows its cause.
    /// While a list is shown, a full list of the objects takes the place
    /// of those known and an event changes them, both leaving the selection
    /// alone; a failure or the end of the watch shows the cause.
    /// Every failure asks for a fresh start, and so does a signal that does
    /// not fit what is shown, which changes nothing.
    pub fn advance(&mut self, signal: Signal<R::Resource>) -> (action: Action)
        ensures
            final(self).queue() == old(self).queue(),
            advanced(old(self).state(), signal, final(self).state(), action),
    {
        match signal {
            Signal::Begin => {
                self.state = State::Loading;
                Action::Connect
            },
            Signal::Connected => {
                if let State::Loading = &self.state {
                    self.state = State::List(Snapshot::new(), TableState::new());
                    Action::Watch
                } else {
                    Action::Retry
                }
            },
            Signal::ConnectFailed(cause) => {
                if let State::Loading = &self.state {
                    self.state = State::Error(cause);
                }
                Action::Retry
            },
            Signal::Listed(objects) => {
                match &mut self.state {
                    State::List(snapshot, _) => {
                        snapshot.reset(&objects);
                        Action::Watch
                    },
                    _ => Action::Retry,
                }
            },
            Signal::Watched(event) => {
                match &mut self.state {
                    State::List(snapshot, _) => {
                        snapshot.apply(event);
                        Action::Watch
                    },
                    _ => Action::Retry,
                }
            },
            Signal::WatchFailed(cause) => {
                if let State::List(_, _) = &self.state {
                    self.state = State::Error(cause);
                }
                Action::Retry
            },
            Signal::WatchClosed => {
                if let State::List(_, _) = &self.state {
                    self.state = State::Error(String::from_str("Stream closed"));
                }
                Action::Retry
            },
        }
    }
}

impl<R: ListResource> Context<R> {
    /// What the screen is to show of the list at `now`. A list is shown
    /// as the table of its objects in the order of their names. An unset
    /// selection is set to the first row of a list that has one; a set
    /// selection is left as it is. The row that the panel marks is the
    /// selection put on a row of the table: one beyond the end on the last
    /// row, and none in an empty table.
    pub fn render_at(&mut self, now: &Time) -> (panel: Panel)
        ensures
            final(self).queue() == old(self).queue(),
            rendered::<R>(old(self).state(), *now, final(self).state(), panel.deep_view()),
    {
        match &mut self.state {
            State::Loading => {
                let mut none: Vec<Arc<R::Resource>> = Vec::new();
                let table = R::render_table(&mut none, now);
                assert(sorted_by_name(Seq::<Arc<R::Resource>>::empty()) =~= Seq::empty());
                Panel::Table(table, None)
            },
            State::List(snapshot, state) => {
                let mut items = snapshot.state();
                let table = R::render_table(&mut items, now);
                proof {
                    crate::k8s::order::lemma_sorted_by_name_ordered(snapshot.listing());
                }
                let total = items.len();
                if state.selected().is_none() && total > 0 {
                    state.select(Some(0));
                }
                let drawn = match state.selected() {
                    Some(index) => if total == 0 {
                        None
                    } else if index >= total {
                        Some(total - 1)
                    } else {
                        Some(index)
                    },
                    None => None,
                };
                Panel::Table(table, drawn)
            },
            State::Error(cause) => Panel::Error(cause.clone()),
        }
    }

    /// What the screen is to show of the list now, by the system clock.
    pub fn render(&mut self) -> (panel: Panel)
        ensures
            final(self).queue() == old(self).queue(),
            exists|at: Time|
                rendered::<R>(old(self).state(), at, final(self).state(), panel.deep_view()),
    {
        let at = now();
        self.render_at(&at)
    }

    /// Takes a key. While a list is shown, the down key moves the
    /// selection one row forward and the up key one row backward, both
    /// wrapping at the ends; any other key adds the command that it stands
    /// for, if any, to the queue, where it is dropped if the queue is full.
    /// While no list is shown no key does anything.
    pub fn on_key(&mut self, key: Key)
        ensures
            keyed::<R>(
                old(self).state(),
                old(self).queue(),
                key,
                final(self).state(),
                final(self).queue(),
            ),
    {
        match &mut self.state {
            State::List(snapshot, state) => {
                let items = snapshot.state();
                match key {
                    Key::Down => state.next(items.len(), 1),
                    Key::Up => state.prev(items.len(), 1),
                    _ => {
                        if let Some(message) = R::on_key(&items, state, key) {
                            let _ = self.tx.enqueue(message);
                        }
                    },
                }
            },
            _ => {},
        }
    }

    /// Takes the command that has waited longest and says what it asks of
    /// the backend. Commands leave the queue in the order in which they
    /// joined it, one at each call.
    pub fn next_request(&mut self) -> (dispatch: Dispatch)
        ensures
            final(self).state() == old(self).state(),
            dispatched::<R>(old(self).queue(), final(self).queue(), dispatch.deep_view()),
    {
        match self.tx.dequeue() {
            Some(message) => match R::process(message) {
                Some(request) => Dispatch::Send(request),
                None => Dispatch::Skip,
            },
            None => Dispatch::Idle,
        }
    }
}

/// How drawing relates what was shown before it to what is shown after it
/// and to the panel.
pub open spec fn rendered<R: ListResource>(
    before: State<R::Resource>,
    now: Time,
    after: State<R::Resource>,
    panel: PanelView,
) -> bool {
    match before {
        State::Loading => {
            &&& after == before
            &&& panel == PanelView::Table(R::table(Seq::empty(), now), None)
        },
        State::List(snapshot, state) => {
            let total = snapshot.listing().len();
            &&& after matches State::List(same, _) && same == snapshot
            &&& after.selection() == kept_selection(state.selection(), total)
            &&& panel == PanelView::Table(
                R::table(sorted_by_name(snapshot.listing()), now),
                drawn_selection(state.selection(), total),
            )
        },
        State::Error(cause) => {
            &&& after == before
            &&& panel == PanelView::Error(cause@)
        },
    }
}

/// How a key relates what was shown and queued before it to what is shown
/// and queued after it.
pub open spec fn keyed<R: ListResource>(
    before: State<R::Resource>,
    queue_before: Seq<R::Message>,
    key: Key,
    after: State<R::Resource>,
    queue_after: Seq<R::Message>,
) -> bool {
    match before {
        State::List(snapshot, state) => {
            let total = snapshot.listing().len() as usize;
            &&& after matches State::List(same, _) && same == snapshot
            &&& match key {
                Key::Down => {
                    &&& after.selection() == next_index(state.selection(), total, 1)
                    &&& queue_after == queue_before
                },
                Key::Up => {
                    &&& after.selection() == prev_index(state.selection(), total, 1)
                    &&& queue_after == queue_before
                },
                _ => {
                    &&& after.selection() == state.selection()
                    &&& queue_after == enqueued_if_any(
                        queue_before,
                        R::message(snapshot.listing(), state.selection(), key),
                    )
                },
            }
        },
        _ => after == before && queue_after == queue_before,
    }
}

/// How a dispatch relates the queue before it to the queue after it.
pub open spec fn dispatched<R: ListResource>(
    before: Seq<R::Message>,
    after: Seq<R::Message>,
    dispatch: DispatchView,
) -> bool {
    if before.len() == 0 {
        after == before && dispatch == DispatchView::Idle
    } else {
        &&& after == before.drop_first()
        &&& dispatch == match R::request(before[0]) {
            Some(request) => DispatchView::Send(request),
            None => DispatchView::Skip,
        }
    }
}

/// How one step of the watch relates what was shown before it, the signal,
/// what is shown after it, and the action that it asks for.
pub open spec fn advanced<K: Resource>(
    before: State<K>,
    signal: Signal<K>,
    after: State<K>,
    action: Action,
) -> bool {
    match signal {
        Signal::Begin => after is Loading && action == Action::Connect,
        Signal::Connected => if before is Loading {
            &&& after.objects() == Some(Map::<ObjectIdentity, Arc<K>>::empty())
            &&& after.selection() is None
            &&& action == Action::Watch
        } else {
            after == before && action == Action::Retry
        },
        Signal::ConnectFailed(cause) => action == Action::Retry && if before is Loading {
            after.cause() == Some(cause@)
        } else {
            after == before
        },
        Signal::Listed(objects) => match before {
            State::List(_, state) => {
                &&& after.objects() == Some(snapshot_of(objects@))
                &&& after.selection() == state.selection()
                &&& action == Action::Watch
            },
            _ => after == before && action == Action::Retry,
        },
        Signal::Watched(event) => match before {
            State::List(snapshot, state) => {
                &&& after.objects() == Some(apply_event(snapshot@, event))
                &&& after.selection() == state.selection()
                &&& action == Action::Watch
            },
            _ => after == before && action == Action::Retry,
        },
        Signal::WatchFailed(cause) => action == Action::Retry && if before is List {
            after.cause() == Some(cause@)
        } else {
            after == before
        },
        Signal::WatchClosed => action == Action::Retry && if before is List {
            after.cause() == Some("Stream closed"@)
        } else {
            after == before
        },
    }
}

/// The object in the row of the given index, if there is such a row.
pub open spec fn item_at<K>(items: Seq<Arc<K>>, selected: Option<usize>) -> Option<Arc<K>> {
    match selected {
        Some(index) => if index < items.len() {
            Some(items[index as int])
        } else {
            None
        },
        None => None,
    }
}

/// The object that is selected on screen: the one in the selected row of
/// the objects in the order of their names.
pub fn selected_item<K: Resource>(items: &Vec<Arc<K>>, state: &TableState) -> (item: Option<
    Arc<K>,
>)
    ensures
        item == item_at(sorted_by_name(items@), state.selection()),
{
    let mut sorted: Vec<Arc<K>> = Vec::new();
    let mut i: usize = 0;
    while i < items.len()
        invariant
            i <= items.len(),
            sorted@ == items@.take(i as int),
        decreases items.len() - i,
    {
        sorted.push(share(&items[i]));
        i += 1;
        assert(sorted@ =~= items@.take(i as int));
    }
    assert(sorted@ =~= items@);
    sort_by_name(&mut sorted);
    match state.selected() {
        Some(index) => if index < sorted.len() {
            Some(share(&sorted[index]))
        } else {
            None
        },
        None => None,
    }
}

/// A row of five cells.
pub fn cells5(a: String, b: String, c: String, d: String, e: String) -> (cells: Vec<String>)
    ensures
        cells.deep_view() == seq![a@, b@, c@, d@, e@],
{
    let mut cells: Vec<String> = Vec::new();
    cells.push(a);
    cells.push(b);
    cells.push(c);
    cells.push(d);
    cells.push(e);
    assert(cells.deep_view() =~= seq![a@, b@, c@, d@, e@]);
    cells
}

/// The names of five columns.
pub fn header5(a: &str, b: &str, c: &str, d: &str, e: &str) -> (cells: Vec<String>)
    ensures
        cells.deep_view() == seq![a@, b@, c@, d@, e@],
{
    cells5(
        String::from_str(a),
        String::from_str(b),
        String::from_str(c),
        String::from_str(d),
        String::from_str(e),
    )
}

/// A watched list together with the settings with which its backend is
/// reached. Each watcher is on its own: it shares neither what it shows nor
/// its queue with any other.
pub struct ListWatcher<R: ListResource> {
    client: Client,
    ctx: Context<R>,
}

impl<R: ListResource> ListWatcher<R> {
    /// The settings with which the backend is reached.
    pub closed spec fn settings(&self) -> Client {
        self.client
    }

    /// What the screen shows of the list.
    pub closed spec fn state(&self) -> State<R::Resource> {
        self.ctx.state()
    }

    /// The commands that wait, oldest first.
    pub closed spec fn queue(&self) -> Seq<R::Message> {
        self.ctx.queue()
    }

    /// Whether this is a watcher as `new` makes it for the given settings:
    /// nothing known yet, nothing selected, no command waiting.
    pub open spec fn fresh(&self, client: Client) -> bool {
        &&& self.settings() == client
        &&& self.state() is Loading
        &&& self.queue() == Seq::<R::Message>::empty()
    }

    /// A watcher that has not begun its work.
    pub fn new(client: Client) -> (watcher: Self)
        ensures
            watcher.fresh(client),
    {
        ListWatcher { client, ctx: Context::new() }
    }

    /// The settings with which the backend is reached.
    pub fn client(&self) -> (client: &Client)
        ensures
            *client == self.settings(),
    {
        &self.client
    }

    /// How many commands wait: never more than the queue has room for.
    pub fn queued(&self) -> (len: usize)
        ensures
            len == self.queue().len(),
            len <= QUEUE_CAPACITY,
    {
        self.ctx.queued()
    }

    /// The index of the selected row; none where no list is shown.
    pub fn selected(&self) -> (index: Option<usize>)
        ensures
            index == self.state().selection(),
    {
        self.ctx.selected()
    }

    /// The objects of the list, each once; none where no list is shown.
    pub fn items(&self) -> (items: Option<Vec<Arc<R::Resource>>>)
        ensures
            match self.state() {
                State::List(snapshot, _) => items matches Some(listed) && listed@
                    == snapshot.listing(),
                _ => items is None,
            },
    {
        self.ctx.items()
    }

    /// What the screen is to show of the list at `now`.
    pub fn render_at(&mut self, now: &Time) -> (panel: Panel)
        ensures
            final(self).settings() == old(self).settings(),
            final(self).queue() == old(self).queue(),
            rendered::<R>(old(self).state(), *now, final(self).state(), panel.deep_view()),
    {
        self.ctx.render_at(now)
    }

    /// What the screen is to show of the list now, by the system clock.
    pub fn render(&mut self) -> (panel: Panel)
        ensures
            final(self).settings() == old(self).settings(),
            final(self).queue() == old(self).queue(),
            exists|at: Time|
                rendered::<R>(old(self).state(), at, final(self).state(), panel.deep_view()),
    {
        self.ctx.render()
    }

    /// Takes a key: see `Context::on_key`.
    pub fn on_key(&mut self, key: Key)
        ensures
            final(self).settings() == old(self).settings(),
            keyed::<R>(
                old(self).state(),
                old(self).queue(),
                key,
                final(self).state(),
                final(self).queue(),
            ),
    {
        self.ctx.on_key(key)
    }

    /// Adds a command to the queue; `false` where the queue is full and
    /// the command is dropped.
    pub fn enqueue(&mut self, message: R::Message) -> (accepted: bool)
        ensures
            accepted == (old(self).queue().len() < QUEUE_CAPACITY),
            final(self).queue() == enqueued(old(self).queue(), message),
            final(self).state() == old(self).state(),
            final(self).settings() == old(self).settings(),
    {
        self.ctx.enqueue(message)
    }

    /// Takes one step of the watch: see `Context::advance`.
    pub fn advance(&mut self, signal: Signal<R::Resource>) -> (action: Action)
        ensures
            final(self).settings() == old(self).settings(),
            final(self).queue() == old(self).queue(),
            advanced(old(self).state(), signal, final(self).state(), action),
    {
        self.ctx.advance(signal)
    }

    /// Takes the command that has waited longest: see
    /// `Context::next_request`.
    pub fn next_request(&mut self) -> (dispatch: Dispatch)
        ensures
            final(self).settings() == old(self).settings(),
            final(self).state() == old(self).state(),
            dispatched::<R>(old(self).queue(), final(self).queue(), dispatch.deep_view()),
    {
        self.ctx.next_request()
    }
}

} // verus!
