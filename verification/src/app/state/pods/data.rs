//! What a pod's container statuses say about the pod: how many containers
//! are ready, what state it is in, and how often it restarted.
use crate::k8s::{age_between, ago_at, Time};
use crate::text::{decimal, push_decimal, push_signed_decimal, signed_decimal, str_eq};
use vstd::prelude::*;
use vstd::std_specs::convert::FromSpecImpl;
use vstd::string::StringExecFns;

verus! {

/// The state of a pod as the table shows it.
#[derive(Clone, Debug, PartialEq, Eq)]
pub enum PodState {
    Pending,
    ContainerCreating,
    Initializing,
    Running,
    Error,
    CrashLoopBackOff,
    Terminating,
    Unknown,
    Other(String),
}

/// A pod state as a mathematical value.
pub enum PodStateView {
    Pending,
    ContainerCreating,
    Initializing,
    Running,
    Error,
    CrashLoopBackOff,
    Terminating,
    Unknown,
    Other(Seq<char>),
}

impl View for PodState {
    type V = PodStateView;

    open spec fn view(&self) -> PodStateView {
        match self {
            PodState::Pending => PodStateView::Pending,
            PodState::ContainerCreating => PodStateView::ContainerCreating,
            PodState::Initializing => PodStateView::Initializing,
            PodState::Running => PodStateView::Running,
            PodState::Error => PodStateView::Error,
            PodState::CrashLoopBackOff => PodStateView::CrashLoopBackOff,
            PodState::Terminating => PodStateView::Terminating,
            PodState::Unknown => PodStateView::Unknown,
            PodState::Other(reason) => PodStateView::Other(reason@),
        }
    }
}

/// The state that a reason string names. The six known reasons map to
/// their states; any other reason is kept as it is.
pub open spec fn state_of_reason(reason: Seq<char>) -> PodStateView {
    if reason == "Pending"@ {
        PodStateView::Pending
    } else if reason == "ContainerCreating"@ {
        PodStateView::ContainerCreating
    } else if reason == "PodInitializing"@ {
        PodStateView::Initializing
    } else if reason == "Running"@ {
        PodStateView::Running
    } else if reason == "Error"@ {
        PodStateView::Error
    } else if reason == "CrashLoopBackOff"@ {
        PodStateView::CrashLoopBackOff
    } else {
        PodStateView::Other(reason)
    }
}

/// The state that a pod's phase names; unknown without a phase.
pub open spec fn state_of_phase(phase: Option<Seq<char>>) -> PodStateView {
    match phase {
        Some(reason) => state_of_reason(reason),
        None => PodStateView::Unknown,
    }
}

/// The text that the table shows for a state. An unknown state shows
/// nothing.
pub open spec fn state_text(state: PodStateView) -> Seq<char> {
    match state {
        PodStateView::Pending => "Pending"@,
        PodStateView::ContainerCreating => "ContainerCreating"@,
        PodStateView::Initializing => "PodInitializing"@,
        PodStateView::Running => "Running"@,
        PodStateView::Error => "Error"@,
        PodStateView::CrashLoopBackOff => "CrashLoopBackOff"@,
        PodStateView::Terminating => "Terminating"@,
        PodStateView::Unknown => Seq::empty(),
        PodStateView::Other(reason) => reason,
    }
}

impl From<&str> for PodState {
    fn from(reason: &str) -> (state: PodState)
        ensures
            state@ == state_of_reason(reason@),
    {
        if str_eq(reason, "Pending") {
            PodState::Pending
        } else if str_eq(reason, "ContainerCreating") {
            PodState::ContainerCreating
        } else if str_eq(reason, "PodInitializing") {
            PodState::Initializing
        } else if str_eq(reason, "Running") {
            PodState::Running
        } else if str_eq(reason, "Error") {
            PodState::Error
        } else if str_eq(reason, "CrashLoopBackOff") {
            PodState::CrashLoopBackOff
        } else {
            PodState::Other(reason.to_owned())
        }
    }
}

impl FromSpecImpl<&str> for PodState {
    open spec fn obeys_from_spec() -> bool {
        false
    }

    open spec fn from_spec(reason: &str) -> PodState {
        choose|state: PodState| state@ == state_of_reason(reason@)
    }
}

impl From<&String> for PodState {
    fn from(reason: &String) -> (state: PodState)
        ensures
            state@ == state_of_reason(reason@),
    {
        PodState::from(reason.as_str())
    }
}

impl FromSpecImpl<&String> for PodState {
    open spec fn obeys_from_spec() -> bool {
        false
    }

    open spec fn from_spec(reason: &String) -> PodState {
        choose|state: PodState| state@ == state_of_reason(reason@)
    }
}

impl From<Option<&str>> for PodState {
    fn from(reason: Option<&str>) -> (state: PodState)
        ensures
            state@ == state_of_phase(reason.deep_view()),
    {
        match reason {
            Some(reason) => PodState::from(reason),
            None => PodState::Unknown,
        }
    }
}

impl FromSpecImpl<Option<&str>> for PodState {
    open spec fn obeys_from_spec() -> bool {
        false
    }

    open spec fn from_spec(reason: Option<&str>) -> PodState {
        choose|state: PodState| state@ == state_of_phase(reason.deep_view())
    }
}

impl Default for PodState {
    fn default() -> (state: PodState)
        ensures
            state == PodState::Unknown,
    {
        PodState::Unknown
    }
}

impl PodState {
    /// The text that the table shows for this state.
    pub fn to_text(&self) -> (text: String)
        ensures
            text@ == state_text(self@),
    {
        match self {
            PodState::Pending => String::from_str("Pending"),
            PodState::ContainerCreating => String::from_str("ContainerCreating"),
            PodState::Initializing => String::from_str("PodInitializing"),
            PodState::Running => String::from_str("Running"),
            PodState::Error => String::from_str("Error"),
            PodState::CrashLoopBackOff => String::from_str("CrashLoopBackOff"),
            PodState::Terminating => String::from_str("Terminating"),
            PodState::Unknown => String::new(),
            PodState::Other(reason) => reason.clone(),
        }
    }
}

/// A container that runs, and since when.
#[derive(Clone, Debug)]
pub struct ContainerStateRunning {
    pub started_at: Option<Time>,
}

/// A container that waits to run, and why.
#[derive(Clone, Debug)]
pub struct ContainerStateWaiting {
    pub reason: Option<String>,
}

/// A container that has ended, when and why.
#[derive(Clone, Debug)]
pub struct ContainerStateTerminated {
    pub finished_at: Option<Time>,
    pub reason: Option<String>,
}

/// What a container is doing: at most one of the three is expected.
#[derive(Clone, Debug)]
pub struct ContainerState {
    pub running: Option<ContainerStateRunning>,
    pub waiting: Option<ContainerStateWaiting>,
    pub terminated: Option<ContainerStateTerminated>,
}

/// The status of one container of a pod.
#[derive(Clone, Debug)]
pub struct ContainerStatus {
    pub ready: bool,
    pub restart_count: i32,
    pub state: Option<ContainerState>,
    pub last_state: Option<ContainerState>,
}

/// The status of a pod: its init containers in the order in which they run,
/// its regular containers, and its phase.
#[derive(Clone, Debug)]
pub struct PodStatus {
    pub init_container_statuses: Option<Vec<ContainerStatus>>,
    pub container_statuses: Option<Vec<ContainerStatus>>,
    pub phase: Option<String>,
}

impl Default for ContainerState {
    fn default() -> (state: ContainerState)
        ensures
            state.running is None,
            state.waiting is None,
            state.terminated is None,
    {
        ContainerState { running: None, waiting: None, terminated: None }
    }
}

impl Default for ContainerStatus {
    fn default() -> (status: ContainerStatus)
        ensures
            !status.ready,
            status.restart_count == 0,
            status.state is None,
            status.last_state is None,
    {
        ContainerStatus { ready: false, restart_count: 0, state: None, last_state: None }
    }
}

impl Default for PodStatus {
    fn default() -> (status: PodStatus)
        ensures
            status.init_container_statuses is None,
            status.container_statuses is None,
            status.phase is None,
    {
        PodStatus { init_container_statuses: None, container_statuses: None, phase: None }
    }
}

/// The instant at which something last changed, as seen at `now`.
pub trait LastChange {
    /// The instant of the last change; none where no state is recorded.
    spec fn changed_at(&self, now: Time) -> Option<Time>;

    fn last_change(&self, now: &Time) -> (at: Option<Time>)
        ensures
            at == self.changed_at(*now),
    ;
}

impl LastChange for ContainerState {
    /// A running container changed when it started. A waiting one has no
    /// instant of its own: it waits now. A terminated one changed when it
    /// finished.
    open spec fn changed_at(&self, now: Time) -> Option<Time> {
        if self.running is Some && self.running->0.started_at is Some {
            self.running->0.started_at
        } else if self.waiting is Some {
            Some(now)
        } else if self.terminated is Some {
            self.terminated->0.finished_at
        } else {
            None
        }
    }

    fn last_change(&self, now: &Time) -> (at: Option<Time>) {
        if let Some(running) = &self.running {
            if let Some(started_at) = running.started_at {
                return Some(started_at);
            }
        }
        if self.waiting.is_some() {
            return Some(*now);
        }
        match &self.terminated {
            Some(terminated) => terminated.finished_at,
            None => None,
        }
    }
}

impl LastChange for Option<ContainerState> {
    open spec fn changed_at(&self, now: Time) -> Option<Time> {
        match self {
            Some(state) => state.changed_at(now),
            None => None,
        }
    }

    fn last_change(&self, now: &Time) -> (at: Option<Time>) {
        match self {
            Some(state) => state.last_change(now),
            None => None,
        }
    }
}

impl LastChange for ContainerStatus {
    /// The change of the current state. The previous state does not
    /// count: a container whose current state records no instant has none.
    open spec fn changed_at(&self, now: Time) -> Option<Time> {
        self.state.changed_at(now)
    }

    fn last_change(&self, now: &Time) -> (at: Option<Time>) {
        self.state.last_change(now)
    }
}

/// The values behind a sequence of references.
pub open spec fn values<T>(refs: Seq<&T>) -> Seq<T> {
    Seq::new(refs.len(), |i: int| *refs[i])
}

/// The values behind a sequence of dated references.
pub open spec fn dated_values<T>(refs: Seq<(Time, &T)>) -> Seq<(Time, T)> {
    Seq::new(refs.len(), |i: int| (refs[i].0, *refs[i].1))
}

proof fn lemma_values_push<T>(refs: Seq<&T>, last: &T)
    ensures
        values(refs.push(last)) == values(refs).push(*last),
{
    assert(values(refs.push(last)) =~= values(refs).push(*last));
}

/// The statuses in a list that may be absent.
pub open spec fn listed(list: Option<Vec<ContainerStatus>>) -> Seq<ContainerStatus> {
    match list {
        Some(statuses) => statuses@,
        None => Seq::empty(),
    }
}

/// All containers of a pod: the init containers, then the regular ones.
pub open spec fn containers_of(status: PodStatus) -> Seq<ContainerStatus> {
    listed(status.init_container_statuses) + listed(status.container_statuses)
}

/// The containers that are not ready, in their order.
pub open spec fn unready(containers: Seq<ContainerStatus>) -> Seq<ContainerStatus>
    decreases containers.len(),
{
    if containers.len() == 0 {
        Seq::empty()
    } else if !containers.last().ready {
        unready(containers.drop_last()).push(containers.last())
    } else {
        unready(containers.drop_last())
    }
}

/// The containers that have restarted at least once, in their order.
pub open spec fn restarted(containers: Seq<ContainerStatus>) -> Seq<ContainerStatus>
    decreases containers.len(),
{
    if containers.len() == 0 {
        Seq::empty()
    } else if containers.last().restart_count > 0 {
        restarted(containers.drop_last()).push(containers.last())
    } else {
        restarted(containers.drop_last())
    }
}

/// The containers of which a last change is known, each with its instant,
/// in their order.
pub open spec fn changes(containers: Seq<ContainerStatus>, now: Time) -> Seq<
    (Time, ContainerStatus),
>
    decreases containers.len(),
{
    if containers.len() == 0 {
        Seq::empty()
    } else {
        match containers.last().changed_at(now) {
            Some(at) => changes(containers.drop_last(), now).push((at, containers.last())),
            None => changes(containers.drop_last(), now),
        }
    }
}

/// The index of the entry that changed first; of several that changed at
/// the same instant, the first in the sequence. The choice falls on the
/// earliest change, not the latest: the container that has been in trouble
/// longest names the state.
pub open spec fn earliest(dated: Seq<(Time, ContainerStatus)>) -> Option<int>
    decreases dated.len(),
{
    if dated.len() == 0 {
        None
    } else {
        match earliest(dated.drop_last()) {
            Some(i) => if dated[i].0.0 <= dated.last().0.0 {
                Some(i)
            } else {
                Some(dated.len() - 1)
            },
            None => Some(dated.len() - 1),
        }
    }
}

/// The entry that `earliest` picks is in range, no entry is earlier, and
/// no entry before it is as early.
pub proof fn lemma_earliest_is_first_minimum(dated: Seq<(Time, ContainerStatus)>)
    ensures
        dated.len() == 0 <==> earliest(dated) is None,
        earliest(dated) matches Some(i) ==> {
            &&& 0 <= i < dated.len()
            &&& forall|j: int| 0 <= j < dated.len() ==> dated[i].0.0 <= #[trigger] dated[j].0.0
            &&& forall|j: int| 0 <= j < i ==> dated[i].0.0 < #[trigger] dated[j].0.0
        },
    decreases dated.len(),
{
    if dated.len() > 0 {
        lemma_earliest_is_first_minimum(dated.drop_last());
        let i = earliest(dated)->0;
        assert forall|j: int| 0 <= j < dated.len() implies dated[i].0.0 <= #[trigger] dated[j].0.0 by {
            if j < dated.len() - 1 {
                assert(dated.drop_last()[j] == dated[j]);
            }
        }
        assert forall|j: int| 0 <= j < i implies dated[i].0.0 < #[trigger] dated[j].0.0 by {
            assert(dated.drop_last()[j] == dated[j]);
        }
    }
}

/// All container statuses of a pod: the init containers, then the regular
/// ones.
pub fn all_containers(status: &PodStatus) -> (all: Vec<&ContainerStatus>)
    ensures
        values(all@) == containers_of(*status),
{
    let mut all: Vec<&ContainerStatus> = Vec::new();
    if let Some(init) = &status.init_container_statuses {
        let mut i: usize = 0;
        while i < init.len()
            invariant
                i <= init.len(),
                values(all@) == init@.take(i as int),
            decreases init.len() - i,
        {
            proof {
                lemma_values_push(all@, &init[i as int]);
            }
            all.push(&init[i]);
            i += 1;
            assert(values(all@) =~= init@.take(i as int));
        }
        assert(init@.take(i as int) =~= init@);
    }
    let ghost first = values(all@);
    assert(first =~= listed(status.init_container_statuses));
    if let Some(regular) = &status.container_statuses {
        let mut i: usize = 0;
        while i < regular.len()
            invariant
                i <= regular.len(),
                values(all@) == first + regular@.take(i as int),
            decreases regular.len() - i,
        {
            proof {
                lemma_values_push(all@, &regular[i as int]);
            }
            all.push(&regular[i]);
            i += 1;
            assert(values(all@) =~= first + regular@.take(i as int));
        }
        assert(regular@.take(i as int) =~= regular@);
    }
    assert(values(all@) =~= containers_of(*status));
    all
}

/// Keeps the containers of which a last change is known, each with its
/// instant as seen at `now`.
pub fn with_last_changed<'c>(containers: Vec<&'c ContainerStatus>, now: &Time) -> (dated: Vec<
    (Time, &'c ContainerStatus),
>)
    ensures
        dated_values(dated@) == changes(values(containers@), *now),
{
    let mut dated: Vec<(Time, &'c ContainerStatus)> = Vec::new();
    let ghost all = values(containers@);
    let mut i: usize = 0;
    while i < containers.len()
        invariant
            i <= containers.len(),
            all == values(containers@),
            dated_values(dated@) == changes(all.take(i as int), *now),
        decreases containers.len() - i,
    {
        let container: &'c ContainerStatus = containers[i];
        proof {
            assert(all.take(i + 1).drop_last() =~= all.take(i as int));
            assert(all.take(i + 1).last() == *container);
        }
        if let Some(at) = container.last_change(now) {
            dated.push((at, container));
        }
        i += 1;
        assert(dated_values(dated@) =~= changes(all.take(i as int), *now));
    }
    assert(all.take(i as int) =~= all);
    dated
}

fn keep_unready<'c>(containers: Vec<&'c ContainerStatus>) -> (kept: Vec<&'c ContainerStatus>)
    ensures
        values(kept@) == unready(values(containers@)),
{
    let mut kept: Vec<&'c ContainerStatus> = Vec::new();
    let ghost all = values(containers@);
    let mut i: usize = 0;
    while i < containers.len()
        invariant
            i <= containers.len(),
            all == values(containers@),
            values(kept@) == unready(all.take(i as int)),
        decreases containers.len() - i,
    {
        let container: &'c ContainerStatus = containers[i];
        proof {
            assert(all.take(i + 1).drop_last() =~= all.take(i as int));
            assert(all.take(i + 1).last() == *container);
        }
        if !container.ready {
            kept.push(container);
        }
        i += 1;
        assert(values(kept@) =~= unready(all.take(i as int)));
    }
    assert(all.take(i as int) =~= all);
    kept
}

fn keep_restarted<'c>(containers: Vec<&'c ContainerStatus>) -> (kept: Vec<&'c ContainerStatus>)
    ensures
        values(kept@) == restarted(values(containers@)),
{
    let mut kept: Vec<&'c ContainerStatus> = Vec::new();
    let ghost all = values(containers@);
    let mut i: usize = 0;
    while i < containers.len()
        invariant
            i <= containers.len(),
            all == values(containers@),
            values(kept@) == restarted(all.take(i as int)),
        decreases containers.len() - i,
    {
        let container: &'c ContainerStatus = containers[i];
        proof {
            assert(all.take(i + 1).drop_last() =~= all.take(i as int));
            assert(all.take(i + 1).last() == *container);
        }
        if container.restart_count > 0 {
            kept.push(container);
        }
        i += 1;
        assert(values(kept@) =~= restarted(all.take(i as int)));
    }
    assert(all.take(i as int) =~= all);
    kept
}

fn first_earliest<'c>(dated: &Vec<(Time, &'c ContainerStatus)>) -> (found: Option<
    &'c ContainerStatus,
>)
    ensures
        match earliest(dated_values(dated@)) {
            Some(i) => found is Some && *found->0 == dated_values(dated@)[i].1,
            None => found is None,
        },
{
    if dated.len() == 0 {
        return None;
    }
    let ghost all = dated_values(dated@);
    let mut best: usize = 0;
    let mut i: usize = 1;
    assert(earliest(all.take(1)) == Some(0int)) by {
        assert(all.take(1).drop_last() =~= Seq::empty());
        assert(earliest(Seq::<(Time, ContainerStatus)>::empty()) is None);
    }
    while i < dated.len()
        invariant
            1 <= i <= dated.len(),
            best < i,
            all == dated_values(dated@),
            earliest(all.take(i as int)) == Some(best as int),
        decreases dated.len() - i,
    {
        proof {
            assert(all.take(i + 1).drop_last() =~= all.take(i as int));
        }
        if dated[i].0.0 < dated[best].0.0 {
            best = i;
        }
        i += 1;
    }
    assert(all.take(i as int) =~= all);
    Some(dated[best].1)
}

/// The reason that a container gives for its state: that of its waiting
/// state where it waits, else that of its terminated state.
pub open spec fn reason_of(container: ContainerStatus) -> Option<Seq<char>> {
    match container.state {
        Some(state) => if state.waiting is Some {
            state.waiting->0.reason.deep_view()
        } else if state.terminated is Some {
            state.terminated->0.reason.deep_view()
        } else {
            None
        },
        None => None,
    }
}

/// The state of a pod as seen at `now`: named by the reason of the
/// container that, of those not ready, changed first; by the pod's phase
/// where no such container gives a reason.
pub open spec fn derived_state(status: PodStatus, now: Time) -> PodStateView {
    let dated = changes(unready(containers_of(status)), now);
    match earliest(dated) {
        Some(i) => match reason_of(dated[i].1) {
            Some(reason) => state_of_reason(reason),
            None => state_of_phase(status.phase.deep_view()),
        },
        None => state_of_phase(status.phase.deep_view()),
    }
}

/// How many of the containers are ready.
pub open spec fn ready_count(containers: Seq<ContainerStatus>) -> nat
    decreases containers.len(),
{
    if containers.len() == 0 {
        0
    } else if containers.last().ready {
        ready_count(containers.drop_last()) + 1
    } else {
        ready_count(containers.drop_last())
    }
}

/// The text `ready/total`.
pub open spec fn fraction(ready: nat, total: nat) -> Seq<char> {
    decimal(ready).push('/') + decimal(total)
}

/// The readiness of a pod. While an init container is not ready, the init
/// containers alone count, marked `Init:`. Afterwards the regular
/// containers count; none without a list of them.
pub open spec fn readiness(status: PodStatus) -> Option<Seq<char>> {
    let init = listed(status.init_container_statuses);
    if ready_count(init) != init.len() {
        Some("Init:"@ + fraction(ready_count(init), init.len()))
    } else {
        match status.container_statuses {
            Some(regular) => Some(fraction(ready_count(regular@), regular@.len())),
            None => None,
        }
    }
}

/// When the previous run of a container finished, where that is recorded.
pub open spec fn previous_finish(container: ContainerStatus) -> Option<Time> {
    match container.last_state {
        Some(state) => match state.terminated {
            Some(terminated) => terminated.finished_at,
            None => None,
        },
        None => None,
    }
}

/// The restarts of a pod as seen at `now`: the count of the container that,
/// of those that restarted, changed first, and how long ago its previous
/// run finished where that is known. Where no container restarted that has
/// a last change, the summary is "0".
pub open spec fn restart_summary(status: PodStatus, now: Time) -> Option<Seq<char>> {
    let dated = changes(restarted(containers_of(status)), now);
    match earliest(dated) {
        Some(i) => {
            let count = signed_decimal(dated[i].1.restart_count as int);
            match previous_finish(dated[i].1) {
                Some(at) => match age_between(at, now) {
                    Some(age) => Some(count + " ("@ + age + " ago)"@),
                    None => Some(count),
                },
                None => Some(count),
            }
        },
        None => Some("0"@),
    }
}

fn reason<'c>(container: &'c ContainerStatus) -> (found: Option<&'c String>)
    ensures
        found.deep_view() == reason_of(*container),
{
    match &container.state {
        Some(state) => match &state.waiting {
            Some(waiting) => waiting.reason.as_ref(),
            None => match &state.terminated {
                Some(terminated) => terminated.reason.as_ref(),
                None => None,
            },
        },
        None => None,
    }
}

/// The state of a pod as seen at `now`.
pub fn make_state_at(status: &PodStatus, now: &Time) -> (state: PodState)
    ensures
        state@ == derived_state(*status, *now),
{
    let dated = with_last_changed(keep_unready(all_containers(status)), now);
    if let Some(container) = first_earliest(&dated) {
        if let Some(text) = reason(container) {
            return PodState::from(text);
        }
    }
    match &status.phase {
        Some(phase) => PodState::from(phase),
        None => PodState::Unknown,
    }
}

/// The state of a pod as seen now, by the system clock.
pub fn make_state(status: &PodStatus) -> (state: PodState)
    ensures
        exists|at: Time| state@ == derived_state(*status, at),
{
    let at = crate::k8s::now();
    make_state_at(status, &at)
}

fn count_ready(containers: &Vec<ContainerStatus>) -> (count: usize)
    ensures
        count == ready_count(containers@),
{
    let mut count: usize = 0;
    let mut i: usize = 0;
    while i < containers.len()
        invariant
            i <= containers.len(),
            count <= i,
            count == ready_count(containers@.take(i as int)),
        decreases containers.len() - i,
    {
        proof {
            assert(containers@.take(i + 1).drop_last() =~= containers@.take(i as int));
        }
        if containers[i].ready {
            count += 1;
        }
        i += 1;
    }
    assert(containers@.take(i as int) =~= containers@);
    count
}

fn push_fraction(out: &mut String, ready: usize, total: usize)
    ensures
        final(out)@ == old(out)@ + fraction(ready as nat, total as nat),
{
    proof {
        reveal_strlit("/");
    }
    push_decimal(out, ready as u64);
    out.append("/");
    push_decimal(out, total as u64);
    assert(out@ =~= old(out)@ + fraction(ready as nat, total as nat));
}

/// The readiness of a pod.
pub fn make_ready(status: &PodStatus) -> (text: Option<String>)
    ensures
        text.deep_view() == readiness(*status),
{
    if let Some(init) = &status.init_container_statuses {
        let total = init.len();
        let ready = count_ready(init);
        if total != ready {
            let mut text = String::from_str("Init:");
            push_fraction(&mut text, ready, total);
            return Some(text);
        }
    } else {
        assert(ready_count(Seq::<ContainerStatus>::empty()) == 0);
    }
    match &status.container_statuses {
        Some(regular) => {
            let total = regular.len();
            let ready = count_ready(regular);
            let mut text = String::new();
            push_fraction(&mut text, ready, total);
            assert(text@ =~= fraction(ready as nat, total as nat));
            Some(text)
        },
        None => None,
    }
}

fn finished_before(container: &ContainerStatus) -> (at: Option<Time>)
    ensures
        at == previous_finish(*container),
{
    match &container.last_state {
        Some(state) => match &state.terminated {
            Some(terminated) => terminated.finished_at,
            None => None,
        },
        None => None,
    }
}

/// The restarts of a pod as seen at `now`.
pub fn make_restarts_at(status: &PodStatus, now: &Time) -> (text: Option<String>)
    ensures
        text.deep_view() == restart_summary(*status, *now),
{
    let dated = with_last_changed(keep_restarted(all_containers(status)), now);
    match first_earliest(&dated) {
        Some(container) => {
            let mut text = String::new();
            push_signed_decimal(&mut text, container.restart_count as i64);
            let ghost count = text@;
            assert(count =~= signed_decimal(container.restart_count as int));
            let when = match finished_before(container) {
                Some(at) => ago_at(&at, now),
                None => None,
            };
            if let Some(age) = when {
                text.append(" (");
                text.append(age.as_str());
                text.append(" ago)");
                assert(text@ =~= count + " ("@ + age@ + " ago)"@);
            }
            Some(text)
        },
        None => Some(String::from_str("0")),
    }
}

/// The restarts of a pod as seen now, by the system clock.
pub fn make_restarts(status: &PodStatus) -> (text: Option<String>)
    ensures
        exists|at: Time| text.deep_view() == restart_summary(*status, at),
{
    let at = crate::k8s::now();
    make_restarts_at(status, &at)
}

} // verus!
