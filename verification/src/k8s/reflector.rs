//! The snapshot of a kind of object, kept up to date from watch events.
use crate::k8s::{identity_of, share, ObjectIdentity, Resource};
use std::sync::Arc;
use vstd::prelude::*;

verus! {

/// What a watch reports of one object.
pub enum Event<K> {
    /// The object exists now.
    Added(Arc<K>),
    /// The object has changed.
    Modified(Arc<K>),
    /// The object is gone.
    Removed(Arc<K>),
}

impl<K: Resource> Event<K> {
    /// The identity of the object that the event speaks of.
    pub open spec fn identity(&self) -> ObjectIdentity {
        match self {
            Event::Added(object) => identity_of(object),
            Event::Modified(object) => identity_of(object),
            Event::Removed(object) => identity_of(object),
        }
    }
}

/// What an event does to a snapshot: an added or modified object takes the
/// place under its identity, a removed one leaves it.
pub open spec fn apply_event<K: Resource>(
    snapshot: Map<ObjectIdentity, Arc<K>>,
    event: Event<K>,
) -> Map<ObjectIdentity, Arc<K>> {
    match event {
        Event::Added(object) => snapshot.insert(identity_of(&object), object),
        Event::Modified(object) => snapshot.insert(identity_of(&object), object),
        Event::Removed(object) => snapshot.remove(identity_of(&object)),
    }
}

/// The snapshot that a sequence of events leaves, starting from nothing.
pub open spec fn fold_events<K: Resource>(events: Seq<Event<K>>) -> Map<ObjectIdentity, Arc<K>>
    decreases events.len(),
{
    if events.len() == 0 {
        Map::empty()
    } else {
        apply_event(fold_events(events.drop_last()), events.last())
    }
}

/// The snapshot that a list of objects stands for: each object under its
/// identity, a later one in place of an earlier one of the same identity.
pub open spec fn snapshot_of<K: Resource>(items: Seq<Arc<K>>) -> Map<ObjectIdentity, Arc<K>>
    decreases items.len(),
{
    if items.len() == 0 {
        Map::empty()
    } else {
        snapshot_of(items.drop_last()).insert(identity_of(&items.last()), items.last())
    }
}

/// No two objects of the list have the same identity.
pub open spec fn distinct_identities<K: Resource>(items: Seq<Arc<K>>) -> bool {
    forall|i: int, j: int|
        0 <= i < j < items.len() ==> identity_of(&#[trigger] items[i]) != identity_of(
            &#[trigger] items[j],
        )
}

/// A snapshot holds exactly the identities of its list, and under each the
/// last object of that identity.
pub proof fn lemma_snapshot_of_contains<K: Resource>(items: Seq<Arc<K>>, key: ObjectIdentity)
    ensures
        snapshot_of(items).contains_key(key) <==> exists|i: int|
            0 <= i < items.len() && identity_of(&#[trigger] items[i]) == key,
        forall|i: int|
            0 <= i < items.len() && identity_of(&#[trigger] items[i]) == key && (forall|j: int|
                i < j < items.len() ==> identity_of(&#[trigger] items[j]) != key)
                ==> snapshot_of(items)[key] == items[i],
    decreases items.len(),
{
    if items.len() > 0 {
        let rest = items.drop_last();
        lemma_snapshot_of_contains(rest, key);
        if identity_of(&items.last()) == key {
            assert(identity_of(&items[items.len() - 1]) == key);
        } else {
            if snapshot_of(items).contains_key(key) {
                let i = choose|i: int|
                    0 <= i < rest.len() && identity_of(&#[trigger] rest[i]) == key;
                assert(identity_of(&items[i]) == key);
            }
            if exists|i: int| 0 <= i < items.len() && identity_of(&#[trigger] items[i]) == key {
                let i = choose|i: int|
                    0 <= i < items.len() && identity_of(&#[trigger] items[i]) == key;
                assert(identity_of(&rest[i]) == key);
            }
        }
        assert forall|i: int|
            0 <= i < items.len() && identity_of(&#[trigger] items[i]) == key && (forall|j: int|
                i < j < items.len() ==> identity_of(&#[trigger] items[j]) != key) implies snapshot_of(
            items,
        )[key] == items[i] by {
            if i < items.len() - 1 {
                assert(identity_of(&items[items.len() - 1]) != key);
                assert(rest[i] == items[i]);
                assert forall|j: int| i < j < rest.len() implies identity_of(
                    &#[trigger] rest[j],
                ) != key by {
                    assert(rest[j] == items[j]);
                }
            }
        }
    }
}

proof fn lemma_snapshot_replace<K: Resource>(items: Seq<Arc<K>>, at: int, object: Arc<K>)
    requires
        distinct_identities(items),
        0 <= at < items.len(),
        identity_of(&object) == identity_of(&items[at]),
    ensures
        distinct_identities(items.update(at, object)),
        snapshot_of(items.update(at, object)) == snapshot_of(items).insert(
            identity_of(&object),
            object,
        ),
    decreases items.len(),
{
    let updated = items.update(at, object);
    assert forall|i: int, j: int| 0 <= i < j < updated.len() implies identity_of(
        &#[trigger] updated[i],
    ) != identity_of(&#[trigger] updated[j]) by {
        assert(identity_of(&items[i]) != identity_of(&items[j]));
    }
    let last = items.len() - 1;
    if at == last {
        assert(updated.drop_last() =~= items.drop_last());
        assert(snapshot_of(updated) =~= snapshot_of(items).insert(identity_of(&object), object));
    } else {
        assert(distinct_identities(items.drop_last())) by {
            assert forall|i: int, j: int| 0 <= i < j < items.drop_last().len() implies identity_of(
                &#[trigger] items.drop_last()[i],
            ) != identity_of(&#[trigger] items.drop_last()[j]) by {
                assert(identity_of(&items[i]) != identity_of(&items[j]));
            }
        }
        lemma_snapshot_replace(items.drop_last(), at, object);
        assert(updated.drop_last() =~= items.drop_last().update(at, object));
        assert(identity_of(&items[at]) != identity_of(&items[last]));
        assert(snapshot_of(updated) =~= snapshot_of(items).insert(identity_of(&object), object));
    }
}

proof fn lemma_snapshot_remove<K: Resource>(items: Seq<Arc<K>>, at: int)
    requires
        distinct_identities(items),
        0 <= at < items.len(),
    ensures
        distinct_identities(items.remove(at)),
        snapshot_of(items.remove(at)) == snapshot_of(items).remove(identity_of(&items[at])),
    decreases items.len(),
{
    let removed = items.remove(at);
    assert forall|i: int, j: int| 0 <= i < j < removed.len() implies identity_of(
        &#[trigger] removed[i],
    ) != identity_of(&#[trigger] removed[j]) by {
        let x = if i < at { i } else { i + 1 };
        let y = if j < at { j } else { j + 1 };
        assert(identity_of(&items[x]) != identity_of(&items[y]));
    }
    let last = items.len() - 1;
    let rest = items.drop_last();
    assert(distinct_identities(rest)) by {
        assert forall|i: int, j: int| 0 <= i < j < rest.len() implies identity_of(
            &#[trigger] rest[i],
        ) != identity_of(&#[trigger] rest[j]) by {
            assert(identity_of(&items[i]) != identity_of(&items[j]));
        }
    }
    if at == last {
        assert(removed =~= rest);
        lemma_snapshot_of_contains(rest, identity_of(&items[at]));
        if snapshot_of(rest).contains_key(identity_of(&items[at])) {
            let i = choose|i: int|
                0 <= i < rest.len() && identity_of(&#[trigger] rest[i]) == identity_of(&items[at]);
            assert(identity_of(&items[i]) != identity_of(&items[at]));
        }
        assert(snapshot_of(removed) =~= snapshot_of(items).remove(identity_of(&items[at])));
    } else {
        lemma_snapshot_remove(rest, at);
        assert(removed.drop_last() =~= rest.remove(at));
        assert(removed.last() == items[last]);
        assert(identity_of(&items[at]) != identity_of(&items[last]));
        assert(snapshot_of(removed) =~= snapshot_of(items).remove(identity_of(&items[at])));
    }
}

proof fn lemma_snapshot_absent<K: Resource>(items: Seq<Arc<K>>, key: ObjectIdentity)
    requires
        forall|i: int| 0 <= i < items.len() ==> identity_of(&#[trigger] items[i]) != key,
    ensures
        !snapshot_of(items).contains_key(key),
        snapshot_of(items).remove(key) == snapshot_of(items),
{
    lemma_snapshot_of_contains(items, key);
    assert(snapshot_of(items).remove(key) =~= snapshot_of(items));
}

fn position<K: Resource>(items: &Vec<Arc<K>>, object: &Arc<K>) -> (found: Option<usize>)
    ensures
        match found {
            Some(at) => at < items.len() && identity_of(&items[at as int]) == identity_of(object),
            None => forall|i: int|
                0 <= i < items.len() ==> identity_of(&#[trigger] items[i]) != identity_of(object),
        },
{
    let mut i: usize = 0;
    while i < items.len()
        invariant
            i <= items.len(),
            forall|j: int| 0 <= j < i ==> identity_of(&#[trigger] items[j]) != identity_of(object),
        decreases items.len() - i,
    {
        if items[i].meta().same_identity(object.meta()) {
            return Some(i);
        }
        i += 1;
    }
    None
}

/// The objects of one kind that are known to exist, each under its
/// identity. Events change it one at a time; a reader gets a copy of the
/// whole at one instant.
pub struct Snapshot<K: Resource> {
    items: Vec<Arc<K>>,
}

impl<K: Resource> View for Snapshot<K> {
    type V = Map<ObjectIdentity, Arc<K>>;

    closed spec fn view(&self) -> Map<ObjectIdentity, Arc<K>> {
        snapshot_of(self.items@)
    }
}

impl<K: Resource> Snapshot<K> {
    #[verifier::type_invariant]
    spec fn well_formed(self) -> bool {
        distinct_identities(self.items@)
    }

    /// The objects of the snapshot, each once, in the order in which
    /// `state` lists them.
    pub closed spec fn listing(&self) -> Seq<Arc<K>> {
        self.items@
    }

    /// A snapshot of nothing.
    pub fn new() -> (snapshot: Self)
        ensures
            snapshot@ == Map::<ObjectIdentity, Arc<K>>::empty(),
            snapshot.listing() == Seq::<Arc<K>>::empty(),
    {
        Snapshot { items: Vec::new() }
    }

    /// The listing stands for what the snapshot holds, and its length is
    /// a length that a list in memory can have.
    pub proof fn lemma_listing(&self)
        ensures
            snapshot_of(self.listing()) == self@,
            self.listing().len() <= usize::MAX,
    {
        vstd::std_specs::vec::axiom_spec_len(&self.items);
    }

    /// Puts a full list of the objects in the place of what was known: the
    /// snapshot then holds each listed object under its identity, a later
    /// one in place of an earlier one of the same identity, and nothing
    /// else.
    pub fn reset(&mut self, objects: &Vec<Arc<K>>)
        ensures
            final(self)@ == snapshot_of(objects@),
            distinct_identities(final(self).listing()),
    {
        let mut items: Vec<Arc<K>> = Vec::new();
        let mut i: usize = 0;
        while i < objects.len()
            invariant
                i <= objects.len(),
                distinct_identities(items@),
                snapshot_of(items@) == snapshot_of(objects@.take(i as int)),
            decreases objects.len() - i,
        {
            proof {
                assert(objects@.take(i + 1).drop_last() =~= objects@.take(i as int));
            }
            put(&mut items, share(&objects[i]));
            i += 1;
        }
        assert(objects@.take(i as int) =~= objects@);
        self.items = items;
    }

    /// Takes one event in. An added or modified object takes the place
    /// under its identity; a removed one leaves it, and the removal of an
    /// object that is not there changes nothing.
    pub fn apply(&mut self, event: Event<K>)
        ensures
            final(self)@ == apply_event(old(self)@, event),
            distinct_identities(final(self).listing()),
    {
        proof {
            use_type_invariant(&*self);
        }
        let mut items: Vec<Arc<K>> = Vec::new();
        std::mem::swap(&mut items, &mut self.items);
        match event {
            Event::Added(object) => put(&mut items, object),
            Event::Modified(object) => put(&mut items, object),
            Event::Removed(object) => take_out(&mut items, &object),
        }
        self.items = items;
    }

    /// The snapshot that a sequence of events leaves, starting from
    /// nothing.
    pub fn replay(events: &Vec<Event<K>>) -> (snapshot: Self)
        ensures
            snapshot@ == fold_events(events@),
    {
        let mut snapshot = Snapshot::new();
        let mut i: usize = 0;
        while i < events.len()
            invariant
                i <= events.len(),
                snapshot@ == fold_events(events@.take(i as int)),
            decreases events.len() - i,
        {
            proof {
                assert(events@.take(i + 1).drop_last() =~= events@.take(i as int));
            }
            let event = match &events[i] {
                Event::Added(object) => Event::Added(share(object)),
                Event::Modified(object) => Event::Modified(share(object)),
                Event::Removed(object) => Event::Removed(share(object)),
            };
            snapshot.apply(event);
            i += 1;
        }
        assert(events@.take(i as int) =~= events@);
        snapshot
    }

    /// The objects of the snapshot at this instant, each once.
    pub fn state(&self) -> (items: Vec<Arc<K>>)
        ensures
            items@ == self.listing(),
            self.listing().len() <= usize::MAX,
            snapshot_of(items@) == self@,
            distinct_identities(items@),
    {
        proof {
            use_type_invariant(self);
        }
        let mut items: Vec<Arc<K>> = Vec::new();
        let mut i: usize = 0;
        while i < self.items.len()
            invariant
                i <= self.items.len(),
                items@ == self.items@.take(i as int),
            decreases self.items.len() - i,
        {
            items.push(share(&self.items[i]));
            i += 1;
            assert(items@ =~= self.items@.take(i as int));
        }
        assert(items@ =~= self.items@);
        items
    }
}

fn put<K: Resource>(items: &mut Vec<Arc<K>>, object: Arc<K>)
    requires
        distinct_identities(old(items)@),
    ensures
        distinct_identities(final(items)@),
        snapshot_of(final(items)@) == snapshot_of(old(items)@).insert(
            identity_of(&object),
            object,
        ),
{
    match position(items, &object) {
        Some(at) => {
            proof {
                lemma_snapshot_replace(items@, at as int, object);
            }
            items.set(at, object);
        },
        None => {
            items.push(object);
            assert(items@.drop_last() =~= old(items)@);
        },
    }
}

fn take_out<K: Resource>(items: &mut Vec<Arc<K>>, object: &Arc<K>)
    requires
        distinct_identities(old(items)@),
    ensures
        distinct_identities(final(items)@),
        snapshot_of(final(items)@) == snapshot_of(old(items)@).remove(identity_of(object)),
{
    match position(items, object) {
        Some(at) => {
            proof {
                lemma_snapshot_remove(items@, at as int);
            }
            items.remove(at);
        },
        None => {
            proof {
                lemma_snapshot_absent(items@, identity_of(object));
            }
        },
    }
}

/// The index of the last event that speaks of an identity, if any does.
pub open spec fn last_word<K: Resource>(events: Seq<Event<K>>, key: ObjectIdentity) -> Option<int>
    decreases events.len(),
{
    if events.len() == 0 {
        None
    } else if events.last().identity() == key {
        Some(events.len() - 1)
    } else {
        last_word(events.drop_last(), key)
    }
}

/// `last_word` finds an event that speaks of the identity, after which no
/// event does; it finds none only where no event speaks of it.
pub proof fn lemma_last_word<K: Resource>(events: Seq<Event<K>>, key: ObjectIdentity)
    ensures
        match last_word(events, key) {
            Some(i) => {
                &&& 0 <= i < events.len()
                &&& events[i].identity() == key
                &&& forall|j: int| i < j < events.len() ==> (#[trigger] events[j]).identity() != key
            },
            None => forall|j: int| 0 <= j < events.len() ==> (#[trigger] events[j]).identity() != key,
        },
    decreases events.len(),
{
    if events.len() > 0 && events.last().identity() != key {
        let rest = events.drop_last();
        lemma_last_word(rest, key);
        match last_word(rest, key) {
            Some(i) => {
                assert(rest[i] == events[i]);
                assert forall|j: int| i < j < events.len() implies (#[trigger] events[j]).identity()
                    != key by {
                    if j < rest.len() {
                        assert(rest[j] == events[j]);
                    }
                }
            },
            None => {
                assert forall|j: int| 0 <= j < events.len() implies (#[trigger] events[j]).identity()
                    != key by {
                    if j < rest.len() {
                        assert(rest[j] == events[j]);
                    }
                }
            },
        }
    }
}

/// Last write wins. After a sequence of events a snapshot holds nothing
/// under an identity that no event spoke of. Under any other identity the
/// last event that spoke of it decides: where it added or modified an
/// object the snapshot holds that object, where it removed one the snapshot
/// holds nothing.
pub proof fn lemma_fold_last_write_wins<K: Resource>(events: Seq<Event<K>>, key: ObjectIdentity)
    ensures
        match last_word(events, key) {
            Some(i) => match events[i] {
                Event::Added(object) => fold_events(events).contains_key(key) && fold_events(
                    events,
                )[key] == object,
                Event::Modified(object) => fold_events(events).contains_key(key) && fold_events(
                    events,
                )[key] == object,
                Event::Removed(_) => !fold_events(events).contains_key(key),
            },
            None => !fold_events(events).contains_key(key),
        },
    decreases events.len(),
{
    if events.len() > 0 {
        let rest = events.drop_last();
        let last = events.last();
        lemma_fold_last_write_wins(rest, key);
        lemma_last_word(rest, key);
        if last.identity() == key {
            assert(events[events.len() - 1] == last);
        } else {
            let before = fold_events(rest);
            let after = fold_events(events);
            assert(after == apply_event(before, last));
            assert(after.contains_key(key) == before.contains_key(key));
            assert(before.contains_key(key) ==> after[key] == before[key]);
            if last_word(rest, key) is Some {
                assert(rest[last_word(rest, key)->0] == events[last_word(rest, key)->0]);
            }
        }
    }
}

/// Taking the same modification in twice leaves what taking it in once
/// leaves.
pub proof fn lemma_modified_twice<K: Resource>(
    snapshot: Map<ObjectIdentity, Arc<K>>,
    object: Arc<K>,
)
    ensures
        apply_event(apply_event(snapshot, Event::Modified(object)), Event::Modified(object))
            == apply_event(snapshot, Event::Modified(object)),
{
    let once = apply_event(snapshot, Event::Modified(object));
    assert(apply_event(once, Event::Modified(object)) =~= once);
}

} // verus!
