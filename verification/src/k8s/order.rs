//! The order in which a table lists objects: by name.
use crate::k8s::{name_of, share, Resource};
use crate::text::{lemma_lex_le_transitive, lemma_lex_lt_asymmetric, name_lt, str_lt};
use std::sync::Arc;
use vstd::prelude::*;
use vstd::utf8::encode_utf8;

verus! {

/// A list with one more object, put behind every object whose name does
/// not come after its own.
pub open spec fn insert_by_name<K: Resource>(sorted: Seq<Arc<K>>, item: Arc<K>) -> Seq<Arc<K>>
    decreases sorted.len(),
{
    if sorted.len() == 0 {
        seq![item]
    } else if name_lt(name_of(&item), name_of(&sorted.last())) {
        insert_by_name(sorted.drop_last(), item).push(sorted.last())
    } else {
        sorted.push(item)
    }
}

/// The objects of a list in the order of their names; objects of one name
/// keep the order in which the list had them.
pub open spec fn sorted_by_name<K: Resource>(items: Seq<Arc<K>>) -> Seq<Arc<K>>
    decreases items.len(),
{
    if items.len() == 0 {
        Seq::empty()
    } else {
        insert_by_name(sorted_by_name(items.drop_last()), items.last())
    }
}

/// No object of the list has a name that comes before that of an object
/// listed ahead of it.
pub open spec fn ordered_by_name<K: Resource>(items: Seq<Arc<K>>) -> bool {
    forall|i: int, j: int|
        0 <= i < j < items.len() ==> !name_lt(
            name_of(&#[trigger] items[j]),
            name_of(&#[trigger] items[i]),
        )
}

proof fn lemma_insert_by_name<K: Resource>(sorted: Seq<Arc<K>>, item: Arc<K>)
    requires
        ordered_by_name(sorted),
    ensures
        ordered_by_name(insert_by_name(sorted, item)),
        insert_by_name(sorted, item).len() == sorted.len() + 1,
        insert_by_name(sorted, item).to_multiset() == sorted.to_multiset().insert(item),
        forall|i: int|
            0 <= i < insert_by_name(sorted, item).len() ==> {
                ||| (#[trigger] insert_by_name(sorted, item)[i]) == item
                ||| sorted.contains(insert_by_name(sorted, item)[i])
            },
    decreases sorted.len(),
{
    broadcast use vstd::seq_lib::group_to_multiset_ensures;

    let result = insert_by_name(sorted, item);
    if sorted.len() == 0 {
        assert(result =~= sorted.push(item));
    } else if name_lt(name_of(&item), name_of(&sorted.last())) {
        let rest = sorted.drop_last();
        let last = sorted.last();
        assert(ordered_by_name(rest)) by {
            assert forall|i: int, j: int| 0 <= i < j < rest.len() implies !name_lt(
                name_of(&#[trigger] rest[j]),
                name_of(&#[trigger] rest[i]),
            ) by {
                assert(rest[i] == sorted[i] && rest[j] == sorted[j]);
            }
        }
        lemma_insert_by_name(rest, item);
        let front = insert_by_name(rest, item);
        assert(sorted =~= rest.push(last));
        assert(result.to_multiset() =~= sorted.to_multiset().insert(item));
        assert forall|i: int| 0 <= i < result.len() implies {
            ||| (#[trigger] result[i]) == item
            ||| sorted.contains(result[i])
        } by {
            if i < front.len() {
                if front[i] != item {
                    let k = choose|k: int| 0 <= k < rest.len() && rest[k] == front[i];
                    assert(sorted[k] == result[i]);
                }
            } else {
                assert(sorted[sorted.len() - 1] == result[i]);
            }
        }
        assert forall|i: int, j: int| 0 <= i < j < result.len() implies !name_lt(
            name_of(&#[trigger] result[j]),
            name_of(&#[trigger] result[i]),
        ) by {
            if j < front.len() {
                assert(front[i] == result[i] && front[j] == result[j]);
            } else {
                assert(result[j] == last);
                assert(front[i] == result[i]);
                if front[i] == item {
                    lemma_lex_lt_asymmetric(
                        encode_utf8(name_of(&item)),
                        encode_utf8(name_of(&last)),
                    );
                } else {
                    let k = choose|k: int| 0 <= k < rest.len() && rest[k] == front[i];
                    assert(sorted[k] == front[i]);
                    assert(sorted[sorted.len() - 1] == last);
                }
            }
        }
    } else {
        assert forall|i: int, j: int| 0 <= i < j < result.len() implies !name_lt(
            name_of(&#[trigger] result[j]),
            name_of(&#[trigger] result[i]),
        ) by {
            if j < sorted.len() {
                assert(sorted[i] == result[i] && sorted[j] == result[j]);
            } else if i < sorted.len() - 1 {
                assert(sorted[i] == result[i]);
                assert(!name_lt(name_of(&sorted[sorted.len() - 1]), name_of(&sorted[i])));
                lemma_lex_le_transitive(
                    encode_utf8(name_of(&sorted[i])),
                    encode_utf8(name_of(&sorted.last())),
                    encode_utf8(name_of(&item)),
                );
            }
        }
        assert forall|i: int| 0 <= i < result.len() implies {
            ||| (#[trigger] result[i]) == item
            ||| sorted.contains(result[i])
        } by {
            if i < sorted.len() {
                assert(sorted[i] == result[i]);
            }
        }
    }
}

/// Sorting by name orders the list.
pub proof fn lemma_sorted_by_name_ordered<K: Resource>(items: Seq<Arc<K>>)
    ensures
        ordered_by_name(sorted_by_name(items)),
        sorted_by_name(items).len() == items.len(),
    decreases items.len(),
{
    if items.len() > 0 {
        lemma_sorted_by_name_ordered(items.drop_last());
        lemma_insert_by_name(sorted_by_name(items.drop_last()), items.last());
    }
}

/// Sorting by name keeps every object, each as often as the list had it.
pub proof fn lemma_sorted_by_name_permutes<K: Resource>(items: Seq<Arc<K>>)
    ensures
        sorted_by_name(items).to_multiset() == items.to_multiset(),
    decreases items.len(),
{
    broadcast use vstd::seq_lib::group_to_multiset_ensures;

    if items.len() > 0 {
        lemma_sorted_by_name_permutes(items.drop_last());
        lemma_sorted_by_name_ordered(items.drop_last());
        lemma_insert_by_name(sorted_by_name(items.drop_last()), items.last());
        assert(items =~= items.drop_last().push(items.last()));
    } else {
        assert(sorted_by_name(items) =~= items);
    }
}

proof fn lemma_insert_position<K: Resource>(sorted: Seq<Arc<K>>, item: Arc<K>, at: int)
    requires
        0 <= at <= sorted.len(),
        forall|j: int|
            at <= j < sorted.len() ==> name_lt(name_of(&item), name_of(&#[trigger] sorted[j])),
        at > 0 ==> !name_lt(name_of(&item), name_of(&sorted[at - 1])),
    ensures
        insert_by_name(sorted, item) == sorted.insert(at, item),
    decreases sorted.len(),
{
    if sorted.len() == 0 {
        assert(insert_by_name(sorted, item) =~= sorted.insert(at, item));
    } else if at == sorted.len() {
        assert(insert_by_name(sorted, item) =~= sorted.insert(at, item));
    } else {
        assert(name_lt(name_of(&item), name_of(&sorted[sorted.len() - 1])));
        let rest = sorted.drop_last();
        assert forall|j: int| at <= j < rest.len() implies name_lt(
            name_of(&item),
            name_of(&#[trigger] rest[j]),
        ) by {
            assert(rest[j] == sorted[j]);
        }
        if at > 0 {
            assert(rest[at - 1] == sorted[at - 1]);
        }
        lemma_insert_position(rest, item, at);
        assert(insert_by_name(sorted, item) =~= sorted.insert(at, item));
    }
}

/// Puts the objects of a list in the order of their names.
pub fn sort_by_name<K: Resource>(items: &mut Vec<Arc<K>>)
    ensures
        final(items)@ == sorted_by_name(old(items)@),
{
    let mut sorted: Vec<Arc<K>> = Vec::new();
    let mut i: usize = 0;
    while i < items.len()
        invariant
            i <= items.len(),
            sorted.len() == i,
            sorted@ == sorted_by_name(items@.take(i as int)),
        decreases items.len() - i,
    {
        let item = share(&items[i]);
        let mut at: usize = sorted.len();
        while at > 0 && str_lt(item.meta().name_str(), sorted[at - 1].meta().name_str())
            invariant
                at <= sorted.len(),
                forall|j: int|
                    at <= j < sorted.len() ==> name_lt(
                        name_of(&item),
                        name_of(&#[trigger] sorted[j]),
                    ),
            decreases at,
        {
            at -= 1;
        }
        proof {
            lemma_insert_position(sorted@, item, at as int);
            assert(items@.take(i + 1).drop_last() =~= items@.take(i as int));
        }
        sorted.insert(at, item);
        i += 1;
    }
    assert(items@.take(i as int) =~= items@);
    *items = sorted;
}

} // verus!
