//! Header lists read as multimaps: a name may come with several values, and the
//! values of one name keep the order in which they were given.

use vstd::prelude::*;

verus! {

/// The test "this pair carries `name`".
pub open spec fn carries<V>(name: Seq<char>) -> spec_fn((Seq<char>, V)) -> bool {
    |pair: (Seq<char>, V)| pair.0 == name
}

/// The values that `pairs` gives under `name`, in the order of `pairs`.
pub open spec fn values_named<V>(pairs: Seq<(Seq<char>, V)>, name: Seq<char>) -> Seq<V> {
    pairs.filter(carries::<V>(name)).map_values(|pair: (Seq<char>, V)| pair.1)
}

/// The multimap that a list of pairs stands for: every name that occurs, with
/// all of its values in their order.
pub open spec fn multimap<V>(pairs: Seq<(Seq<char>, V)>) -> Map<Seq<char>, Seq<V>> {
    Map::new(
        |name: Seq<char>| values_named(pairs, name).len() > 0,
        |name: Seq<char>| values_named(pairs, name),
    )
}

/// `map` with one more value at the end of the values of `name`.
pub open spec fn multimap_push<V>(map: Map<Seq<char>, Seq<V>>, name: Seq<char>, value: V) -> Map<
    Seq<char>,
    Seq<V>,
> {
    if map.contains_key(name) {
        map.insert(name, map[name].push(value))
    } else {
        map.insert(name, seq![value])
    }
}

/// Adding a pair at the end adds its value at the end of the values of its
/// name, and leaves the values of every other name as they were.
pub proof fn lemma_values_named_push<V>(pairs: Seq<(Seq<char>, V)>, pair: (Seq<char>, V), name: Seq<char>)
    ensures
        values_named(pairs.push(pair), name) == if pair.0 == name {
            values_named(pairs, name).push(pair.1)
        } else {
            values_named(pairs, name)
        },
{
    pairs.lemma_filter_push(pair, carries::<V>(name));
    let kept = pairs.filter(carries::<V>(name));
    let value_of = |p: (Seq<char>, V)| p.1;
    if pair.0 == name {
        assert(kept.push(pair).map_values(value_of) =~= kept.map_values(value_of).push(pair.1));
    }
}

/// The values under a name, over two lists one after the other, are the values
/// from the first followed by the values from the second.
pub proof fn lemma_values_named_concat<V>(
    first: Seq<(Seq<char>, V)>,
    second: Seq<(Seq<char>, V)>,
    name: Seq<char>,
)
    ensures
        values_named(first + second, name) == values_named(first, name) + values_named(
            second,
            name,
        ),
{
    Seq::filter_distributes_over_add(first, second, carries::<V>(name));
    let value_of = |p: (Seq<char>, V)| p.1;
    let a = first.filter(carries::<V>(name));
    let b = second.filter(carries::<V>(name));
    assert((a + b).map_values(value_of) =~= a.map_values(value_of) + b.map_values(value_of));
}

/// An empty list gives no values.
pub proof fn lemma_values_named_empty<V>(name: Seq<char>)
    ensures
        values_named(Seq::<(Seq<char>, V)>::empty(), name) == Seq::<V>::empty(),
{
    reveal(Seq::filter);
    assert(Seq::<(Seq<char>, V)>::empty().filter(carries::<V>(name)).map_values(
        |p: (Seq<char>, V)| p.1,
    ) =~= Seq::<V>::empty());
}

/// The multimap of a list with one more pair is the multimap of the list with
/// that pair's value pushed under its name.
pub proof fn lemma_multimap_push<V>(pairs: Seq<(Seq<char>, V)>, pair: (Seq<char>, V))
    ensures
        multimap(pairs.push(pair)) == multimap_push(multimap(pairs), pair.0, pair.1),
{
    let left = multimap(pairs.push(pair));
    let right = multimap_push(multimap(pairs), pair.0, pair.1);
    assert forall|name: Seq<char>| #[trigger] left.contains_key(name) == right.contains_key(name)
        && (left.contains_key(name) ==> left[name] == right[name]) by {
        lemma_values_named_push(pairs, pair, name);
        if pair.0 == name && !multimap(pairs).contains_key(name) {
            assert(values_named(pairs, name) =~= Seq::<V>::empty());
            assert(values_named(pairs, name).push(pair.1) =~= seq![pair.1]);
        }
    }
    assert(left =~= right);
}

/// Two values given under the same name both appear among the values of that
/// name, and the one given first comes first.
pub proof fn lemma_duplicates_kept_in_order<V>(
    pairs: Seq<(Seq<char>, V)>,
    i: int,
    j: int,
) -> (at: (int, int))
    requires
        0 <= i < j < pairs.len(),
        pairs[i].0 == pairs[j].0,
    ensures
        0 <= at.0 < at.1 < values_named(pairs, pairs[i].0).len(),
        values_named(pairs, pairs[i].0)[at.0] == pairs[i].1,
        values_named(pairs, pairs[i].0)[at.1] == pairs[j].1,
        multimap(pairs).contains_key(pairs[i].0),
        multimap(pairs)[pairs[i].0] == values_named(pairs, pairs[i].0),
{
    let name = pairs[i].0;
    let head = pairs.take(i);
    let mid = pairs.subrange(i + 1, j);
    let tail = pairs.skip(j + 1);
    let upto_i = head.push(pairs[i]);
    let upto_j = (upto_i + mid).push(pairs[j]);
    assert(pairs =~= upto_j + tail);
    lemma_values_named_push(head, pairs[i], name);
    lemma_values_named_concat(upto_i, mid, name);
    lemma_values_named_push(upto_i + mid, pairs[j], name);
    lemma_values_named_concat(upto_j, tail, name);
    let a = values_named(head, name).len() as int;
    let b = (values_named(upto_i, name) + values_named(mid, name)).len() as int;
    (a, b)
}

/// `pairs` with every value replaced by what `f` makes of it; names and order
/// stay.
pub open spec fn relabel<V, W>(pairs: Seq<(Seq<char>, V)>, f: spec_fn(V) -> W) -> Seq<
    (Seq<char>, W),
> {
    Seq::new(pairs.len(), |i: int| (pairs[i].0, f(pairs[i].1)))
}

/// Replacing the values of a list replaces the values under each name, one
/// for one and in place.
pub proof fn lemma_values_named_relabel<V, W>(
    pairs: Seq<(Seq<char>, V)>,
    f: spec_fn(V) -> W,
    name: Seq<char>,
)
    ensures
        values_named(relabel(pairs, f), name) == values_named(pairs, name).map_values(f),
    decreases pairs.len(),
{
    if pairs.len() == 0 {
        lemma_values_named_empty::<V>(name);
        lemma_values_named_empty::<W>(name);
        assert(pairs =~= Seq::empty());
        assert(relabel(pairs, f) =~= Seq::empty());
        assert(Seq::<V>::empty().map_values(f) =~= Seq::<W>::empty());
    } else {
        let front = pairs.drop_last();
        let last = pairs.last();
        lemma_values_named_relabel(front, f, name);
        assert(pairs =~= front.push(last));
        assert(relabel(pairs, f) =~= relabel(front, f).push((last.0, f(last.1))));
        lemma_values_named_push(front, last, name);
        lemma_values_named_push(relabel(front, f), (last.0, f(last.1)), name);
        if last.0 == name {
            assert(values_named(front, name).push(last.1).map_values(f) =~= values_named(
                front,
                name,
            ).map_values(f).push(f(last.1)));
        }
    }
}

} // verus!
