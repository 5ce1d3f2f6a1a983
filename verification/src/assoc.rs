use vstd::prelude::*;

verus! {

/// The mapping that a list of name/value pairs denotes when it is read front
/// to back and a later pair replaces an earlier one of the same name.
pub open spec fn assoc_map<V>(pairs: Seq<(Seq<char>, V)>) -> Map<Seq<char>, V>
    decreases pairs.len(),
{
    if pairs.len() == 0 {
        Map::empty()
    } else {
        assoc_map(pairs.drop_last()).insert(pairs.last().0, pairs.last().1)
    }
}

/// No two pairs of the list bear the same name.
pub open spec fn distinct_names<V>(pairs: Seq<(Seq<char>, V)>) -> bool {
    forall|i: int, j: int| 0 <= i < j < pairs.len() ==> pairs[i].0 != pairs[j].0
}

/// The names of the mapping are the names of the pairs.
pub proof fn lemma_assoc_names<V>(pairs: Seq<(Seq<char>, V)>, name: Seq<char>)
    ensures
        assoc_map(pairs).contains_key(name) <==> exists|i: int|
            0 <= i < pairs.len() && pairs[i].0 == name,
    decreases pairs.len(),
{
    if pairs.len() > 0 {
        let front = pairs.drop_last();
        lemma_assoc_names(front, name);
        if assoc_map(pairs).contains_key(name) {
            if pairs.last().0 == name {
                assert(pairs[pairs.len() - 1].0 == name);
            } else {
                let i = choose|i: int| 0 <= i < front.len() && front[i].0 == name;
                assert(pairs[i].0 == name);
            }
        }
        if exists|i: int| 0 <= i < pairs.len() && pairs[i].0 == name {
            let i = choose|i: int| 0 <= i < pairs.len() && pairs[i].0 == name;
            if i < pairs.len() - 1 {
                assert(front[i].0 == name);
            }
        }
    }
}

/// In a list of distinct names every pair is an entry of the mapping.
pub proof fn lemma_assoc_entry<V>(pairs: Seq<(Seq<char>, V)>, at: int)
    requires
        distinct_names(pairs),
        0 <= at < pairs.len(),
    ensures
        assoc_map(pairs).contains_key(pairs[at].0),
        assoc_map(pairs)[pairs[at].0] == pairs[at].1,
    decreases pairs.len(),
{
    if at < pairs.len() - 1 {
        lemma_assoc_entry(pairs.drop_last(), at);
    }
}

/// Replacing the value of a pair in a list of distinct names is an insertion
/// into the list's mapping.
pub proof fn lemma_assoc_update<V>(pairs: Seq<(Seq<char>, V)>, at: int, value: V)
    requires
        distinct_names(pairs),
        0 <= at < pairs.len(),
    ensures
        assoc_map(pairs.update(at, (pairs[at].0, value))) == assoc_map(pairs).insert(
            pairs[at].0,
            value,
        ),
    decreases pairs.len(),
{
    let name = pairs[at].0;
    let changed = pairs.update(at, (name, value));
    if at == pairs.len() - 1 {
        assert(changed.drop_last() =~= pairs.drop_last());
        assert(assoc_map(changed) =~= assoc_map(pairs).insert(name, value));
    } else {
        lemma_assoc_update(pairs.drop_last(), at, value);
        assert(changed.drop_last() =~= pairs.drop_last().update(at, (name, value)));
        assert(changed.last() == pairs.last());
        assert(pairs.last().0 != name);
        assert(assoc_map(changed) =~= assoc_map(pairs).insert(name, value));
    }
}

/// Taking a pair out of a list of distinct names takes its name out of the
/// list's mapping.
pub proof fn lemma_assoc_remove<V>(pairs: Seq<(Seq<char>, V)>, at: int)
    requires
        distinct_names(pairs),
        0 <= at < pairs.len(),
    ensures
        assoc_map(pairs.remove(at)) == assoc_map(pairs).remove(pairs[at].0),
        distinct_names(pairs.remove(at)),
    decreases pairs.len(),
{
    let name = pairs[at].0;
    let front = pairs.drop_last();
    if at == pairs.len() - 1 {
        assert(pairs.remove(at) =~= front);
        lemma_assoc_names(front, name);
        assert(assoc_map(front) =~= assoc_map(pairs).remove(name));
    } else {
        lemma_assoc_remove(front, at);
        assert(pairs.remove(at).drop_last() =~= front.remove(at));
        assert(pairs.remove(at).last() == pairs.last());
        assert(pairs.last().0 != name);
        assert(assoc_map(pairs.remove(at)) =~= assoc_map(pairs).remove(name));
    }
}

/// A list of distinct names has as many pairs as its mapping has names.
pub proof fn lemma_assoc_len<V>(pairs: Seq<(Seq<char>, V)>)
    requires
        distinct_names(pairs),
    ensures
        assoc_map(pairs).dom().finite(),
        assoc_map(pairs).dom().len() == pairs.len(),
    decreases pairs.len(),
{
    if pairs.len() > 0 {
        let front = pairs.drop_last();
        lemma_assoc_len(front);
        lemma_assoc_names(front, pairs.last().0);
        assert(assoc_map(pairs).dom() =~= assoc_map(front).dom().insert(pairs.last().0));
    }
}

} // verus!
