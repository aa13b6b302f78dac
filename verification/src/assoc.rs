//! Lists of keyed entries read as maps: of two entries with one key the later
//! one counts.

use vstd::prelude::*;

verus! {

/// The map that the first `n` pairs make, a later pair replacing an earlier
/// one of the same key.
pub open spec fn last_wins<V>(pairs: Seq<(Seq<char>, V)>, n: nat) -> Map<Seq<char>, V>
    decreases n,
{
    if n == 0 || n > pairs.len() {
        Map::empty()
    } else {
        last_wins(pairs, (n - 1) as nat).insert(pairs[n - 1].0, pairs[n - 1].1)
    }
}

/// The map that all of `pairs` make.
pub open spec fn as_map<V>(pairs: Seq<(Seq<char>, V)>) -> Map<Seq<char>, V> {
    last_wins(pairs, pairs.len())
}

/// Whether `at` is the last of the first `n` pairs that has the key `key`.
pub open spec fn last_with_key<V>(
    pairs: Seq<(Seq<char>, V)>,
    n: nat,
    key: Seq<char>,
    at: int,
) -> bool {
    &&& 0 <= at < n <= pairs.len()
    &&& pairs[at].0 == key
    &&& forall|later: int| at < later < n ==> pairs[later].0 != key
}

/// Whether none of `pairs` has the key `key`.
pub open spec fn without_key<V>(pairs: Seq<(Seq<char>, V)>, key: Seq<char>) -> bool {
    forall|i: int| 0 <= i < pairs.len() ==> pairs[i].0 != key
}

/// The first `n` pairs alone decide what the map of the first `n` holds.
pub proof fn last_wins_of_prefix<V>(a: Seq<(Seq<char>, V)>, b: Seq<(Seq<char>, V)>, n: nat)
    requires
        n <= a.len(),
        n <= b.len(),
        forall|i: int| 0 <= i < n ==> a[i] == b[i],
    ensures
        last_wins(a, n) == last_wins(b, n),
    decreases n,
{
    if n > 0 {
        last_wins_of_prefix(a, b, (n - 1) as nat);
    }
}

/// A key that no pair has is not in the map; of the pairs with one key, the
/// map holds the last.
pub proof fn last_wins_holds_last<V>(pairs: Seq<(Seq<char>, V)>, n: nat, key: Seq<char>)
    requires
        n <= pairs.len(),
    ensures
        (forall|i: int| 0 <= i < n ==> pairs[i].0 != key) ==> !last_wins(pairs, n).contains_key(
            key,
        ),
        forall|at: int|
            last_with_key(pairs, n, key, at) ==> last_wins(pairs, n).contains_key(key)
                && last_wins(pairs, n)[key] == (#[trigger] pairs[at]).1,
    decreases n,
{
    if n > 0 {
        last_wins_holds_last(pairs, (n - 1) as nat, key);
        assert forall|at: int| last_with_key(pairs, n, key, at) implies last_wins(
            pairs,
            n,
        ).contains_key(key) && last_wins(pairs, n)[key] == (#[trigger] pairs[at]).1 by {
            if at < n - 1 {
                assert(last_with_key(pairs, (n - 1) as nat, key, at));
            }
        }
    }
}

/// Replacing the last pair of a key is inserting under that key.
pub proof fn last_wins_replace_last<V>(pairs: Seq<(Seq<char>, V)>, n: nat, at: int, value: V)
    requires
        last_with_key(pairs, n, pairs[at].0, at),
    ensures
        last_wins(pairs.update(at, (pairs[at].0, value)), n) == last_wins(pairs, n).insert(
            pairs[at].0,
            value,
        ),
    decreases n,
{
    let key = pairs[at].0;
    let updated = pairs.update(at, (key, value));
    let before = last_wins(pairs, (n - 1) as nat);
    if at == n - 1 {
        last_wins_of_prefix(updated, pairs, (n - 1) as nat);
        assert(before.insert(key, pairs[at].1).insert(key, value) =~= before.insert(key, value));
    } else {
        last_wins_replace_last(pairs, (n - 1) as nat, at, value);
        let last = pairs[n - 1];
        assert(updated[n - 1] == last);
        assert(before.insert(key, value).insert(last.0, last.1) =~= before.insert(
            last.0,
            last.1,
        ).insert(key, value));
    }
}

/// Appending a pair is inserting it.
pub proof fn last_wins_push<V>(pairs: Seq<(Seq<char>, V)>, pair: (Seq<char>, V))
    ensures
        as_map(pairs.push(pair)) == as_map(pairs).insert(pair.0, pair.1),
{
    last_wins_of_prefix(pairs.push(pair), pairs, pairs.len());
}

} // verus!
