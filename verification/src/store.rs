//! What the entity managers share: the concurrent map they keep their entities in, and the
//! way a listing of keys relates to a map's domain.

use dashmap::DashMap;
use vstd::prelude::*;

verus! {

/// The concurrent map of the `dashmap` crate. Nothing inside it is visible to proofs: each
/// manager names what its own map holds and states its operations over that name.
#[verifier::external_type_specification]
#[verifier::external_body]
#[verifier::reject_recursive_types(K)]
#[verifier::reject_recursive_types(V)]
#[verifier::reject_recursive_types(S)]
pub struct ExDashMap<K, V, S>(DashMap<K, V, S>);

/// `keys` lists `dom`: each of `keys` is in `dom`, each of `dom` is listed, and none twice.
pub open spec fn lists_keys<K>(keys: Seq<K>, dom: Set<K>) -> bool {
    &&& forall|i: int| 0 <= i < keys.len() ==> dom.contains(#[trigger] keys[i])
    &&& forall|k: K| #[trigger]
        dom.contains(k) ==> exists|i: int| 0 <= i < keys.len() && #[trigger] keys[i] == k
    &&& forall|i: int, j: int|
        0 <= i < j < keys.len() ==> #[trigger] keys[i] != #[trigger] keys[j]
}

/// `k` is among the first `n` of `keys`.
pub open spec fn listed_before<K>(keys: Seq<K>, n: int, k: K) -> bool {
    exists|j: int| 0 <= j < n && j < keys.len() && #[trigger] keys[j] == k
}

/// `picked` lists those of the first `n` of `keys` that are in `want`, none twice.
pub open spec fn picks<K>(picked: Seq<K>, keys: Seq<K>, n: int, want: Set<K>) -> bool {
    &&& forall|i: int|
        0 <= i < picked.len() ==> want.contains(#[trigger] picked[i]) && listed_before(
            keys,
            n,
            picked[i],
        )
    &&& forall|k: K|
        want.contains(k) && #[trigger] listed_before(keys, n, k) ==> exists|i: int|
            0 <= i < picked.len() && #[trigger] picked[i] == k
    &&& forall|i: int, j: int|
        0 <= i < j < picked.len() ==> #[trigger] picked[i] != #[trigger] picked[j]
}

/// The character sequences of a list of strings.
pub open spec fn views(names: Seq<String>) -> Seq<Seq<char>> {
    names.map_values(|s: String| s@)
}

/// Nothing is picked from no keys.
pub proof fn lemma_picks_none<K>(keys: Seq<K>, want: Set<K>)
    ensures
        picks(Seq::<K>::empty(), keys, 0, want),
{
}

/// Passing over a key that is not wanted.
pub proof fn lemma_picks_skip<K>(picked: Seq<K>, keys: Seq<K>, n: int, want: Set<K>)
    requires
        0 <= n < keys.len(),
        picks(picked, keys, n, want),
        !want.contains(keys[n]),
    ensures
        picks(picked, keys, n + 1, want),
{
    assert forall|i: int| 0 <= i < picked.len() implies want.contains(#[trigger] picked[i])
        && listed_before(keys, n + 1, picked[i]) by {
        assert(listed_before(keys, n, picked[i]));
        let j = choose|j: int| 0 <= j < n && j < keys.len() && #[trigger] keys[j] == picked[i];
        assert(0 <= j < n + 1 && keys[j] == picked[i]);
    }
    assert forall|k: K| want.contains(k) && #[trigger] listed_before(keys, n + 1, k) implies exists|
        i: int,
    |
        0 <= i < picked.len() && #[trigger] picked[i] == k by {
        let j = choose|j: int| 0 <= j < n + 1 && j < keys.len() && #[trigger] keys[j] == k;
        assert(j != n);
        assert(0 <= j < n && keys[j] == k);
        assert(listed_before(keys, n, k));
    }
}

/// Taking a key that is wanted.
pub proof fn lemma_picks_take<K>(picked: Seq<K>, keys: Seq<K>, n: int, want: Set<K>)
    requires
        0 <= n < keys.len(),
        picks(picked, keys, n, want),
        want.contains(keys[n]),
        forall|i: int, j: int| 0 <= i < j < keys.len() ==> #[trigger] keys[i] != #[trigger] keys[j],
    ensures
        picks(picked.push(keys[n]), keys, n + 1, want),
{
    let next = picked.push(keys[n]);
    assert forall|i: int| 0 <= i < next.len() implies want.contains(#[trigger] next[i])
        && listed_before(keys, n + 1, next[i]) by {
        if i < picked.len() {
            assert(next[i] == picked[i]);
            assert(listed_before(keys, n, picked[i]));
            let j = choose|j: int| 0 <= j < n && j < keys.len() && #[trigger] keys[j] == picked[i];
            assert(0 <= j < n + 1 && keys[j] == next[i]);
        } else {
            assert(next[i] == keys[n]);
            assert(0 <= n < n + 1 && keys[n] == next[i]);
        }
    }
    assert forall|k: K| want.contains(k) && #[trigger] listed_before(keys, n + 1, k) implies exists|
        i: int,
    |
        0 <= i < next.len() && #[trigger] next[i] == k by {
        let j = choose|j: int| 0 <= j < n + 1 && j < keys.len() && #[trigger] keys[j] == k;
        if j == n {
            assert(next[picked.len() as int] == k);
        } else {
            assert(0 <= j < n && keys[j] == k);
            assert(listed_before(keys, n, k));
            let i = choose|i: int| 0 <= i < picked.len() && #[trigger] picked[i] == k;
            assert(next[i] == k);
        }
    }
    assert forall|i: int, j: int| 0 <= i < j < next.len() implies #[trigger] next[i]
        != #[trigger] next[j] by {
        if j < picked.len() {
            assert(next[i] == picked[i] && next[j] == picked[j]);
        } else {
            assert(next[i] == picked[i]);
            assert(listed_before(keys, n, picked[i]));
            let m = choose|m: int| 0 <= m < n && m < keys.len() && #[trigger] keys[m] == picked[i];
            assert(keys[m] != keys[n]);
        }
    }
}

/// When every key of `dom` has been passed, what was picked lists the wanted keys of `dom`.
pub proof fn lemma_picks_all<K>(picked: Seq<K>, keys: Seq<K>, dom: Set<K>, want: Set<K>)
    requires
        lists_keys(keys, dom),
        picks(picked, keys, keys.len() as int, want),
    ensures
        lists_keys(picked, want.intersect(dom)),
{
    assert forall|i: int| 0 <= i < picked.len() implies want.intersect(dom).contains(
        #[trigger] picked[i],
    ) by {
        assert(listed_before(keys, keys.len() as int, picked[i]));
        let j = choose|j: int|
            0 <= j < keys.len() && j < keys.len() && #[trigger] keys[j] == picked[i];
        assert(dom.contains(keys[j]));
    }
    assert forall|k: K| #[trigger] want.intersect(dom).contains(k) implies exists|i: int|
        0 <= i < picked.len() && #[trigger] picked[i] == k by {
        assert(dom.contains(k));
        let j = choose|j: int| 0 <= j < keys.len() && #[trigger] keys[j] == k;
        assert(listed_before(keys, keys.len() as int, k));
    }
}

/// A key that is listed at position `n` is not among those before it.
pub proof fn lemma_not_listed_before<K>(keys: Seq<K>, dom: Set<K>, n: int)
    requires
        lists_keys(keys, dom),
        0 <= n < keys.len(),
    ensures
        !listed_before(keys, n, keys[n]),
        listed_before(keys, n + 1, keys[n]),
        forall|k: K| k != keys[n] ==> (listed_before(keys, n + 1, k) <==> listed_before(keys, n, k)),
{
    if listed_before(keys, n, keys[n]) {
        let j = choose|j: int| 0 <= j < n && j < keys.len() && #[trigger] keys[j] == keys[n];
        assert(keys[j] != keys[n]);
    }
    assert(0 <= n < n + 1 && keys[n] == keys[n]);
    assert forall|k: K| k != keys[n] implies (listed_before(keys, n + 1, k) <==> listed_before(
        keys,
        n,
        k,
    )) by {
        if listed_before(keys, n + 1, k) {
            let j = choose|j: int| 0 <= j < n + 1 && j < keys.len() && #[trigger] keys[j] == k;
            assert(0 <= j < n && keys[j] == k);
        }
        if listed_before(keys, n, k) {
            let j = choose|j: int| 0 <= j < n && j < keys.len() && #[trigger] keys[j] == k;
            assert(0 <= j < n + 1 && keys[j] == k);
        }
    }
}

/// Every key of `dom` is among all of `keys`, and nothing else is.
pub proof fn lemma_listed_all<K>(keys: Seq<K>, dom: Set<K>)
    requires
        lists_keys(keys, dom),
    ensures
        forall|k: K| dom.contains(k) <==> #[trigger] listed_before(keys, keys.len() as int, k),
        forall|k: K| !#[trigger] listed_before(keys, 0, k),
{
    assert forall|k: K| dom.contains(k) <==> #[trigger] listed_before(
        keys,
        keys.len() as int,
        k,
    ) by {
        if dom.contains(k) {
            let j = choose|j: int| 0 <= j < keys.len() && #[trigger] keys[j] == k;
            assert(0 <= j < keys.len() && keys[j] == k);
        }
        if listed_before(keys, keys.len() as int, k) {
            let j = choose|j: int|
                0 <= j < keys.len() && j < keys.len() && #[trigger] keys[j] == k;
            assert(dom.contains(keys[j]));
        }
    }
}

} // verus!
