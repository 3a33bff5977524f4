use vstd::prelude::*;

verus! {

/// No two elements of `s` share a key.
pub open spec fn unique_keys<T, K>(s: Seq<T>, key: spec_fn(T) -> K) -> bool {
    forall|i: int, j: int|
        0 <= i < s.len() && 0 <= j < s.len() && key(#[trigger] s[i]) == key(#[trigger] s[j])
            ==> i == j
}

/// Appending an element whose key is new keeps keys unique.
pub proof fn lemma_unique_push<T, K>(s: Seq<T>, key: spec_fn(T) -> K, x: T)
    requires
        unique_keys(s, key),
        forall|i: int| 0 <= i < s.len() ==> key(#[trigger] s[i]) != key(x),
    ensures
        unique_keys(s.push(x), key),
{
    let t = s.push(x);
    assert forall|i: int, j: int|
        0 <= i < t.len() && 0 <= j < t.len() && key(#[trigger] t[i]) == key(#[trigger] t[j])
            implies i == j by {
        if i < s.len() && j < s.len() {
            assert(t[i] == s[i] && t[j] == s[j]);
        } else if i < s.len() {
            assert(t[i] == s[i]);
        } else if j < s.len() {
            assert(t[j] == s[j]);
        }
    }
}

/// Replacing an element by one with the same key keeps keys unique.
pub proof fn lemma_unique_update<T, K>(s: Seq<T>, key: spec_fn(T) -> K, k: int, x: T)
    requires
        unique_keys(s, key),
        0 <= k < s.len(),
        key(x) == key(s[k]),
    ensures
        unique_keys(s.update(k, x), key),
{
    let t = s.update(k, x);
    assert forall|i: int, j: int|
        0 <= i < t.len() && 0 <= j < t.len() && key(#[trigger] t[i]) == key(#[trigger] t[j])
            implies i == j by {
        assert(key(t[i]) == key(s[i]));
        assert(key(t[j]) == key(s[j]));
    }
}

/// Removing an element keeps keys unique, and its key is then gone.
pub proof fn lemma_unique_remove<T, K>(s: Seq<T>, key: spec_fn(T) -> K, k: int)
    requires
        unique_keys(s, key),
        0 <= k < s.len(),
    ensures
        unique_keys(s.remove(k), key),
        forall|i: int| 0 <= i < s.len() - 1 ==> key(#[trigger] s.remove(k)[i]) != key(s[k]),
{
    let t = s.remove(k);
    assert forall|i: int, j: int|
        0 <= i < t.len() && 0 <= j < t.len() && key(#[trigger] t[i]) == key(#[trigger] t[j])
            implies i == j by {
        let i0 = if i < k { i } else { i + 1 };
        let j0 = if j < k { j } else { j + 1 };
        assert(t[i] == s[i0] && t[j] == s[j0]);
    }
    assert forall|i: int| 0 <= i < s.len() - 1 implies key(#[trigger] t[i]) != key(s[k]) by {
        let i0 = if i < k { i } else { i + 1 };
        assert(t[i] == s[i0]);
    }
}

} // verus!
