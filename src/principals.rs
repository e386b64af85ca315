use vstd::prelude::*;

use crate::types::Principal;

verus! {

broadcast use vstd::seq_lib::seq_to_set_is_finite;

/// Position of `p` in `v`, if present.
pub fn position_of(v: &Vec<Principal>, p: Principal) -> (r: Option<usize>)
    ensures
        r is Some <==> v@.contains(p),
        r is Some ==> r.unwrap() < v@.len() && v@[r.unwrap() as int] == p,
{
    let mut i: usize = 0;
    while i < v.len()
        invariant
            i <= v@.len(),
            forall|j: int| 0 <= j < i ==> v@[j] != p,
        decreases v@.len() - i,
    {
        if v[i] == p {
            return Some(i);
        }
        i = i + 1;
    }
    None
}

/// Whether `p` occurs in `v`.
pub fn contains_principal(v: &Vec<Principal>, p: Principal) -> (r: bool)
    ensures
        r == v@.contains(p),
{
    position_of(v, p).is_some()
}

/// Adds `p` to a list without duplicates, unless already there.
pub fn insert_principal(v: &mut Vec<Principal>, p: Principal)
    requires
        old(v)@.no_duplicates(),
    ensures
        final(v)@.no_duplicates(),
        final(v)@.to_set() == old(v)@.to_set().insert(p),
{
    if !contains_principal(v, p) {
        v.push(p);
        assert(v@.to_set() =~= old(v)@.to_set().insert(p)) by {
            assert forall|x: Principal| v@.to_set().contains(x) implies old(v)@.to_set().insert(
                p,
            ).contains(x) by {
                let k = choose|k: int| 0 <= k < v@.len() && v@[k] == x;
                if k < old(v)@.len() {
                    assert(old(v)@[k] == x);
                }
            }
            assert forall|x: Principal| old(v)@.to_set().insert(p).contains(x) implies v@.to_set().contains(
                x,
            ) by {
                if x == p {
                    assert(v@[old(v)@.len() as int] == p);
                } else {
                    let k = choose|k: int| 0 <= k < old(v)@.len() && old(v)@[k] == x;
                    assert(v@[k] == x);
                }
            }
        }
    } else {
        assert(old(v)@.to_set().contains(p));
        assert(v@.to_set() =~= old(v)@.to_set().insert(p));
    }
}

/// Removes `p` from a list without duplicates, if there.
pub fn remove_principal(v: &mut Vec<Principal>, p: Principal)
    requires
        old(v)@.no_duplicates(),
    ensures
        final(v)@.no_duplicates(),
        final(v)@.to_set() == old(v)@.to_set().remove(p),
{
    match position_of(v, p) {
        None => {
            assert(v@.to_set() =~= old(v)@.to_set().remove(p));
        },
        Some(k) => {
            let ghost s = v@;
            v.remove(k);
            proof {
                assert(v@ =~= s.subrange(0, k as int) + s.subrange(k + 1, s.len() as int));
                assert forall|a: int, b: int| 0 <= a < b < v@.len() implies v@[a] != v@[b] by {
                    let a2 = if a < k { a } else { a + 1 };
                    let b2 = if b < k { b } else { b + 1 };
                    assert(v@[a] == s[a2] && v@[b] == s[b2]);
                }
                assert forall|x: Principal| v@.to_set().contains(x) implies s.to_set().remove(
                    p,
                ).contains(x) by {
                    let j = choose|j: int| 0 <= j < v@.len() && v@[j] == x;
                    let j2 = if j < k { j } else { j + 1 };
                    assert(s[j2] == x);
                    assert(j2 != k);
                }
                assert forall|x: Principal| s.to_set().remove(p).contains(x) implies v@.to_set().contains(
                    x,
                ) by {
                    let j = choose|j: int| 0 <= j < s.len() && s[j] == x;
                    assert(j != k);
                    let j2 = if j < k { j } else { j - 1 };
                    assert(v@[j2] == x);
                }
                assert(v@.to_set() =~= s.to_set().remove(p));
            }
        },
    }
}

/// The distinct principals of `v`, in order of first occurrence.
pub fn distinct_principals(v: &Vec<Principal>) -> (r: Vec<Principal>)
    ensures
        r@.no_duplicates(),
        r@.to_set() == v@.to_set(),
        r@.len() == v@.to_set().len(),
{
    let mut r: Vec<Principal> = Vec::new();
    let mut i: usize = 0;
    assert(r@.to_set() =~= v@.subrange(0, 0).to_set());
    while i < v.len()
        invariant
            i <= v@.len(),
            r@.no_duplicates(),
            r@.to_set() == v@.subrange(0, i as int).to_set(),
        decreases v@.len() - i,
    {
        let ghost before = r@;
        insert_principal(&mut r, v[i]);
        assert(v@.subrange(0, i + 1) =~= v@.subrange(0, i as int).push(v@[i as int]));
        proof {
            let pre = v@.subrange(0, i as int);
            assert(pre.push(v@[i as int]).to_set() =~= pre.to_set().insert(v@[i as int])) by {
                assert forall|x: Principal| pre.push(v@[i as int]).to_set().contains(x) implies pre.to_set().insert(
                    v@[i as int],
                ).contains(x) by {
                    let j = choose|j: int| 0 <= j < pre.len() + 1 && pre.push(v@[i as int])[j] == x;
                    if j < pre.len() {
                        assert(pre[j] == x);
                    }
                }
                assert forall|x: Principal| pre.to_set().insert(v@[i as int]).contains(x) implies pre.push(
                    v@[i as int],
                ).to_set().contains(x) by {
                    if x == v@[i as int] {
                        assert(pre.push(v@[i as int])[pre.len() as int] == x);
                    } else {
                        let j = choose|j: int| 0 <= j < pre.len() && pre[j] == x;
                        assert(pre.push(v@[i as int])[j] == x);
                    }
                }
            }
        }
        i = i + 1;
    }
    assert(v@.subrange(0, v@.len() as int) =~= v@);
    proof {
        r@.unique_seq_to_set();
    }
    r
}

} // verus!
