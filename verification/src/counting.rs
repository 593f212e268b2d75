use vstd::prelude::*;

verus! {

/// Number of elements of `s` that satisfy `f`.
pub open spec fn count_where<T>(s: Seq<T>, f: spec_fn(T) -> bool) -> nat
    decreases s.len(),
{
    if s.len() == 0 {
        0
    } else {
        count_where(s.drop_last(), f) + if f(s.last()) {
            1nat
        } else {
            0nat
        }
    }
}

pub proof fn lemma_count_le_len<T>(s: Seq<T>, f: spec_fn(T) -> bool)
    ensures
        count_where(s, f) <= s.len(),
    decreases s.len(),
{
    if s.len() > 0 {
        lemma_count_le_len(s.drop_last(), f);
    }
}

pub proof fn lemma_count_push<T>(s: Seq<T>, f: spec_fn(T) -> bool, x: T)
    ensures
        count_where(s.push(x), f) == count_where(s, f) + if f(x) {
            1nat
        } else {
            0nat
        },
{
    assert(s.push(x).drop_last() =~= s);
    assert(s.push(x).last() == x);
}

pub proof fn lemma_count_update<T>(s: Seq<T>, f: spec_fn(T) -> bool, j: int, x: T)
    requires
        0 <= j < s.len(),
    ensures
        count_where(s.update(j, x), f) + (if f(s[j]) {
            1nat
        } else {
            0nat
        }) == count_where(s, f) + (if f(x) {
            1nat
        } else {
            0nat
        }),
    decreases s.len(),
{
    let su = s.update(j, x);
    if j == s.len() - 1 {
        assert(su.drop_last() =~= s.drop_last());
        assert(su.last() == x);
    } else {
        assert(su.drop_last() =~= s.drop_last().update(j, x));
        assert(su.last() == s.last());
        lemma_count_update(s.drop_last(), f, j, x);
    }
}

pub proof fn lemma_count_zero<T>(s: Seq<T>, f: spec_fn(T) -> bool)
    requires
        forall|i: int| 0 <= i < s.len() ==> !f(#[trigger] s[i]),
    ensures
        count_where(s, f) == 0,
    decreases s.len(),
{
    if s.len() > 0 {
        assert(!f(s[s.len() - 1]));
        lemma_count_zero(s.drop_last(), f);
    }
}

pub proof fn lemma_count_pos<T>(s: Seq<T>, f: spec_fn(T) -> bool, j: int)
    requires
        0 <= j < s.len(),
        f(s[j]),
    ensures
        count_where(s, f) >= 1,
    decreases s.len(),
{
    if j == s.len() - 1 {
        assert(f(s.last()));
    } else {
        lemma_count_pos(s.drop_last(), f, j);
    }
}

} // verus!
