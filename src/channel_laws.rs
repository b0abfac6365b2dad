//! What sampling a channel guarantees across times and behaviours.
//!
//! Each lemma speaks of `sample_spec`, which `locate` and `evaluate` follow
//! exactly on keys in time order.

use vstd::arithmetic::div_mod::{lemma_mod_multiples_vanish, lemma_small_mod};
use vstd::prelude::*;

use crate::channel::{
    AnimBehaviour, Sample, blend_spec, bracket, first_at, inner_spec, is_bracket, is_first_at,
    is_sorted, lemma_bracket_unique, lemma_first_at_unique, repeat_time, sample_spec,
};

verus! {

/// Strictly inside the key range of sorted keys, let keys `i` and `i + 1`
/// enclose both `t1 <= t2`. Each time then samples as the first key at that
/// time (where it falls on key `i`) or as the blend from key `i` towards key `i + 1`
/// with weight `(t - ts[i]) / (ts[i + 1] - ts[i])`; that weight lies in
/// `[0, 1)` and does not decrease from `t1` to `t2`.
pub proof fn lemma_interior_blend(
    ts: Seq<int>,
    i: int,
    t1: int,
    t2: int,
    pre: AnimBehaviour,
    post: AnimBehaviour,
)
    requires
        is_sorted(ts),
        ts.len() >= 2,
        ts[0] < t1 <= t2 < ts[ts.len() - 1],
        is_bracket(ts, i, t1),
        is_bracket(ts, i, t2),
    ensures
        sample_spec(ts, t1, pre, post) == (if t1 == ts[i] {
            Sample::Exact(first_at(ts, t1) as usize)
        } else {
            blend_spec(ts, i, i + 1, t1)
        }),
        sample_spec(ts, t2, pre, post) == (if t2 == ts[i] {
            Sample::Exact(first_at(ts, t2) as usize)
        } else {
            blend_spec(ts, i, i + 1, t2)
        }),
        0 <= t1 - ts[i] <= t2 - ts[i] < ts[i + 1] - ts[i],
{
    lemma_bracket_unique(ts, i, t1);
    lemma_bracket_unique(ts, i, t2);
}

proof fn lemma_bracket_exists(ts: Seq<int>, t: int, hi: int)
    requires
        0 < hi < ts.len(),
        ts[0] <= t < ts[hi],
    ensures
        exists|i: int| is_bracket(ts, i, t),
    decreases hi,
{
    if ts[hi - 1] <= t {
        assert(is_bracket(ts, hi - 1, t));
    } else {
        lemma_bracket_exists(ts, t, hi - 1);
    }
}

/// On sorted keys, sampling at a key's own time gives exactly that key, for
/// the first key; for the first of the keys that share a time below the
/// last key time; and for the last key where it lies after the first.
pub proof fn lemma_key_time_is_fixed(ts: Seq<int>, i: int, pre: AnimBehaviour, post: AnimBehaviour)
    requires
        is_sorted(ts),
        0 <= i < ts.len(),
        i == 0 || (i == ts.len() - 1 && ts[0] != ts[i]) || (ts[i] != ts[ts.len() - 1] && forall|
            k: int,
        | 0 <= k < i ==> ts[k] != ts[i]),
    ensures
        sample_spec(ts, ts[i], pre, post) == Sample::Exact(i as usize),
{
    let n = ts.len();
    let t = ts[i];
    if i > 0 && !(i == n - 1 && ts[0] != ts[i]) {
        assert(ts[0] < t) by {
            assert(ts[0] != t);
        }
        assert(t < ts[n - 1]);
        lemma_bracket_exists(ts, t, n - 1);
        let b = bracket(ts, t);
        assert(is_bracket(ts, b, t));
        if b < i {
            assert(ts[b + 1] <= ts[i]);
        }
        assert(ts[b] >= ts[i]);
        assert(is_first_at(ts, i, t));
        lemma_first_at_unique(ts, i, t);
    }
}

/// Under `Repeat`, the time a repeating channel reduces `t` to, for every
/// `t` but the last key time.
proof fn lemma_repeat_canonical(ts: Seq<int>, t: int, pre: AnimBehaviour, post: AnimBehaviour)
    requires
        ts.len() >= 2,
        ts[0] < ts[ts.len() - 1],
        post == AnimBehaviour::Repeat,
        t != ts[ts.len() - 1],
        pre == AnimBehaviour::Repeat || t >= ts[0],
    ensures
        sample_spec(ts, t, pre, post) == (if repeat_time(ts, t) == ts[0] {
            Sample::Exact(0)
        } else {
            inner_spec(ts, repeat_time(ts, t))
        }),
{
    let n = ts.len();
    let span = ts[n - 1] - ts[0];
    if ts[0] <= t < ts[n - 1] {
        lemma_small_mod((t - ts[0]) as nat, span as nat);
        assert(repeat_time(ts, t) == t);
    }
}

/// With `Repeat` after the last key (and before the first key, or with both
/// times at or after the first key), sampling repeats with period
/// `span = last - first`, at every time but the last key time itself.
pub proof fn lemma_repeat_is_periodic(
    ts: Seq<int>,
    t: int,
    k: int,
    pre: AnimBehaviour,
    post: AnimBehaviour,
)
    requires
        ts.len() >= 2,
        ts[0] < ts[ts.len() - 1],
        post == AnimBehaviour::Repeat,
        t != ts[ts.len() - 1],
        t + k * (ts[ts.len() - 1] - ts[0]) != ts[ts.len() - 1],
        pre == AnimBehaviour::Repeat || (t >= ts[0] && t + k * (ts[ts.len() - 1] - ts[0]) >= ts[0]),
    ensures
        sample_spec(ts, t, pre, post) == sample_spec(
            ts,
            t + k * (ts[ts.len() - 1] - ts[0]),
            pre,
            post,
        ),
{
    let n = ts.len();
    let span = ts[n - 1] - ts[0];
    let u = t + k * span;
    lemma_repeat_canonical(ts, t, pre, post);
    lemma_repeat_canonical(ts, u, pre, post);
    lemma_mod_multiples_vanish(k, t - ts[0], span);
    assert(u - ts[0] == span * k + (t - ts[0])) by (nonlinear_arith)
        requires
            u == t + k * span,
    ;
    assert(repeat_time(ts, u) == repeat_time(ts, t));
}

/// With `Constant` before the first key, every time at or before the first
/// key samples as the first key.
pub proof fn lemma_constant_before(ts: Seq<int>, t1: int, t2: int, post: AnimBehaviour)
    requires
        ts.len() >= 1,
        t1 <= ts[0],
        t2 <= ts[0],
    ensures
        sample_spec(ts, t1, AnimBehaviour::Constant, post) == Sample::Exact(0),
        sample_spec(ts, t2, AnimBehaviour::Constant, post) == Sample::Exact(0),
{
}

/// With `Constant` after the last key, every time at or after the last key
/// samples as the last key; where several keys share the first time, that
/// time itself belongs to the first key and is left out.
pub proof fn lemma_constant_after(ts: Seq<int>, t1: int, t2: int, pre: AnimBehaviour)
    requires
        ts.len() >= 1,
        t1 >= ts[ts.len() - 1],
        t2 >= ts[ts.len() - 1],
        t1 > ts[0] || ts.len() == 1,
        t2 > ts[0] || ts.len() == 1,
    ensures
        sample_spec(ts, t1, pre, AnimBehaviour::Constant) == Sample::Exact((ts.len() - 1) as usize),
        sample_spec(ts, t2, pre, AnimBehaviour::Constant) == Sample::Exact((ts.len() - 1) as usize),
{
}

/// On sorted keys, of which there are at least two, `Default` gives the rest
/// value outside the key range, whatever the keys hold.
pub proof fn lemma_default_gives_rest(ts: Seq<int>, t: int, pre: AnimBehaviour, post: AnimBehaviour)
    requires
        is_sorted(ts),
        ts.len() >= 2,
        (t < ts[0] && pre == AnimBehaviour::Default) || (t > ts[ts.len() - 1] && post
            == AnimBehaviour::Default),
    ensures
        sample_spec(ts, t, pre, post) == Sample::Rest,
{
}

/// A channel of one key samples as that key at every time, under every
/// behaviour.
pub proof fn lemma_single_key(ts: Seq<int>, t: int, pre: AnimBehaviour, post: AnimBehaviour)
    requires
        ts.len() == 1,
    ensures
        sample_spec(ts, t, pre, post) == Sample::Exact(0),
{
}

} // verus!
