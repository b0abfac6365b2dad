//! Keyframe channels and their sampling at a given time.

use vstd::arithmetic::div_mod::{lemma_fundamental_div_mod, lemma_fundamental_div_mod_converse};
use vstd::prelude::*;

use crate::time::{TIME_LIMIT, Time};

verus! {

/// A time-value pair: the value that a property takes at `time`.
#[derive(Clone, Copy, Debug)]
pub struct Key<T> {
    pub time: Time,
    pub value: T,
}

/// How a channel behaves outside the time range that its keys cover.
#[derive(Clone, Copy, PartialEq, Eq, Debug, Structural)]
pub enum AnimBehaviour {
    /// The node's rest value is taken; the channel is ignored.
    Default,
    /// The nearest key's value is used without interpolation.
    Constant,
    /// The nearest two keys are linearly extrapolated.
    Linear,
    /// The animation repeats: keys from `n` to `m` give at time `t` the value
    /// at `n + (t - n) mod (m - n)`.
    Repeat,
}

/// An exact blend weight `num / den`, with `den > 0`.
///
/// Inside the key range the weight lies in `[0, 1)`; linear extrapolation
/// gives weights below zero (before the first key) or above one (after the
/// last key).
#[derive(Clone, Copy, PartialEq, Eq, Debug, Structural)]
pub struct Fraction {
    pub num: i128,
    pub den: i128,
}

/// What a channel yields at a given time, before any value is computed.
#[derive(Clone, Copy, PartialEq, Eq, Debug, Structural)]
pub enum Sample {
    /// The caller's rest value.
    Rest,
    /// The value of the key at this index, unchanged.
    Exact(usize),
    /// The interpolation from the key at `from` towards the key at `to`, by `alpha`.
    Blend { from: usize, to: usize, alpha: Fraction },
}

/// The times of a key sequence, as integers.
pub open spec fn key_times<T>(keys: Seq<Key<T>>) -> Seq<int> {
    Seq::new(keys.len(), |i: int| keys[i].time@)
}

/// The times never decrease from one key to the next.
pub open spec fn is_sorted(ts: Seq<int>) -> bool {
    forall|i: int, j: int| 0 <= i <= j < ts.len() ==> ts[i] <= ts[j]
}

/// Keys `i` and `i + 1` enclose `t`: `ts[i] <= t < ts[i + 1]`.
pub open spec fn is_bracket(ts: Seq<int>, i: int, t: int) -> bool {
    0 <= i && i + 1 < ts.len() && ts[i] <= t < ts[i + 1]
}

/// The pair of keys that encloses `t` (unique when the times are sorted).
pub open spec fn bracket(ts: Seq<int>, t: int) -> int {
    choose|i: int| is_bracket(ts, i, t)
}

/// The blend from key `i` towards key `j` at time `t`.
pub open spec fn blend_spec(ts: Seq<int>, i: int, j: int, t: int) -> Sample {
    Sample::Blend {
        from: i as usize,
        to: j as usize,
        alpha: Fraction { num: (t - ts[i]) as i128, den: (ts[j] - ts[i]) as i128 },
    }
}

/// Key `i` is the first key at time `t`.
pub open spec fn is_first_at(ts: Seq<int>, i: int, t: int) -> bool {
    0 <= i < ts.len() && ts[i] == t && forall|k: int| 0 <= k < i ==> ts[k] != t
}

/// The least index of a key at time `t`.
pub open spec fn first_at(ts: Seq<int>, t: int) -> int {
    choose|i: int| is_first_at(ts, i, t)
}

/// Sampling strictly between the first and the last key time: the first
/// key at `t` where one is, else the blend across the pair enclosing `t`.
pub open spec fn inner_spec(ts: Seq<int>, t: int) -> Sample {
    let i = bracket(ts, t);
    if ts[i] == t {
        Sample::Exact(first_at(ts, t) as usize)
    } else {
        blend_spec(ts, i, i + 1, t)
    }
}

/// `t` moved into `[first, last)` by whole periods of `last - first`.
pub open spec fn repeat_time(ts: Seq<int>, t: int) -> int {
    ts[0] + (t - ts[0]) % (ts[ts.len() - 1] - ts[0])
}

/// Sampling outside the key range (`before`: ahead of the first key) under `b`.
pub open spec fn outside_spec(ts: Seq<int>, t: int, b: AnimBehaviour, before: bool) -> Sample {
    let n = ts.len();
    let near: int = if before { 0 } else { n - 1 };
    match b {
        AnimBehaviour::Default => Sample::Rest,
        AnimBehaviour::Constant => Sample::Exact(near as usize),
        AnimBehaviour::Linear => {
            let i: int = if before { 0 } else { n - 2 };
            if ts[i] < ts[i + 1] {
                blend_spec(ts, i, i + 1, t)
            } else {
                Sample::Exact(near as usize)
            }
        },
        AnimBehaviour::Repeat => {
            if ts[0] < ts[n - 1] {
                let r = repeat_time(ts, t);
                if r == ts[0] {
                    Sample::Exact(0)
                } else {
                    inner_spec(ts, r)
                }
            } else {
                Sample::Exact(near as usize)
            }
        },
    }
}

/// What a channel with key times `ts` yields at time `t`, with `pre` before
/// its first key and `post` after its last.
pub open spec fn sample_spec(ts: Seq<int>, t: int, pre: AnimBehaviour, post: AnimBehaviour) -> Sample {
    let n = ts.len();
    if n == 0 {
        Sample::Rest
    } else if t <= ts[0] {
        if t == ts[0] || n == 1 {
            Sample::Exact(0)
        } else {
            outside_spec(ts, t, pre, true)
        }
    } else if t >= ts[n - 1] {
        if t == ts[n - 1] || n == 1 {
            Sample::Exact((n - 1) as usize)
        } else {
            outside_spec(ts, t, post, false)
        }
    } else {
        inner_spec(ts, t)
    }
}

/// The sample refers only to keys that exist, and blends with a positive denominator.
pub open spec fn sample_wf(s: Sample, n: int) -> bool {
    match s {
        Sample::Rest => true,
        Sample::Exact(i) => i < n,
        Sample::Blend { from, to, alpha } => from < n && to < n && alpha.den > 0,
    }
}

pub(crate) proof fn lemma_bracket_unique(ts: Seq<int>, i: int, t: int)
    requires
        is_sorted(ts),
        is_bracket(ts, i, t),
    ensures
        bracket(ts, t) == i,
{
    let j = bracket(ts, t);
    assert(is_bracket(ts, j, t));
    if j < i {
        assert(ts[j + 1] <= ts[i]);
    } else if j > i {
        assert(ts[i + 1] <= ts[j]);
    }
}

pub(crate) proof fn lemma_first_at_unique(ts: Seq<int>, i: int, t: int)
    requires
        is_first_at(ts, i, t),
    ensures
        first_at(ts, t) == i,
{
    let j = first_at(ts, t);
    assert(is_first_at(ts, j, t));
    if j < i {
        assert(ts[j] != t);
    } else if j > i {
        assert(ts[i] != t);
    }
}

/// The time of key `i`, in units.
fn time_at<T>(keys: &[Key<T>], i: usize) -> (r: i128)
    requires
        i < keys@.len(),
    ensures
        r == keys@[i as int].time@,
        -TIME_LIMIT <= r <= TIME_LIMIT,
{
    keys[i].time.units()
}

/// Finds `i` with `keys[i].time <= t < keys[i + 1].time` by bisection.
fn find_bracket<T>(keys: &[Key<T>], t: i128) -> (i: usize)
    requires
        keys@.len() >= 2,
        keys@[0].time@ <= t < keys@[keys@.len() - 1].time@,
    ensures
        is_bracket(key_times(keys@), i as int, t as int),
{
    let mut lo: usize = 0;
    let mut hi: usize = keys.len() - 1;
    while hi - lo > 1
        invariant
            lo < hi < keys@.len(),
            keys@[lo as int].time@ <= t < keys@[hi as int].time@,
        decreases hi - lo,
    {
        let mid: usize = lo + (hi - lo) / 2;
        if time_at(keys, mid) <= t {
            lo = mid;
        } else {
            hi = mid;
        }
    }
    lo
}

/// The blend from key `i` towards key `j` at time `t`.
fn blend_at<T>(keys: &[Key<T>], i: usize, j: usize, t: i128) -> (s: Sample)
    requires
        i < keys@.len(),
        j < keys@.len(),
        keys@[i as int].time@ < keys@[j as int].time@,
        -TIME_LIMIT <= t <= TIME_LIMIT,
    ensures
        s == blend_spec(key_times(keys@), i as int, j as int, t as int),
        sample_wf(s, keys@.len() as int),
{
    let ti = time_at(keys, i);
    let tj = time_at(keys, j);
    Sample::Blend { from: i, to: j, alpha: Fraction { num: t - ti, den: tj - ti } }
}

/// Sampling strictly inside the key range.
fn inner<T>(keys: &[Key<T>], t: i128) -> (s: Sample)
    requires
        keys@.len() >= 2,
        keys@[0].time@ < t < keys@[keys@.len() - 1].time@,
        -TIME_LIMIT <= t <= TIME_LIMIT,
    ensures
        sample_wf(s, keys@.len() as int),
        is_sorted(key_times(keys@)) ==> s == inner_spec(key_times(keys@), t as int),
{
    let ghost ts = key_times(keys@);
    let i = find_bracket(keys, t);
    let n = keys.len();
    assert(i + 1 < n);
    let next: usize = i + 1;
    proof {
        if is_sorted(ts) {
            lemma_bracket_unique(ts, i as int, t as int);
        }
    }
    if time_at(keys, i) == t {
        let mut j: usize = i;
        while j > 0 && time_at(keys, j - 1) == t
            invariant
                j <= i < keys@.len(),
                ts == key_times(keys@),
                ts[j as int] == t,
            decreases j,
        {
            j = j - 1;
        }
        proof {
            if is_sorted(ts) {
                assert forall|k: int| 0 <= k < j implies ts[k] != t by {
                    assert(ts[k] <= ts[j - 1]);
                }
                lemma_first_at_unique(ts, j as int, t as int);
            }
        }
        Sample::Exact(j)
    } else {
        blend_at(keys, i, next, t)
    }
}

/// Euclidean remainder of `d` by `m`, for `m > 0`.
fn euclid_mod(d: i128, m: i128) -> (r: i128)
    requires
        m > 0,
        -4 * TIME_LIMIT <= d <= 4 * TIME_LIMIT,
    ensures
        r == d % m,
        0 <= r < m,
{
    if d >= 0 {
        d % m
    } else {
        let q: i128 = (-d - 1) % m;
        proof {
            let e = -d - 1;
            let k = e / (m as int);
            lemma_fundamental_div_mod(e, m as int);
            assert(d == (-k - 1) * m + (m - 1 - q)) by (nonlinear_arith)
                requires
                    e == m * k + q,
                    d == -e - 1,
            ;
            lemma_fundamental_div_mod_converse(d as int, m as int, -k - 1, m - 1 - q);
        }
        m - 1 - q
    }
}

/// Sampling outside the key range (`before`: ahead of the first key) under `b`.
fn outside<T>(keys: &[Key<T>], t: i128, b: AnimBehaviour, before: bool) -> (s: Sample)
    requires
        keys@.len() >= 2,
        -TIME_LIMIT <= t <= TIME_LIMIT,
    ensures
        sample_wf(s, keys@.len() as int),
        is_sorted(key_times(keys@)) ==> s == outside_spec(key_times(keys@), t as int, b, before),
{
    let n = keys.len();
    let near: usize = if before { 0 } else { n - 1 };
    match b {
        AnimBehaviour::Default => Sample::Rest,
        AnimBehaviour::Constant => Sample::Exact(near),
        AnimBehaviour::Linear => {
            let i: usize = if before { 0 } else { n - 2 };
            if time_at(keys, i) < time_at(keys, i + 1) {
                blend_at(keys, i, i + 1, t)
            } else {
                Sample::Exact(near)
            }
        },
        AnimBehaviour::Repeat => {
            let first = time_at(keys, 0);
            let last = time_at(keys, n - 1);
            if first < last {
                let r: i128 = first + euclid_mod(t - first, last - first);
                if r == first {
                    Sample::Exact(0)
                } else {
                    inner(keys, r)
                }
            } else {
                Sample::Exact(near)
            }
        },
    }
}

/// Decides what the channel `keys` yields at time `t`, with `pre` before its
/// first key and `post` after its last.
///
/// Key times are expected in non-decreasing order. On keys out of order the
/// result still names existing keys only, but which ones is not specified.
pub fn locate<T>(keys: &[Key<T>], t: Time, pre: AnimBehaviour, post: AnimBehaviour) -> (s: Sample)
    ensures
        sample_wf(s, keys@.len() as int),
        is_sorted(key_times(keys@)) ==> s == sample_spec(key_times(keys@), t@, pre, post),
{
    let n = keys.len();
    if n == 0 {
        return Sample::Rest;
    }
    let u = t.units();
    let first = time_at(keys, 0);
    let last = time_at(keys, n - 1);
    if u <= first {
        if u == first || n == 1 {
            Sample::Exact(0)
        } else {
            outside(keys, u, pre, true)
        }
    } else if u >= last {
        if u == last || n == 1 {
            Sample::Exact(n - 1)
        } else {
            outside(keys, u, post, false)
        }
    } else {
        inner(keys, u)
    }
}

/// `r` is what sample `s` of `keys` gives, with `rest` as the rest value and
/// `interp` blending two key values.
pub open spec fn sample_yields<T, F: Fn(T, T, Fraction) -> T>(
    keys: Seq<Key<T>>,
    s: Sample,
    rest: T,
    interp: F,
    r: T,
) -> bool {
    match s {
        Sample::Rest => r == rest,
        Sample::Exact(i) => r == keys[i as int].value,
        Sample::Blend { from, to, alpha } => interp.ensures(
            (keys[from as int].value, keys[to as int].value, alpha),
            r,
        ),
    }
}

/// Samples the channel `keys` at time `t`: `rest` where the channel gives
/// no value, a key's value where `t` falls on it or the boundary behaviour
/// holds it, and otherwise `interp(a, b, alpha)` for the two keys `a`, `b`
/// and the weight `alpha` that `locate` decides.
pub fn evaluate<T: Copy, F: Fn(T, T, Fraction) -> T>(
    keys: &[Key<T>],
    t: Time,
    pre: AnimBehaviour,
    post: AnimBehaviour,
    rest: T,
    interp: &F,
) -> (r: T)
    requires
        forall|a: T, b: T, x: Fraction| x.den > 0 ==> #[trigger] interp.requires((a, b, x)),
    ensures
        is_sorted(key_times(keys@)) ==> sample_yields(
            keys@,
            sample_spec(key_times(keys@), t@, pre, post),
            rest,
            *interp,
            r,
        ),
        exists|s: Sample| sample_wf(s, keys@.len() as int) && sample_yields(keys@, s, rest, *interp, r),
{
    let s = locate(keys, t, pre, post);
    let r = match s {
        Sample::Rest => rest,
        Sample::Exact(i) => keys[i].value,
        Sample::Blend { from, to, alpha } => interp(keys[from].value, keys[to].value, alpha),
    };
    assert(sample_wf(s, keys@.len() as int) && sample_yields(keys@, s, rest, *interp, r));
    r
}

/// Key `i` is the last key at or before `t`.
pub open spec fn holds_at(ts: Seq<int>, i: int, t: int) -> bool {
    0 <= i < ts.len() && ts[i] <= t && (i + 1 == ts.len() || t < ts[i + 1])
}

/// The key held at time `t`: the last key at or before `t`, or the first
/// key where `t` comes before every key.
pub open spec fn hold_index(ts: Seq<int>, t: int) -> int {
    if ts.len() == 0 || t < ts[0] {
        0
    } else {
        choose|i: int| holds_at(ts, i, t)
    }
}

proof fn lemma_holds_at_unique(ts: Seq<int>, i: int, t: int)
    requires
        is_sorted(ts),
        holds_at(ts, i, t),
    ensures
        hold_index(ts, t) == i,
{
    assert(ts[0] <= ts[i]);
    let j = hold_index(ts, t);
    assert(holds_at(ts, j, t));
    if j < i {
        assert(ts[j + 1] <= ts[i]);
    } else if j > i {
        assert(ts[i + 1] <= ts[j]);
    }
}

/// Picks the key that holds at time `t`, without interpolation: the last
/// key at or before `t`, or the first key where `t` precedes them all.
pub fn hold<T>(keys: &[Key<T>], t: Time) -> (i: usize)
    requires
        keys@.len() >= 1,
    ensures
        i < keys@.len(),
        is_sorted(key_times(keys@)) ==> i == hold_index(key_times(keys@), t@),
{
    let ghost ts = key_times(keys@);
    let n = keys.len();
    let u = t.units();
    if u < time_at(keys, 0) {
        0
    } else if u >= time_at(keys, n - 1) {
        proof {
            if is_sorted(ts) {
                lemma_holds_at_unique(ts, n - 1, t@);
            }
        }
        n - 1
    } else {
        let i = find_bracket(keys, u);
        proof {
            if is_sorted(ts) {
                lemma_holds_at_unique(ts, i as int, t@);
            }
        }
        i
    }
}

/// Why a channel could not be read.
#[derive(Clone, Copy, PartialEq, Eq, Debug, Structural)]
pub enum AnimError {
    /// A time was NaN or infinite.
    InvalidTime,
    /// Keys were asked of a channel that holds none.
    EmptyChannel,
    /// A mesh channel was given an empty name.
    EmptyName,
    /// A channel's key times decrease somewhere.
    UnsortedKeys,
    /// Two node channels of one animation share a name.
    DuplicateName,
}

/// The times of the first and the last key, or `EmptyChannel` where there
/// are no keys.
pub fn time_range<T>(keys: &[Key<T>]) -> (r: Result<(Time, Time), AnimError>)
    ensures
        keys@.len() == 0 <==> r == Err::<(Time, Time), AnimError>(AnimError::EmptyChannel),
        keys@.len() > 0 ==> r == Ok::<(Time, Time), AnimError>(
            (keys@[0].time, keys@[keys@.len() - 1].time),
        ),
{
    let n = keys.len();
    if n == 0 {
        Err(AnimError::EmptyChannel)
    } else {
        Ok((keys[0].time, keys[n - 1].time))
    }
}

/// Whether the key times never decrease, which is when `locate`, `evaluate`
/// and `hold` follow their specification exactly.
pub fn keys_sorted<T>(keys: &[Key<T>]) -> (r: bool)
    ensures
        r == is_sorted(key_times(keys@)),
{
    let ghost ts = key_times(keys@);
    let n = keys.len();
    let mut i: usize = 1;
    while i < n
        invariant
            1 <= i <= n || n == 0,
            n == keys@.len(),
            ts == key_times(keys@),
            forall|a: int, b: int| 0 <= a <= b < i && b < n ==> ts[a] <= ts[b],
        decreases n - i,
    {
        if time_at(keys, i - 1) > time_at(keys, i) {
            assert(ts[i - 1] > ts[i as int]);
            return false;
        }
        proof {
            assert forall|a: int, b: int| 0 <= a <= b < i + 1 && b < n implies ts[a] <= ts[b] by {
                if b == i && a < b {
                    assert(ts[a] <= ts[i - 1]);
                }
            }
        }
        i += 1;
    }
    true
}

} // verus!
