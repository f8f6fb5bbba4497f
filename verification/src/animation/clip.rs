//! Keyframe lookup for animation tracks.
use vstd::prelude::*;
use crate::float_bits::{f32_le, le_bits};

verus! {

/// Where a sampling time falls on a track whose key times are given.
#[derive(Clone, Copy, Debug, PartialEq, Eq)]
pub enum KeySpan {
    /// The track has no key: nothing to sample.
    Empty,
    /// The sample is the value of this key as it stands (before the first
    /// key, after the last one, or on a single-key track).
    Hold(usize),
    /// The sample interpolates between this key and the next one.
    Between(usize),
}

/// The first `j >= i` with `times[j] <= t <= times[j + 1]` below the last key.
pub open spec fn first_bracket_from(times: Seq<u32>, t: u32, i: int) -> Option<int>
    decreases times.len() - i,
{
    if i < 0 || i >= times.len() - 1 {
        None
    } else if f32_le(times[i], t) && f32_le(t, times[i + 1]) {
        Some(i)
    } else {
        first_bracket_from(times, t, i + 1)
    }
}

/// The span of `t` on a track with key times `times` (`f32` bit patterns),
/// decided as the track samplers decide it: no key gives `Empty`; a single
/// key, or `t <= times[0]`, holds the first key; `t >= ` the last time holds
/// the last key; otherwise the first bracketing pair is interpolated, and where
/// none brackets `t` (a NaN time or unsorted keys) the last key is held.
pub open spec fn key_span(times: Seq<u32>, t: u32) -> KeySpan {
    if times.len() == 0 {
        KeySpan::Empty
    } else if times.len() == 1 || f32_le(t, times[0]) {
        KeySpan::Hold(0)
    } else if f32_le(times[times.len() - 1], t) {
        KeySpan::Hold((times.len() - 1) as usize)
    } else {
        match first_bracket_from(times, t, 0) {
            Some(i) => KeySpan::Between(i as usize),
            None => KeySpan::Hold((times.len() - 1) as usize),
        }
    }
}

proof fn lemma_first_bracket_props(times: Seq<u32>, t: u32, i: int)
    requires
        0 <= i,
    ensures
        first_bracket_from(times, t, i) matches Some(j) ==> {
            &&& i <= j < times.len() - 1
            &&& f32_le(times[j], t) && f32_le(t, times[j + 1])
            &&& forall|k: int| i <= k < j ==> !(f32_le(times[k], t) && f32_le(t, times[k + 1]))
        },
        first_bracket_from(times, t, i) is None ==> forall|k: int|
            i <= k < times.len() - 1 ==> !(f32_le(times[k], t) && f32_le(t, times[k + 1])),
    decreases times.len() - i,
{
    if i < times.len() - 1 {
        lemma_first_bracket_props(times, t, i + 1);
    }
}

/// Locates sampling time `time` on a track with key times `times`.
pub fn locate_keyframe(times: &[u32], time: u32) -> (r: KeySpan)
    ensures
        r == key_span(times@, time),
{
    let n = times.len();
    if n == 0 {
        return KeySpan::Empty;
    }
    if n == 1 || le_bits(time, times[0]) {
        return KeySpan::Hold(0);
    }
    let last = n - 1;
    if le_bits(times[last], time) {
        return KeySpan::Hold(last);
    }
    let mut i: usize = 0;
    while i < last
        invariant
            last == times@.len() - 1,
            times@.len() >= 2,
            !f32_le(time, times@[0]),
            !f32_le(times@[last as int], time),
            0 <= i <= last,
            first_bracket_from(times@, time, 0) == first_bracket_from(times@, time, i as int),
        decreases last - i,
    {
        if le_bits(times[i], time) && le_bits(time, times[i + 1]) {
            assert(first_bracket_from(times@, time, i as int) == Some(i as int));
            return KeySpan::Between(i);
        }
        i = i + 1;
    }
    KeySpan::Hold(last)
}

/// A located span is always valid for the track: a held key exists, and an
/// interpolated pair is a pair of consecutive keys that brackets the time,
/// the first such pair.
pub proof fn lemma_key_span_valid(times: Seq<u32>, t: u32)
    requires
        times.len() <= usize::MAX,
    ensures
        key_span(times, t) is Empty <==> times.len() == 0,
        key_span(times, t) matches KeySpan::Hold(i) ==> i < times.len(),
        key_span(times, t) matches KeySpan::Between(i) ==> {
            &&& i + 1 < times.len()
            &&& f32_le(times[i as int], t) && f32_le(t, times[i + 1])
            &&& forall|k: int| 0 <= k < i ==> !(f32_le(times[k], t) && f32_le(t, times[k + 1]))
        },
{
    lemma_first_bracket_props(times, t, 0);
}

/// Which span a time selects on a track with keys: a single key is held; a
/// time at or before the first key holds the first key, and only such a time
/// (or a single key) does; a time at or after the last key, past the first,
/// holds the last key; and a time strictly between the first and the last key
/// that some consecutive pair of keys brackets interpolates the first such
/// pair.
pub proof fn lemma_key_span_cases(times: Seq<u32>, t: u32)
    requires
        1 <= times.len() <= usize::MAX,
    ensures
        times.len() == 1 ==> key_span(times, t) == KeySpan::Hold(0),
        f32_le(t, times[0]) ==> key_span(times, t) == KeySpan::Hold(0),
        key_span(times, t) == KeySpan::Hold(0) ==> times.len() == 1 || f32_le(t, times[0]),
        times.len() >= 2 && !f32_le(t, times[0]) && f32_le(times[times.len() - 1], t) ==> key_span(
            times,
            t,
        ) == KeySpan::Hold((times.len() - 1) as usize),
        forall|j: int|
            #![trigger times[j], times[j + 1]]
            0 <= j < times.len() - 1 && f32_le(times[j], t) && f32_le(t, times[j + 1]) && !f32_le(
                t,
                times[0],
            ) && !f32_le(times[times.len() - 1], t) ==> {
                &&& key_span(times, t) matches KeySpan::Between(i)
                &&& i <= j
                &&& f32_le(times[i as int], t) && f32_le(t, times[i + 1])
                &&& forall|k: int|
                    0 <= k < i ==> !(f32_le(times[k], t) && f32_le(t, times[k + 1]))
            },
{
    lemma_first_bracket_props(times, t, 0);
}

} // verus!
