//! What several indicators do with a window of values: keep a running sum,
//! find the largest or the smallest value.

use vstd::prelude::*;
use crate::circular_buffer::CircularBuffer;
use crate::indicator_value::{plain_difference, plain_sum, IndicatorValue};
use crate::value_laws::{lemma_lt_asymmetric, lemma_lt_cotransitive};

verus! {

/// The running sum after `input` came in and `evicted` left.
pub open spec fn rolled_sum(
    sum: IndicatorValue,
    input: IndicatorValue,
    evicted: Option<IndicatorValue>,
) -> Option<IndicatorValue> {
    match evicted {
        None => IndicatorValue::spec_sum(sum, input),
        Some(old) => match IndicatorValue::spec_difference(input, old) {
            None => None,
            Some(delta) => IndicatorValue::spec_sum(sum, delta),
        },
    }
}

/// The running sum after `input` came in and `evicted` left.
pub fn roll_sum(sum: IndicatorValue, input: IndicatorValue, evicted: Option<IndicatorValue>) -> (r: Option<
    IndicatorValue,
>)
    ensures
        r == rolled_sum(sum, input, evicted),
{
    match evicted {
        None => plain_sum(sum, input),
        Some(old) => plain_sum(sum, plain_difference(input, old)?),
    }
}

/// Whether `candidate` takes the place of `best` in a search for the largest
/// (`largest`) or the smallest value; among equal values the later one wins
/// where `later_wins`.
pub open spec fn supersedes(best: IndicatorValue, candidate: IndicatorValue, largest: bool, later_wins: bool) -> bool {
    if largest {
        if later_wins { !candidate.spec_lt(best) } else { best.spec_lt(candidate) }
    } else {
        if later_wins { !best.spec_lt(candidate) } else { candidate.spec_lt(best) }
    }
}

/// The offset of the largest (or smallest) among the first `n` values of
/// `window`, found by walking from offset 0 upwards.
pub open spec fn extreme_offset(window: Seq<IndicatorValue>, n: nat, largest: bool, later_wins: bool) -> nat
    decreases n,
{
    if n <= 1 {
        0
    } else {
        let best = extreme_offset(window, (n - 1) as nat, largest, later_wins);
        if supersedes(window[best as int], window[n - 1], largest, later_wins) {
            (n - 1) as nat
        } else {
            best
        }
    }
}

/// Whether no value among the first `n` of `window` is beyond `bound`:
/// none larger where `largest`, none smaller otherwise.
pub open spec fn bounds(window: Seq<IndicatorValue>, n: nat, bound: IndicatorValue, largest: bool) -> bool {
    forall|i: int| 0 <= i < n ==> if largest {
        !bound.spec_lt(#[trigger] window[i])
    } else {
        !(#[trigger] window[i]).spec_lt(bound)
    }
}

/// The offset that the search finds lies among those searched, and no value
/// searched is beyond the value there.
pub proof fn lemma_extreme_offset(window: Seq<IndicatorValue>, n: nat, largest: bool, later_wins: bool)
    requires
        0 < n <= window.len(),
    ensures
        extreme_offset(window, n, largest, later_wins) < n,
        bounds(window, n, window[extreme_offset(window, n, largest, later_wins) as int], largest),
    decreases n,
{
    if n > 1 {
        let m = (n - 1) as nat;
        lemma_extreme_offset(window, m, largest, later_wins);
        let best = extreme_offset(window, m, largest, later_wins);
        let found = extreme_offset(window, n, largest, later_wins);
        let old_bound = window[best as int];
        let bound = window[found as int];
        assert forall|i: int| 0 <= i < n implies if largest {
            !bound.spec_lt(#[trigger] window[i])
        } else {
            !(#[trigger] window[i]).spec_lt(bound)
        } by {
            lemma_lt_asymmetric(bound, window[i]);
            lemma_lt_asymmetric(old_bound, window[n - 1]);
            if i < m {
                if largest {
                    if bound.spec_lt(window[i]) {
                        lemma_lt_cotransitive(bound, window[i], old_bound);
                    }
                } else {
                    if window[i].spec_lt(bound) {
                        lemma_lt_cotransitive(window[i], bound, old_bound);
                    }
                }
            }
        }
    } else {
        lemma_lt_asymmetric(window[0], window[0]);
    }
}

/// The offset and the value of the largest (or smallest) among the values
/// that `buffer` keeps once `incoming` is pushed.
pub fn find_extreme_after(buffer: &CircularBuffer, incoming: IndicatorValue, largest: bool, later_wins: bool) -> (r: (
    usize,
    IndicatorValue,
))
    requires
        buffer.wf(),
    ensures
        ({
            let window = CircularBuffer::pushed(buffer@, buffer.spec_capacity(), incoming);
            &&& r.0 == extreme_offset(window, window.len(), largest, later_wins)
            &&& r.0 < window.len()
            &&& r.1 == window[r.0 as int]
        }),
{
    proof {
        buffer.lemma_len();
    }
    let kept = buffer.len();
    let n = if kept < buffer.capacity() { kept + 1 } else { kept };
    let ghost window = CircularBuffer::pushed(buffer@, buffer.spec_capacity(), incoming);
    let mut best: usize = 0;
    let mut best_value = incoming;
    let mut i: usize = 1;
    while i < n
        invariant
            buffer.wf(),
            window == CircularBuffer::pushed(buffer@, buffer.spec_capacity(), incoming),
            n == window.len(),
            n <= buffer@.len() + 1,
            1 <= i <= n,
            best < i,
            best == extreme_offset(window, i as nat, largest, later_wins),
            best_value == window[best as int],
        decreases n - i,
    {
        let candidate = buffer.at(i - 1);
        assert(candidate == window[i as int]);
        let takes = if largest {
            if later_wins { !candidate.less_than(best_value) } else { best_value.less_than(candidate) }
        } else {
            if later_wins { !best_value.less_than(candidate) } else { candidate.less_than(best_value) }
        };
        if takes {
            best = i;
            best_value = candidate;
        }
        i = i + 1;
    }
    (best, best_value)
}

/// The extreme that is followed, after `input` was pushed and gave the window
/// `window`: `input` at offset 0 where it supersedes the extreme before
/// (`value` at `offset`); else the same value one offset further, unless it
/// left the window, when the window is searched.
pub open spec fn followed(
    window: Seq<IndicatorValue>,
    capacity: nat,
    value: IndicatorValue,
    offset: nat,
    input: IndicatorValue,
    largest: bool,
    adopt_ties: bool,
    search_later_wins: bool,
) -> (IndicatorValue, nat) {
    if supersedes(value, input, largest, adopt_ties) {
        (input, 0)
    } else if offset + 1 >= capacity {
        let found = extreme_offset(window, window.len(), largest, search_later_wins);
        (window[found as int], found)
    } else {
        (value, offset + 1)
    }
}

/// Whether `value` is found at `offset` in `window` and no value of the
/// window is beyond it.
pub open spec fn is_extreme(window: Seq<IndicatorValue>, value: IndicatorValue, offset: nat, largest: bool) -> bool {
    &&& offset < window.len()
    &&& window[offset as int] == value
    &&& bounds(window, window.len(), value, largest)
}

/// Tracking keeps the extreme: where `value` at `offset` was the extreme of
/// the window before, what is followed after a push is the extreme of the
/// window after it.
pub proof fn lemma_followed_is_extreme(
    before: Seq<IndicatorValue>,
    capacity: nat,
    value: IndicatorValue,
    offset: nat,
    input: IndicatorValue,
    largest: bool,
    adopt_ties: bool,
    search_later_wins: bool,
)
    requires
        0 < capacity,
        before.len() <= capacity,
        is_extreme(before, value, offset, largest),
    ensures
        ({
            let window = CircularBuffer::pushed(before, capacity, input);
            let next = followed(window, capacity, value, offset, input, largest, adopt_ties, search_later_wins);
            is_extreme(window, next.0, next.1, largest)
        }),
{
    let window = CircularBuffer::pushed(before, capacity, input);
    let next = followed(window, capacity, value, offset, input, largest, adopt_ties, search_later_wins);
    assert(window[0] == input);
    assert forall|i: int| 1 <= i < window.len() implies window[i] == before[i - 1] by {}
    if supersedes(value, input, largest, adopt_ties) {
        assert forall|i: int| 0 <= i < window.len() implies if largest {
            !input.spec_lt(#[trigger] window[i])
        } else {
            !(#[trigger] window[i]).spec_lt(input)
        } by {
            lemma_lt_asymmetric(input, value);
            lemma_lt_asymmetric(input, input);
            if i > 0 {
                assert(window[i] == before[i - 1]);
                if largest {
                    if input.spec_lt(window[i]) {
                        lemma_lt_cotransitive(input, window[i], value);
                    }
                } else {
                    if window[i].spec_lt(input) {
                        lemma_lt_cotransitive(window[i], input, value);
                    }
                }
            }
        }
    } else if offset + 1 >= capacity {
        lemma_extreme_offset(window, window.len(), largest, search_later_wins);
    } else {
        assert(window[offset as int + 1] == before[offset as int]);
        assert forall|i: int| 0 <= i < window.len() implies if largest {
            !value.spec_lt(#[trigger] window[i])
        } else {
            !(#[trigger] window[i]).spec_lt(value)
        } by {
            lemma_lt_asymmetric(input, value);
            if i > 0 {
                assert(window[i] == before[i - 1]);
            }
        }
    }
}

/// The extreme that is followed once `input` is pushed.
pub fn track(
    buffer: &CircularBuffer,
    value: IndicatorValue,
    offset: usize,
    input: IndicatorValue,
    largest: bool,
    adopt_ties: bool,
    search_later_wins: bool,
) -> (r: (IndicatorValue, usize))
    requires
        buffer.wf(),
        offset < buffer.spec_capacity(),
    ensures
        (r.0, r.1 as nat) == followed(
            CircularBuffer::pushed(buffer@, buffer.spec_capacity(), input),
            buffer.spec_capacity(),
            value,
            offset as nat,
            input,
            largest,
            adopt_ties,
            search_later_wins,
        ),
        r.1 < buffer.spec_capacity(),
{
    proof {
        buffer.lemma_len();
    }
    let takes = if largest {
        if adopt_ties { !input.less_than(value) } else { value.less_than(input) }
    } else {
        if adopt_ties { !value.less_than(input) } else { input.less_than(value) }
    };
    if takes {
        (input, 0)
    } else if offset + 1 >= buffer.capacity() {
        let (found, extreme) = find_extreme_after(buffer, input, largest, search_later_wins);
        (extreme, found)
    } else {
        (value, offset + 1)
    }
}

/// The extreme that is followed after `input` was pushed, where there may
/// have been none before: the first value is the first extreme. Among equal
/// values the older one is kept, and a search finds the newest.
pub open spec fn followed_from(
    window: Seq<IndicatorValue>,
    capacity: nat,
    best: Option<(IndicatorValue, nat)>,
    input: IndicatorValue,
    largest: bool,
) -> (IndicatorValue, nat) {
    match best {
        None => (input, 0),
        Some((value, offset)) => followed(window, capacity, value, offset, input, largest, false, false),
    }
}

/// Whether `best` is the extreme of `window`: none for an empty window, else
/// a value of the window that none is beyond, and its offset.
pub open spec fn holds_extreme(window: Seq<IndicatorValue>, best: Option<(IndicatorValue, nat)>, largest: bool) -> bool {
    match best {
        None => window.len() == 0,
        Some((value, offset)) => is_extreme(window, value, offset, largest),
    }
}

/// Following keeps the extreme, from the empty window on.
pub proof fn lemma_followed_from_is_extreme(
    before: Seq<IndicatorValue>,
    capacity: nat,
    best: Option<(IndicatorValue, nat)>,
    input: IndicatorValue,
    largest: bool,
)
    requires
        0 < capacity,
        before.len() <= capacity,
        holds_extreme(before, best, largest),
    ensures
        ({
            let window = CircularBuffer::pushed(before, capacity, input);
            let next = followed_from(window, capacity, best, input, largest);
            is_extreme(window, next.0, next.1, largest)
        }),
{
    match best {
        None => {
            let window = CircularBuffer::pushed(before, capacity, input);
            assert(window =~= seq![input]);
            lemma_lt_asymmetric(input, input);
        },
        Some((value, offset)) => {
            lemma_followed_is_extreme(before, capacity, value, offset, input, largest, false, false);
        },
    }
}

/// The extreme that is followed once `input` is pushed.
pub fn track_from(buffer: &CircularBuffer, best: Option<(IndicatorValue, usize)>, input: IndicatorValue, largest: bool) -> (r: (
    IndicatorValue,
    usize,
))
    requires
        buffer.wf(),
        best.is_some() ==> best.unwrap().1 < buffer.spec_capacity(),
    ensures
        (r.0, r.1 as nat) == followed_from(
            CircularBuffer::pushed(buffer@, buffer.spec_capacity(), input),
            buffer.spec_capacity(),
            match best {
                Some((value, offset)) => Some((value, offset as nat)),
                None => None,
            },
            input,
            largest,
        ),
        r.1 < buffer.spec_capacity(),
{
    proof {
        buffer.lemma_len();
    }
    match best {
        None => (input, 0),
        Some((value, offset)) => track(buffer, value, offset, input, largest, false, false),
    }
}

/// Whether `value` is a starting value that no value of `window` has reached
/// yet: every value of the window is short of it, and its offset counts the
/// values that came since the start.
pub open spec fn awaited(
    window: Seq<IndicatorValue>,
    capacity: nat,
    value: IndicatorValue,
    offset: nat,
    largest: bool,
) -> bool {
    &&& offset == window.len()
    &&& window.len() < capacity
    &&& forall|i: int| 0 <= i < window.len() ==> if largest {
        (#[trigger] window[i]).spec_lt(value)
    } else {
        value.spec_lt(#[trigger] window[i])
    }
}

/// What holds of an extreme that is followed from a starting value on, a new
/// value taking its place when it is as extreme or more: it is the extreme
/// of the window, or the starting value still.
pub open spec fn follows(
    window: Seq<IndicatorValue>,
    capacity: nat,
    value: IndicatorValue,
    offset: nat,
    largest: bool,
) -> bool {
    is_extreme(window, value, offset, largest) || awaited(window, capacity, value, offset, largest)
}

/// Every push keeps `follows`.
pub proof fn lemma_follows_step(
    before: Seq<IndicatorValue>,
    capacity: nat,
    value: IndicatorValue,
    offset: nat,
    input: IndicatorValue,
    largest: bool,
    search_later_wins: bool,
)
    requires
        0 < capacity,
        before.len() <= capacity,
        follows(before, capacity, value, offset, largest),
    ensures
        ({
            let window = CircularBuffer::pushed(before, capacity, input);
            let next = followed(window, capacity, value, offset, input, largest, true, search_later_wins);
            follows(window, capacity, next.0, next.1, largest)
        }),
{
    let window = CircularBuffer::pushed(before, capacity, input);
    let next = followed(window, capacity, value, offset, input, largest, true, search_later_wins);
    if is_extreme(before, value, offset, largest) {
        lemma_followed_is_extreme(before, capacity, value, offset, input, largest, true, search_later_wins);
    } else {
        assert(window =~= seq![input] + before);
        assert forall|i: int| 1 <= i < window.len() implies window[i] == before[i - 1] by {}
        if supersedes(value, input, largest, true) {
            assert forall|i: int| 0 <= i < window.len() implies if largest {
                !input.spec_lt(#[trigger] window[i])
            } else {
                !(#[trigger] window[i]).spec_lt(input)
            } by {
                lemma_lt_asymmetric(input, input);
                if i > 0 {
                    assert(window[i] == before[i - 1]);
                    if largest {
                        lemma_lt_asymmetric(before[i - 1], value);
                        if input.spec_lt(window[i]) {
                            lemma_lt_cotransitive(input, window[i], value);
                        }
                    } else {
                        lemma_lt_asymmetric(value, before[i - 1]);
                        if window[i].spec_lt(input) {
                            lemma_lt_cotransitive(window[i], input, value);
                        }
                    }
                }
            }
        } else if offset + 1 >= capacity {
            lemma_extreme_offset(window, window.len(), largest, search_later_wins);
        } else {
            assert forall|i: int| 0 <= i < window.len() implies if largest {
                (#[trigger] window[i]).spec_lt(value)
            } else {
                value.spec_lt(#[trigger] window[i])
            } by {
                if i > 0 {
                    assert(window[i] == before[i - 1]);
                }
            }
        }
    }
}

} // verus!
