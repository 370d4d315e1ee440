//! Simple moving median.

use vstd::prelude::*;
use vstd::seq_lib::to_multiset_remove;
use crate::circular_buffer::CircularBuffer;
use crate::indicator_value::{plain_quotient, plain_sum, quotient_of, whole, IndicatorValue};
use crate::indicators::Indicator;
use crate::value_laws::{lemma_lt_asymmetric, lemma_lt_cotransitive};

verus! {

/// The median of the last `period` observations: the middle one of them in
/// ascending order, or the mean of the two middle ones where the period is even.
///
/// The observations of the window are kept a second time in ascending order.
/// The value that leaves the window is taken out of that order, the new one
/// is put in before the first value that is not smaller.
#[derive(Debug)]
pub struct SimpleMovingMedian {
    buffer: CircularBuffer,
    slice: Vec<IndicatorValue>,
}

/// The model of a [`SimpleMovingMedian`].
pub struct SimpleMovingMedianState {
    /// The observations kept, newest first.
    pub window: Seq<IndicatorValue>,
    /// The period.
    pub capacity: nat,
    /// The observations kept, in ascending order.
    pub sorted: Seq<IndicatorValue>,
}

/// Whether no value of `s` is smaller than one before it.
pub open spec fn ascending(s: Seq<IndicatorValue>) -> bool {
    forall|i: int, j: int| 0 <= i < j < s.len() ==> !(#[trigger] s[j]).spec_lt(#[trigger] s[i])
}

/// The first offset from `from` on at which `s` holds `v`, the length of `s` if there is none.
pub open spec fn place_of(s: Seq<IndicatorValue>, v: IndicatorValue, from: nat) -> nat
    decreases s.len() - from,
{
    if from >= s.len() {
        s.len()
    } else if s[from as int] == v {
        from
    } else {
        place_of(s, v, from + 1)
    }
}

/// The first offset from `from` on at which `s` holds a value that is not
/// smaller than `v`, the length of `s` if there is none.
pub open spec fn rank(s: Seq<IndicatorValue>, v: IndicatorValue, from: nat) -> nat
    decreases s.len() - from,
{
    if from >= s.len() {
        s.len()
    } else if s[from as int].spec_lt(v) {
        rank(s, v, from + 1)
    } else {
        from
    }
}

/// `sorted` without the first occurrence of the value that leaves, if one leaves and occurs.
pub open spec fn without(sorted: Seq<IndicatorValue>, leaving: Option<IndicatorValue>) -> Seq<IndicatorValue> {
    match leaving {
        None => sorted,
        Some(old) => {
            let place = place_of(sorted, old, 0);
            if place < sorted.len() {
                sorted.remove(place as int)
            } else {
                sorted
            }
        },
    }
}

/// `sorted` with `input` put in before the first value that is not smaller.
pub open spec fn with(sorted: Seq<IndicatorValue>, input: IndicatorValue) -> Seq<IndicatorValue> {
    sorted.insert(rank(sorted, input, 0) as int, input)
}

/// The median of `period` values in ascending order.
pub open spec fn median(sorted: Seq<IndicatorValue>, period: nat) -> Option<IndicatorValue> {
    let middle = (period / 2) as int;
    if period % 2 == 0 {
        quotient_of(IndicatorValue::spec_sum(sorted[middle - 1], sorted[middle]), Some(whole(2)))
    } else {
        Some(sorted[middle])
    }
}

/// Where `s` holds `v` at or after `from`, `place_of` finds it.
pub proof fn lemma_place_of(s: Seq<IndicatorValue>, v: IndicatorValue, from: nat, at: int)
    requires
        from <= at < s.len(),
        s[at] == v,
    ensures
        from <= place_of(s, v, from) <= at,
        s[place_of(s, v, from) as int] == v,
    decreases s.len() - from,
{
    if s[from as int] != v {
        lemma_place_of(s, v, from + 1, at);
    }
}

/// What `rank` finds: every value before it, from `from` on, is smaller than
/// `v`, and the value at it is not.
pub proof fn lemma_rank(s: Seq<IndicatorValue>, v: IndicatorValue, from: nat)
    requires
        from <= s.len(),
    ensures
        from <= rank(s, v, from) <= s.len(),
        forall|k: int| from <= k < rank(s, v, from) ==> (#[trigger] s[k]).spec_lt(v),
        rank(s, v, from) < s.len() ==> !s[rank(s, v, from) as int].spec_lt(v),
    decreases s.len() - from,
{
    if from < s.len() && s[from as int].spec_lt(v) {
        lemma_rank(s, v, from + 1);
    }
}

/// Putting a value in gives the values there were and that one.
pub proof fn lemma_insert_to_multiset(s: Seq<IndicatorValue>, at: int, v: IndicatorValue)
    requires
        0 <= at <= s.len(),
    ensures
        s.insert(at, v).to_multiset() =~= s.to_multiset().insert(v),
{
    let t = s.insert(at, v);
    assert(t.remove(at) =~= s);
    to_multiset_remove(t, at);
    t.to_multiset_ensures();
    assert(t.contains(v)) by {
        assert(t[at] == v);
    }
    assert(t.to_multiset().count(v) > 0);
}

/// The values of a window after a push are those before, less the one that
/// left, and the one that came.
pub proof fn lemma_pushed_to_multiset(window: Seq<IndicatorValue>, capacity: nat, v: IndicatorValue)
    requires
        0 < capacity,
        window.len() <= capacity,
    ensures
        CircularBuffer::pushed(window, capacity, v).to_multiset() =~= (match CircularBuffer::evicted(window, capacity) {
            None => window.to_multiset(),
            Some(old) => window.to_multiset().remove(old),
        }).insert(v),
{
    if window.len() < capacity {
        assert(seq![v] + window =~= window.insert(0, v));
        lemma_insert_to_multiset(window, 0, v);
    } else {
        let rest = window.drop_last();
        assert(rest =~= window.remove(window.len() - 1));
        to_multiset_remove(window, window.len() - 1);
        assert(seq![v] + rest =~= rest.insert(0, v));
        lemma_insert_to_multiset(rest, 0, v);
    }
}

/// What holds of every state that is reached: the second copy of the window
/// holds the values of the window, in ascending order.
pub open spec fn arranged(s: SimpleMovingMedianState) -> bool {
    &&& 0 < s.capacity
    &&& s.window.len() <= s.capacity
    &&& ascending(s.sorted)
    &&& s.sorted.to_multiset() =~= s.window.to_multiset()
}

/// The window and its ascending copy after `input`.
pub open spec fn arrange_step(s: SimpleMovingMedianState, input: IndicatorValue) -> SimpleMovingMedianState {
    SimpleMovingMedianState {
        window: CircularBuffer::pushed(s.window, s.capacity, input),
        sorted: with(without(s.sorted, CircularBuffer::evicted(s.window, s.capacity)), input),
        ..s
    }
}

/// Every step keeps the ascending copy in order and equal in values to the window.
pub proof fn lemma_arrange_step(s: SimpleMovingMedianState, input: IndicatorValue)
    requires
        arranged(s),
    ensures
        arranged(arrange_step(s, input)),
        arrange_step(s, input).sorted.len() == arrange_step(s, input).window.len(),
{
    let leaving = CircularBuffer::evicted(s.window, s.capacity);
    let thinned = without(s.sorted, leaving);
    s.sorted.to_multiset_ensures();
    s.window.to_multiset_ensures();
    match leaving {
        None => {},
        Some(old) => {
            assert(s.window.contains(old)) by {
                assert(s.window[s.window.len() - 1] == old);
            }
            assert(s.window.to_multiset().count(old) > 0);
            assert(s.sorted.to_multiset().count(old) > 0);
            assert(s.sorted.contains(old));
            let at = choose|at: int| 0 <= at < s.sorted.len() && s.sorted[at] == old;
            lemma_place_of(s.sorted, old, 0, at);
            let place = place_of(s.sorted, old, 0) as int;
            to_multiset_remove(s.sorted, place);
            assert forall|i: int, j: int| 0 <= i < j < thinned.len() implies !(#[trigger] thinned[j]).spec_lt(
                #[trigger] thinned[i],
            ) by {
                let a = if i < place { i } else { i + 1 };
                let b = if j < place { j } else { j + 1 };
                assert(thinned[i] == s.sorted[a]);
                assert(thinned[j] == s.sorted[b]);
            }
        },
    }
    assert(ascending(thinned));
    let at = rank(thinned, input, 0) as int;
    lemma_rank(thinned, input, 0);
    let next = with(thinned, input);
    lemma_insert_to_multiset(thinned, at, input);
    lemma_pushed_to_multiset(s.window, s.capacity, input);
    assert forall|i: int, j: int| 0 <= i < j < next.len() implies !(#[trigger] next[j]).spec_lt(#[trigger] next[i]) by {
        if j == at {
            assert(next[i] == thinned[i]);
            lemma_lt_asymmetric(thinned[i], input);
        } else if i == at {
            assert(next[j] == thinned[j - 1]);
            if j - 1 > at {
                assert(!thinned[j - 1].spec_lt(thinned[at]));
            }
            if thinned[j - 1].spec_lt(input) {
                lemma_lt_cotransitive(thinned[j - 1], input, thinned[at]);
            }
        } else {
            let a = if i < at { i } else { i - 1 };
            let b = if j < at { j } else { j - 1 };
            assert(next[i] == thinned[a]);
            assert(next[j] == thinned[b]);
        }
    }
    next.to_multiset_ensures();
    arrange_step(s, input).window.to_multiset_ensures();
}

impl SimpleMovingMedian {
    /// The state of a new indicator.
    pub open spec fn spec_new(period: nat) -> SimpleMovingMedianState {
        SimpleMovingMedianState { window: Seq::empty(), capacity: period, sorted: Seq::empty() }
    }

    /// A new indicator over `period` observations.
    pub fn new(period: usize) -> (r: SimpleMovingMedian)
        requires
            period > 0,
        ensures
            r.wf(),
            Self::cleared(r.state()) == r.state(),
            r.state() == Self::spec_new(period as nat),
    {
        SimpleMovingMedian { buffer: CircularBuffer::new(period), slice: Vec::new() }
    }

    /// The ascending copy holds the values of the window, in ascending order:
    /// what is reported is the median of the window.
    pub proof fn lemma_reports_median(&self)
        requires
            self.wf(),
        ensures
            arranged(self.state()),
            self.state().sorted.len() == self.state().window.len(),
    {
        self.buffer.lemma_len();
        self.slice@.to_multiset_ensures();
        self.buffer@.to_multiset_ensures();
    }

    /// Takes `leaving` out of the ascending values and puts `input` in.
    fn arrange(sorted: &mut Vec<IndicatorValue>, leaving: Option<IndicatorValue>, input: IndicatorValue)
        ensures
            final(sorted)@ == with(without(old(sorted)@, leaving), input),
    {
        if let Some(old_value) = leaving {
            let mut place: usize = 0;
            while place < sorted.len() && !sorted[place].same_as(old_value)
                invariant
                    sorted@ == old(sorted)@,
                    place <= sorted@.len(),
                    place_of(sorted@, old_value, place as nat) == place_of(sorted@, old_value, 0),
                decreases sorted@.len() - place,
            {
                place = place + 1;
            }
            if place < sorted.len() {
                sorted.remove(place);
            }
        }
        let ghost thinned = sorted@;
        let mut at: usize = 0;
        while at < sorted.len() && sorted[at].less_than(input)
            invariant
                sorted@ == thinned,
                at <= sorted@.len(),
                rank(sorted@, input, at as nat) == rank(sorted@, input, 0),
            decreases sorted@.len() - at,
        {
            at = at + 1;
        }
        sorted.insert(at, input);
    }

    /// The median of the ascending values of a full window.
    fn median_of(sorted: &Vec<IndicatorValue>, period: usize) -> (r: Option<IndicatorValue>)
        requires
            sorted@.len() == period,
            period > 0,
        ensures
            r == median(sorted@, period as nat),
    {
        let middle = period / 2;
        if period % 2 == 0 {
            plain_quotient(plain_sum(sorted[middle - 1], sorted[middle])?, IndicatorValue::from_u64(2))
        } else {
            Some(sorted[middle])
        }
    }

    /// A copy of the ascending values.
    fn copy_of(sorted: &Vec<IndicatorValue>) -> (r: Vec<IndicatorValue>)
        ensures
            r@ == sorted@,
    {
        let mut copy: Vec<IndicatorValue> = Vec::new();
        let mut i: usize = 0;
        while i < sorted.len()
            invariant
                i <= sorted@.len(),
                copy@ == sorted@.take(i as int),
            decreases sorted@.len() - i,
        {
            copy.push(sorted[i]);
            assert(sorted@.take(i as int).push(sorted@[i as int]) =~= sorted@.take(i as int + 1));
            i = i + 1;
        }
        assert(sorted@.take(i as int) =~= sorted@);
        copy
    }
}

impl Indicator for SimpleMovingMedian {
    type Input = IndicatorValue;

    type Output = Option<IndicatorValue>;

    type State = SimpleMovingMedianState;

    closed spec fn wf(&self) -> bool {
        &&& self.buffer.wf()
        &&& ascending(self.slice@)
        &&& self.slice@.to_multiset() =~= self.buffer@.to_multiset()
    }

    closed spec fn state(&self) -> SimpleMovingMedianState {
        SimpleMovingMedianState {
            window: self.buffer@,
            capacity: self.buffer.spec_capacity(),
            sorted: self.slice@,
        }
    }

    open spec fn step(s: SimpleMovingMedianState, input: IndicatorValue) -> Option<
        (SimpleMovingMedianState, Option<IndicatorValue>),
    > {
        let next = arrange_step(s, input);
        if next.window.len() >= s.capacity {
            match median(next.sorted, s.capacity) {
                Some(middle) => Some((next, Some(middle))),
                None => None,
            }
        } else {
            Some((next, None))
        }
    }

    open spec fn cleared(s: SimpleMovingMedianState) -> SimpleMovingMedianState {
        Self::spec_new(s.capacity)
    }

    open spec fn idle(s: SimpleMovingMedianState) -> Option<IndicatorValue> {
        None
    }

    open spec fn ready(s: SimpleMovingMedianState) -> bool {
        s.window.len() >= s.capacity
    }

    open spec fn available(out: Option<IndicatorValue>) -> bool {
        out.is_some()
    }

    open spec fn prompt() -> bool {
        true
    }

    proof fn lemma_warm_up(s: SimpleMovingMedianState, input: IndicatorValue) {
    }

    proof fn lemma_step_keeps_cleared(s: SimpleMovingMedianState, input: IndicatorValue) {
    }

    proof fn lemma_cleared_twice(s: SimpleMovingMedianState) {
    }

    fn peek(&self, input: IndicatorValue) -> (r: Option<Option<IndicatorValue>>) {
        proof {
            self.lemma_reports_median();
            lemma_arrange_step(self.state(), input);
        }
        if self.buffer.len() >= self.buffer.capacity() - 1 {
            let mut sorted = Self::copy_of(&self.slice);
            Self::arrange(&mut sorted, self.buffer.next_evicted(), input);
            match Self::median_of(&sorted, self.buffer.capacity()) {
                Some(middle) => Some(Some(middle)),
                None => None,
            }
        } else {
            Some(None)
        }
    }

    fn next(&mut self, input: IndicatorValue) -> (out: Option<IndicatorValue>) {
        proof {
            self.lemma_reports_median();
            lemma_arrange_step(self.state(), input);
        }
        let leaving = self.buffer.push(input);
        Self::arrange(&mut self.slice, leaving, input);
        if self.buffer.is_full() {
            Some(Self::median_of(&self.slice, self.buffer.capacity()).unwrap())
        } else {
            None
        }
    }

    fn reset(&mut self) {
        self.buffer.clear();
        self.slice.clear();
    }

    fn duplicate(&self) -> (r: SimpleMovingMedian) {
        SimpleMovingMedian { buffer: self.buffer.duplicate(), slice: Self::copy_of(&self.slice) }
    }

    fn idle_output(&self) -> (out: Option<IndicatorValue>) {
        None
    }
}

} // verus!
