//! A ring buffer of fixed capacity that keeps the most recent values.

use vstd::prelude::*;
use crate::indicator_value::IndicatorValue;

verus! {

/// The most recent values of a stream, at most `capacity` of them.
///
/// The model of a buffer is the sequence of the values it keeps, newest
/// first: offset 0 is the value pushed last.
#[derive(Debug)]
pub struct CircularBuffer {
    buffer: Vec<Option<IndicatorValue>>,
    index: usize,
    full: bool,
    capacity: usize,
}

impl View for CircularBuffer {
    type V = Seq<IndicatorValue>;

    closed spec fn view(&self) -> Seq<IndicatorValue> {
        Seq::new(self.spec_len(), |i: int| self.buffer@[self.slot(i)].unwrap())
    }
}

impl CircularBuffer {
    /// How many values the buffer keeps.
    closed spec fn spec_len(&self) -> nat {
        if self.full {
            self.capacity as nat
        } else {
            self.index as nat
        }
    }

    /// The slot that holds the value at `offset`.
    closed spec fn slot(&self, offset: int) -> int {
        if offset < self.index {
            self.index - 1 - offset
        } else {
            self.index + self.capacity - 1 - offset
        }
    }

    /// What holds of every buffer.
    pub closed spec fn wf(&self) -> bool {
        &&& self.capacity > 0
        &&& self.buffer@.len() == self.capacity
        &&& self.index < self.capacity
        &&& forall|j: int| 0 <= j < self.capacity ==>
                ((#[trigger] self.buffer@[j]).is_some() <==> (self.full || j < self.index))
        &&& forall|j: int| 0 <= j < self.capacity && (#[trigger] self.buffer@[j]).is_some() ==>
                self.buffer@[j].unwrap().valid()
    }

    /// The fixed number of values the buffer can keep.
    pub closed spec fn spec_capacity(&self) -> nat {
        self.capacity as nat
    }

    /// The slot that the next push writes.
    pub closed spec fn cursor(&self) -> nat {
        self.index as nat
    }

    /// Whether the buffer keeps as many values as it can.
    pub open spec fn spec_is_full(&self) -> bool {
        self@.len() == self.spec_capacity()
    }

    /// The values kept after `value` is pushed onto `window`.
    pub open spec fn pushed(window: Seq<IndicatorValue>, capacity: nat, value: IndicatorValue) -> Seq<IndicatorValue> {
        if window.len() < capacity {
            seq![value] + window
        } else {
            seq![value] + window.drop_last()
        }
    }

    /// The value that leaves when a value is pushed onto `window`.
    pub open spec fn evicted(window: Seq<IndicatorValue>, capacity: nat) -> Option<IndicatorValue> {
        if window.len() < capacity {
            None
        } else {
            Some(window.last())
        }
    }

    /// The values kept after `values` were pushed in order onto an empty buffer.
    pub open spec fn filled(capacity: nat, values: Seq<IndicatorValue>) -> Seq<IndicatorValue>
        decreases values.len(),
    {
        if values.len() == 0 {
            Seq::empty()
        } else {
            Self::pushed(Self::filled(capacity, values.drop_last()), capacity, values.last())
        }
    }

    /// The newest value is the one pushed last.
    pub proof fn lemma_newest(window: Seq<IndicatorValue>, capacity: nat, value: IndicatorValue)
        ensures
            Self::pushed(window, capacity, value)[0] == value,
    {
    }

    /// No more pushes than the capacity lose nothing: the buffer keeps every
    /// value, the last one first.
    pub proof fn lemma_filled(capacity: nat, values: Seq<IndicatorValue>)
        requires
            values.len() <= capacity,
        ensures
            Self::filled(capacity, values).len() == values.len(),
            forall|i: int| 0 <= i < values.len() ==> #[trigger] Self::filled(capacity, values)[i] == values[values.len() - 1 - i],
        decreases values.len(),
    {
        if values.len() > 0 {
            Self::lemma_filled(capacity, values.drop_last());
        }
    }

    /// After as many pushes as the capacity the buffer is full, and the next
    /// push returns the value that was pushed first and puts its own value
    /// at offset 0.
    pub proof fn lemma_full_after_capacity_pushes(capacity: nat, values: Seq<IndicatorValue>, next: IndicatorValue)
        requires
            0 < capacity,
            values.len() == capacity,
        ensures
            Self::filled(capacity, values).len() == capacity,
            Self::evicted(Self::filled(capacity, values), capacity) == Some(values[0]),
            Self::pushed(Self::filled(capacity, values), capacity, next).len() == capacity,
            Self::pushed(Self::filled(capacity, values), capacity, next)[0] == next,
    {
        Self::lemma_filled(capacity, values);
    }

    /// Filling up and staying full: a push onto a buffer that is not full
    /// makes it keep one value more, a push onto a full one leaves it full.
    pub proof fn lemma_warm_up(window: Seq<IndicatorValue>, capacity: nat, value: IndicatorValue)
        requires
            0 < capacity,
            window.len() <= capacity,
        ensures
            window.len() < capacity ==> Self::pushed(window, capacity, value).len() == window.len() + 1,
            window.len() == capacity ==> Self::pushed(window, capacity, value).len() == capacity,
    {
    }

    /// Every value kept has parts in range.
    pub proof fn lemma_values_in_range(&self)
        requires
            self.wf(),
        ensures
            forall|i: int| 0 <= i < self@.len() ==> IndicatorValue::in_range((#[trigger] self@[i])@.0, self@[i]@.1),
    {
        assert forall|i: int| 0 <= i < self@.len() implies IndicatorValue::in_range(
            (#[trigger] self@[i])@.0,
            self@[i]@.1,
        ) by {
            let j = self.slot(i);
            assert(self.buffer@[j].is_some());
            self@[i].lemma_parts();
        }
    }

    /// A buffer keeps no more values than its capacity, which is not zero.
    pub proof fn lemma_len(&self)
        requires
            self.wf(),
        ensures
            self@.len() <= self.spec_capacity(),
            self.spec_capacity() > 0,
            self.spec_capacity() <= usize::MAX,
            self.cursor() < self.spec_capacity(),
            !self.spec_is_full() ==> self.cursor() == self@.len(),
    {
    }

    /// An empty buffer for `capacity` values.
    pub fn new(capacity: usize) -> (r: CircularBuffer)
        requires
            capacity > 0,
        ensures
            r.wf(),
            r@ == Seq::<IndicatorValue>::empty(),
            r.spec_capacity() == capacity,
            r.cursor() == 0,
    {
        let mut buffer: Vec<Option<IndicatorValue>> = Vec::new();
        let mut i: usize = 0;
        while i < capacity
            invariant
                i <= capacity,
                buffer@.len() == i,
                forall|j: int| 0 <= j < i ==> (#[trigger] buffer@[j]).is_none(),
            decreases capacity - i,
        {
            buffer.push(None);
            i = i + 1;
        }
        let r = CircularBuffer { buffer, index: 0, full: false, capacity };
        assert(r@ =~= Seq::<IndicatorValue>::empty());
        r
    }

    /// The value at `offset`, where offset 0 is the newest; `None` past the
    /// values kept.
    pub fn get(&self, offset: usize) -> (r: Option<&IndicatorValue>)
        requires
            self.wf(),
        ensures
            r == if offset < self@.len() { Some(&self@[offset as int]) } else { None },
    {
        if offset >= self.len() {
            return None;
        }
        let at: usize = if offset < self.index {
            self.index - 1 - offset
        } else {
            self.index + (self.capacity - 1 - offset)
        };
        self.buffer[at].as_ref()
    }

    /// The value at `offset`, which must be one of those kept.
    pub fn at(&self, offset: usize) -> (r: IndicatorValue)
        requires
            self.wf(),
            offset < self@.len(),
        ensures
            r == self@[offset as int],
    {
        let at: usize = if offset < self.index {
            self.index - 1 - offset
        } else {
            self.index + (self.capacity - 1 - offset)
        };
        self.buffer[at].unwrap()
    }

    /// The value that the next push will evict, if any.
    pub fn next_evicted(&self) -> (r: Option<IndicatorValue>)
        requires
            self.wf(),
        ensures
            r == Self::evicted(self@, self.spec_capacity()),
    {
        if self.full {
            let r = self.buffer[self.index];
            assert(self.slot(self.capacity - 1) == self.index);
            r
        } else {
            None
        }
    }

    /// Writes `value` as the newest and returns the value that left, if the
    /// buffer was full.
    pub fn push(&mut self, value: IndicatorValue) -> (r: Option<IndicatorValue>)
        requires
            old(self).wf(),
        ensures
            final(self).wf(),
            final(self).spec_capacity() == old(self).spec_capacity(),
            final(self)@ == Self::pushed(old(self)@, old(self).spec_capacity(), value),
            r == Self::evicted(old(self)@, old(self).spec_capacity()),
            final(self).cursor() == (old(self).cursor() + 1) % old(self).spec_capacity(),
    {
        let old_value = self.buffer[self.index];
        assert(old(self).full ==> old(self).slot(self.capacity - 1) == self.index);
        proof {
            use_type_invariant(&value);
        }
        self.buffer.set(self.index, Some(value));
        self.index = self.index + 1;
        if self.index == self.capacity {
            self.index = 0;
            self.full = true;
        }
        proof {
            let before = old(self)@;
            let after = self@;
            let expected = Self::pushed(before, old(self).spec_capacity(), value);
            assert(after.len() == expected.len());
            assert forall|i: int| 0 <= i < after.len() implies after[i] == expected[i] by {
                if i > 0 {
                    assert(self.slot(i) == old(self).slot(i - 1));
                    assert(expected[i] == before[i - 1]);
                }
            }
            assert(after =~= expected);
            let i = old(self).index as nat;
            let c = old(self).capacity as nat;
            if i + 1 < c {
                assert((i + 1) % c == i + 1) by (nonlinear_arith)
                    requires i + 1 < c;
            } else {
                assert((i + 1) % c == 0) by (nonlinear_arith)
                    requires i + 1 == c, c > 0;
            }
        }
        old_value
    }

    /// How many values the buffer keeps.
    pub fn len(&self) -> (r: usize)
        requires
            self.wf(),
        ensures
            r == self@.len(),
    {
        if self.full {
            self.capacity
        } else {
            self.index
        }
    }

    /// The slot that the next push writes.
    pub fn index(&self) -> (r: usize)
        ensures
            r == self.cursor(),
    {
        self.index
    }

    /// The fixed number of values the buffer can keep.
    pub fn capacity(&self) -> (r: usize)
        ensures
            r == self.spec_capacity(),
    {
        self.capacity
    }

    /// Whether the buffer keeps as many values as it can.
    pub fn is_full(&self) -> (r: bool)
        requires
            self.wf(),
        ensures
            r == self.spec_is_full(),
    {
        self.full
    }

    /// Forgets every value.
    pub fn clear(&mut self)
        requires
            old(self).wf(),
        ensures
            final(self).wf(),
            final(self)@ == Seq::<IndicatorValue>::empty(),
            final(self).spec_capacity() == old(self).spec_capacity(),
            final(self).cursor() == 0,
    {
        let mut i: usize = 0;
        while i < self.capacity
            invariant
                i <= self.capacity,
                self.capacity == old(self).capacity,
                self.buffer@.len() == self.capacity,
                forall|j: int| 0 <= j < i ==> (#[trigger] self.buffer@[j]).is_none(),
            decreases self.capacity - i,
        {
            self.buffer.set(i, None);
            i = i + 1;
        }
        self.index = 0;
        self.full = false;
        assert(self@ =~= Seq::<IndicatorValue>::empty());
    }

    /// A buffer with the same values, capacity and cursor.
    pub fn duplicate(&self) -> (r: CircularBuffer)
        requires
            self.wf(),
        ensures
            r.wf(),
            r@ == self@,
            r.spec_capacity() == self.spec_capacity(),
            r.cursor() == self.cursor(),
    {
        let mut buffer: Vec<Option<IndicatorValue>> = Vec::new();
        let mut i: usize = 0;
        while i < self.capacity
            invariant
                i <= self.capacity,
                self.buffer@.len() == self.capacity,
                buffer@.len() == i,
                forall|j: int| 0 <= j < i ==> #[trigger] buffer@[j] == self.buffer@[j],
            decreases self.capacity - i,
        {
            buffer.push(self.buffer[i]);
            i = i + 1;
        }
        let r = CircularBuffer { buffer, index: self.index, full: self.full, capacity: self.capacity };
        assert(r.buffer@ =~= self.buffer@);
        assert(r@ =~= self@);
        r
    }

    /// Walks the values from the newest to the oldest.
    pub fn iter(&self) -> (r: CircularBufferIterator<'_>)
        requires
            self.wf(),
        ensures
            r.wf(),
            r.values() == self@,
            r.position() == 0,
    {
        CircularBufferIterator::new(self)
    }

    /// Walks the values from the oldest to the newest.
    pub fn iter_reversed(&self) -> (r: ReversedCircularBufferIterator<'_>)
        requires
            self.wf(),
        ensures
            r.wf(),
            r.values() == self@,
            r.remaining() == self@.len(),
    {
        ReversedCircularBufferIterator::new(self)
    }
}

/// A walk over a buffer from the newest value to the oldest.
pub struct CircularBufferIterator<'a> {
    buffer: &'a CircularBuffer,
    index: usize,
    size: usize,
}

impl<'a> CircularBufferIterator<'a> {
    /// What holds of every walk.
    pub closed spec fn wf(&self) -> bool {
        &&& self.buffer.wf()
        &&& self.size == self.buffer@.len()
        &&& self.index <= self.size
    }

    /// The values walked over, newest first.
    pub closed spec fn values(&self) -> Seq<IndicatorValue> {
        self.buffer@
    }

    /// How many values have been handed out.
    pub closed spec fn position(&self) -> nat {
        self.index as nat
    }

    /// A walk over `buffer` that starts at the newest value.
    pub fn new(buffer: &'a CircularBuffer) -> (r: CircularBufferIterator<'a>)
        requires
            buffer.wf(),
        ensures
            r.wf(),
            r.values() == buffer@,
            r.position() == 0,
    {
        CircularBufferIterator { buffer, index: 0, size: buffer.len() }
    }

    /// The next value towards the oldest, `None` once all were handed out.
    pub fn next(&mut self) -> (r: Option<&'a IndicatorValue>)
        requires
            old(self).wf(),
        ensures
            final(self).wf(),
            final(self).values() == old(self).values(),
            old(self).position() < old(self).values().len() ==> {
                &&& r == Some(&old(self).values()[old(self).position() as int])
                &&& final(self).position() == old(self).position() + 1
            },
            old(self).position() >= old(self).values().len() ==> {
                &&& r.is_none()
                &&& final(self).position() == old(self).position()
            },
    {
        if self.index >= self.size {
            return None;
        }
        let value = self.buffer.get(self.index);
        self.index = self.index + 1;
        value
    }
}

/// A walk over a buffer from the oldest value to the newest.
pub struct ReversedCircularBufferIterator<'a> {
    buffer: &'a CircularBuffer,
    index: usize,
    size: usize,
}

impl<'a> ReversedCircularBufferIterator<'a> {
    /// What holds of every walk.
    pub closed spec fn wf(&self) -> bool {
        &&& self.buffer.wf()
        &&& self.size == self.buffer@.len()
        &&& self.index <= self.size
    }

    /// The values walked over, newest first.
    pub closed spec fn values(&self) -> Seq<IndicatorValue> {
        self.buffer@
    }

    /// How many values are still to be handed out.
    pub closed spec fn remaining(&self) -> nat {
        self.index as nat
    }

    /// A walk over `buffer` that starts at the oldest value.
    pub fn new(buffer: &'a CircularBuffer) -> (r: ReversedCircularBufferIterator<'a>)
        requires
            buffer.wf(),
        ensures
            r.wf(),
            r.values() == buffer@,
            r.remaining() == buffer@.len(),
    {
        let size = buffer.len();
        ReversedCircularBufferIterator { buffer, index: size, size }
    }

    /// The next value towards the newest, `None` once all were handed out.
    pub fn next(&mut self) -> (r: Option<&'a IndicatorValue>)
        requires
            old(self).wf(),
        ensures
            final(self).wf(),
            final(self).values() == old(self).values(),
            old(self).remaining() > 0 ==> {
                &&& r == Some(&old(self).values()[old(self).remaining() - 1])
                &&& final(self).remaining() == old(self).remaining() - 1
            },
            old(self).remaining() == 0 ==> {
                &&& r.is_none()
                &&& final(self).remaining() == 0
            },
    {
        if self.index == 0 {
            return None;
        }
        self.index = self.index - 1;
        self.buffer.get(self.index)
    }
}

} // verus!
