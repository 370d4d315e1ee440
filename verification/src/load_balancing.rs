//! Which of a set of listeners is free to take work.

use vstd::prelude::*;
use vstd::hash_map::StringHashMap;

verus! {

/// A way to choose the listener that the next piece of work goes to.
pub trait LoadBalancingStrategy {
    /// Chooses one of `listeners`.
    fn select_listener(&mut self, listeners: &[String]) -> String;

    /// Records that `listener` became busy or free.
    fn update_state(&mut self, listener: &str, busy: bool);
}

/// The listeners that are known, each marked busy or ready.
///
/// The model is a map from a listener's name to whether it is busy.
pub struct BaseLoadBalancing {
    busy_streams: StringHashMap<bool>,
}

impl View for BaseLoadBalancing {
    type V = Map<Seq<char>, bool>;

    closed spec fn view(&self) -> Map<Seq<char>, bool> {
        self.busy_streams@
    }
}

impl BaseLoadBalancing {
    /// Whether `name` is one of `listeners`.
    pub open spec fn names(listeners: Seq<String>, name: Seq<char>) -> bool {
        exists|i: int| 0 <= i < listeners.len() && (#[trigger] listeners[i])@ == name
    }

    /// Every listener known and ready.
    pub open spec fn spec_new(listeners: Seq<String>) -> Map<Seq<char>, bool> {
        Map::new(|name: Seq<char>| Self::names(listeners, name), |name: Seq<char>| false)
    }

    /// `marks` with `name` marked `busy` if it is known, else `marks` itself.
    pub open spec fn marked(marks: Map<Seq<char>, bool>, name: Seq<char>, busy: bool) -> Map<Seq<char>, bool> {
        if marks.contains_key(name) {
            marks.insert(name, busy)
        } else {
            marks
        }
    }

    /// A listener is ready unless it is known and marked busy.
    pub open spec fn ready(marks: Map<Seq<char>, bool>, name: Seq<char>) -> bool {
        !(marks.contains_key(name) && marks[name])
    }

    /// Every one of `listeners` known and ready.
    pub fn new(listeners: &[String]) -> (r: BaseLoadBalancing)
        ensures
            r@ == Self::spec_new(listeners@),
    {
        let mut busy_streams: StringHashMap<bool> = StringHashMap::new();
        let mut i: usize = 0;
        while i < listeners.len()
            invariant
                i <= listeners@.len(),
                busy_streams@ =~= Self::spec_new(listeners@.take(i as int)),
            decreases listeners@.len() - i,
        {
            busy_streams.insert(listeners[i].clone(), false);
            proof {
                let before = listeners@.take(i as int);
                let after = listeners@.take(i as int + 1);
                assert forall|name: Seq<char>| Self::names(after, name) <==> (Self::names(before, name)
                    || name == listeners@[i as int]@) by {
                    if Self::names(after, name) {
                        let j = choose|j: int| 0 <= j < after.len() && (#[trigger] after[j])@ == name;
                        if j < i {
                            assert(before[j]@ == name);
                        }
                    }
                    if Self::names(before, name) {
                        let j = choose|j: int| 0 <= j < before.len() && (#[trigger] before[j])@ == name;
                        assert(after[j]@ == name);
                    }
                    if name == listeners@[i as int]@ {
                        assert(after[i as int]@ == name);
                    }
                }
            }
            i = i + 1;
        }
        assert(listeners@.take(i as int) =~= listeners@);
        BaseLoadBalancing { busy_streams }
    }

    /// Marks a known listener busy; an unknown one is ignored.
    pub fn mark_busy(&mut self, listener: &str)
        ensures
            final(self)@ == Self::marked(old(self)@, listener@, true),
    {
        if self.busy_streams.contains_key(listener) {
            self.busy_streams.insert(listener.to_owned(), true);
        }
    }

    /// Marks a known listener ready; an unknown one is ignored.
    pub fn mark_ready(&mut self, listener: &str)
        ensures
            final(self)@ == Self::marked(old(self)@, listener@, false),
    {
        if self.busy_streams.contains_key(listener) {
            self.busy_streams.insert(listener.to_owned(), false);
        }
    }

    /// Whether a listener is free to take work: it is, unless it is known and busy.
    pub fn is_ready(&self, listener: &String) -> (r: bool)
        ensures
            r == Self::ready(self@, listener@),
    {
        match self.busy_streams.get(listener.as_str()) {
            Some(busy) => !*busy,
            None => true,
        }
    }

    /// The first of `listeners` that is ready, if any.
    pub fn get_ready_listener<'a>(&self, listeners: &'a [String]) -> (r: Option<&'a String>)
        ensures
            match r {
                Some(found) => exists|i: int|
                    {
                        &&& 0 <= i < listeners@.len()
                        &&& *found == #[trigger] listeners@[i]
                        &&& Self::ready(self@, listeners@[i]@)
                        &&& forall|j: int| 0 <= j < i ==> !Self::ready(self@, (#[trigger] listeners@[j])@)
                    },
                None => forall|j: int| 0 <= j < listeners@.len() ==> !Self::ready(self@, (#[trigger] listeners@[j])@),
            },
    {
        let mut i: usize = 0;
        while i < listeners.len()
            invariant
                i <= listeners@.len(),
                forall|j: int| 0 <= j < i ==> !Self::ready(self@, (#[trigger] listeners@[j])@),
            decreases listeners@.len() - i,
        {
            if self.is_ready(&listeners[i]) {
                return Some(&listeners[i]);
            }
            i = i + 1;
        }
        None
    }
}

} // verus!
