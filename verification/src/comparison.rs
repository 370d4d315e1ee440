//! `==` and `<` on [`IndicatorValue`]: both compare the numbers, not their spelling.

use vstd::prelude::*;
use crate::indicator_value::IndicatorValue;
use core::cmp::Ordering;
use vstd::std_specs::cmp::{PartialEqSpecImpl, PartialOrdSpecImpl};

verus! {

impl PartialEq for IndicatorValue {
    fn eq(&self, other: &IndicatorValue) -> (r: bool) {
        self.equals(*other)
    }
}

impl PartialEqSpecImpl for IndicatorValue {
    open spec fn obeys_eq_spec() -> bool {
        true
    }

    open spec fn eq_spec(&self, other: &IndicatorValue) -> bool {
        self.spec_eq(*other)
    }
}

impl Eq for IndicatorValue {
}

impl PartialOrd for IndicatorValue {
    fn partial_cmp(&self, other: &IndicatorValue) -> (r: Option<Ordering>) {
        if self.less_than(*other) {
            Some(Ordering::Less)
        } else if other.less_than(*self) {
            Some(Ordering::Greater)
        } else {
            Some(Ordering::Equal)
        }
    }
}

impl PartialOrdSpecImpl for IndicatorValue {
    open spec fn obeys_partial_cmp_spec() -> bool {
        true
    }

    open spec fn partial_cmp_spec(&self, other: &IndicatorValue) -> Option<Ordering> {
        if self.spec_lt(*other) {
            Some(Ordering::Less)
        } else if other.spec_lt(*self) {
            Some(Ordering::Greater)
        } else {
            Some(Ordering::Equal)
        }
    }
}

} // verus!
