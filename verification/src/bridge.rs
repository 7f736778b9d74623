//! A per-view model cache: the last model rendered into a slot, and a
//! test of whether a new model equals it.

use vstd::prelude::*;
use vstd::std_specs::cmp::PartialEqSpec;

verus! {

/// The last model recorded for one view.
pub struct ViewBridge<T> {
    last: Option<T>,
}

impl<T: Clone + PartialEq> ViewBridge<T> {
    /// The model recorded by the latest `record`, if any.
    pub closed spec fn recorded(&self) -> Option<T> {
        self.last
    }

    /// A bridge that has recorded nothing.
    pub fn new() -> (b: Self)
        ensures
            b.recorded() is None,
    {
        ViewBridge { last: None }
    }

    /// Some model is recorded and `T`'s `==` finds `model` equal to it.
    pub open spec fn matches_recorded(&self, model: T) -> bool {
        self.recorded() matches Some(l) && l.eq_spec(&model)
    }

    /// Whether `model` equals the recorded model; false when nothing
    /// was recorded. Equality is `T`'s own `==`.
    pub fn is_unchanged(&self, model: &T) -> (r: bool)
        ensures
            self.recorded() is None ==> !r,
            T::obeys_eq_spec() ==> r == self.matches_recorded(*model),
    {
        match &self.last {
            Some(l) => l.eq(model),
            None => false,
        }
    }

    /// Record `model` as the most recent frame's value.
    pub fn record(&mut self, model: T)
        ensures
            final(self).recorded() == Some(model),
    {
        self.last = Some(model);
    }

    /// The recorded model, if any.
    pub fn last(&self) -> (r: Option<&T>)
        ensures
            match r {
                Some(m) => self.recorded() == Some(*m),
                None => self.recorded() is None,
            },
    {
        self.last.as_ref()
    }
}

/// `T`'s `==` follows its specification and that specification is
/// equality of values.
pub open spec fn eq_is_equality<T: PartialEq>() -> bool {
    &&& T::obeys_eq_spec()
    &&& forall|a: T, b: T| #[trigger] a.eq_spec(&b) <==> a == b
}

} // verus!
