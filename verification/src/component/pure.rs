//! A wrapper that turns a plain value of properties into a component:
//! the wrapped value is the whole state, and the component re-renders
//! exactly when new properties differ from the stored ones.

use vstd::prelude::*;
use vstd::std_specs::cmp::PartialEqSpec;

verus! {

/// The stored properties of a pure component.
pub struct Pure<T>(pub T);

impl<T: PartialEq> Pure<T> {
    /// Wraps the initial properties.
    pub fn create(props: T) -> (r: Pure<T>)
        ensures
            r.0 == props,
    {
        Pure(props)
    }

    /// A pure component has no messages: an update never re-renders.
    pub fn update(&mut self) -> (render: bool)
        ensures
            *final(self) == *old(self),
            !render,
    {
        false
    }

    /// Replaces the properties when they changed; reports whether a
    /// re-render is due.  What "changed" means is `T`'s own equality;
    /// when that equality obeys its specification, the answer is exact.
    pub fn change(&mut self, props: T) -> (render: bool)
        ensures
            render ==> final(self).0 == props,
            !render ==> *final(self) == *old(self),
            T::obeys_eq_spec() ==> render == !old(self).0.eq_spec(&props),
    {
        if self.0 != props {
            self.0 = props;
            true
        } else {
            false
        }
    }
}

} // verus!
