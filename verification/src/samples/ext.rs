//! Calls on any value: `also` hands it to a function, `also_if` only where a
//! condition holds.
use vstd::prelude::*;

verus! {

/// Calls on any value.
pub trait ObjectExt: Sized {
    /// Hands the value to `f` and gives what `f` gives back.
    fn also<F: FnOnce(Self) -> Self>(self, f: F) -> (r: Self)
        requires
            call_requires(f, (self,)),
        ensures
            call_ensures(f, (self,), r),
    ;

    /// Hands the value to `f` where `condition` holds; gives it back as it
    /// is otherwise.
    fn also_if<F: FnOnce(Self) -> Self>(self, condition: bool, f: F) -> (r: Self)
        requires
            condition ==> call_requires(f, (self,)),
        ensures
            condition ==> call_ensures(f, (self,), r),
            !condition ==> r == self,
    ;
}

impl<T> ObjectExt for T {
    fn also<F: FnOnce(Self) -> Self>(self, f: F) -> (r: Self) {
        f(self)
    }

    fn also_if<F: FnOnce(Self) -> Self>(self, condition: bool, f: F) -> (r: Self) {
        if condition {
            self.also(f)
        } else {
            self
        }
    }
}

} // verus!
