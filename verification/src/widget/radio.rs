use vstd::prelude::*;

verus! {

/// What a group of radio buttons says: the operator chose this option. The group
/// does not know what its options mean to the page it sits on.
#[derive(Debug, PartialEq)]
pub enum Signal<T> {
    Change(T),
}

impl<T: Copy> Copy for Signal<T> {

}

impl<T: Copy> Clone for Signal<T> {
    fn clone(&self) -> (copy: Self)
        ensures
            copy == *self,
    {
        *self
    }
}

} // verus!
