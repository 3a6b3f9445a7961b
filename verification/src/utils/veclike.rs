//! A common interface of vector-like containers.
use vstd::prelude::*;

verus! {

/// A vector-like container: a sequence of elements that grows and shrinks
/// at its end.
pub trait VecLike {
    type Element;

    /// The elements, from the first to the last.
    spec fn elements(&self) -> Seq<Self::Element>;

    /// Whether there are no elements.
    fn is_empty(&self) -> (r: bool)
        ensures
            r == (self.elements().len() == 0),
    ;

    /// The number of elements.
    fn len(&self) -> (r: usize)
        ensures
            r == self.elements().len(),
    ;

    /// Remove the last element and return it, or `None` if there is none.
    fn pop(&mut self) -> (r: Option<Self::Element>)
        ensures
            old(self).elements().len() == 0 ==> r is None && final(self).elements() == old(
                self,
            ).elements(),
            old(self).elements().len() > 0 ==> r == Some(old(self).elements().last())
                && final(self).elements() == old(self).elements().drop_last(),
    ;

    /// Append an element.
    fn push(&mut self, x: Self::Element)
        ensures
            final(self).elements() == old(self).elements().push(x),
    ;
}

impl<T> VecLike for Vec<T> {
    type Element = T;

    open spec fn elements(&self) -> Seq<T> {
        self@
    }

    fn is_empty(&self) -> (r: bool) {
        self.len() == 0
    }

    fn len(&self) -> (r: usize) {
        Vec::len(self)
    }

    fn pop(&mut self) -> (r: Option<T>) {
        Vec::pop(self)
    }

    fn push(&mut self, x: T) {
        Vec::push(self, x)
    }
}

} // verus!
