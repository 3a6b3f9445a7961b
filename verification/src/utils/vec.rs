use vstd::prelude::*;

verus! {

/// The capacity of a [`ComptimeVec`].
pub const MAX_LEN: usize = 256;

/// A vector with a fixed capacity of [`MAX_LEN`] elements.
pub struct ComptimeVec<T: Copy> {
    storage: Vec<T>,
}

impl<T: Copy> View for ComptimeVec<T> {
    type V = Seq<T>;

    closed spec fn view(&self) -> Seq<T> {
        self.storage@
    }
}

impl<T: Copy> ComptimeVec<T> {
    /// The number of elements never exceeds the capacity.
    pub closed spec fn wf(&self) -> bool {
        self.storage@.len() <= MAX_LEN
    }

    /// Construct an empty vector.
    pub fn new() -> (v: Self)
        ensures
            v.wf(),
            v@ == Seq::<T>::empty(),
    {
        ComptimeVec { storage: Vec::new() }
    }

    /// Append an element. The vector must not be full.
    pub fn push(&mut self, x: T)
        requires
            old(self).wf(),
            old(self)@.len() < MAX_LEN,
        ensures
            final(self).wf(),
            final(self)@ == old(self)@.push(x),
    {
        self.storage.push(x);
    }

    /// The number of elements.
    pub fn len(&self) -> (r: usize)
        ensures
            r == self@.len(),
    {
        self.storage.len()
    }

    /// Whether the vector holds no element.
    pub fn is_empty(&self) -> (r: bool)
        ensures
            r == (self@.len() == 0),
    {
        self.storage.len() == 0
    }

    /// A reference to the element at index `i`, which must be in bounds.
    pub fn get(&self, i: usize) -> (r: &T)
        requires
            i < self@.len(),
        ensures
            *r == self@[i as int],
    {
        &self.storage[i]
    }

    /// A mutable reference to the element at index `i`, which must be in
    /// bounds.
    pub fn get_mut(&mut self, i: usize) -> (r: &mut T)
        requires
            old(self).wf(),
            i < old(self)@.len(),
        ensures
            *r == old(self)@[i as int],
            final(self).wf(),
            final(self)@ == old(self)@.update(i as int, *final(r)),
    {
        &mut self.storage[i]
    }

    /// Replace the element at index `i`, which must be in bounds.
    pub fn set(&mut self, i: usize, x: T)
        requires
            old(self).wf(),
            i < old(self)@.len(),
        ensures
            final(self).wf(),
            final(self)@ == old(self)@.update(i as int, x),
    {
        self.storage.set(i, x);
    }

    /// Apply `f` to every element, in order, and collect the results.
    pub fn map<U: Copy, F: Fn(&T) -> U>(&self, f: F) -> (r: ComptimeVec<U>)
        requires
            self.wf(),
            forall|i: int| 0 <= i < self@.len() ==> f.requires((&self@[i],)),
        ensures
            r.wf(),
            r@.len() == self@.len(),
            forall|i: int| 0 <= i < self@.len() ==> f.ensures((&self@[i],), #[trigger] r@[i]),
    {
        let mut out: ComptimeVec<U> = ComptimeVec::new();
        let mut i: usize = 0;
        while i < self.len()
            invariant
                self.wf(),
                forall|k: int| 0 <= k < self@.len() ==> f.requires((&self@[k],)),
                i <= self@.len(),
                out.wf(),
                out@.len() == i,
                forall|k: int| 0 <= k < i ==> f.ensures((&self@[k],), #[trigger] out@[k]),
            decreases self@.len() - i,
        {
            let y = f(self.get(i));
            out.push(y);
            i += 1;
        }
        out
    }
}

/// The index of the first element of `v` that satisfies `pred`, if any.
pub fn vec_position<T: Copy, F: Fn(&T) -> bool>(v: &ComptimeVec<T>, pred: F) -> (r: Option<usize>)
    requires
        forall|i: int| 0 <= i < v@.len() ==> pred.requires((&v@[i],)),
    ensures
        r matches Some(i) ==> i < v@.len() && pred.ensures((&v@[i as int],), true) && forall|k: int|
            0 <= k < i ==> pred.ensures((&v@[k],), false),
        r is None ==> forall|k: int| 0 <= k < v@.len() ==> pred.ensures((&v@[k],), false),
{
    let mut i: usize = 0;
    while i < v.len()
        invariant
            forall|k: int| 0 <= k < v@.len() ==> pred.requires((&v@[k],)),
            i <= v@.len(),
            forall|k: int| 0 <= k < i ==> pred.ensures((&v@[k],), false),
        decreases v@.len() - i,
    {
        if pred(v.get(i)) {
            return Some(i);
        }
        i += 1;
    }
    None
}

} // verus!
