//! The vector of entries that several threads share.

use vstd::prelude::*;

verus! {

/// An append-only vector whose contents threads share. The lock that guards
/// it between threads belongs to its owner: readers take a snapshot under a
/// read lock, writers append under the write lock.
pub struct ThreadSafeVecRw<T> {
    inner: Vec<T>,
}

impl<T> View for ThreadSafeVecRw<T> {
    type V = Seq<T>;

    closed spec fn view(&self) -> Seq<T> {
        self.inner@
    }
}

impl<T> ThreadSafeVecRw<T> {
    /// Creates an empty vector.
    pub fn new() -> (r: Self)
        ensures
            r@ == Seq::<T>::empty(),
    {
        ThreadSafeVecRw { inner: Vec::new() }
    }

    /// Appends a value at the end.
    pub fn push(&mut self, value: T)
        ensures
            final(self)@ == old(self)@.push(value),
    {
        self.inner.push(value);
    }

    /// The element at `index`, if there is one.
    pub fn get(&self, index: usize) -> (r: Option<T>)
        where
            T: Copy,
        ensures
            r == (if index < self@.len() {
                Some(self@[index as int])
            } else {
                None
            }),
    {
        if index < self.inner.len() {
            Some(self.inner[index])
        } else {
            None
        }
    }

    /// The number of elements.
    pub fn len(&self) -> (r: usize)
        ensures
            r == self@.len(),
    {
        self.inner.len()
    }

    /// Read access to all elements.
    pub fn get_reader(&self) -> (r: &Vec<T>)
        ensures
            r@ == self@,
    {
        &self.inner
    }

    /// Copies of the elements from `index` to the end; empty when the vector
    /// is not longer than `index`.
    pub fn snapshot_from(&self, index: usize) -> (r: Vec<T>)
        where
            T: Copy,
        ensures
            r@ == (if index <= self@.len() {
                self@.subrange(index as int, self@.len() as int)
            } else {
                Seq::<T>::empty()
            }),
    {
        let mut r: Vec<T> = Vec::new();
        let mut i: usize = index;
        while i < self.inner.len()
            invariant
                index <= i,
                i <= self.inner@.len() ==> r@ == self.inner@.subrange(index as int, i as int),
                i > self.inner@.len() ==> r@.len() == 0 && i == index,
            decreases self.inner@.len() - i,
        {
            r.push(self.inner[i]);
            i = i + 1;
        }
        proof {
            if index <= self.inner@.len() {
                assert(r@ =~= self@.subrange(index as int, self@.len() as int));
            } else {
                assert(r@ =~= Seq::<T>::empty());
            }
        }
        r
    }
}

} // verus!
