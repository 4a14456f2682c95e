//! Arrays as values, and short lists of fixed capacity built on them.

use crate::error::Error;
use vstd::prelude::*;

verus! {

/// The array whose contents are `s`.
pub open spec fn array_of<T, const N: usize>(s: Seq<T>) -> [T; N] {
    choose|a: [T; N]| a@ == s
}

/// An array is the array of its contents.
pub proof fn lemma_array_of<T, const N: usize>(a: [T; N])
    ensures
        array_of::<T, N>(a@) == a,
{
    let b = array_of::<T, N>(a@);
    assert(b@ == a@);
    assert(b =~= a);
}

/// A list of at most `N` items. Items pushed onto a full list are dropped.
#[derive(Clone, Copy, Debug)]
pub struct BoundedList<T: Copy, const N: usize> {
    pub items: [T; N],
    /// Number of items held; the rest of the array is filler.
    pub count: usize,
}

impl<T: Copy, const N: usize> View for BoundedList<T, N> {
    type V = Seq<T>;

    open spec fn view(&self) -> Seq<T> {
        if self.count <= N {
            self.items@.take(self.count as int)
        } else {
            self.items@
        }
    }
}

impl<T: Copy, const N: usize> BoundedList<T, N> {
    /// The empty list, its array filled with `fill`.
    pub open spec fn spec_new(fill: T) -> Self {
        BoundedList { items: array_of(Seq::new(N as nat, |i: int| fill)), count: 0 }
    }

    pub fn new(fill: T) -> (l: Self)
        ensures
            l == Self::spec_new(fill),
            l@ == Seq::<T>::empty(),
    {
        let items = [fill; N];
        proof {
            assert(items@ =~= Seq::new(N as nat, |i: int| fill));
            lemma_array_of(items);
        }
        let l = BoundedList { items, count: 0 };
        assert(l@ =~= Seq::<T>::empty());
        l
    }

    /// Whether the list holds as many items as it can.
    pub open spec fn spec_full(self) -> bool {
        self.count >= N
    }

    /// The list with `item` appended; a full list cannot take it and stays as
    /// it is.
    pub open spec fn spec_push(self, item: T) -> Self {
        if self.spec_full() {
            self
        } else {
            BoundedList {
                items: array_of(self.items@.update(self.count as int, item)),
                count: (self.count + 1) as usize,
            }
        }
    }

    /// Appends `item`. A full list refuses it and stays as it is.
    pub fn push(&mut self, item: T) -> (r: Result<(), Error>)
        ensures
            old(self).spec_full() ==> r == Err::<(), Error>(Error::Capacity) && *final(self) == *old(
                self,
            ),
            !old(self).spec_full() ==> r is Ok && *final(self) == old(self).spec_push(item)
                && final(self)@ == old(self)@.push(item),
    {
        if self.count < N {
            self.items[self.count] = item;
            self.count = self.count + 1;
            proof {
                lemma_array_of(self.items);
                assert(self@ =~= old(self)@.push(item));
            }
            Ok(())
        } else {
            Err(Error::Capacity)
        }
    }

    pub fn len(&self) -> (n: usize)
        ensures
            n == self@.len(),
            n <= N,
    {
        if self.count <= N {
            self.count
        } else {
            N
        }
    }

    /// The item at position `i`.
    pub fn get(&self, i: usize) -> (r: Option<T>)
        ensures
            r == (if i < self@.len() {
                Some(self@[i as int])
            } else {
                None
            }),
    {
        if i < self.len() {
            Some(self.items[i])
        } else {
            None
        }
    }
}

} // verus!
