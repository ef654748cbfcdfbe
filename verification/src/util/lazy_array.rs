//! An array whose elements are computed on first access and then kept.

use vstd::prelude::*;

verus! {

/// A fixed-size array whose element `i` is `delegate(i)`, computed the first
/// time it is asked for and kept from then on.
#[verifier::reject_recursive_types(T)]
pub struct LazyArray<T, F: Fn(usize) -> T> {
    inner: Vec<Option<T>>,
    size: usize,
    delegate: F,
}

/// What one access of element `index` does: `cache` is the array's store
/// before, `next` after, `r` what the access returns.
pub open spec fn spec_get<T, F: Fn(usize) -> T>(
    delegate: F,
    cache: Seq<Option<T>>,
    index: int,
    next: Seq<Option<T>>,
    r: Option<T>,
) -> bool {
    if index < 0 || index >= cache.len() {
        r is None && next == cache
    } else {
        match cache[index] {
            Some(v) => r == Some(v) && next == cache,
            None => r matches Some(v) && delegate.ensures((index as usize,), v) && next
                == cache.update(index, Some(v)),
        }
    }
}

impl<T, F: Fn(usize) -> T> LazyArray<T, F> {
    /// The store has one slot per element, and the delegate may be called
    /// on every index.
    pub closed spec fn wf(&self) -> bool {
        &&& self.inner@.len() == self.size
        &&& forall|i: usize| i < self.size ==> self.delegate.requires((i,))
    }

    /// The elements computed so far (`None` where not yet computed).
    pub closed spec fn cache(&self) -> Seq<Option<T>> {
        self.inner@
    }

    /// The number of elements.
    pub closed spec fn size(&self) -> nat {
        self.size as nat
    }

    /// The function that computes the elements.
    pub closed spec fn delegate(&self) -> F {
        self.delegate
    }

    /// An array of `size` elements, none computed yet.
    pub fn new(size: usize, delegate: F) -> (a: LazyArray<T, F>)
        requires
            forall|i: usize| i < size ==> delegate.requires((i,)),
        ensures
            a.wf(),
            a.size() == size,
            a.cache() == Seq::new(size as nat, |i: int| None::<T>),
            a.delegate() == delegate,
    {
        let mut vec: Vec<Option<T>> = Vec::new();
        let mut i: usize = 0;
        while i < size
            invariant
                i <= size,
                vec@ == Seq::new(i as nat, |j: int| None::<T>),
            decreases size - i,
        {
            vec.push(None);
            i = i + 1;
            assert(vec@ =~= Seq::new(i as nat, |j: int| None::<T>));
        }
        LazyArray { inner: vec, size, delegate }
    }

    /// Element `index`: `None` if `index >= size`, else the kept value,
    /// computing and keeping it first if this is its first access.
    pub fn get(&mut self, index: usize) -> (r: Option<&T>)
        requires
            old(self).wf(),
        ensures
            final(self).wf(),
            final(self).size() == old(self).size(),
            final(self).delegate() == old(self).delegate(),
            final(self).cache().len() == old(self).size(),
            spec_get(
                old(self).delegate(),
                old(self).cache(),
                index as int,
                final(self).cache(),
                match r {
                    Some(v) => Some(*v),
                    None => None,
                },
            ),
    {
        if index >= self.size {
            return None;
        }
        if self.inner[index].is_none() {
            let value = (self.delegate)(index);
            self.inner.set(index, Some(value));
        }
        match &self.inner[index] {
            Some(v) => Some(v),
            None => None,
        }
    }
}

/// Asking twice for the same element gives the same value, and the second
/// access changes nothing: each element is computed at most once.
pub proof fn lemma_get_memoizes<T, F: Fn(usize) -> T>(
    delegate: F,
    cache0: Seq<Option<T>>,
    index: int,
    cache1: Seq<Option<T>>,
    r1: Option<T>,
    cache2: Seq<Option<T>>,
    r2: Option<T>,
)
    requires
        spec_get(delegate, cache0, index, cache1, r1),
        spec_get(delegate, cache1, index, cache2, r2),
    ensures
        r2 == r1,
        cache2 == cache1,
        0 <= index < cache0.len() ==> cache1[index] == r1,
{
}

} // verus!
