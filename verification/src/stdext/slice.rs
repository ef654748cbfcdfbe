//! Arrays of libnix object pointers, as libnix takes them.

use vstd::prelude::*;

use crate::util::wrappers::AsInnerPtr;

verus! {

/// The addresses of the objects of `s`, followed by a null pointer.
pub open spec fn spec_c_array<T: AsInnerPtr>(s: Seq<&T>) -> Seq<usize> {
    Seq::new(s.len(), |i: int| s[i].spec_ptr()).push(0usize)
}

/// A null-terminated C array of the libnix objects of a slice.
pub trait SliceExt<T: AsInnerPtr> {
    /// The objects of the slice.
    spec fn objects(&self) -> Seq<&T>;

    /// The addresses of the objects in order, then a null pointer.
    fn as_c_array(&self) -> (a: Vec<usize>)
        ensures
            a@ == spec_c_array(self.objects()),
    ;

    /// As [`SliceExt::as_c_array`], taking the slice by value.
    fn into_c_array(self) -> (a: Vec<usize>)
        ensures
            a@ == spec_c_array(self.objects()),
    ;
}

/// The addresses of the objects of `s`, then a null pointer.
pub fn c_array_of<T: AsInnerPtr>(s: &[&T]) -> (a: Vec<usize>)
    ensures
        a@ == spec_c_array(s@),
{
    let mut ptrs: Vec<usize> = Vec::new();
    let mut i: usize = 0;
    while i < s.len()
        invariant
            i <= s@.len(),
            ptrs@ == Seq::new(i as nat, |j: int| s@[j].spec_ptr()),
        decreases s@.len() - i,
    {
        let p = s[i].as_ptr();
        ptrs.push(p);
        i = i + 1;
        assert(ptrs@ =~= Seq::new(i as nat, |j: int| s@[j].spec_ptr()));
    }
    ptrs.push(0usize);
    assert(ptrs@ =~= spec_c_array(s@));
    ptrs
}

impl<'a, 'b, T: AsInnerPtr> SliceExt<T> for &'a [&'b T] {
    open spec fn objects(&self) -> Seq<&T> {
        (*self)@
    }

    fn as_c_array(&self) -> (a: Vec<usize>) {
        c_array_of(*self)
    }

    fn into_c_array(self) -> (a: Vec<usize>) {
        c_array_of(self)
    }
}

/// The C array of a slice lists the addresses of its objects in the
/// slice's order, and then a null pointer, and nothing more.
pub proof fn lemma_c_array_in_order<T: AsInnerPtr>(s: Seq<&T>)
    ensures
        spec_c_array(s).len() == s.len() + 1,
        forall|i: int| 0 <= i < s.len() ==> #[trigger] spec_c_array(s)[i] == s[i].spec_ptr(),
        spec_c_array(s)[s.len() as int] == 0usize,
{
}

} // verus!
