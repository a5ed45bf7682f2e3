//! A read-only, bounds-checked view of a foreign growable array, mirrored into
//! process-local memory: the backing allocation holds `ArrayMax` slots, of
//! which the first `ArrayNum` hold live elements.
use vstd::prelude::*;

verus! {

pub struct TArray<T> {
    /// The mirrored backing allocation, one slot per element of capacity.
    Data: Vec<T>,
    ArrayNum: i32,
    ArrayMax: i32,
}

impl<T> View for TArray<T> {
    type V = Seq<T>;

    /// The live elements: the first `ArrayNum` slots of the backing store.
    closed spec fn view(&self) -> Seq<T> {
        self.Data@.subrange(0, self.ArrayNum as int)
    }
}

impl<T> TArray<T> {
    /// The number of live elements.
    pub closed spec fn spec_num(&self) -> int {
        self.ArrayNum as int
    }

    /// The capacity of the backing allocation.
    pub closed spec fn spec_max(&self) -> int {
        self.ArrayMax as int
    }

    /// The whole backing allocation, live elements first.
    pub closed spec fn spec_data(&self) -> Seq<T> {
        self.Data@
    }

    /// Every view is well-formed by construction: the live count never
    /// exceeds the capacity, and the backing store holds exactly the
    /// capacity.
    pub open spec fn wf(&self) -> bool {
        &&& 0 <= self.spec_num() <= self.spec_max() <= i32::MAX
        &&& self.spec_data().len() == self.spec_max()
        &&& self@ == self.spec_data().subrange(0, self.spec_num())
    }

    /// Wraps a mirrored backing allocation as an array view with `num` live
    /// elements; rejected when the live count exceeds the backing store or
    /// the store exceeds the foreign count range.
    pub fn new(data: Vec<T>, num: usize) -> (r: Option<TArray<T>>)
        ensures
            (match r {
                Some(a) => {
                    &&& num <= data@.len() <= i32::MAX
                    &&& a.wf()
                    &&& a.spec_num() == num
                    &&& a.spec_max() == data@.len()
                    &&& a.spec_data() == data@
                    &&& a@ == data@.subrange(0, num as int)
                },
                None => !(num <= data@.len() <= i32::MAX),
            }),
    {
        let len = data.len();
        if num <= len && len <= (i32::MAX as usize) {
            Some(TArray { Data: data, ArrayNum: num as i32, ArrayMax: len as i32 })
        } else {
            None
        }
    }

    /// The live element at `index`, or `None` for any index outside
    /// `0..ArrayNum` — even where the backing allocation is larger.
    pub fn get(&self, index: i32) -> (r: Option<&T>)
        requires
            self.wf(),
        ensures
            (match r {
                Some(v) => 0 <= index < self@.len() && *v == self@[index as int],
                None => !(0 <= index < self@.len()),
            }),
    {
        if 0 <= index && index < self.ArrayNum {
            assert(self@[index as int] == self.spec_data()[index as int]);
            Some(&self.Data[index as usize])
        } else {
            None
        }
    }

    /// A mutable borrow of the live element at `index`, or `None` for any
    /// index outside `0..ArrayNum`; only that element may change.
    pub fn get_mut(&mut self, index: i32) -> (r: Option<&mut T>)
        requires
            old(self).wf(),
        ensures
            final(self).wf(),
            final(self).spec_num() == old(self).spec_num(),
            final(self).spec_max() == old(self).spec_max(),
            (match r {
                Some(m) => {
                    &&& 0 <= index < old(self)@.len()
                    &&& *m == old(self)@[index as int]
                    &&& final(self)@ =~= old(self)@.update(index as int, *final(m))
                    &&& final(self).spec_data() == old(self).spec_data().update(
                        index as int,
                        *final(m),
                    )
                },
                None => !(0 <= index < old(self)@.len()) && *final(self) == *old(self),
            }),
    {
        if 0 <= index && index < self.ArrayNum {
            assert(old(self)@[index as int] == old(self).spec_data()[index as int]);
            let m = &mut self.Data[index as usize];
            Some(m)
        } else {
            None
        }
    }

    /// The live elements as a slice, `ArrayNum` long.
    pub fn as_slice(&self) -> (r: &[T])
        requires
            self.wf(),
        ensures
            r@ == self@,
    {
        let n = self.ArrayNum as usize;
        vstd::slice::slice_subrange(self.Data.as_slice(), 0, n)
    }

    /// The whole backing allocation as a mutable slice, `ArrayMax` long;
    /// elements may change through it, the view's bounds may not.
    pub fn as_mut_slice(&mut self) -> (r: &mut [T])
        requires
            old(self).wf(),
        ensures
            r@ == old(self).spec_data(),
            final(self).spec_data() == final(r)@,
            final(self).spec_num() == old(self).spec_num(),
            final(self).spec_max() == old(self).spec_max(),
            final(r)@.len() == old(self).spec_data().len() ==> final(self).wf(),
    {
        self.Data.as_mut_slice()
    }

    /// The number of live elements.
    pub fn num(&self) -> (r: i32)
        ensures
            r == self.spec_num(),
    {
        self.ArrayNum
    }

    /// The capacity of the backing allocation.
    pub fn max(&self) -> (r: i32)
        ensures
            r == self.spec_max(),
    {
        self.ArrayMax
    }
}

} // verus!
