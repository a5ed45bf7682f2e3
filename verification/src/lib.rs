//! Runtime introspection core: locating anchor tables in a process image by
//! byte-pattern inference, typed views over foreign memory, a runtime class
//! hierarchy with dynamic downcasting, and an owned reflection tree built from
//! that hierarchy.
#![allow(non_snake_case)]
#![allow(non_camel_case_types)]

pub mod fname;
pub mod globals;
pub mod gtables;
pub mod laws;
pub mod pattern;
pub mod records;
pub mod reflection;
pub mod regions;
pub mod strutil;
pub mod tags;
pub mod tarray;
pub mod uclass;
pub mod uobject;
pub mod uscriptstruct;
pub mod ufield;
pub mod ufunction;

use core::marker::PhantomData;
use vstd::prelude::*;

verus! {

use vstd::std_specs::cmp::PartialEqSpec;

/// A non-owning, typed reference into foreign memory, compared by address
/// identity. The pointed-to data is owned by the host process; this crate only
/// resolves such a reference against a mirrored snapshot of that memory.
pub struct ueptr<T> {
    addr: usize,
    _marker: PhantomData<T>,
}

impl<T> ueptr<T> {
    /// The address this reference carries.
    pub closed spec fn spec_addr(self) -> usize {
        self.addr
    }

    /// Wraps a raw foreign address.
    pub fn new(addr: usize) -> (r: ueptr<T>)
        ensures
            r.spec_addr() == addr,
    {
        ueptr { addr, _marker: PhantomData }
    }

    /// Reinterprets the reference at another type, keeping the address: the
    /// foreign layout places a base record as a prefix of each derived record.
    pub fn ptr_cast<U>(self) -> (r: ueptr<U>)
        ensures
            r.spec_addr() == self.spec_addr(),
    {
        ueptr { addr: self.addr, _marker: PhantomData }
    }

    /// The raw address.
    pub fn ptr(self) -> (r: usize)
        ensures
            r == self.spec_addr(),
    {
        self.addr
    }
}

impl<T> Clone for ueptr<T> {
    fn clone(&self) -> (r: Self)
        ensures
            r == *self,
    {
        ueptr { addr: self.addr, _marker: PhantomData }
    }
}

impl<T> Copy for ueptr<T> {

}

impl<T> PartialEq for ueptr<T> {
    fn eq(&self, other: &Self) -> (r: bool) {
        self.addr == other.addr
    }
}

impl<T> Eq for ueptr<T> {

}

impl<T> vstd::std_specs::cmp::PartialEqSpecImpl for ueptr<T> {
    open spec fn obeys_eq_spec() -> bool {
        true
    }

    open spec fn eq_spec(&self, other: &Self) -> bool {
        self.spec_addr() == other.spec_addr()
    }
}

/// Two foreign references are the same reference exactly when they carry the
/// same address: identity is address identity, never structural equality of
/// what they point at.
pub proof fn lemma_ueptr_identity<T>(a: ueptr<T>, b: ueptr<T>)
    ensures
        a.eq_spec(&b) <==> a.spec_addr() == b.spec_addr(),
{
}

/// A typed reference holds nothing but its address: equal addresses make
/// equal references.
pub proof fn lemma_ueptr_ext<T>(a: ueptr<T>, b: ueptr<T>)
    requires
        a.spec_addr() == b.spec_addr(),
    ensures
        a == b,
{
}

} // verus!
