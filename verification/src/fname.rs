//! Interned names: a small value referencing an entry of the global name
//! table, and the mirrored form of one such entry.
use vstd::prelude::*;

verus! {

/// A reference into the global name table. Several runtime objects may share
/// one entry; the instance number tells them apart.
#[derive(Clone, Copy, PartialEq, Eq, Structural, Debug)]
pub struct FName {
    pub FNameEntryId: i32,
    pub InstanceNumber: i32,
}

impl FName {
    pub fn new(entry_id: i32, instance_number: i32) -> (r: FName)
        ensures
            r.FNameEntryId == entry_id,
            r.InstanceNumber == instance_number,
    {
        FName { FNameEntryId: entry_id, InstanceNumber: instance_number }
    }
}

/// One record of the global name table, mirrored with its wide-character text
/// already decoded; the record's leading padding carries no information.
#[derive(Debug)]
pub struct FNameEntry {
    pub Name: String,
}

impl FNameEntry {
    pub fn new(name: String) -> (r: FNameEntry)
        ensures
            r.Name == name,
    {
        FNameEntry { Name: name }
    }
}

} // verus!
