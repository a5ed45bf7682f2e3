//! The two mirrored global tables every lookup resolves through: the name
//! table (interned strings) and the object table (one record per live runtime
//! object). A snapshot of both is taken once; all queries are reads of that
//! snapshot. Resolving a typed foreign reference against the object table is
//! the single audited dereference boundary of the whole model.
use vstd::prelude::*;

use crate::fname::{FName, FNameEntry};
use crate::records::{ObjectRecord, UObject};
use crate::tags::UnrealObject;
use crate::tarray::TArray;
use crate::ueptr;

verus! {

/// The global tables, mirrored from the resolved anchor addresses.
pub struct GlobalTables {
    /// The global name table.
    pub names: TArray<Option<FNameEntry>>,
    /// The global object table; a record's address is its slot index.
    pub objects: TArray<Option<ObjectRecord>>,
}

impl GlobalTables {
    pub open spec fn wf(&self) -> bool {
        &&& self.names.wf()
        &&& self.objects.wf()
    }

    /// The object-table slots.
    pub open spec fn objs(&self) -> Seq<Option<ObjectRecord>> {
        self.objects@
    }

    /// Whether address `a` names a live record.
    pub open spec fn valid_obj(&self, a: int) -> bool {
        0 <= a < self.objs().len() && self.objs()[a] is Some
    }

    /// The record at address `a`.
    pub open spec fn rec_at(&self, a: int) -> ObjectRecord {
        self.objs()[a]->0
    }

    /// The text a name reference resolves to, where its entry is live.
    pub open spec fn spec_name_text(&self, n: FName) -> Option<Seq<char>> {
        if 0 <= n.FNameEntryId < self.names@.len() && self.names@[n.FNameEntryId as int] is Some {
            Some(self.names@[n.FNameEntryId as int]->0.Name@)
        } else {
            None
        }
    }

    /// The interned string value a name reference resolves to, where its
    /// entry is live.
    pub open spec fn spec_name_string(&self, n: FName) -> Option<String> {
        if 0 <= n.FNameEntryId < self.names@.len() && self.names@[n.FNameEntryId as int] is Some {
            Some(self.names@[n.FNameEntryId as int]->0.Name)
        } else {
            None
        }
    }

    /// The interned string value of the name of the object at `a`.
    pub open spec fn spec_obj_name(&self, a: int) -> Option<String> {
        if self.valid_obj(a) {
            self.spec_name_string(crate::records::spec_as_object(self.rec_at(a)).Name)
        } else {
            None
        }
    }

    /// What dereferencing a typed reference yields: the record at its
    /// address, projected to the reference's level, where both exist.
    pub open spec fn spec_get<T: UnrealObject>(&self, a: int) -> Option<T> {
        if self.valid_obj(a) {
            T::spec_project(self.rec_at(a))
        } else {
            None
        }
    }

    /// The defensive bound every successor walk uses: a sound chain through
    /// the table never revisits a slot, so no simple chain is longer.
    pub open spec fn fuel(&self) -> nat {
        self.objs().len() as nat
    }

    /// The number of object-table slots.
    pub fn obj_count(&self) -> (r: usize)
        requires
            self.wf(),
        ensures
            r == self.objs().len(),
    {
        proof {
            assert(self.objs().len() == self.objects.spec_num());
        }
        self.objects.num() as usize
    }

    pub fn new(names: TArray<Option<FNameEntry>>, objects: TArray<Option<ObjectRecord>>) -> (r:
        GlobalTables)
        requires
            names.wf(),
            objects.wf(),
        ensures
            r.wf(),
            r.names == names,
            r.objects == objects,
    {
        GlobalTables { names, objects }
    }

    /// The record a base reference points at, or `None` where the address
    /// does not name a live slot.
    pub fn record(&self, p: ueptr<UObject>) -> (r: Option<&ObjectRecord>)
        requires
            self.wf(),
        ensures
            (match r {
                Some(rec) => self.valid_obj(p.spec_addr() as int) && *rec == self.rec_at(
                    p.spec_addr() as int,
                ),
                None => !self.valid_obj(p.spec_addr() as int),
            }),
    {
        let addr = p.ptr();
        if addr > (i32::MAX as usize) {
            proof {
                assert(self.objs().len() == self.objects.spec_num());
            }
            return None;
        }
        match self.objects.get(addr as i32) {
            None => None,
            Some(slot) => {
                match slot {
                    Some(rec) => Some(rec),
                    None => None,
                }
            },
        }
    }

    /// The single audited dereference: resolves a typed reference to the
    /// pointed-at record, projected at the reference's type.
    pub fn get<T: UnrealObject>(&self, p: ueptr<T>) -> (r: Option<&T>)
        requires
            self.wf(),
        ensures
            (match r {
                Some(v) => self.spec_get::<T>(p.spec_addr() as int) == Some(*v),
                None => self.spec_get::<T>(p.spec_addr() as int) is None,
            }),
    {
        match self.record(p.ptr_cast()) {
            None => None,
            Some(rec) => T::project(rec),
        }
    }

    /// The interned string of the name of the object a reference points at.
    pub fn obj_name(&self, p: ueptr<UObject>) -> (r: Option<String>)
        requires
            self.wf(),
        ensures
            (match r {
                Some(s) => self.spec_obj_name(p.spec_addr() as int) == Some(s),
                None => self.spec_obj_name(p.spec_addr() as int) is None,
            }),
    {
        let rec = match self.record(p) {
            Some(rec) => rec,
            None => {
                return None;
            },
        };
        let n = rec.as_object().Name;
        match self.names.get(n.FNameEntryId) {
            None => None,
            Some(slot) => {
                match slot {
                    Some(entry) => Some(entry.Name.clone()),
                    None => None,
                }
            },
        }
    }

    /// The text a name reference resolves to.
    pub fn name_text(&self, n: FName) -> (r: Option<String>)
        requires
            self.wf(),
        ensures
            (match r {
                Some(s) => self.spec_name_text(n) == Some(s@),
                None => self.spec_name_text(n) is None,
            }),
    {
        match self.names.get(n.FNameEntryId) {
            None => None,
            Some(slot) => {
                match slot {
                    Some(entry) => Some(entry.Name.clone()),
                    None => None,
                }
            },
        }
    }
}

impl FName {
    /// The mirrored global name table.
    pub fn Names(g: &GlobalTables) -> (r: &TArray<Option<FNameEntry>>)
        ensures
            *r == g.names,
    {
        &g.names
    }
}

} // verus!
