//! Runtime script-struct records: the snapshot-wide lookup by full name.
use vstd::prelude::*;

use crate::gtables::GlobalTables;
use crate::records::{spec_as_object, UObject, UScriptStruct};
use crate::strutil::str_eq;
use crate::ueptr;

verus! {

/// Whether the object at `i` tests as a script struct and carries the
/// sought full name.
pub open spec fn spec_struct_match(g: GlobalTables, name: Seq<char>, i: int) -> bool {
    &&& UObject::spec_is_a::<UScriptStruct>(g, i)
    &&& match UObject::spec_full_name(g, i) {
        Some(f) => f == name,
        None => false,
    }
}

/// The highest table index at or below `i` whose object matches; the
/// snapshot scan keeps the last match, as the one-shot cache does.
pub open spec fn spec_find_struct_index(g: GlobalTables, name: Seq<char>, i: int) -> Option<int>
    decreases i + 1,
    when i >= -1
{
    if i < 0 {
        None
    } else if spec_struct_match(g, name, i) {
        Some(i)
    } else {
        spec_find_struct_index(g, name, i - 1)
    }
}

/// Where a struct lookup by full name lands: the matching record names its
/// own slot by `ObjectInternalInteger`, and the lookup yields that slot's
/// address where it is live.
pub open spec fn spec_find_struct(g: GlobalTables, name: Seq<char>) -> Option<int> {
    match spec_find_struct_index(g, name, g.objs().len() - 1) {
        None => None,
        Some(i) => {
            let ii = spec_as_object(g.rec_at(i)).ObjectInternalInteger as int;
            if g.valid_obj(ii) {
                Some(ii)
            } else {
                None
            }
        },
    }
}

/// A successful scan lands on a matching index.
pub proof fn lemma_find_struct_index_match(g: GlobalTables, name: Seq<char>, i: int)
    requires
        i >= -1,
    ensures
        (match spec_find_struct_index(g, name, i) {
            Some(j) => spec_struct_match(g, name, j) && 0 <= j <= i,
            None => true,
        }),
    decreases i + 1,
{
    if i >= 0 && !spec_struct_match(g, name, i) {
        lemma_find_struct_index_match(g, name, i - 1);
    }
}

fn find_struct_index(g: &GlobalTables, name: &str, i: usize) -> (r: Option<usize>)
    requires
        g.wf(),
        i <= g.objs().len(),
    ensures
        (match r {
            Some(j) => spec_find_struct_index(*g, name@, i as int - 1) == Some(j as int) && j
                < g.objs().len(),
            None => spec_find_struct_index(*g, name@, i as int - 1) is None,
        }),
    decreases i,
{
    if i == 0 {
        return None;
    }
    let idx = i - 1;
    let is_struct = UObject::IsA::<UScriptStruct>(g, ueptr::new(idx));
    let matched = if is_struct {
        match UObject::GetFullName(g, ueptr::new(idx)) {
            Some(f) => str_eq(f.as_str(), name),
            None => false,
        }
    } else {
        false
    };
    if matched {
        Some(idx)
    } else {
        find_struct_index(g, name, idx)
    }
}

impl UScriptStruct {
    /// Looks a script struct up by its full textual key, scanning the whole
    /// object table snapshot; `None` is a normal lookup miss.
    pub fn FindStruct(g: &GlobalTables, FullName: &str) -> (r: Option<ueptr<UScriptStruct>>)
        requires
            g.wf(),
        ensures
            (match r {
                Some(p) => spec_find_struct(*g, FullName@) == Some(p.spec_addr() as int),
                None => spec_find_struct(*g, FullName@) is None,
            }),
    {
        let n = g.obj_count();
        match find_struct_index(g, FullName, n) {
            None => None,
            Some(i) => {
                proof {
                    lemma_find_struct_index_match(*g, FullName@, g.objs().len() - 1);
                }
                let rec = match g.record(ueptr::new(i)) {
                    Some(rec) => rec,
                    None => {
                        proof {
                            assert(false);
                        }
                        return None;
                    },
                };
                let ii = rec.as_object().ObjectInternalInteger;
                if ii < 0 {
                    return None;
                }
                let q: ueptr<UObject> = ueptr::new(ii as usize);
                match g.record(q) {
                    None => None,
                    Some(_) => Some(q.ptr_cast()),
                }
            },
        }
    }
}

} // verus!
