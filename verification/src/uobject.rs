//! The universal object operations: resolving names, composing path and full
//! names along the containment chain, the snapshot-wide class lookup by full
//! name, and dynamic type tests and downcasts over the runtime class
//! hierarchy.
use vstd::prelude::*;

use crate::gtables::GlobalTables;
use crate::records::{spec_as_object, ObjectRecord, UClass, UObject};
use crate::strutil::{spec_starts_with, str_eq, str_starts_with};
use crate::tags::{spec_class_key, StaticClass, UnrealObject};
use crate::tarray::TArray;
use crate::uclass::{chain_contains, spec_chain_contains};
use crate::ueptr;

verus! {

impl UObject {
    /// The mirrored global object table.
    pub fn GObjObjects(g: &GlobalTables) -> (r: &TArray<Option<ObjectRecord>>)
        ensures
            *r == g.objects,
    {
        &g.objects
    }

    /// The text an object's own name resolves to, where the object and its
    /// name entry are live.
    pub open spec fn spec_get_name(g: GlobalTables, a: int) -> Option<Seq<char>> {
        if g.valid_obj(a) {
            g.spec_name_text(spec_as_object(g.rec_at(a)).Name)
        } else {
            None
        }
    }

    /// The object's own name.
    pub fn GetName(g: &GlobalTables, p: ueptr<UObject>) -> (r: Option<String>)
        requires
            g.wf(),
        ensures
            (match r {
                Some(s) => UObject::spec_get_name(*g, p.spec_addr() as int) == Some(s@),
                None => UObject::spec_get_name(*g, p.spec_addr() as int) is None,
            }),
    {
        match g.record(p) {
            None => None,
            Some(rec) => g.name_text(rec.as_object().Name),
        }
    }

    /// The object's path: the names along its containment chain, outermost
    /// first, joined by `::`. The walk is bounded by `fuel`; a chain longer
    /// than that cannot be resolved.
    pub open spec fn spec_path_name(g: GlobalTables, a: int, fuel: nat) -> Option<Seq<char>>
        decreases fuel,
    {
        if !g.valid_obj(a) {
            None
        } else {
            let o = spec_as_object(g.rec_at(a));
            match g.spec_name_text(o.Name) {
                None => None,
                Some(n) => match o.Outer {
                    None => Some(n),
                    Some(outer) => if fuel == 0 {
                        None
                    } else {
                        match UObject::spec_path_name(g, outer.addr as int, (fuel - 1) as nat) {
                            None => None,
                            Some(pre) => Some(pre + "::"@ + n),
                        }
                    },
                },
            }
        }
    }

    fn path_name_fueled(g: &GlobalTables, p: ueptr<UObject>, fuel: usize) -> (r: Option<String>)
        requires
            g.wf(),
        ensures
            (match r {
                Some(s) => UObject::spec_path_name(*g, p.spec_addr() as int, fuel as nat) == Some(
                    s@,
                ),
                None => UObject::spec_path_name(*g, p.spec_addr() as int, fuel as nat) is None,
            }),
        decreases fuel,
    {
        let rec = match g.record(p) {
            Some(rec) => rec,
            None => {
                return None;
            },
        };
        let o = rec.as_object();
        let n = match g.name_text(o.Name) {
            Some(n) => n,
            None => {
                return None;
            },
        };
        match o.Outer {
            None => Some(n),
            Some(outer) => {
                if fuel == 0 {
                    None
                } else {
                    match UObject::path_name_fueled(g, outer.ptr(), fuel - 1) {
                        None => None,
                        Some(pre) => {
                            let mut s = pre;
                            s.append("::");
                            s.append(n.as_str());
                            Some(s)
                        },
                    }
                }
            },
        }
    }

    /// The object's path name: the names along its containment chain,
    /// outermost first, joined by `::`.
    pub fn GetPathName(g: &GlobalTables, p: ueptr<UObject>) -> (r: Option<String>)
        requires
            g.wf(),
        ensures
            (match r {
                Some(s) => UObject::spec_path_name(*g, p.spec_addr() as int, g.fuel()) == Some(s@),
                None => UObject::spec_path_name(*g, p.spec_addr() as int, g.fuel()) is None,
            }),
    {
        let n = g.obj_count();
        UObject::path_name_fueled(g, p, n)
    }

    /// The object's full name: its class's name, a space, then its path
    /// name.
    pub open spec fn spec_full_name(g: GlobalTables, a: int) -> Option<Seq<char>> {
        if !g.valid_obj(a) {
            None
        } else {
            let o = spec_as_object(g.rec_at(a));
            match UObject::spec_get_name(g, o.Class.addr as int) {
                None => None,
                Some(cn) => match UObject::spec_path_name(g, a, g.fuel()) {
                    None => None,
                    Some(pn) => Some(cn + " "@ + pn),
                },
            }
        }
    }

    /// The object's full name: `"<class name> <path name>"`, the stable
    /// textual key that by-name lookups use.
    pub fn GetFullName(g: &GlobalTables, p: ueptr<UObject>) -> (r: Option<String>)
        requires
            g.wf(),
        ensures
            (match r {
                Some(s) => UObject::spec_full_name(*g, p.spec_addr() as int) == Some(s@),
                None => UObject::spec_full_name(*g, p.spec_addr() as int) is None,
            }),
    {
        let rec = match g.record(p) {
            Some(rec) => rec,
            None => {
                return None;
            },
        };
        let o = rec.as_object();
        let cn = match UObject::GetName(g, o.Class.ptr().ptr_cast()) {
            Some(cn) => cn,
            None => {
                return None;
            },
        };
        match UObject::GetPathName(g, p) {
            None => None,
            Some(pn) => {
                let mut s = cn;
                s.append(" ");
                s.append(pn.as_str());
                Some(s)
            },
        }
    }

    /// Whether the object at `i` carries the sought full name and is
    /// registered as a class: its full name begins with `Class`.
    pub open spec fn spec_class_match(g: GlobalTables, name: Seq<char>, i: int) -> bool {
        match UObject::spec_full_name(g, i) {
            Some(f) => spec_starts_with(f, "Class"@) && f == name,
            None => false,
        }
    }

    /// The highest table index at or below `i` whose object matches; the
    /// snapshot scan keeps the last match, as the one-shot cache does.
    pub open spec fn spec_find_index(g: GlobalTables, name: Seq<char>, i: int) -> Option<int>
        decreases i + 1,
        when i >= -1
    {
        if i < 0 {
            None
        } else if UObject::spec_class_match(g, name, i) {
            Some(i)
        } else {
            UObject::spec_find_index(g, name, i - 1)
        }
    }

    /// Where a class lookup by full name lands: the matching record names
    /// its own slot by `ObjectInternalInteger`, and the lookup yields that
    /// slot's address — `None` when it is not live.
    pub open spec fn spec_find_class(g: GlobalTables, name: Seq<char>) -> Option<int> {
        match UObject::spec_find_index(g, name, g.objs().len() - 1) {
            None => None,
            Some(i) => {
                let ii = spec_as_object(g.rec_at(i)).ObjectInternalInteger as int;
                if g.valid_obj(ii) {
                    Some(ii)
                } else {
                    None
                }
            },
        }
    }

    /// A successful scan lands on a matching index.
    pub proof fn lemma_find_index_match(g: GlobalTables, name: Seq<char>, i: int)
        requires
            i >= -1,
        ensures
            (match UObject::spec_find_index(g, name, i) {
                Some(j) => UObject::spec_class_match(g, name, j) && 0 <= j <= i,
                None => true,
            }),
        decreases i + 1,
    {
        if i >= 0 && !UObject::spec_class_match(g, name, i) {
            UObject::lemma_find_index_match(g, name, i - 1);
        }
    }

    fn find_index(g: &GlobalTables, name: &str, i: usize) -> (r: Option<usize>)
        requires
            g.wf(),
            i <= g.objs().len(),
        ensures
            (match r {
                Some(j) => UObject::spec_find_index(*g, name@, i as int - 1) == Some(j as int) && j
                    < g.objs().len(),
                None => UObject::spec_find_index(*g, name@, i as int - 1) is None,
            }),
        decreases i,
    {
        if i == 0 {
            return None;
        }
        let idx = i - 1;
        let matched = match UObject::GetFullName(g, ueptr::new(idx)) {
            Some(f) => str_starts_with(f.as_str(), "Class") && str_eq(f.as_str(), name),
            None => false,
        };
        if matched {
            Some(idx)
        } else {
            UObject::find_index(g, name, idx)
        }
    }

    /// Looks a class up by its full textual key, scanning the whole object
    /// table snapshot; `None` is a normal lookup miss.
    pub fn FindClass(g: &GlobalTables, FullName: &str) -> (r: Option<ueptr<UClass>>)
        requires
            g.wf(),
        ensures
            (match r {
                Some(p) => UObject::spec_find_class(*g, FullName@) == Some(p.spec_addr() as int),
                None => UObject::spec_find_class(*g, FullName@) is None,
            }),
    {
        let n = g.obj_count();
        match UObject::find_index(g, FullName, n) {
            None => None,
            Some(i) => {
                proof {
                    UObject::lemma_find_index_match(*g, FullName@, g.objs().len() - 1);
                }
                let rec = match g.record(ueptr::new(i)) {
                    Some(rec) => rec,
                    None => {
                        proof {
                            assert(false);
                        }
                        return None;
                    },
                };
                let ii = rec.as_object().ObjectInternalInteger;
                if ii < 0 {
                    return None;
                }
                match g.record(ueptr::new(ii as usize)) {
                    None => None,
                    Some(_) => Some(ueptr::new(ii as usize)),
                }
            },
        }
    }

    /// Whether the object's runtime class descends from the class registered
    /// for the tag `T`: its class's superclass chain passes through that
    /// class record, compared by address identity. An unregistered tag makes
    /// every test false.
    pub open spec fn spec_is_a<T: StaticClass>(g: GlobalTables, a: int) -> bool {
        match UObject::spec_find_class(g, spec_class_key::<T>()) {
            None => false,
            Some(t) => if g.valid_obj(a) {
                spec_chain_contains(g, spec_as_object(g.rec_at(a)).Class.addr as int, t)
            } else {
                false
            },
        }
    }

    /// Dynamic type test: walks the object's class hierarchy and compares
    /// each visited class against the tag's registered class by address.
    pub fn IsA<T: UnrealObject>(g: &GlobalTables, p: ueptr<UObject>) -> (r: bool)
        requires
            g.wf(),
        ensures
            r == UObject::spec_is_a::<T>(*g, p.spec_addr() as int),
    {
        let target = match crate::tags::StaticClass::<T>(g) {
            Some(t) => t,
            None => {
                return false;
            },
        };
        let rec = match g.record(p) {
            Some(rec) => rec,
            None => {
                return false;
            },
        };
        let cls = rec.as_object().Class;
        let chain = UClass::iter_superclass(g, cls.ptr());
        chain_contains(&chain, target)
    }

    /// Where a downcast of the object at `a` lands: its own address,
    /// exactly when the type test holds.
    pub open spec fn spec_cast<T: StaticClass>(g: GlobalTables, a: int) -> Option<int> {
        if UObject::spec_is_a::<T>(g, a) {
            Some(a)
        } else {
            None
        }
    }

    /// Dynamic downcast: the same address reinterpreted at the tag's type,
    /// exactly when the type test succeeds. This is the single reinterpreting
    /// boundary; it is sound because the hierarchy walk has already proved
    /// the runtime type compatible.
    pub fn Cast<T: UnrealObject>(g: &GlobalTables, p: ueptr<UObject>) -> (r: Option<ueptr<T>>)
        requires
            g.wf(),
        ensures
            (match r {
                Some(q) => UObject::spec_cast::<T>(*g, p.spec_addr() as int) == Some(
                    q.spec_addr() as int,
                ) && q.spec_addr() == p.spec_addr(),
                None => UObject::spec_cast::<T>(*g, p.spec_addr() as int) is None,
            }),
    {
        if UObject::IsA::<T>(g, p) {
            Some(p.ptr_cast())
        } else {
            None
        }
    }
}

} // verus!
