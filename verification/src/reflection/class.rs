//! The owned description of a runtime class: its full superclass chain,
//! its properties sorted by byte offset, and its nested structs sorted by
//! name — all copied out of the snapshot once, at construction.
use vstd::prelude::*;

use crate::gtables::GlobalTables;
use crate::records::{UClass, UObject};
use crate::reflection::property::{spec_rp_buildable, ReflectionProperty};
use crate::reflection::sort::{sort_props, sort_structs, spec_sort_props, spec_sort_structs};
use crate::reflection::strct::{spec_all_buildable, spec_props_built,
    spec_reflection_struct_fails, spec_reflection_struct_matches, ReflectionStruct};
use crate::uclass::spec_super_of;
use crate::ueptr;
use crate::ufield::addrs_of;

verus! {

/// Whether `ss` describes the script structs at `addrs`, one for one and in
/// order.
pub open spec fn spec_structs_built(
    g: GlobalTables,
    addrs: Seq<int>,
    ss: Seq<ReflectionStruct>,
) -> bool {
    &&& ss.len() == addrs.len()
    &&& forall|i: int|
        0 <= i < addrs.len() ==> spec_reflection_struct_matches(g, addrs[i], #[trigger] ss[i])
}

/// Whether every script struct at `addrs` can be described.
pub open spec fn spec_all_structs_ok(g: GlobalTables, addrs: Seq<int>) -> bool {
    forall|i: int| 0 <= i < addrs.len() ==> !spec_reflection_struct_fails(g, #[trigger] addrs[i])
}

/// The owned description of a runtime class.
pub struct ReflectionClass {
    pub class: ueptr<UClass>,
    pub superclass: Option<Box<ReflectionClass>>,
    pub name: String,
    pub properties: Vec<ReflectionProperty>,
    pub structs: Vec<ReflectionStruct>,
}

/// Whether `rc` describes the class at address `a` exactly: its path name;
/// its superclass chain described recursively, ending at the root (or cut
/// off by the fuel bound); its enumerated properties described one for one
/// and sorted by byte offset, equal offsets keeping linked order; and its
/// nested structs described one for one and sorted by name.
pub open spec fn spec_reflection_class_matches(
    g: GlobalTables,
    a: int,
    fuel: nat,
    rc: ReflectionClass,
) -> bool
    decreases fuel,
{
    &&& rc.class.spec_addr() as int == a
    &&& UObject::spec_path_name(g, a, g.fuel()) == Some(rc.name@)
    &&& (match spec_super_of(g, a) {
        None => rc.superclass is None,
        Some(sa) => {
            if fuel == 0 {
                rc.superclass is None
            } else {
                rc.superclass matches Some(b) && spec_reflection_class_matches(
                    g,
                    sa,
                    (fuel - 1) as nat,
                    *b,
                )
            }
        },
    })
    &&& exists|ps: Seq<ReflectionProperty>|
        #[trigger] spec_props_built(g, UClass::spec_iter_properties(g, a), ps) && rc.properties@
            == spec_sort_props(ps)
    &&& exists|ss: Seq<ReflectionStruct>|
        #[trigger] spec_structs_built(g, UClass::spec_iter_structs(g, a), ss) && rc.structs@
            == spec_sort_structs(ss)
}

/// Whether describing the class at `a` fails: its path name does not
/// resolve, one of its properties or nested structs cannot be described, or
/// a class along its superclass chain fails in the same way.
pub open spec fn spec_reflection_class_fails(g: GlobalTables, a: int, fuel: nat) -> bool
    decreases fuel,
{
    ||| UObject::spec_path_name(g, a, g.fuel()) is None
    ||| !spec_all_buildable(g, UClass::spec_iter_properties(g, a))
    ||| !spec_all_structs_ok(g, UClass::spec_iter_structs(g, a))
    ||| (match spec_super_of(g, a) {
        Some(sa) => fuel > 0 && spec_reflection_class_fails(g, sa, (fuel - 1) as nat),
        None => false,
    })
}

impl ReflectionClass {
    /// Describes the class at `class`, its whole superclass chain included:
    /// `None` exactly when some name along the way does not resolve or some
    /// member cannot be described.
    pub fn new(g: &GlobalTables, class: ueptr<UClass>) -> (r: Option<ReflectionClass>)
        requires
            g.wf(),
        ensures
            (match r {
                Some(rc) => spec_reflection_class_matches(
                    *g,
                    class.spec_addr() as int,
                    g.fuel(),
                    rc,
                ),
                None => spec_reflection_class_fails(*g, class.spec_addr() as int, g.fuel()),
            }),
    {
        let n = g.obj_count();
        ReflectionClass::new_fueled(g, class, n)
    }

    fn new_fueled(g: &GlobalTables, class: ueptr<UClass>, fuel: usize) -> (r: Option<
        ReflectionClass,
    >)
        requires
            g.wf(),
        ensures
            (match r {
                Some(rc) => spec_reflection_class_matches(
                    *g,
                    class.spec_addr() as int,
                    fuel as nat,
                    rc,
                ),
                None => spec_reflection_class_fails(*g, class.spec_addr() as int, fuel as nat),
            }),
        decreases fuel,
    {
        let name = match UObject::GetPathName(g, class.ptr_cast()) {
            Some(n) => n,
            None => {
                return None;
            },
        };
        // The superclass chain, recursively.
        let mut superclass: Option<Box<ReflectionClass>> = None;
        let rec_opt = g.record(class.ptr_cast());
        match rec_opt {
            None => {},
            Some(rec) => {
                match rec.as_struct() {
                    None => {},
                    Some(s) => {
                        match s.SuperStruct {
                            None => {},
                            Some(sr) => {
                                if fuel > 0 {
                                    match ReflectionClass::new_fueled(
                                        g,
                                        sr.ptr().ptr_cast(),
                                        fuel - 1,
                                    ) {
                                        Some(rc) => {
                                            superclass = Some(Box::new(rc));
                                        },
                                        None => {
                                            return None;
                                        },
                                    }
                                }
                            },
                        }
                    },
                }
            },
        }
        // The properties, one description per enumerated property.
        let pvec = UClass::iter_properties(g, class);
        let ghost paddrs = addrs_of(pvec@);
        let mut punsorted: Vec<ReflectionProperty> = Vec::new();
        let np = pvec.len();
        let mut i: usize = 0;
        while i < np
            invariant
                i <= np,
                np == pvec@.len(),
                g.wf(),
                paddrs == addrs_of(pvec@),
                paddrs == UClass::spec_iter_properties(*g, class.spec_addr() as int),
                spec_props_built(*g, paddrs.subrange(0, i as int), punsorted@),
            decreases np - i,
        {
            let q = pvec[i];
            proof {
                assert(paddrs[i as int] == pvec@[i as int].spec_addr() as int);
            }
            match ReflectionProperty::new(g, q) {
                Some(rp) => {
                    punsorted.push(rp);
                    proof {
                        assert(paddrs.subrange(0, i + 1) =~= paddrs.subrange(0, i as int).push(
                            paddrs[i as int],
                        ));
                        assert(spec_props_built(*g, paddrs.subrange(0, i + 1), punsorted@));
                    }
                },
                None => {
                    proof {
                        assert(!spec_rp_buildable(*g, paddrs[i as int]));
                    }
                    return None;
                },
            }
            i = i + 1;
        }
        proof {
            assert(paddrs.subrange(0, np as int) =~= paddrs);
        }
        let ghost ps = punsorted@;
        let properties = sort_props(punsorted);
        // The nested structs, one description per enumerated struct.
        let svec = UClass::iter_structs(g, class);
        let ghost saddrs = addrs_of(svec@);
        let mut sunsorted: Vec<ReflectionStruct> = Vec::new();
        let ns = svec.len();
        let mut j: usize = 0;
        while j < ns
            invariant
                j <= ns,
                ns == svec@.len(),
                g.wf(),
                saddrs == addrs_of(svec@),
                saddrs == UClass::spec_iter_structs(*g, class.spec_addr() as int),
                spec_structs_built(*g, saddrs.subrange(0, j as int), sunsorted@),
            decreases ns - j,
        {
            let q = svec[j];
            proof {
                assert(saddrs[j as int] == svec@[j as int].spec_addr() as int);
            }
            match ReflectionStruct::new(g, q) {
                Some(rs) => {
                    sunsorted.push(rs);
                    proof {
                        assert(saddrs.subrange(0, j + 1) =~= saddrs.subrange(0, j as int).push(
                            saddrs[j as int],
                        ));
                        assert(spec_structs_built(*g, saddrs.subrange(0, j + 1), sunsorted@));
                    }
                },
                None => {
                    proof {
                        assert(spec_reflection_struct_fails(*g, saddrs[j as int]));
                    }
                    return None;
                },
            }
            j = j + 1;
        }
        proof {
            assert(saddrs.subrange(0, ns as int) =~= saddrs);
        }
        let ghost ss = sunsorted@;
        let structs = sort_structs(sunsorted);
        let rc = ReflectionClass { class, superclass, name, properties, structs };
        proof {
            assert(spec_props_built(
                *g,
                UClass::spec_iter_properties(*g, class.spec_addr() as int),
                ps,
            ) && rc.properties@ == spec_sort_props(ps));
            assert(spec_structs_built(
                *g,
                UClass::spec_iter_structs(*g, class.spec_addr() as int),
                ss,
            ) && rc.structs@ == spec_sort_structs(ss));
        }
        Some(rc)
    }
}

} // verus!
