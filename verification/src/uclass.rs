//! The runtime class records: walking the superclass chain, and enumerating
//! a class's children as properties, nested structs and functions.
use vstd::prelude::*;

use crate::gtables::GlobalTables;
use crate::records::{spec_as_struct, UClass, UField, UFunction, UObject, UProperty,
    UScriptStruct};
use crate::strutil::append_all;
use crate::ueptr;
use crate::ufield::{addrs_of, spec_next_chain};

verus! {

/// The struct a record's `SuperStruct` link names, where the record is live
/// and extends `UStruct`.
pub open spec fn spec_super_of(g: GlobalTables, a: int) -> Option<int> {
    if g.valid_obj(a) {
        match spec_as_struct(g.rec_at(a)) {
            Some(s) => match s.SuperStruct {
                Some(sr) => Some(sr.addr as int),
                None => None,
            },
            None => None,
        }
    } else {
        None
    }
}

/// The chain of classes reached from `a` by following `SuperStruct`,
/// starting with `a` itself; `fuel` bounds the walk.
pub open spec fn spec_super_chain(g: GlobalTables, a: int, fuel: nat) -> Seq<int>
    decreases fuel,
{
    seq![a] + (if fuel == 0 {
        Seq::<int>::empty()
    } else {
        match spec_super_of(g, a) {
            Some(s) => spec_super_chain(g, s, (fuel - 1) as nat),
            None => Seq::<int>::empty(),
        }
    })
}

pub(crate) fn walk_super(g: &GlobalTables, cur: ueptr<UClass>, fuel: usize) -> (r: Vec<
    ueptr<UClass>,
>)
    requires
        g.wf(),
    ensures
        addrs_of(r@) == spec_super_chain(*g, cur.spec_addr() as int, fuel as nat),
        r@.len() >= 1,
        r@[0] == cur,
    decreases fuel,
{
    let mut out: Vec<ueptr<UClass>> = Vec::new();
    out.push(cur);
    proof {
        assert(addrs_of(out@) =~= seq![cur.spec_addr() as int]);
    }
    let ghost chain = spec_super_chain(*g, cur.spec_addr() as int, fuel as nat);
    if fuel > 0 {
        match g.record(cur.ptr_cast()) {
            None => {
                proof {
                    assert(chain =~= addrs_of(out@));
                }
            },
            Some(rec) => {
                match rec.as_struct() {
                    None => {
                        proof {
                            assert(chain =~= addrs_of(out@));
                        }
                    },
                    Some(s) => {
                        match s.SuperStruct {
                            None => {
                                proof {
                                    assert(chain =~= addrs_of(out@));
                                }
                            },
                            Some(sr) => {
                                let rest = walk_super(g, sr.ptr().ptr_cast(), fuel - 1);
                                append_all(&mut out, &rest);
                                proof {
                                    assert(addrs_of(out@) =~= seq![cur.spec_addr() as int]
                                        + addrs_of(rest@));
                                    assert(addrs_of(out@) =~= chain);
                                }
                            },
                        }
                    },
                }
            },
        }
    } else {
        proof {
            assert(chain =~= addrs_of(out@));
        }
    }
    out
}

/// Whether a class chain passes through the class at address `t`.
pub open spec fn spec_chain_contains(g: GlobalTables, a: int, t: int) -> bool {
    spec_super_chain(g, a, g.fuel()).contains(t)
}

pub(crate) fn chain_contains(v: &Vec<ueptr<UClass>>, target: ueptr<UClass>) -> (r: bool)
    ensures
        r == addrs_of(v@).contains(target.spec_addr() as int),
{
    let n = v.len();
    let mut i: usize = 0;
    while i < n
        invariant
            i <= n,
            n == v@.len(),
            forall|j: int| 0 <= j < i ==> addrs_of(v@)[j] != target.spec_addr() as int,
        decreases n - i,
    {
        if v[i] == target {
            proof {
                assert(addrs_of(v@)[i as int] == target.spec_addr() as int);
            }
            return true;
        }
        proof {
            assert(addrs_of(v@)[i as int] != target.spec_addr() as int);
        }
        i = i + 1;
    }
    false
}

/// The children head of the struct-level record at `a`.
pub open spec fn spec_children_of(g: GlobalTables, a: int) -> Option<int> {
    if g.valid_obj(a) {
        match spec_as_struct(g.rec_at(a)) {
            Some(s) => match s.Childern {
                Some(c) => Some(c.addr as int),
                None => None,
            },
            None => None,
        }
    } else {
        None
    }
}

/// Whether the field at `x` enumerates as a property: it tests as a
/// property, its record resolves, and its element size is positive.
pub open spec fn spec_is_live_property(g: GlobalTables, x: int) -> bool {
    &&& UObject::spec_is_a::<UProperty>(g, x)
    &&& match g.spec_get::<UProperty>(x) {
        Some(p) => p.ElementSize > 0,
        None => false,
    }
}

/// The addresses of `s` that enumerate as properties, in order.
pub open spec fn spec_live_props_of(g: GlobalTables, s: Seq<int>) -> Seq<int>
    decreases s.len(),
{
    if s.len() == 0 {
        Seq::<int>::empty()
    } else {
        spec_live_props_of(g, s.drop_last()) + (if spec_is_live_property(g, s.last()) {
            seq![s.last()]
        } else {
            Seq::<int>::empty()
        })
    }
}

/// The addresses of `s` that test as script structs, in order.
pub open spec fn spec_script_structs_of(g: GlobalTables, s: Seq<int>) -> Seq<int>
    decreases s.len(),
{
    if s.len() == 0 {
        Seq::<int>::empty()
    } else {
        spec_script_structs_of(g, s.drop_last()) + (if UObject::spec_is_a::<UScriptStruct>(
            g,
            s.last(),
        ) {
            seq![s.last()]
        } else {
            Seq::<int>::empty()
        })
    }
}

/// The addresses of `s` that test as functions, in order.
pub open spec fn spec_functions_of(g: GlobalTables, s: Seq<int>) -> Seq<int>
    decreases s.len(),
{
    if s.len() == 0 {
        Seq::<int>::empty()
    } else {
        spec_functions_of(g, s.drop_last()) + (if UObject::spec_is_a::<UFunction>(g, s.last()) {
            seq![s.last()]
        } else {
            Seq::<int>::empty()
        })
    }
}

impl UClass {
    /// The superclass chain: `start` itself first, then each class's
    /// `SuperStruct` in turn, ending at the root (or when the defensive
    /// bound cuts a corrupt chain off).
    pub fn iter_superclass(g: &GlobalTables, start: ueptr<UClass>) -> (r: Vec<ueptr<UClass>>)
        requires
            g.wf(),
        ensures
            addrs_of(r@) == spec_super_chain(*g, start.spec_addr() as int, g.fuel()),
            r@.len() >= 1,
            r@[0] == start,
    {
        let n = g.obj_count();
        walk_super(g, start, n)
    }

    /// The same lookup as [`UObject::FindClass`]: the class registered
    /// under a full textual key.
    pub fn FindClass(g: &GlobalTables, FullName: &str) -> (r: Option<ueptr<UClass>>)
        requires
            g.wf(),
        ensures
            (match r {
                Some(p) => UObject::spec_find_class(*g, FullName@) == Some(p.spec_addr() as int),
                None => UObject::spec_find_class(*g, FullName@) is None,
            }),
    {
        UObject::FindClass(g, FullName)
    }

    /// The class's children that enumerate as properties: fields that test
    /// as a property, resolve, and have a positive element size, in linked
    /// order.
    pub open spec fn spec_iter_properties(g: GlobalTables, a: int) -> Seq<int> {
        match spec_children_of(g, a) {
            None => Seq::<int>::empty(),
            Some(h) => spec_live_props_of(g, spec_next_chain(g, h, g.fuel())),
        }
    }

    /// Enumerates the class's properties, in linked order.
    pub fn iter_properties(g: &GlobalTables, class: ueptr<UClass>) -> (r: Vec<ueptr<UProperty>>)
        requires
            g.wf(),
        ensures
            addrs_of(r@) == UClass::spec_iter_properties(*g, class.spec_addr() as int),
    {
        let mut out: Vec<ueptr<UProperty>> = Vec::new();
        let rec = match g.record(class.ptr_cast()) {
            Some(rec) => rec,
            None => {
                proof {
                    assert(addrs_of(out@) =~= Seq::<int>::empty());
                }
                return out;
            },
        };
        let s = match rec.as_struct() {
            Some(s) => s,
            None => {
                proof {
                    assert(addrs_of(out@) =~= Seq::<int>::empty());
                }
                return out;
            },
        };
        let head = match s.Childern {
            Some(c) => c,
            None => {
                proof {
                    assert(addrs_of(out@) =~= Seq::<int>::empty());
                }
                return out;
            },
        };
        let chain = UField::iter_next(g, head.ptr());
        let ghost caddrs = addrs_of(chain@);
        let n = chain.len();
        let mut i: usize = 0;
        while i < n
            invariant
                i <= n,
                n == chain@.len(),
                g.wf(),
                caddrs == addrs_of(chain@),
                addrs_of(out@) == spec_live_props_of(*g, caddrs.subrange(0, i as int)),
            decreases n - i,
        {
            let f = chain[i];
            proof {
                assert(caddrs[i as int] == chain@[i as int].spec_addr() as int);
            }
            match UObject::Cast::<UProperty>(g, f.ptr_cast()) {
                Some(q) => {
                    let keep = match g.get::<UProperty>(q) {
                        Some(p) => p.ElementSize > 0,
                        None => false,
                    };
                    if keep {
                        out.push(q);
                    }
                },
                None => {},
            }
            proof {
                let pre = caddrs.subrange(0, i as int);
                let cur = caddrs.subrange(0, i + 1);
                assert(cur.drop_last() =~= pre);
                assert(cur.last() == caddrs[i as int]);
                assert(addrs_of(out@) =~= spec_live_props_of(*g, cur));
            }
            i = i + 1;
        }
        proof {
            assert(caddrs.subrange(0, n as int) =~= caddrs);
        }
        out
    }

    /// The class's children that test as nested script structs, in linked
    /// order.
    pub open spec fn spec_iter_structs(g: GlobalTables, a: int) -> Seq<int> {
        match spec_children_of(g, a) {
            None => Seq::<int>::empty(),
            Some(h) => spec_script_structs_of(g, spec_next_chain(g, h, g.fuel())),
        }
    }

    /// Enumerates the class's nested script structs, in linked order.
    pub fn iter_structs(g: &GlobalTables, class: ueptr<UClass>) -> (r: Vec<ueptr<UScriptStruct>>)
        requires
            g.wf(),
        ensures
            addrs_of(r@) == UClass::spec_iter_structs(*g, class.spec_addr() as int),
    {
        let mut out: Vec<ueptr<UScriptStruct>> = Vec::new();
        let rec = match g.record(class.ptr_cast()) {
            Some(rec) => rec,
            None => {
                proof {
                    assert(addrs_of(out@) =~= Seq::<int>::empty());
                }
                return out;
            },
        };
        let s = match rec.as_struct() {
            Some(s) => s,
            None => {
                proof {
                    assert(addrs_of(out@) =~= Seq::<int>::empty());
                }
                return out;
            },
        };
        let head = match s.Childern {
            Some(c) => c,
            None => {
                proof {
                    assert(addrs_of(out@) =~= Seq::<int>::empty());
                }
                return out;
            },
        };
        let chain = UField::iter_next(g, head.ptr());
        let ghost caddrs = addrs_of(chain@);
        let n = chain.len();
        let mut i: usize = 0;
        while i < n
            invariant
                i <= n,
                n == chain@.len(),
                g.wf(),
                caddrs == addrs_of(chain@),
                addrs_of(out@) == spec_script_structs_of(*g, caddrs.subrange(0, i as int)),
            decreases n - i,
        {
            let f = chain[i];
            proof {
                assert(caddrs[i as int] == chain@[i as int].spec_addr() as int);
            }
            match UObject::Cast::<UScriptStruct>(g, f.ptr_cast()) {
                Some(q) => {
                    out.push(q);
                },
                None => {},
            }
            proof {
                let pre = caddrs.subrange(0, i as int);
                let cur = caddrs.subrange(0, i + 1);
                assert(cur.drop_last() =~= pre);
                assert(cur.last() == caddrs[i as int]);
                assert(addrs_of(out@) =~= spec_script_structs_of(*g, cur));
            }
            i = i + 1;
        }
        proof {
            assert(caddrs.subrange(0, n as int) =~= caddrs);
        }
        out
    }

    /// The class's children that test as functions, in linked order.
    pub open spec fn spec_iter_functions(g: GlobalTables, a: int) -> Seq<int> {
        match spec_children_of(g, a) {
            None => Seq::<int>::empty(),
            Some(h) => spec_functions_of(g, spec_next_chain(g, h, g.fuel())),
        }
    }

    /// Enumerates the class's functions, in linked order.
    pub fn iter_functions(g: &GlobalTables, class: ueptr<UClass>) -> (r: Vec<ueptr<UFunction>>)
        requires
            g.wf(),
        ensures
            addrs_of(r@) == UClass::spec_iter_functions(*g, class.spec_addr() as int),
    {
        let mut out: Vec<ueptr<UFunction>> = Vec::new();
        let rec = match g.record(class.ptr_cast()) {
            Some(rec) => rec,
            None => {
                proof {
                    assert(addrs_of(out@) =~= Seq::<int>::empty());
                }
                return out;
            },
        };
        let s = match rec.as_struct() {
            Some(s) => s,
            None => {
                proof {
                    assert(addrs_of(out@) =~= Seq::<int>::empty());
                }
                return out;
            },
        };
        let head = match s.Childern {
            Some(c) => c,
            None => {
                proof {
                    assert(addrs_of(out@) =~= Seq::<int>::empty());
                }
                return out;
            },
        };
        let chain = UField::iter_next(g, head.ptr());
        let ghost caddrs = addrs_of(chain@);
        let n = chain.len();
        let mut i: usize = 0;
        while i < n
            invariant
                i <= n,
                n == chain@.len(),
                g.wf(),
                caddrs == addrs_of(chain@),
                addrs_of(out@) == spec_functions_of(*g, caddrs.subrange(0, i as int)),
            decreases n - i,
        {
            let f = chain[i];
            proof {
                assert(caddrs[i as int] == chain@[i as int].spec_addr() as int);
            }
            match UObject::Cast::<UFunction>(g, f.ptr_cast()) {
                Some(q) => {
                    out.push(q);
                },
                None => {},
            }
            proof {
                let pre = caddrs.subrange(0, i as int);
                let cur = caddrs.subrange(0, i + 1);
                assert(cur.drop_last() =~= pre);
                assert(cur.last() == caddrs[i as int]);
                assert(addrs_of(out@) =~= spec_functions_of(*g, cur));
            }
            i = i + 1;
        }
        proof {
            assert(caddrs.subrange(0, n as int) =~= caddrs);
        }
        out
    }
}

} // verus!
