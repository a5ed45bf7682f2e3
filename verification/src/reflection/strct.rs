//! The owned description of a runtime script struct: its name and its
//! property fields, sorted by byte offset.
use vstd::prelude::*;

use crate::gtables::GlobalTables;
use crate::records::{UField, UProperty, UScriptStruct};
use crate::records::UObject;
use crate::reflection::property::{spec_rp_buildable, spec_rp_matches_addr, ReflectionProperty};
use crate::reflection::sort::{sort_props, spec_sort_props};
use crate::ueptr;
use crate::uclass::spec_children_of;
use crate::ufield::{addrs_of, spec_next_chain};

verus! {

/// The addresses of `s` that test as properties, in order.
pub open spec fn spec_property_fields_of(g: GlobalTables, s: Seq<int>) -> Seq<int>
    decreases s.len(),
{
    if s.len() == 0 {
        Seq::<int>::empty()
    } else {
        spec_property_fields_of(g, s.drop_last()) + (if UObject::spec_is_a::<UProperty>(
            g,
            s.last(),
        ) {
            seq![s.last()]
        } else {
            Seq::<int>::empty()
        })
    }
}

/// The record's children that test as properties, in linked order.
pub open spec fn spec_property_fields(g: GlobalTables, a: int) -> Seq<int> {
    match spec_children_of(g, a) {
        None => Seq::<int>::empty(),
        Some(h) => spec_property_fields_of(g, spec_next_chain(g, h, g.fuel())),
    }
}

/// Splitting a field list splits its property selection.
pub proof fn lemma_property_fields_of_split(g: GlobalTables, a: Seq<int>, b: Seq<int>)
    ensures
        spec_property_fields_of(g, a + b) == spec_property_fields_of(g, a)
            + spec_property_fields_of(g, b),
    decreases b.len(),
{
    if b.len() == 0 {
        assert(a + b =~= a);
        assert(spec_property_fields_of(g, a) + spec_property_fields_of(g, b)
            =~= spec_property_fields_of(g, a));
    } else {
        lemma_property_fields_of_split(g, a, b.drop_last());
        assert((a + b).drop_last() =~= a + b.drop_last());
        assert((a + b).last() == b.last());
        assert(spec_property_fields_of(g, a + b) =~= spec_property_fields_of(g, a)
            + spec_property_fields_of(g, b));
    }
}

/// Whether `ps` describes the properties at `addrs`, one for one and in
/// order.
pub open spec fn spec_props_built(
    g: GlobalTables,
    addrs: Seq<int>,
    ps: Seq<ReflectionProperty>,
) -> bool {
    &&& ps.len() == addrs.len()
    &&& forall|i: int| 0 <= i < addrs.len() ==> spec_rp_matches_addr(g, addrs[i], #[trigger] ps[i])
}

/// Whether every property at `addrs` can be described.
pub open spec fn spec_all_buildable(g: GlobalTables, addrs: Seq<int>) -> bool {
    forall|i: int| 0 <= i < addrs.len() ==> spec_rp_buildable(g, #[trigger] addrs[i])
}

/// The owned description of a runtime script struct.
pub struct ReflectionStruct {
    pub strct: ueptr<UScriptStruct>,
    pub name: String,
    pub properties: Vec<ReflectionProperty>,
}

/// Whether `rs` describes the script struct at address `a` exactly: its
/// interned name, and its property fields described one for one, sorted by
/// byte offset with equal offsets in linked order.
pub open spec fn spec_reflection_struct_matches(
    g: GlobalTables,
    a: int,
    rs: ReflectionStruct,
) -> bool {
    &&& rs.strct.spec_addr() as int == a
    &&& g.spec_obj_name(a) == Some(rs.name)
    &&& exists|ps: Seq<ReflectionProperty>|
        #[trigger] spec_props_built(g, spec_property_fields(g, a), ps) && rs.properties@
            == spec_sort_props(ps)
}

/// Whether describing the script struct at `a` fails: its own name does not
/// resolve, or one of its property fields cannot be described.
pub open spec fn spec_reflection_struct_fails(g: GlobalTables, a: int) -> bool {
    ||| g.spec_obj_name(a) is None
    ||| !spec_all_buildable(g, spec_property_fields(g, a))
}

impl ReflectionStruct {
    /// Describes the script struct at `p`: `None` exactly when its name or
    /// one of its property fields does not resolve in the snapshot.
    pub fn new(g: &GlobalTables, p: ueptr<UScriptStruct>) -> (r: Option<ReflectionStruct>)
        requires
            g.wf(),
        ensures
            (match r {
                Some(rs) => spec_reflection_struct_matches(*g, p.spec_addr() as int, rs),
                None => spec_reflection_struct_fails(*g, p.spec_addr() as int),
            }),
    {
        let ghost a = p.spec_addr() as int;
        let name = match g.obj_name(p.ptr_cast()) {
            Some(n) => n,
            None => {
                return None;
            },
        };
        let mut unsorted: Vec<ReflectionProperty> = Vec::new();
        let rec = match g.record(p.ptr_cast()) {
            Some(rec) => rec,
            None => {
                return Self::finish(g, p, name, unsorted, Ghost(Seq::<int>::empty()));
            },
        };
        let s = match rec.as_struct() {
            Some(s) => s,
            None => {
                return Self::finish(g, p, name, unsorted, Ghost(Seq::<int>::empty()));
            },
        };
        let head = match s.Childern {
            Some(c) => c,
            None => {
                return Self::finish(g, p, name, unsorted, Ghost(Seq::<int>::empty()));
            },
        };
        let chain = UField::iter_next(g, head.ptr());
        let ghost caddrs = addrs_of(chain@);
        let ghost fields = spec_property_fields(*g, a);
        proof {
            assert(fields == spec_property_fields_of(*g, caddrs));
        }
        let n = chain.len();
        let mut i: usize = 0;
        while i < n
            invariant
                i <= n,
                n == chain@.len(),
                g.wf(),
                caddrs == addrs_of(chain@),
                fields == spec_property_fields_of(*g, caddrs),
                fields == spec_property_fields(*g, p.spec_addr() as int),
                spec_props_built(*g, spec_property_fields_of(*g, caddrs.subrange(0, i as int)),
                    unsorted@),
            decreases n - i,
        {
            let f = chain[i];
            proof {
                assert(caddrs[i as int] == chain@[i as int].spec_addr() as int);
            }
            let ghost x = caddrs[i as int];
            let ghost pre = caddrs.subrange(0, i as int);
            let ghost cur = caddrs.subrange(0, i + 1);
            proof {
                assert(cur.drop_last() =~= pre);
                assert(cur.last() == x);
            }
            if UObject::IsA::<UProperty>(g, f.ptr_cast()) {
                match ReflectionProperty::new(g, f.ptr_cast()) {
                    Some(rp) => {
                        unsorted.push(rp);
                        proof {
                            assert(spec_property_fields_of(*g, cur) =~= spec_property_fields_of(
                                *g,
                                pre,
                            ).push(x));
                            assert(spec_props_built(*g, spec_property_fields_of(*g, cur),
                                unsorted@));
                        }
                    },
                    None => {
                        proof {
                            let rest = caddrs.subrange(i + 1, caddrs.len() as int);
                            assert(caddrs =~= cur + rest);
                            lemma_property_fields_of_split(*g, cur, rest);
                            assert(spec_property_fields_of(*g, cur) =~= spec_property_fields_of(
                                *g,
                                pre,
                            ).push(x));
                            let j = spec_property_fields_of(*g, pre).len() as int;
                            assert(spec_property_fields_of(*g, caddrs)[j] == x);
                            assert(!spec_rp_buildable(*g, x));
                            assert(!spec_all_buildable(*g, fields));
                        }
                        return None;
                    },
                }
            } else {
                proof {
                    assert(spec_property_fields_of(*g, cur) =~= spec_property_fields_of(*g, pre));
                }
            }
            i = i + 1;
        }
        proof {
            assert(caddrs.subrange(0, n as int) =~= caddrs);
        }
        Self::finish(g, p, name, unsorted, Ghost(fields))
    }

    /// Sorts the gathered properties and assembles the description.
    fn finish(
        g: &GlobalTables,
        p: ueptr<UScriptStruct>,
        name: String,
        unsorted: Vec<ReflectionProperty>,
        Ghost(fields): Ghost<Seq<int>>,
    ) -> (r: Option<ReflectionStruct>)
        requires
            g.wf(),
            fields == spec_property_fields(*g, p.spec_addr() as int),
            spec_props_built(*g, fields, unsorted@),
            g.spec_obj_name(p.spec_addr() as int) == Some(name),
        ensures
            (match r {
                Some(rs) => spec_reflection_struct_matches(*g, p.spec_addr() as int, rs),
                None => spec_reflection_struct_fails(*g, p.spec_addr() as int),
            }),
    {
        let ghost ps = unsorted@;
        let properties = sort_props(unsorted);
        let rs = ReflectionStruct { strct: p, name, properties };
        proof {
            assert(spec_props_built(*g, spec_property_fields(*g, p.spec_addr() as int), ps)
                && rs.properties@ == spec_sort_props(ps));
        }
        Some(rs)
    }
}

} // verus!
