//! The hierarchy-walk and downcast laws: what the superclass chain yields,
//! and how the dynamic type test and the dynamic downcast relate.
use vstd::prelude::*;

use crate::gtables::GlobalTables;
use crate::records::spec_as_object;
use crate::records::{UClass, UObject};
use crate::tags::{spec_class_key, StaticClass};
use crate::uclass::{spec_chain_contains, spec_super_chain, spec_super_of};
use crate::ueptr;

verus! {

/// Identity is address identity: any two references a by-name class lookup
/// yields for the same key, over the same snapshot, are the same reference —
/// so address comparison in `IsA` and `Cast` is sound.
pub proof fn lemma_lookup_identity(
    g: GlobalTables,
    name: Seq<char>,
    p1: ueptr<UClass>,
    p2: ueptr<UClass>,
)
    requires
        UObject::spec_find_class(g, name) == Some(p1.spec_addr() as int),
        UObject::spec_find_class(g, name) == Some(p2.spec_addr() as int),
    ensures
        p1 == p2,
{
    crate::lemma_ueptr_ext(p1, p2);
}

/// The superclass chain is the successor iteration itself: it starts at the
/// queried class, every later entry is the previous entry's superclass, and
/// it stops only at a class with no superclass — or exactly when the
/// defensive bound has been spent.
pub proof fn lemma_super_chain_successors(g: GlobalTables, a: int, fuel: nat)
    ensures
        spec_super_chain(g, a, fuel).len() >= 1,
        spec_super_chain(g, a, fuel)[0] == a,
        forall|i: int|
            0 <= i < spec_super_chain(g, a, fuel).len() - 1 ==> spec_super_of(
                g,
                #[trigger] spec_super_chain(g, a, fuel)[i],
            ) == Some(spec_super_chain(g, a, fuel)[i + 1]),
        spec_super_of(g, spec_super_chain(g, a, fuel).last()) is None || spec_super_chain(
            g,
            a,
            fuel,
        ).len() == fuel + 1,
    decreases fuel,
{
    let chain = spec_super_chain(g, a, fuel);
    if fuel == 0 {
        assert(chain =~= seq![a]);
    } else {
        match spec_super_of(g, a) {
            None => {
                assert(chain =~= seq![a]);
            },
            Some(s) => {
                lemma_super_chain_successors(g, s, (fuel - 1) as nat);
                let rest = spec_super_chain(g, s, (fuel - 1) as nat);
                assert(chain =~= seq![a] + rest);
                assert(chain.last() == rest.last());
                assert forall|i: int| 0 <= i < chain.len() - 1 implies spec_super_of(
                    g,
                    #[trigger] chain[i],
                ) == Some(chain[i + 1]) by {
                    if i == 0 {
                        assert(chain[0] == a);
                        assert(chain[1] == rest[0]);
                    } else {
                        assert(chain[i] == rest[i - 1]);
                        assert(chain[i + 1] == rest[i]);
                    }
                }
            },
        }
    }
}

/// A type test against an ancestor succeeds: where the tag's class is
/// registered and sits on the object's class chain, `IsA` holds.
pub proof fn lemma_is_a_of_ancestor<T: StaticClass>(g: GlobalTables, a: int, t: int)
    requires
        UObject::spec_find_class(g, spec_class_key::<T>()) == Some(t),
        g.valid_obj(a),
        spec_chain_contains(g, spec_as_object(g.rec_at(a)).Class.addr as int, t),
    ensures
        UObject::spec_is_a::<T>(g, a),
{
}

/// A type test against an unrelated tag fails: where the tag's class is not
/// registered, or lies off the object's class chain, `IsA` does not hold.
pub proof fn lemma_is_a_of_unrelated<T: StaticClass>(g: GlobalTables, a: int)
    requires
        match UObject::spec_find_class(g, spec_class_key::<T>()) {
            None => true,
            Some(t) => g.valid_obj(a) ==> !spec_chain_contains(
                g,
                spec_as_object(g.rec_at(a)).Class.addr as int,
                t,
            ),
        },
    ensures
        !UObject::spec_is_a::<T>(g, a),
{
}

/// The downcast and the type test agree exactly: a cast yields a reference
/// if and only if the type test holds, and the reference it yields carries
/// the very address that went in.
pub proof fn lemma_cast_iff_is_a<T: StaticClass>(g: GlobalTables, a: int)
    ensures
        UObject::spec_cast::<T>(g, a) is Some <==> UObject::spec_is_a::<T>(g, a),
        UObject::spec_cast::<T>(g, a) matches Some(q) ==> q == a,
{
}

} // verus!
