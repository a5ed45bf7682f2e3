//! Walking the intrusive linked list of fields: successor iteration over the
//! `Next` reference, bounded defensively by the table size so that corrupt
//! foreign links can never hang a walk.
use vstd::prelude::*;

use crate::gtables::GlobalTables;
use crate::records::{spec_as_field, UField};
use crate::strutil::append_all;
use crate::ueptr;

verus! {

/// The addresses a sequence of typed references carries.
pub open spec fn addrs_of<T>(s: Seq<ueptr<T>>) -> Seq<int> {
    s.map_values(|p: ueptr<T>| p.spec_addr() as int)
}

/// The field a record's `Next` link names, where the record is live and
/// extends `UField`.
pub open spec fn spec_next_of(g: GlobalTables, a: int) -> Option<int> {
    if g.valid_obj(a) {
        match spec_as_field(g.rec_at(a)) {
            Some(f) => match f.Next {
                Some(nr) => Some(nr.addr as int),
                None => None,
            },
            None => None,
        }
    } else {
        None
    }
}

/// The chain of fields reached from `a` by following `Next`, starting with
/// `a` itself; `fuel` bounds the walk.
pub open spec fn spec_next_chain(g: GlobalTables, a: int, fuel: nat) -> Seq<int>
    decreases fuel,
{
    seq![a] + (if fuel == 0 {
        Seq::<int>::empty()
    } else {
        match spec_next_of(g, a) {
            Some(s) => spec_next_chain(g, s, (fuel - 1) as nat),
            None => Seq::<int>::empty(),
        }
    })
}

pub(crate) fn walk_next(g: &GlobalTables, cur: ueptr<UField>, fuel: usize) -> (r: Vec<
    ueptr<UField>,
>)
    requires
        g.wf(),
    ensures
        addrs_of(r@) == spec_next_chain(*g, cur.spec_addr() as int, fuel as nat),
        r@.len() >= 1,
        r@[0] == cur,
    decreases fuel,
{
    let mut out: Vec<ueptr<UField>> = Vec::new();
    out.push(cur);
    proof {
        assert(addrs_of(out@) =~= seq![cur.spec_addr() as int]);
    }
    if fuel > 0 {
        match g.record(cur.ptr_cast()) {
            None => {
                proof {
                    assert(spec_next_chain(*g, cur.spec_addr() as int, fuel as nat) =~= addrs_of(
                        out@,
                    ));
                }
            },
            Some(rec) => {
                match rec.as_field() {
                    None => {
                        proof {
                            assert(spec_next_chain(*g, cur.spec_addr() as int, fuel as nat)
                                =~= addrs_of(out@));
                        }
                    },
                    Some(f) => {
                        match f.Next {
                            None => {
                                proof {
                                    assert(spec_next_chain(*g, cur.spec_addr() as int, fuel as nat)
                                        =~= addrs_of(out@));
                                }
                            },
                            Some(nr) => {
                                let rest = walk_next(g, nr.ptr(), fuel - 1);
                                append_all(&mut out, &rest);
                                proof {
                                    assert(addrs_of(out@) =~= seq![cur.spec_addr() as int]
                                        + addrs_of(rest@));
                                    assert(addrs_of(out@) =~= spec_next_chain(
                                        *g,
                                        cur.spec_addr() as int,
                                        fuel as nat,
                                    ));
                                }
                            },
                        }
                    },
                }
            },
        }
    } else {
        proof {
            assert(spec_next_chain(*g, cur.spec_addr() as int, fuel as nat) =~= addrs_of(out@));
        }
    }
    out
}

impl UField {
    /// The successor chain starting at `start` itself and following `Next`,
    /// in order; the walk is bounded by the table size, so it terminates
    /// even on corrupt foreign links.
    pub fn iter_next(g: &GlobalTables, start: ueptr<UField>) -> (r: Vec<ueptr<UField>>)
        requires
            g.wf(),
        ensures
            addrs_of(r@) == spec_next_chain(*g, start.spec_addr() as int, g.fuel()),
            r@.len() >= 1,
            r@[0] == start,
    {
        let n = g.obj_count();
        walk_next(g, start, n)
    }
}

} // verus!
