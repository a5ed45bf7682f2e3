//! Runtime function records: the snapshot-wide lookup by full name, and the
//! enumeration of a function's parameters and its return value among its
//! children.
use vstd::prelude::*;

use crate::gtables::GlobalTables;
use crate::records::{spec_as_object, UField, UFunction, UObject, UProperty, PROPERTY_FLAG_PARM,
    PROPERTY_FLAG_RETURN_PARM};
use crate::ueptr;
use crate::strutil::str_eq;
use crate::uclass::spec_children_of;
use crate::ufield::{addrs_of, spec_next_chain};

verus! {

/// Whether the field at `x` is a parameter: it tests as a property,
/// resolves, and carries the parameter flag.
pub open spec fn spec_is_parm(g: GlobalTables, x: int) -> bool {
    &&& UObject::spec_is_a::<UProperty>(g, x)
    &&& match g.spec_get::<UProperty>(x) {
        Some(p) => p.PropertyFlags & PROPERTY_FLAG_PARM == PROPERTY_FLAG_PARM,
        None => false,
    }
}

/// Whether the property at `x` resolves and carries the return-value flag.
pub open spec fn spec_is_ret(g: GlobalTables, x: int) -> bool {
    match g.spec_get::<UProperty>(x) {
        Some(p) => p.PropertyFlags & PROPERTY_FLAG_RETURN_PARM == PROPERTY_FLAG_RETURN_PARM,
        None => false,
    }
}

/// The addresses of `s` that are parameters, in order.
pub open spec fn spec_parms_of(g: GlobalTables, s: Seq<int>) -> Seq<int>
    decreases s.len(),
{
    if s.len() == 0 {
        Seq::<int>::empty()
    } else {
        spec_parms_of(g, s.drop_last()) + (if spec_is_parm(g, s.last()) {
            seq![s.last()]
        } else {
            Seq::<int>::empty()
        })
    }
}

/// The addresses of `s` that are not flagged as the return value, in order.
pub open spec fn spec_nonret_of(g: GlobalTables, s: Seq<int>) -> Seq<int>
    decreases s.len(),
{
    if s.len() == 0 {
        Seq::<int>::empty()
    } else {
        spec_nonret_of(g, s.drop_last()) + (if !spec_is_ret(g, s.last()) {
            seq![s.last()]
        } else {
            Seq::<int>::empty()
        })
    }
}

/// The first address of `s` at or after `i` flagged as the return value.
pub open spec fn spec_first_ret_from(g: GlobalTables, s: Seq<int>, i: int) -> Option<int>
    decreases s.len() - i,
    when 0 <= i
{
    if i >= s.len() {
        None
    } else if spec_is_ret(g, s[i]) {
        Some(s[i])
    } else {
        spec_first_ret_from(g, s, i + 1)
    }
}

/// Whether the object at `i` is a function carrying the sought full name.
pub open spec fn spec_function_match(g: GlobalTables, name: Seq<char>, i: int) -> bool {
    &&& UObject::spec_is_a::<UFunction>(g, i)
    &&& match UObject::spec_full_name(g, i) {
        Some(f) => f == name,
        None => false,
    }
}

/// The highest table index at or below `i` whose object matches; the
/// snapshot scan keeps the last match, as the one-shot cache does.
pub open spec fn spec_find_function_index(g: GlobalTables, name: Seq<char>, i: int) -> Option<int>
    decreases i + 1,
    when i >= -1
{
    if i < 0 {
        None
    } else if spec_function_match(g, name, i) {
        Some(i)
    } else {
        spec_find_function_index(g, name, i - 1)
    }
}

/// Where a function lookup by full name lands: the matching record names its
/// own slot by `ObjectInternalInteger`; the lookup yields that slot's address
/// where it is live and itself tests as a function.
pub open spec fn spec_find_function(g: GlobalTables, name: Seq<char>) -> Option<int> {
    match spec_find_function_index(g, name, g.objs().len() - 1) {
        None => None,
        Some(i) => {
            let ii = spec_as_object(g.rec_at(i)).ObjectInternalInteger as int;
            if g.valid_obj(ii) && UObject::spec_is_a::<UFunction>(g, ii) {
                Some(ii)
            } else {
                None
            }
        },
    }
}

/// A successful scan lands on a matching index.
pub proof fn lemma_find_function_index_match(g: GlobalTables, name: Seq<char>, i: int)
    requires
        i >= -1,
    ensures
        (match spec_find_function_index(g, name, i) {
            Some(j) => spec_function_match(g, name, j) && 0 <= j <= i,
            None => true,
        }),
    decreases i + 1,
{
    if i >= 0 && !spec_function_match(g, name, i) {
        lemma_find_function_index_match(g, name, i - 1);
    }
}

fn find_function_index(g: &GlobalTables, name: &str, i: usize) -> (r: Option<usize>)
    requires
        g.wf(),
        i <= g.objs().len(),
    ensures
        (match r {
            Some(j) => spec_find_function_index(*g, name@, i as int - 1) == Some(j as int) && j
                < g.objs().len(),
            None => spec_find_function_index(*g, name@, i as int - 1) is None,
        }),
    decreases i,
{
    if i == 0 {
        return None;
    }
    let idx = i - 1;
    let is_fn = UObject::IsA::<UFunction>(g, ueptr::new(idx));
    let matched = if is_fn {
        match UObject::GetFullName(g, ueptr::new(idx)) {
            Some(f) => str_eq(f.as_str(), name),
            None => false,
        }
    } else {
        false
    };
    if matched {
        Some(idx)
    } else {
        find_function_index(g, name, idx)
    }
}

impl UFunction {
    /// Looks a function up by its full textual key, scanning the whole
    /// object table snapshot; `None` is a normal lookup miss.
    pub fn FindFunction(g: &GlobalTables, FullName: &str) -> (r: Option<ueptr<UFunction>>)
        requires
            g.wf(),
        ensures
            (match r {
                Some(p) => spec_find_function(*g, FullName@) == Some(p.spec_addr() as int),
                None => spec_find_function(*g, FullName@) is None,
            }),
    {
        let n = g.obj_count();
        match find_function_index(g, FullName, n) {
            None => None,
            Some(i) => {
                proof {
                    lemma_find_function_index_match(*g, FullName@, g.objs().len() - 1);
                }
                let rec = match g.record(ueptr::new(i)) {
                    Some(rec) => rec,
                    None => {
                        proof {
                            assert(false);
                        }
                        return None;
                    },
                };
                let ii = rec.as_object().ObjectInternalInteger;
                if ii < 0 {
                    return None;
                }
                let q: ueptr<UObject> = ueptr::new(ii as usize);
                match g.record(q) {
                    None => None,
                    Some(_) => {
                        if UObject::IsA::<UFunction>(g, q) {
                            Some(q.ptr_cast())
                        } else {
                            None
                        }
                    },
                }
            },
        }
    }

    /// The function's children that are parameters, the return value
    /// included, in linked order.
    pub open spec fn spec_iter_all_params(g: GlobalTables, a: int) -> Seq<int> {
        match spec_children_of(g, a) {
            None => Seq::<int>::empty(),
            Some(h) => spec_parms_of(g, spec_next_chain(g, h, g.fuel())),
        }
    }

    fn iter_all_params(g: &GlobalTables, function: ueptr<UFunction>) -> (r: Vec<ueptr<UProperty>>)
        requires
            g.wf(),
        ensures
            addrs_of(r@) == UFunction::spec_iter_all_params(*g, function.spec_addr() as int),
        decreases 0int,
    {
        let mut out: Vec<ueptr<UProperty>> = Vec::new();
        let rec = match g.record(function.ptr_cast()) {
            Some(rec) => rec,
            None => {
                proof {
                    assert(addrs_of(out@) =~= Seq::<int>::empty());
                }
                return out;
            },
        };
        let s = match rec.as_struct() {
            Some(s) => s,
            None => {
                proof {
                    assert(addrs_of(out@) =~= Seq::<int>::empty());
                }
                return out;
            },
        };
        let head = match s.Childern {
            Some(c) => c,
            None => {
                proof {
                    assert(addrs_of(out@) =~= Seq::<int>::empty());
                }
                return out;
            },
        };
        let chain = UField::iter_next(g, head.ptr());
        let ghost caddrs = addrs_of(chain@);
        let n = chain.len();
        let mut i: usize = 0;
        while i < n
            invariant
                i <= n,
                n == chain@.len(),
                g.wf(),
                caddrs == addrs_of(chain@),
                addrs_of(out@) == spec_parms_of(*g, caddrs.subrange(0, i as int)),
            decreases n - i,
        {
            let f = chain[i];
            proof {
                assert(caddrs[i as int] == chain@[i as int].spec_addr() as int);
            }
            match UObject::Cast::<UProperty>(g, f.ptr_cast()) {
                Some(q) => {
                    let keep = match g.get::<UProperty>(q) {
                        Some(p) => p.PropertyFlags & PROPERTY_FLAG_PARM == PROPERTY_FLAG_PARM,
                        None => false,
                    };
                    if keep {
                        out.push(q);
                    }
                },
                None => {},
            }
            proof {
                let pre = caddrs.subrange(0, i as int);
                let cur = caddrs.subrange(0, i + 1);
                assert(cur.drop_last() =~= pre);
                assert(cur.last() == caddrs[i as int]);
                assert(addrs_of(out@) =~= spec_parms_of(*g, cur));
            }
            i = i + 1;
        }
        proof {
            assert(caddrs.subrange(0, n as int) =~= caddrs);
        }
        out
    }

    /// The function's parameters with the return value left out, in linked
    /// order.
    pub open spec fn spec_iter_params(g: GlobalTables, a: int) -> Seq<int> {
        spec_nonret_of(g, UFunction::spec_iter_all_params(g, a))
    }

    /// Enumerates the function's parameters, the return value left out.
    pub fn iter_params(g: &GlobalTables, function: ueptr<UFunction>) -> (r: Vec<ueptr<UProperty>>)
        requires
            g.wf(),
        ensures
            addrs_of(r@) == UFunction::spec_iter_params(*g, function.spec_addr() as int),
    {
        let allp = UFunction::iter_all_params(g, function);
        let ghost paddrs = addrs_of(allp@);
        let mut out: Vec<ueptr<UProperty>> = Vec::new();
        let n = allp.len();
        let mut i: usize = 0;
        while i < n
            invariant
                i <= n,
                n == allp@.len(),
                g.wf(),
                paddrs == addrs_of(allp@),
                addrs_of(out@) == spec_nonret_of(*g, paddrs.subrange(0, i as int)),
            decreases n - i,
        {
            let q = allp[i];
            proof {
                assert(paddrs[i as int] == allp@[i as int].spec_addr() as int);
            }
            let is_ret = match g.get::<UProperty>(q) {
                Some(p) => p.PropertyFlags & PROPERTY_FLAG_RETURN_PARM
                    == PROPERTY_FLAG_RETURN_PARM,
                None => false,
            };
            if !is_ret {
                out.push(q);
            }
            proof {
                let pre = paddrs.subrange(0, i as int);
                let cur = paddrs.subrange(0, i + 1);
                assert(cur.drop_last() =~= pre);
                assert(cur.last() == paddrs[i as int]);
                assert(addrs_of(out@) =~= spec_nonret_of(*g, cur));
            }
            i = i + 1;
        }
        proof {
            assert(paddrs.subrange(0, n as int) =~= paddrs);
        }
        out
    }

    /// The parameter flagged as the return value, where there is one.
    pub open spec fn spec_ret_val(g: GlobalTables, a: int) -> Option<int> {
        spec_first_ret_from(g, UFunction::spec_iter_all_params(g, a), 0)
    }

    /// The function's return value: the first parameter flagged as such.
    pub fn ret_val(g: &GlobalTables, function: ueptr<UFunction>) -> (r: Option<ueptr<UProperty>>)
        requires
            g.wf(),
        ensures
            (match r {
                Some(q) => UFunction::spec_ret_val(*g, function.spec_addr() as int) == Some(
                    q.spec_addr() as int,
                ),
                None => UFunction::spec_ret_val(*g, function.spec_addr() as int) is None,
            }),
    {
        let allp = UFunction::iter_all_params(g, function);
        let ghost paddrs = addrs_of(allp@);
        let n = allp.len();
        let mut i: usize = 0;
        while i < n
            invariant
                i <= n,
                n == allp@.len(),
                g.wf(),
                paddrs == addrs_of(allp@),
                paddrs == UFunction::spec_iter_all_params(*g, function.spec_addr() as int),
                spec_first_ret_from(*g, paddrs, 0) == spec_first_ret_from(*g, paddrs, i as int),
            decreases n - i,
        {
            let q = allp[i];
            proof {
                assert(paddrs[i as int] == allp@[i as int].spec_addr() as int);
            }
            let is_ret = match g.get::<UProperty>(q) {
                Some(p) => p.PropertyFlags & PROPERTY_FLAG_RETURN_PARM
                    == PROPERTY_FLAG_RETURN_PARM,
                None => false,
            };
            if is_ret {
                proof {
                    assert(spec_is_ret(*g, paddrs[i as int]));
                    assert(spec_first_ret_from(*g, paddrs, i as int) == Some(paddrs[i as int]));
                }
                return Some(q);
            }
            i = i + 1;
        }
        None
    }
}

} // verus!
