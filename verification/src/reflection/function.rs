//! The owned description of a runtime function: its parameters sorted by
//! byte offset, and its return value split out.
use vstd::prelude::*;

use crate::gtables::GlobalTables;
use crate::records::{UFunction, UProperty, PROPERTY_FLAG_PARM, PROPERTY_FLAG_RETURN_PARM};
use crate::records::UObject;
use crate::reflection::property::{spec_rp_buildable, spec_rp_matches_addr, ReflectionProperty};
use crate::ueptr;
use crate::ufield::addrs_of;

verus! {

/// The owned description of one function parameter.
pub struct ReflectionParam {
    pub prop: ReflectionProperty,
}

/// The owned description of a function's return value.
pub struct ReflectionRetVal {
    pub param: ReflectionParam,
}

/// Whether the property at `x` resolves and carries the parameter flag.
pub open spec fn spec_param_flagged(g: GlobalTables, x: int) -> bool {
    match g.spec_get::<UProperty>(x) {
        Some(p) => p.PropertyFlags & PROPERTY_FLAG_PARM == PROPERTY_FLAG_PARM,
        None => false,
    }
}

/// Whether the property at `x` resolves and carries the return-value flag.
pub open spec fn spec_ret_flagged(g: GlobalTables, x: int) -> bool {
    match g.spec_get::<UProperty>(x) {
        Some(p) => p.PropertyFlags & PROPERTY_FLAG_RETURN_PARM == PROPERTY_FLAG_RETURN_PARM,
        None => false,
    }
}

/// Whether a parameter description is kept for the property at `x`: it can
/// be described and is flagged as a parameter.
pub open spec fn spec_param_keeps(g: GlobalTables, x: int) -> bool {
    spec_rp_buildable(g, x) && spec_param_flagged(g, x)
}

impl ReflectionParam {
    /// Describes one parameter: `None` where the property cannot be
    /// described or is not flagged as a parameter.
    pub fn new(g: &GlobalTables, param: ueptr<UProperty>) -> (r: Option<ReflectionParam>)
        requires
            g.wf(),
        ensures
            (match r {
                Some(pr) => spec_param_keeps(*g, param.spec_addr() as int) && pr.prop.property
                    == param && spec_rp_matches_addr(*g, param.spec_addr() as int, pr.prop),
                None => !spec_param_keeps(*g, param.spec_addr() as int),
            }),
    {
        let prop = match ReflectionProperty::new(g, param) {
            Some(rp) => rp,
            None => {
                return None;
            },
        };
        let flagged = match g.get::<UProperty>(param) {
            Some(p) => p.PropertyFlags & PROPERTY_FLAG_PARM == PROPERTY_FLAG_PARM,
            None => false,
        };
        if flagged {
            Some(ReflectionParam { prop })
        } else {
            None
        }
    }
}

impl ReflectionRetVal {
    /// Describes the return value: `None` where the property cannot be
    /// described, or is not flagged as both a parameter and the return
    /// value.
    pub fn new(g: &GlobalTables, param: ueptr<UProperty>) -> (r: Option<ReflectionRetVal>)
        requires
            g.wf(),
        ensures
            (match r {
                Some(rv) => spec_param_keeps(*g, param.spec_addr() as int) && spec_ret_flagged(
                    *g,
                    param.spec_addr() as int,
                ) && rv.param.prop.property == param && spec_rp_matches_addr(
                    *g,
                    param.spec_addr() as int,
                    rv.param.prop,
                ),
                None => !(spec_param_keeps(*g, param.spec_addr() as int) && spec_ret_flagged(
                    *g,
                    param.spec_addr() as int,
                )),
            }),
    {
        let pr = match ReflectionParam::new(g, param) {
            Some(pr) => pr,
            None => {
                return None;
            },
        };
        let flagged = match g.get::<UProperty>(param) {
            Some(p) => p.PropertyFlags & PROPERTY_FLAG_RETURN_PARM == PROPERTY_FLAG_RETURN_PARM,
            None => false,
        };
        if flagged {
            Some(ReflectionRetVal { param: pr })
        } else {
            None
        }
    }
}

/// Whether `prs` describes, in order, exactly those properties of `addrs`
/// that keep a parameter description.
pub open spec fn spec_params_gathered(
    g: GlobalTables,
    addrs: Seq<int>,
    prs: Seq<ReflectionParam>,
) -> bool
    decreases addrs.len(),
{
    if addrs.len() == 0 {
        prs.len() == 0
    } else if spec_param_keeps(g, addrs.last()) {
        &&& prs.len() > 0
        &&& spec_rp_matches_addr(g, addrs.last(), prs.last().prop)
        &&& spec_params_gathered(g, addrs.drop_last(), prs.drop_last())
    } else {
        spec_params_gathered(g, addrs.drop_last(), prs)
    }
}

/// Inserts `x` into an offset-sorted parameter run, after every entry whose
/// offset is no greater.
pub open spec fn spec_insert_param(s: Seq<ReflectionParam>, x: ReflectionParam) -> Seq<
    ReflectionParam,
>
    decreases s.len(),
{
    if s.len() == 0 {
        seq![x]
    } else if x.prop.offset < s.last().prop.offset {
        spec_insert_param(s.drop_last(), x).push(s.last())
    } else {
        s.push(x)
    }
}

/// The stable sort of a parameter list by byte offset.
pub open spec fn spec_sort_params(s: Seq<ReflectionParam>) -> Seq<ReflectionParam>
    decreases s.len(),
{
    if s.len() == 0 {
        Seq::<ReflectionParam>::empty()
    } else {
        spec_insert_param(spec_sort_params(s.drop_last()), s.last())
    }
}

fn insert_param(v: Vec<ReflectionParam>, x: ReflectionParam) -> (r: Vec<ReflectionParam>)
    ensures
        r@ == spec_insert_param(v@, x),
    decreases v@.len(),
{
    let ghost origv = v@;
    let mut v = v;
    if v.len() == 0 {
        v.push(x);
        proof {
            assert(v@ =~= seq![x]);
        }
        return v;
    }
    let last = v.pop().unwrap();
    if x.prop.offset < last.prop.offset {
        let mut r = insert_param(v, x);
        r.push(last);
        r
    } else {
        v.push(last);
        v.push(x);
        proof {
            assert(v@ =~= origv.push(x));
        }
        v
    }
}

fn sort_params(v: Vec<ReflectionParam>) -> (r: Vec<ReflectionParam>)
    ensures
        r@ == spec_sort_params(v@),
{
    let ghost orig = v@;
    let mut rest = v;
    let mut out: Vec<ReflectionParam> = Vec::new();
    let ghost mut k = 0int;
    while rest.len() > 0
        invariant
            0 <= k <= orig.len(),
            rest@ == orig.subrange(k, orig.len() as int),
            out@ == spec_sort_params(orig.subrange(0, k)),
        decreases rest@.len(),
    {
        let x = rest.remove(0);
        proof {
            assert(x == orig[k]);
        }
        out = insert_param(out, x);
        proof {
            assert(orig.subrange(0, k + 1).drop_last() =~= orig.subrange(0, k));
            assert(orig.subrange(0, k + 1).last() == orig[k]);
            assert(rest@ =~= orig.subrange(k + 1, orig.len() as int));
        }
        proof {
            k = k + 1;
        }
    }
    proof {
        assert(orig.subrange(0, orig.len() as int) =~= orig);
    }
    out
}

/// The owned description of a runtime function.
pub struct ReflectionFunction {
    pub function: ueptr<UFunction>,
    pub name: String,
    pub params: Vec<ReflectionParam>,
    pub ret: Option<ReflectionRetVal>,
}

/// Whether `rf` describes the function at address `a` exactly: its own
/// name, its parameters — those that keep a description — sorted by byte
/// offset, and its return value split out where it keeps a description.
pub open spec fn spec_reflection_function_matches(
    g: GlobalTables,
    a: int,
    rf: ReflectionFunction,
) -> bool {
    &&& rf.function.spec_addr() as int == a
    &&& UObject::spec_get_name(g, a) == Some(rf.name@)
    &&& exists|prs: Seq<ReflectionParam>|
        #[trigger] spec_params_gathered(g, UFunction::spec_iter_params(g, a), prs) && rf.params@
            == spec_sort_params(prs)
    &&& (match UFunction::spec_ret_val(g, a) {
        None => rf.ret is None,
        Some(x) => {
            if spec_param_keeps(g, x) && spec_ret_flagged(g, x) {
                rf.ret matches Some(rv) && rv.param.prop.property.spec_addr() as int == x
                    && spec_rp_matches_addr(g, x, rv.param.prop)
            } else {
                rf.ret is None
            }
        },
    })
}

impl ReflectionFunction {
    /// Describes the function at `p`: `None` exactly when the function's
    /// own name does not resolve in the snapshot.
    pub fn new(g: &GlobalTables, function: ueptr<UFunction>) -> (r: Option<ReflectionFunction>)
        requires
            g.wf(),
        ensures
            (match r {
                Some(rf) => spec_reflection_function_matches(*g, function.spec_addr() as int, rf),
                None => UObject::spec_get_name(*g, function.spec_addr() as int) is None,
            }),
    {
        let name = match UObject::GetName(g, function.ptr_cast()) {
            Some(n) => n,
            None => {
                return None;
            },
        };
        let pvec = UFunction::iter_params(g, function);
        let ghost paddrs = addrs_of(pvec@);
        let mut gathered: Vec<ReflectionParam> = Vec::new();
        let n = pvec.len();
        let mut i: usize = 0;
        while i < n
            invariant
                i <= n,
                n == pvec@.len(),
                g.wf(),
                paddrs == addrs_of(pvec@),
                spec_params_gathered(*g, paddrs.subrange(0, i as int), gathered@),
            decreases n - i,
        {
            let q = pvec[i];
            proof {
                assert(paddrs[i as int] == pvec@[i as int].spec_addr() as int);
            }
            let ghost pre = paddrs.subrange(0, i as int);
            let ghost cur = paddrs.subrange(0, i + 1);
            proof {
                assert(cur.drop_last() =~= pre);
                assert(cur.last() == paddrs[i as int]);
            }
            match ReflectionParam::new(g, q) {
                Some(pr) => {
                    let ghost gpre = gathered@;
                    gathered.push(pr);
                    proof {
                        assert(gathered@.drop_last() =~= gpre);
                        assert(gathered@.last() == pr);
                        assert(spec_params_gathered(*g, cur, gathered@));
                    }
                },
                None => {
                    proof {
                        assert(spec_params_gathered(*g, cur, gathered@));
                    }
                },
            }
            i = i + 1;
        }
        proof {
            assert(paddrs.subrange(0, n as int) =~= paddrs);
        }
        let ghost prs = gathered@;
        let params = sort_params(gathered);
        let ret = match UFunction::ret_val(g, function) {
            None => None,
            Some(q) => ReflectionRetVal::new(g, q),
        };
        let rf = ReflectionFunction { function, name, params, ret };
        proof {
            assert(spec_params_gathered(
                *g,
                UFunction::spec_iter_params(*g, function.spec_addr() as int),
                prs,
            ) && rf.params@ == spec_sort_params(prs));
        }
        Some(rf)
    }
}

} // verus!
