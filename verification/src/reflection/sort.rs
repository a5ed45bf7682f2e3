//! Stable insertion sorts for the reflection lists: properties order by byte
//! offset, nested structs by name; entries with equal keys keep their
//! original relative order.
use vstd::prelude::*;

use crate::reflection::property::ReflectionProperty;
use crate::reflection::strct::ReflectionStruct;

verus! {

/// Inserts `x` into an offset-sorted run, after every entry whose offset is
/// no greater: the placement that keeps equal offsets in arrival order.
pub open spec fn spec_insert_prop(s: Seq<ReflectionProperty>, x: ReflectionProperty) -> Seq<
    ReflectionProperty,
>
    decreases s.len(),
{
    if s.len() == 0 {
        seq![x]
    } else if x.offset < s.last().offset {
        spec_insert_prop(s.drop_last(), x).push(s.last())
    } else {
        s.push(x)
    }
}

/// The stable sort of a property list by byte offset: each entry, in order,
/// inserted after its equals.
pub open spec fn spec_sort_props(s: Seq<ReflectionProperty>) -> Seq<ReflectionProperty>
    decreases s.len(),
{
    if s.len() == 0 {
        Seq::<ReflectionProperty>::empty()
    } else {
        spec_insert_prop(spec_sort_props(s.drop_last()), s.last())
    }
}

fn insert_prop(v: Vec<ReflectionProperty>, x: ReflectionProperty) -> (r: Vec<ReflectionProperty>)
    ensures
        r@ == spec_insert_prop(v@, x),
    decreases v@.len(),
{
    let ghost origv = v@;
    let mut v = v;
    if v.len() == 0 {
        v.push(x);
        proof {
            assert(v@ =~= seq![x]);
        }
        return v;
    }
    let last = v.pop().unwrap();
    if x.offset < last.offset {
        let mut r = insert_prop(v, x);
        r.push(last);
        r
    } else {
        v.push(last);
        v.push(x);
        proof {
            assert(v@ =~= origv.push(x));
        }
        v
    }
}

/// Sorts a property list by byte offset, stably.
pub fn sort_props(v: Vec<ReflectionProperty>) -> (r: Vec<ReflectionProperty>)
    ensures
        r@ == spec_sort_props(v@),
{
    let ghost orig = v@;
    let mut rest = v;
    let mut out: Vec<ReflectionProperty> = Vec::new();
    let ghost mut k = 0int;
    while rest.len() > 0
        invariant
            0 <= k <= orig.len(),
            rest@ == orig.subrange(k, orig.len() as int),
            out@ == spec_sort_props(orig.subrange(0, k)),
        decreases rest@.len(),
    {
        let x = rest.remove(0);
        proof {
            assert(x == orig[k]);
        }
        out = insert_prop(out, x);
        proof {
            assert(orig.subrange(0, k + 1).drop_last() =~= orig.subrange(0, k));
            assert(orig.subrange(0, k + 1).last() == orig[k]);
            assert(rest@ =~= orig.subrange(k + 1, orig.len() as int));
        }
        proof {
            k = k + 1;
        }
    }
    proof {
        assert(orig.subrange(0, orig.len() as int) =~= orig);
    }
    out
}

/// Offsets never decrease along the list.
pub open spec fn props_sorted(s: Seq<ReflectionProperty>) -> bool {
    forall|i: int, j: int| 0 <= i < j < s.len() ==> s[i].offset <= s[j].offset
}

/// Every offset of `s`, and `x`'s, stays within a common bound after an
/// insertion.
proof fn lemma_insert_prop_bound(s: Seq<ReflectionProperty>, x: ReflectionProperty, b: int)
    requires
        forall|i: int| 0 <= i < s.len() ==> s[i].offset <= b,
        x.offset <= b,
    ensures
        forall|i: int|
            0 <= i < spec_insert_prop(s, x).len() ==> spec_insert_prop(s, x)[i].offset <= b,
    decreases s.len(),
{
    if s.len() != 0 && x.offset < s.last().offset {
        assert(forall|i: int| 0 <= i < s.drop_last().len() ==> s.drop_last()[i].offset <= b);
        lemma_insert_prop_bound(s.drop_last(), x, b);
    }
}

/// Inserting into a sorted run keeps it sorted.
pub proof fn lemma_insert_prop_sorted(s: Seq<ReflectionProperty>, x: ReflectionProperty)
    requires
        props_sorted(s),
    ensures
        props_sorted(spec_insert_prop(s, x)),
    decreases s.len(),
{
    if s.len() != 0 {
        if x.offset < s.last().offset {
            assert(props_sorted(s.drop_last()));
            lemma_insert_prop_sorted(s.drop_last(), x);
            assert(forall|i: int|
                0 <= i < s.drop_last().len() ==> s.drop_last()[i].offset <= s.last().offset as int);
            lemma_insert_prop_bound(s.drop_last(), x, s.last().offset as int);
        }
    }
}

/// The sorted property list is ordered by offset, ascending.
pub proof fn lemma_sort_props_sorted(s: Seq<ReflectionProperty>)
    ensures
        props_sorted(spec_sort_props(s)),
    decreases s.len(),
{
    if s.len() != 0 {
        lemma_sort_props_sorted(s.drop_last());
        lemma_insert_prop_sorted(spec_sort_props(s.drop_last()), s.last());
    }
}

/// The entries of `s` holding offset `k`, in order.
pub open spec fn props_with_offset(s: Seq<ReflectionProperty>, k: int) -> Seq<ReflectionProperty>
    decreases s.len(),
{
    if s.len() == 0 {
        Seq::<ReflectionProperty>::empty()
    } else {
        props_with_offset(s.drop_last(), k) + (if s.last().offset == k {
            seq![s.last()]
        } else {
            Seq::<ReflectionProperty>::empty()
        })
    }
}

/// An insertion appends `x` to its own offset class and leaves every other
/// offset class unchanged.
pub proof fn lemma_insert_prop_stable(s: Seq<ReflectionProperty>, x: ReflectionProperty, k: int)
    ensures
        props_with_offset(spec_insert_prop(s, x), k) == props_with_offset(s, k) + (if x.offset == k {
            seq![x]
        } else {
            Seq::<ReflectionProperty>::empty()
        }),
    decreases s.len(),
{
    let tail: Seq<ReflectionProperty> = if x.offset == k {
        seq![x]
    } else {
        Seq::<ReflectionProperty>::empty()
    };
    if s.len() == 0 {
        assert(spec_insert_prop(s, x) =~= seq![x]);
        assert(seq![x].drop_last() =~= Seq::<ReflectionProperty>::empty());
        assert(props_with_offset(Seq::<ReflectionProperty>::empty(), k)
            =~= Seq::<ReflectionProperty>::empty());
        assert(seq![x].last() == x);
        assert(props_with_offset(spec_insert_prop(s, x), k) =~= props_with_offset(s, k) + tail);
    } else if x.offset < s.last().offset {
        lemma_insert_prop_stable(s.drop_last(), x, k);
        let r = spec_insert_prop(s.drop_last(), x).push(s.last());
        assert(r.drop_last() =~= spec_insert_prop(s.drop_last(), x));
        assert(r.last() == s.last());
        if s.last().offset == k {
            // Then x's offset is below k, so x's class is untouched.
            assert(props_with_offset(r, k) =~= props_with_offset(s, k) + tail);
        } else {
            assert(props_with_offset(r, k) =~= props_with_offset(s, k) + tail);
        }
    } else {
        let r = s.push(x);
        assert(r.drop_last() =~= s);
        assert(r.last() == x);
        assert(props_with_offset(r, k) =~= props_with_offset(s, k) + tail);
    }
}

/// The stable sort keeps each offset class in its original order: entries
/// with equal offsets come out in the order they went in.
pub proof fn lemma_sort_props_stable(s: Seq<ReflectionProperty>, k: int)
    ensures
        props_with_offset(spec_sort_props(s), k) == props_with_offset(s, k),
    decreases s.len(),
{
    if s.len() != 0 {
        lemma_sort_props_stable(s.drop_last(), k);
        lemma_insert_prop_stable(spec_sort_props(s.drop_last()), s.last(), k);
        if s.last().offset == k {
            assert(props_with_offset(s, k) =~= props_with_offset(s.drop_last(), k)
                + seq![s.last()]);
        } else {
            assert(props_with_offset(s, k) =~= props_with_offset(s.drop_last(), k));
        }
    }
}

/// Strict lexicographic order on text, from position `i` on: the first
/// differing character decides; a proper prefix orders first.
pub open spec fn lex_lt_from(a: Seq<char>, b: Seq<char>, i: int) -> bool
    decreases a.len() - i,
    when 0 <= i
{
    if i >= a.len() {
        i < b.len()
    } else if i >= b.len() {
        false
    } else if a[i] != b[i] {
        (a[i] as u32) < (b[i] as u32)
    } else {
        lex_lt_from(a, b, i + 1)
    }
}

/// Strict lexicographic order on text.
pub open spec fn lex_lt(a: Seq<char>, b: Seq<char>) -> bool {
    lex_lt_from(a, b, 0)
}

/// Compares two texts lexicographically.
pub fn str_lex_lt(a: &str, b: &str) -> (r: bool)
    ensures
        r == lex_lt(a@, b@),
{
    let na = a.unicode_len();
    let nb = b.unicode_len();
    let mut i: usize = 0;
    while i < na && i < nb
        invariant
            i <= na,
            i <= nb,
            na == a@.len(),
            nb == b@.len(),
            lex_lt_from(a@, b@, 0) == lex_lt_from(a@, b@, i as int),
        decreases na - i,
    {
        let ca = a.get_char(i);
        let cb = b.get_char(i);
        if ca != cb {
            return (ca as u32) < (cb as u32);
        }
        i = i + 1;
    }
    na < nb
}

/// Inserts `x` into a name-sorted run, after every entry whose name does not
/// order after `x`'s.
pub open spec fn spec_insert_struct(s: Seq<ReflectionStruct>, x: ReflectionStruct) -> Seq<
    ReflectionStruct,
>
    decreases s.len(),
{
    if s.len() == 0 {
        seq![x]
    } else if lex_lt(x.name@, s.last().name@) {
        spec_insert_struct(s.drop_last(), x).push(s.last())
    } else {
        s.push(x)
    }
}

/// The stable sort of a nested-struct list by name.
pub open spec fn spec_sort_structs(s: Seq<ReflectionStruct>) -> Seq<ReflectionStruct>
    decreases s.len(),
{
    if s.len() == 0 {
        Seq::<ReflectionStruct>::empty()
    } else {
        spec_insert_struct(spec_sort_structs(s.drop_last()), s.last())
    }
}

fn insert_struct(v: Vec<ReflectionStruct>, x: ReflectionStruct) -> (r: Vec<ReflectionStruct>)
    ensures
        r@ == spec_insert_struct(v@, x),
    decreases v@.len(),
{
    let ghost origv = v@;
    let mut v = v;
    if v.len() == 0 {
        v.push(x);
        proof {
            assert(v@ =~= seq![x]);
        }
        return v;
    }
    let last = v.pop().unwrap();
    if str_lex_lt(x.name.as_str(), last.name.as_str()) {
        let mut r = insert_struct(v, x);
        r.push(last);
        r
    } else {
        v.push(last);
        v.push(x);
        proof {
            assert(v@ =~= origv.push(x));
        }
        v
    }
}

/// Sorts a nested-struct list by name, stably.
pub fn sort_structs(v: Vec<ReflectionStruct>) -> (r: Vec<ReflectionStruct>)
    ensures
        r@ == spec_sort_structs(v@),
{
    let ghost orig = v@;
    let mut rest = v;
    let mut out: Vec<ReflectionStruct> = Vec::new();
    let ghost mut k = 0int;
    while rest.len() > 0
        invariant
            0 <= k <= orig.len(),
            rest@ == orig.subrange(k, orig.len() as int),
            out@ == spec_sort_structs(orig.subrange(0, k)),
        decreases rest@.len(),
    {
        let x = rest.remove(0);
        proof {
            assert(x == orig[k]);
        }
        out = insert_struct(out, x);
        proof {
            assert(orig.subrange(0, k + 1).drop_last() =~= orig.subrange(0, k));
            assert(orig.subrange(0, k + 1).last() == orig[k]);
            assert(rest@ =~= orig.subrange(k + 1, orig.len() as int));
        }
        proof {
            k = k + 1;
        }
    }
    proof {
        assert(orig.subrange(0, orig.len() as int) =~= orig);
    }
    out
}

} // verus!
