//! Selecting the scannable spans from the OS page enumeration: adjacent
//! pages of one allocation are deduplicated, and only committed, privately
//! owned, read-write, guard-free spans above the minimum size remain. The
//! enumeration itself is an operating-system query; this logic decides, from
//! the reported descriptors alone, which spans a scan pass may read.
use vstd::prelude::*;

verus! {

/// The page protection of an ordinary writable span.
pub const PAGE_READWRITE: u32 = 0x04;

/// The page protection flag of an inaccessible span.
pub const PAGE_NOACCESS: u32 = 0x01;

/// The page protection flag of a guard span.
pub const PAGE_GUARD: u32 = 0x100;

/// The state of a committed span.
pub const MEM_COMMIT: u32 = 0x1000;

/// The type of a privately owned span.
pub const MEM_PRIVATE: u32 = 0x20000;

/// The smallest span worth scanning, in bytes.
pub const MIN_REGION_SIZE: u64 = 4096;

/// One span descriptor as the OS page enumeration reports it.
#[derive(Clone, Copy, PartialEq, Eq, Structural, Debug)]
pub struct RegionInfo {
    pub allocation_base: u64,
    pub base_address: u64,
    pub allocation_protect: u32,
    pub region_size: u64,
    pub state: u32,
    pub protect: u32,
    pub mem_type: u32,
}

/// Whether two adjacent descriptors belong to one allocation: the same
/// allocation base under the same allocation protection.
pub open spec fn spec_same_allocation(a: RegionInfo, b: RegionInfo) -> bool {
    a.allocation_base == b.allocation_base && a.allocation_protect == b.allocation_protect
}

/// Whether a span may be scanned: it heads its allocation, is committed,
/// privately owned, read-write, larger than the minimum, and free of guard
/// or no-access protection.
pub open spec fn spec_eligible(info: RegionInfo) -> bool {
    &&& info.allocation_base == info.base_address
    &&& info.allocation_protect == PAGE_READWRITE
    &&& info.state == MEM_COMMIT
    &&& info.mem_type == MEM_PRIVATE
    &&& info.region_size > MIN_REGION_SIZE
    &&& info.protect & PAGE_GUARD == 0
    &&& info.protect & PAGE_NOACCESS == 0
}

/// The descriptors with runs of one allocation collapsed to their first
/// entry. The run relation compares each entry with its predecessor; it is
/// an equivalence, so runs are well defined.
pub open spec fn spec_dedup(s: Seq<RegionInfo>) -> Seq<RegionInfo>
    decreases s.len(),
{
    if s.len() <= 1 {
        s
    } else if spec_same_allocation(s[s.len() - 2], s.last()) {
        spec_dedup(s.drop_last())
    } else {
        spec_dedup(s.drop_last()).push(s.last())
    }
}

/// The descriptors that pass the eligibility test, in order.
pub open spec fn spec_eligible_of(s: Seq<RegionInfo>) -> Seq<RegionInfo>
    decreases s.len(),
{
    if s.len() == 0 {
        Seq::<RegionInfo>::empty()
    } else {
        spec_eligible_of(s.drop_last()) + (if spec_eligible(s.last()) {
            seq![s.last()]
        } else {
            Seq::<RegionInfo>::empty()
        })
    }
}

/// The spans one scan pass may read, from the descriptors the OS page
/// enumeration reported, in order: one entry per allocation run, and only
/// the eligible ones.
pub fn eligible_regions(infos: &Vec<RegionInfo>) -> (r: Vec<RegionInfo>)
    ensures
        r@ == spec_eligible_of(spec_dedup(infos@)),
{
    let n = infos.len();
    let mut deduped: Vec<RegionInfo> = Vec::new();
    let mut i: usize = 0;
    while i < n
        invariant
            i <= n,
            n == infos@.len(),
            deduped@ == spec_dedup(infos@.subrange(0, i as int)),
        decreases n - i,
    {
        let keep = if i == 0 {
            true
        } else {
            let a = infos[i - 1];
            let b = infos[i];
            !(a.allocation_base == b.allocation_base && a.allocation_protect
                == b.allocation_protect)
        };
        if keep {
            deduped.push(infos[i]);
        }
        proof {
            let pre = infos@.subrange(0, i as int);
            let cur = infos@.subrange(0, i + 1);
            assert(cur.drop_last() =~= pre);
            assert(cur.last() == infos@[i as int]);
            if i > 0 {
                assert(cur[cur.len() - 2] == infos@[i as int - 1]);
            } else {
                assert(cur.len() == 1);
            }
            assert(deduped@ =~= spec_dedup(cur));
        }
        i = i + 1;
    }
    proof {
        assert(infos@.subrange(0, n as int) =~= infos@);
    }
    let ghost dd = deduped@;
    let m = deduped.len();
    let mut out: Vec<RegionInfo> = Vec::new();
    let mut j: usize = 0;
    while j < m
        invariant
            j <= m,
            m == deduped@.len(),
            deduped@ == dd,
            out@ == spec_eligible_of(dd.subrange(0, j as int)),
        decreases m - j,
    {
        let info = deduped[j];
        let keep = info.allocation_base == info.base_address && info.allocation_protect
            == PAGE_READWRITE && info.state == MEM_COMMIT && info.mem_type == MEM_PRIVATE
            && info.region_size > MIN_REGION_SIZE && info.protect & PAGE_GUARD == 0
            && info.protect & PAGE_NOACCESS == 0;
        if keep {
            out.push(info);
        }
        proof {
            let pre = dd.subrange(0, j as int);
            let cur = dd.subrange(0, j + 1);
            assert(cur.drop_last() =~= pre);
            assert(cur.last() == dd[j as int]);
            assert(out@ =~= spec_eligible_of(cur));
        }
        j = j + 1;
    }
    proof {
        assert(dd.subrange(0, m as int) =~= dd);
    }
    out
}

} // verus!
