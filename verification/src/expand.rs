//! Planning a lossless enlargement of the system drive C:.
//!
//! The plan is computed from the partition table: C: can grow into the
//! unallocated space right after it without moving anything, and further by
//! the space that the partition right after it can give up (which means moving
//! that partition's data).
use vstd::prelude::*;
use crate::disk::{DiskPartitionInfo, PhysicalDisk};
use crate::text::{dec, push_dec, push_str, str_to_string};

verus! {

pub const MIB: u64 = 1024 * 1024;

/// Result of analysing the disks for an enlargement of C:.
#[derive(Debug, Clone)]
pub struct ExpandCLoadResult {
    /// C: was found.
    pub found: bool,
    pub current_size_mb: u64,
    pub used_mb: u64,
    pub free_mb: u64,
    /// Largest final size of C: (MB).
    pub max_size_mb: u64,
    /// Largest final size reachable without moving another partition (MB).
    pub no_move_max_mb: u64,
    pub can_expand: bool,
    /// Why C: cannot grow, or a note on how it can.
    pub reason: String,
}

impl Default for ExpandCLoadResult {
    fn default() -> (r: Self)
        ensures
            !r.found && r.current_size_mb == 0 && r.used_mb == 0 && r.free_mb == 0
                && r.max_size_mb == 0 && r.no_move_max_mb == 0 && !r.can_expand && r.reason@
                == Seq::<char>::empty(),
    {
        ExpandCLoadResult {
            found: false,
            current_size_mb: 0,
            used_mb: 0,
            free_mb: 0,
            max_size_mb: 0,
            no_move_max_mb: 0,
            can_expand: false,
            reason: String::new(),
        }
    }
}

/// State of the enlarge-C: dialog.
#[derive(Debug, Clone)]
pub struct ExpandCDialogState {
    pub loading: bool,
    pub executing: bool,
    pub message: String,
    pub current_size_mb: u64,
    pub used_mb: u64,
    pub free_mb: u64,
    pub max_size_mb: u64,
    pub no_move_max_mb: u64,
    pub can_expand: bool,
    pub reason: String,
    pub target_size_text: String,
    pub target_size_mb: u64,
    pub show_confirm_dialog: bool,
}

/// The dialog as it is before anything was loaded: nothing runs, nothing is
/// known, nothing is chosen.
pub open spec fn expand_state_fresh(r: ExpandCDialogState) -> bool {
    !r.loading && !r.executing && r.message@ == Seq::<char>::empty() && r.current_size_mb
        == 0 && r.used_mb == 0 && r.free_mb == 0 && r.max_size_mb == 0 && r.no_move_max_mb
        == 0 && !r.can_expand && r.reason@ == Seq::<char>::empty() && r.target_size_text@
        == Seq::<char>::empty() && r.target_size_mb == 0 && !r.show_confirm_dialog
}

impl Default for ExpandCDialogState {
    fn default() -> (r: Self)
        ensures
            !r.loading && !r.executing && r.message@ == Seq::<char>::empty() && r.current_size_mb
                == 0 && r.used_mb == 0 && r.free_mb == 0 && r.max_size_mb == 0 && r.no_move_max_mb
                == 0 && !r.can_expand && r.reason@ == Seq::<char>::empty() && r.target_size_text@
                == Seq::<char>::empty() && r.target_size_mb == 0 && !r.show_confirm_dialog,
    {
        ExpandCDialogState {
            loading: false,
            executing: false,
            message: String::new(),
            current_size_mb: 0,
            used_mb: 0,
            free_mb: 0,
            max_size_mb: 0,
            no_move_max_mb: 0,
            can_expand: false,
            reason: String::new(),
            target_size_text: String::new(),
            target_size_mb: 0,
            show_confirm_dialog: false,
        }
    }
}

impl ExpandCDialogState {
    /// Smallest final size allowed: the current size (the operation never shrinks),
    /// and at least the used space plus 1 GB of headroom.
    pub fn min_target_mb(&self) -> (r: u64)
        requires
            self.used_mb + 1024 <= u64::MAX,
        ensures
            r == if self.current_size_mb >= self.used_mb + 1024 {
                self.current_size_mb as int
            } else {
                self.used_mb + 1024
            },
    {
        let safe_floor = self.used_mb + 1024;
        if self.current_size_mb >= safe_floor {
            self.current_size_mb
        } else {
            safe_floor
        }
    }
}

// ---------------------------------------------------------------------------
// Sizes in GB with one decimal
// ---------------------------------------------------------------------------

/// `mb / 1024` in tenths, rounded to nearest with ties to even.
pub open spec fn tenths_rounded(mb: nat) -> nat {
    let x = mb * 10;
    let q = x / 1024;
    let r = x % 1024;
    if r > 512 || (r == 512 && q % 2 == 1) {
        q + 1
    } else {
        q
    }
}

/// A number of tenths written with one decimal.
pub open spec fn one_decimal(t: nat) -> Seq<char> {
    dec(t / 10) + "."@ + dec(t % 10)
}

/// `mb` megabytes in gigabytes with one decimal, as `{:.1}` writes `mb as f64 / 1024.0`
/// (exactly so for sizes below 2^53 MB, which `f64` holds without rounding).
pub open spec fn gb_text(mb: nat) -> Seq<char> {
    one_decimal(tenths_rounded(mb))
}

/// Writes a size in megabytes as gigabytes with one decimal.
pub fn format_gb_one_decimal(mb: u64) -> (r: String)
    ensures
        r@ == gb_text(mb as nat),
{
    let x: u128 = (mb as u128) * 10;
    let q: u128 = x / 1024;
    let rem: u128 = x % 1024;
    let t: u128 = if rem > 512 || (rem == 512 && q % 2 == 1) {
        q + 1
    } else {
        q
    };
    assert(t <= u64::MAX as u128 * 10 / 1024 + 1);
    let whole = (t / 10) as u64;
    let frac = (t % 10) as u64;
    let mut s = String::new();
    push_dec(&mut s, whole);
    push_str(&mut s, ".");
    push_dec(&mut s, frac);
    assert(s@ =~= one_decimal(t as nat));
    s
}

// ---------------------------------------------------------------------------
// The plan
// ---------------------------------------------------------------------------

/// Position of the first partition lettered C: from position `p` on.
pub open spec fn c_index(parts: Seq<DiskPartitionInfo>, p: int) -> Option<int>
    decreases parts.len() - p,
{
    if p < 0 || p >= parts.len() {
        None
    } else if parts[p].drive_letter == Some('C') {
        Some(p)
    } else {
        c_index(parts, p + 1)
    }
}

/// Position (disk, partition) of the first partition lettered C:, from disk `d` on.
pub open spec fn c_position_from(disks: Seq<PhysicalDisk>, d: int) -> Option<(int, int)>
    decreases disks.len() - d,
{
    if d < 0 || d >= disks.len() {
        None
    } else {
        match c_index(disks[d].partitions@, 0) {
            Some(p) => Some((d, p)),
            None => c_position_from(disks, d + 1),
        }
    }
}

/// Position (disk, partition) of the first partition lettered C:, disks in order.
pub open spec fn c_position(disks: Seq<PhysicalDisk>) -> Option<(int, int)> {
    c_position_from(disks, 0)
}

/// Among the first `k` partitions, the one at or after `c_end` with the smallest
/// offset (the earliest of equals): the partition right after C:.
pub open spec fn next_after(parts: Seq<DiskPartitionInfo>, c_end: nat, k: int) -> Option<int>
    decreases k,
{
    if k <= 0 {
        None
    } else {
        let prev = next_after(parts, c_end, k - 1);
        let p = parts[k - 1];
        if p.offset_bytes >= c_end && (prev is None || p.offset_bytes < parts[prev->0].offset_bytes) {
            Some(k - 1)
        } else {
            prev
        }
    }
}

/// Whether the partition after C: can be moved: it starts less than 2 MB after C:
/// ends and is not an EFI system, MSR or recovery partition.
pub open spec fn movable(next: DiskPartitionInfo, c_end: nat) -> bool {
    next.offset_bytes - c_end < 2 * 1024 * 1024 && !next.is_esp && !next.is_msr
        && !next.is_recovery
}

/// The drive letter whose shrinkable space has to be asked for, if any.
pub open spec fn shrink_candidate_spec(disks: Seq<PhysicalDisk>) -> Option<char> {
    match c_position(disks) {
        None => None,
        Some((d, p)) => {
            let parts = disks[d].partitions@;
            let c = parts[p];
            let c_end = c.offset_bytes + c.size_bytes;
            match next_after(parts, c_end as nat, parts.len() as int) {
                Some(n) => if movable(parts[n], c_end as nat) {
                    parts[n].drive_letter
                } else {
                    None
                },
                None => None,
            }
        },
    }
}

/// The partition whose space is asked for is the one right after C: on C:'s disk
/// (the nearest one starting at or after C:'s end): it is the candidate, by its
/// letter, exactly when it starts less than 2 MiB after C: ends, is no EFI system,
/// MSR or recovery partition and has a letter; a partition starting 2 MiB or more
/// after C: is never the candidate.
pub proof fn lemma_shrink_candidate(disks: Seq<PhysicalDisk>)
    ensures
        match c_position(disks) {
            None => shrink_candidate_spec(disks) is None,
            Some((d, p)) => {
                let parts = disks[d].partitions@;
                let c_end = (parts[p].offset_bytes + parts[p].size_bytes) as nat;
                match next_after(parts, c_end, parts.len() as int) {
                    None => shrink_candidate_spec(disks) is None,
                    Some(n) => {
                        let nx = parts[n];
                        &&& 0 <= n < parts.len()
                        &&& nx.offset_bytes >= c_end
                        &&& forall|k: int| 0 <= k < parts.len() && parts[k].offset_bytes >= c_end
                            ==> nx.offset_bytes <= #[trigger] parts[k].offset_bytes
                        &&& (nx.offset_bytes < c_end + 2 * 1024 * 1024 && !nx.is_esp && !nx.is_msr
                            && !nx.is_recovery ==> shrink_candidate_spec(disks) == nx.drive_letter)
                        &&& (nx.offset_bytes >= c_end + 2 * 1024 * 1024 ==> shrink_candidate_spec(disks) is None)
                        &&& (nx.is_esp || nx.is_msr || nx.is_recovery ==> shrink_candidate_spec(disks) is None)
                    },
                }
            },
        },
{
    match c_position(disks) {
        None => {},
        Some((d, p)) => {
            let parts = disks[d].partitions@;
            let c_end = (parts[p].offset_bytes + parts[p].size_bytes) as nat;
            lemma_next_after(parts, c_end, parts.len() as int);
            lemma_next_after_nearest(parts, c_end, parts.len() as int);
        },
    }
}

proof fn lemma_next_after_nearest(parts: Seq<DiskPartitionInfo>, c_end: nat, k: int)
    requires
        k <= parts.len(),
    ensures
        next_after(parts, c_end, k) matches Some(n) ==> forall|j: int|
            0 <= j < k && parts[j].offset_bytes >= c_end ==> parts[n].offset_bytes <= #[trigger] parts[j].offset_bytes,
        next_after(parts, c_end, k) is None ==> forall|j: int|
            0 <= j < k ==> (#[trigger] parts[j]).offset_bytes < c_end,
    decreases k,
{
    if k > 0 {
        lemma_next_after_nearest(parts, c_end, k - 1);
        lemma_next_after(parts, c_end, k - 1);
    }
}

pub open spec fn expand_reason(unalloc_mb: nat, shrink_mb: nat) -> Seq<char> {
    "可无损并入：相邻未分配约 "@ + gb_text(unalloc_mb) + " GB（直接扩）+ 后方分区可让出约 "@
        + gb_text(shrink_mb) + " GB（需移动该分区的数据）。"@
}

pub open spec fn no_space_reason() -> Seq<char> {
    "C 盘后方没有可用于扩容的空间。可先用「一键分区」在 C 盘后方腾出未分配空间。"@
}

pub open spec fn c_not_found_reason() -> Seq<char> {
    "未找到当前系统 C 盘"@
}

/// The plan: `shrink_mb` is what the system reported the candidate partition
/// (see [`expand_c_shrink_candidate`]) can give up, `None` when there was no
/// candidate or the query failed.
pub open spec fn expand_plan(disks: Seq<PhysicalDisk>, shrink_mb: Option<u64>) -> (bool, nat, nat, nat, nat, nat, bool, Seq<char>) {
    match c_position(disks) {
        None => (false, 0, 0, 0, 0, 0, false, c_not_found_reason()),
        Some((d, p)) => {
            let disk = disks[d];
            let parts = disk.partitions@;
            let c = parts[p];
            let c_end = (c.offset_bytes + c.size_bytes) as nat;
            let current = c.size_bytes as nat / (MIB as nat);
            let used = c.used_bytes as nat / (MIB as nat);
            let free = c.free_bytes as nat / (MIB as nat);
            let next = next_after(parts, c_end, parts.len() as int);
            let unalloc_bytes: nat = match next {
                Some(n) => (parts[n].offset_bytes - c_end) as nat,
                None => if disk.size_bytes >= c_end {
                    (disk.size_bytes - c_end) as nat
                } else {
                    0
                },
            };
            let unalloc_mb = unalloc_bytes / (MIB as nat);
            let shrink: nat = match next {
                Some(n) => if movable(parts[n], c_end) && parts[n].drive_letter is Some
                    && shrink_mb is Some {
                    shrink_mb->0 as nat
                } else {
                    0
                },
                None => 0,
            };
            let no_move = current + unalloc_mb;
            // a reported shrink too large to add is capped at the largest size
            let max = if no_move + shrink > u64::MAX { u64::MAX as nat } else { no_move + shrink };
            let can = max > current + 1024;
            let reason = if can {
                if shrink > 1024 {
                    expand_reason(unalloc_mb, shrink)
                } else {
                    Seq::empty()
                }
            } else {
                no_space_reason()
            };
            (true, current, used, free, max, no_move, can, reason)
        },
    }
}

/// The partitions of every disk end within the 64-bit range.
pub open spec fn ends_fit(disks: Seq<PhysicalDisk>) -> bool {
    forall|d: int, p: int|
        0 <= d < disks.len() && 0 <= p < disks[d].partitions@.len() ==> disks[d].partitions@[p].offset_bytes
            + disks[d].partitions@[p].size_bytes <= u64::MAX
}

fn find_c(disks: &Vec<PhysicalDisk>) -> (r: Option<(usize, usize)>)
    ensures
        match r {
            Some((d, p)) => c_position(disks@) == Some((d as int, p as int)),
            None => c_position(disks@) is None,
        },
        r matches Some((d, p)) ==> d < disks@.len() && p < disks@[d as int].partitions@.len(),
{
    let mut d: usize = 0;
    while d < disks.len()
        invariant
            d <= disks.len(),
            c_position(disks@) == c_position_from(disks@, d as int),
        decreases disks.len() - d,
    {
        let parts = &disks[d].partitions;
        let mut p: usize = 0;
        while p < parts.len()
            invariant
                d < disks.len(),
                parts@ == disks@[d as int].partitions@,
                c_position(disks@) == c_position_from(disks@, d as int),
                p <= parts.len(),
                c_index(parts@, 0) == c_index(parts@, p as int),
            decreases parts.len() - p,
        {
            if parts[p].drive_letter == Some('C') {
                assert(c_index(parts@, p as int) == Some(p as int));
                assert(c_index(disks@[d as int].partitions@, 0) == Some(p as int));
                assert(c_position_from(disks@, d as int) == Some((d as int, p as int)));
                return Some((d, p));
            }
            p = p + 1;
        }
        d = d + 1;
    }
    None
}

fn find_next_after(parts: &Vec<DiskPartitionInfo>, c_end: u64) -> (r: Option<usize>)
    ensures
        match r {
            Some(i) => next_after(parts@, c_end as nat, parts@.len() as int) == Some(i as int),
            None => next_after(parts@, c_end as nat, parts@.len() as int) is None,
        },
        r matches Some(i) ==> i < parts@.len() && parts@[i as int].offset_bytes >= c_end,
{
    let mut best: Option<usize> = None;
    let mut k: usize = 0;
    while k < parts.len()
        invariant
            k <= parts.len(),
            match best {
                Some(i) => next_after(parts@, c_end as nat, k as int) == Some(i as int),
                None => next_after(parts@, c_end as nat, k as int) is None,
            },
            best matches Some(i) ==> i < k && parts@[i as int].offset_bytes >= c_end,
        decreases parts.len() - k,
    {
        let p = parts[k];
        let better = match best {
            None => true,
            Some(b) => p.offset_bytes < parts[b].offset_bytes,
        };
        let ghost prev = next_after(parts@, c_end as nat, k as int);
        assert(next_after(parts@, c_end as nat, k + 1) == (if parts@[k as int].offset_bytes
            >= c_end && (prev is None || parts@[k as int].offset_bytes
            < parts@[prev->0].offset_bytes) {
            Some(k as int)
        } else {
            prev
        }));
        if p.offset_bytes >= c_end && better {
            best = Some(k);
        }
        k = k + 1;
    }
    best
}

/// The drive letter of the partition right after C: when that partition could be
/// moved; the caller asks the system how much that partition can shrink.
pub fn expand_c_shrink_candidate(disks: &Vec<PhysicalDisk>) -> (r: Option<char>)
    requires
        ends_fit(disks@),
    ensures
        r == shrink_candidate_spec(disks@),
{
    match find_c(disks) {
        None => None,
        Some((d, p)) => {
            let parts = &disks[d].partitions;
            let c = parts[p];
            let c_end = c.offset_bytes + c.size_bytes;
            match find_next_after(parts, c_end) {
                Some(n) => {
                    let next = parts[n];
                    if next.offset_bytes - c_end < 2 * 1024 * 1024 && !next.is_esp && !next.is_msr
                        && !next.is_recovery {
                        next.drive_letter
                    } else {
                        None
                    }
                },
                None => None,
            }
        },
    }
}

/// Computes how far C: can grow. `shrink_mb` is the answer to the shrink query for
/// [`expand_c_shrink_candidate`]'s partition (`None` when there was none or it failed).
pub fn compute_expand_c_info(disks: &Vec<PhysicalDisk>, shrink_mb: Option<u64>) -> (r: ExpandCLoadResult)
    requires
        ends_fit(disks@),
    ensures
        ({
            let (found, current, used, free, max, no_move, can, reason) = expand_plan(disks@, shrink_mb);
            &&& r.found == found
            &&& r.current_size_mb as nat == current
            &&& r.used_mb as nat == used
            &&& r.free_mb as nat == free
            &&& r.max_size_mb as nat == max
            &&& r.no_move_max_mb as nat == no_move
            &&& r.can_expand == can
            &&& r.reason@ == reason
        }),
{
    let (d, p) = match find_c(disks) {
        None => {
            let mut res = ExpandCLoadResult::default();
            res.reason = str_to_string("未找到当前系统 C 盘");
            return res;
        },
        Some(x) => x,
    };
    let disk = &disks[d];
    let parts = &disk.partitions;
    let c = parts[p];
    let c_end = c.offset_bytes + c.size_bytes;
    let current = c.size_bytes / MIB;
    let used = c.used_bytes / MIB;
    let free = c.free_bytes / MIB;
    let next = find_next_after(parts, c_end);
    let unalloc_bytes: u64 = match next {
        Some(n) => parts[n].offset_bytes - c_end,
        None => if disk.size_bytes >= c_end {
            disk.size_bytes - c_end
        } else {
            0
        },
    };
    let unalloc_mb = unalloc_bytes / MIB;
    let shrink: u64 = match next {
        Some(n) => {
            let nx = parts[n];
            if nx.offset_bytes - c_end < 2 * 1024 * 1024 && !nx.is_esp && !nx.is_msr
                && !nx.is_recovery && nx.drive_letter.is_some() {
                match shrink_mb {
                    Some(s) => s,
                    None => 0,
                }
            } else {
                0
            }
        },
        None => 0,
    };
    let no_move = current + unalloc_mb;
    let max = if shrink > u64::MAX - no_move {
        u64::MAX
    } else {
        no_move + shrink
    };
    let can = max > current + 1024;
    let reason = if can {
        if shrink > 1024 {
            let mut s = str_to_string("可无损并入：相邻未分配约 ");
            let a = format_gb_one_decimal(unalloc_mb);
            push_str(&mut s, a.as_str());
            push_str(&mut s, " GB（直接扩）+ 后方分区可让出约 ");
            let b = format_gb_one_decimal(shrink);
            push_str(&mut s, b.as_str());
            push_str(&mut s, " GB（需移动该分区的数据）。");
            s
        } else {
            String::new()
        }
    } else {
        str_to_string("C 盘后方没有可用于扩容的空间。可先用「一键分区」在 C 盘后方腾出未分配空间。")
    };
    ExpandCLoadResult {
        found: true,
        current_size_mb: current,
        used_mb: used,
        free_mb: free,
        max_size_mb: max,
        no_move_max_mb: no_move,
        can_expand: can,
        reason,
    }
}

/// The plan never promises less than C: has: the size reachable without moving data
/// is at least the current size, and the largest size at least that.
pub proof fn lemma_expand_plan_ordered(disks: Seq<PhysicalDisk>, shrink_mb: Option<u64>)
    ensures
        ({
            let (found, current, used, free, max, no_move, can, reason) = expand_plan(disks, shrink_mb);
            &&& current <= no_move <= max
            &&& can <==> max > current + 1024
            &&& !found ==> !can
        }),
{
    match c_position(disks) {
        None => {},
        Some((d, p)) => {
            let parts = disks[d].partitions@;
            let c = parts[p];
            let c_end = (c.offset_bytes + c.size_bytes) as nat;
            lemma_next_after(parts, c_end, parts.len() as int);
            assert(c.size_bytes as nat / (MIB as nat) <= 0x1000_0000_0000);
            match next_after(parts, c_end, parts.len() as int) {
                Some(n) => {
                    assert(parts[n].offset_bytes >= c_end);
                    assert(((parts[n].offset_bytes - c_end) as nat) / (MIB as nat) <= 0x1000_0000_0000);
                },
                None => {
                    assert(disks[d].size_bytes >= c_end ==> ((disks[d].size_bytes - c_end) as nat) / (MIB as nat)
                        <= 0x1000_0000_0000);
                },
            }
        },
    }
}

proof fn lemma_next_after(parts: Seq<DiskPartitionInfo>, c_end: nat, k: int)
    requires
        k <= parts.len(),
    ensures
        next_after(parts, c_end, k) matches Some(n) ==> 0 <= n < k && parts[n].offset_bytes >= c_end,
    decreases k,
{
    if k > 0 {
        lemma_next_after(parts, c_end, k - 1);
    }
}

} // verus!
