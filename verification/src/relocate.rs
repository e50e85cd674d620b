//! Finding the installation target again after the partition scripts ran: by its
//! disk and partition numbers when they are known, giving it a drive letter when it
//! has none, else by its old drive letter.
use vstd::prelude::*;
use crate::disk::{Partition, PartitionStyle};
use crate::diskpart::{eq_ignore_ascii_case, eq_ignore_case, volume_letter, volume_name};
use crate::text::{dec, push_chars, push_char, push_dec, push_str, str_to_string, to_chars, trim, trim_chars};

verus! {

/// What the search waits for.
#[derive(Debug, Clone, Copy, PartialEq, Eq, Structural)]
pub enum TargetStep {
    /// A partition list, to find the old drive letter in (no numbers known).
    ListForLetter,
    /// A partition list, to find the disk and partition numbers in.
    ListForNumbers,
    FindFreeLetter,
    AssignLetter,
    /// A partition list after assigning the letter, on the `n`-th look.
    Verify(u8),
    Done,
}

/// Why assigning the letter failed.
pub enum AssignFailure {
    /// The script file could not be written.
    WriteScript(String),
    /// diskpart could not be run.
    RunDiskpart(String),
}

/// A piece of work for the caller, or the answer.
pub enum TargetWork {
    /// List the lettered partitions, after waiting `wait_ms` milliseconds.
    ListPartitions { wait_ms: u32 },
    FindFreeLetter,
    /// Run this diskpart script and hand back its output.
    AssignLetter(String),
    /// The target's drive (`X:`) and partition style, or why it cannot be found.
    Located(Result<(String, PartitionStyle), String>),
}

/// A search for the target.
pub struct TargetSearch {
    pub disk: Option<u32>,
    pub part: Option<u32>,
    /// The drive letter the target had.
    pub orig: String,
    /// The letter being assigned.
    pub free: char,
    /// What the assigning diskpart run printed.
    pub output: String,
    pub step: TargetStep,
}

/// The first listed partition with drive `l`, from position `i` on.
pub open spec fn letter_index(ps: Seq<Partition>, l: Seq<char>, i: int) -> Option<int>
    decreases ps.len() - i,
{
    if i < 0 || i >= ps.len() {
        None
    } else if eq_ignore_case(volume_name(ps[i].letter@), l) {
        Some(i)
    } else {
        letter_index(ps, l, i + 1)
    }
}

/// The first listed partition that is partition `p` of disk `d`, from position `i` on.
pub open spec fn numbers_index(ps: Seq<Partition>, d: u32, p: u32, i: int) -> Option<int>
    decreases ps.len() - i,
{
    if i < 0 || i >= ps.len() {
        None
    } else if ps[i].disk_number == Some(d) && ps[i].partition_number == Some(p) {
        Some(i)
    } else {
        numbers_index(ps, d, p, i + 1)
    }
}

pub open spec fn located_as(w: TargetWork, p: Partition) -> bool {
    w matches TargetWork::Located(Ok((l, st))) && l@ == volume_name(p.letter@) + ":"@ && st == p.partition_style
}

pub open spec fn failed_with(w: TargetWork, m: Seq<char>) -> bool {
    w matches TargetWork::Located(Err(x)) && x@ == m
}

pub open spec fn list_failed_message(e: Seq<char>) -> Seq<char> {
    "枚举分区失败: "@ + e
}

pub open spec fn letter_gone_message(orig: Seq<char>) -> Seq<char> {
    "目标分区 "@ + orig + " 不存在，且无磁盘/分区号可重定位"@
}

pub open spec fn no_free_letter_message() -> Seq<char> {
    "没有空闲盘符可分配给目标分区"@
}

pub open spec fn assign_failed_message(f: AssignFailure) -> Seq<char> {
    match f {
        AssignFailure::WriteScript(x) => "写分配盘符脚本失败: "@ + x@,
        AssignFailure::RunDiskpart(x) => "运行 diskpart 分配盘符失败: "@ + x@,
    }
}

pub open spec fn assign_script_text(d: u32, p: u32, free: char) -> Seq<char> {
    "select disk "@ + dec(d as nat) + "\r\nselect partition "@ + dec(p as nat) + "\r\nremove noerr\r\nassign letter="@
        + seq![free] + "\r\nexit\r\n"@
}

pub open spec fn vanished_message(d: u32, p: u32, orig: Seq<char>, output: Seq<char>) -> Seq<char> {
    "目标分区 磁盘"@ + dec(d as nat) + ":分区"@ + dec(p as nat) + "（原 "@ + orig
        + "）在 Diskpart 脚本执行后不存在，或无法挂载盘符。\ndiskpart 输出：\n"@ + trim(output)
}

/// The search keeps what it was started with.
pub open spec fn same_search(a: TargetSearch, b: TargetSearch) -> bool {
    a.disk == b.disk && a.part == b.part && a.orig == b.orig
}

pub open spec fn search_done(b: TargetSearch) -> bool {
    b.step == TargetStep::Done
}

/// What a partition list leads to, in a step that waits for one.
pub open spec fn on_listed_spec(a: TargetSearch, b: TargetSearch, listed: Result<Vec<Partition>, String>, w: TargetWork) -> bool {
    &&& same_search(a, b)
    &&& match a.step {
        TargetStep::ListForLetter => search_done(b) && match listed {
            Err(x) => failed_with(w, list_failed_message(x@)),
            Ok(ps) => match letter_index(ps@, volume_name(a.orig@), 0) {
                Some(i) => located_as(w, ps@[i]),
                None => failed_with(w, letter_gone_message(a.orig@)),
            },
        },
        TargetStep::ListForNumbers => {
            let found = match listed {
                Ok(ps) => match numbers_index(ps@, a.disk->0, a.part->0, 0) {
                    Some(i) => if volume_name(ps@[i].letter@).len() > 0 { Some(ps@[i]) } else { None },
                    None => None,
                },
                Err(_) => None,
            };
            match found {
                Some(p) => search_done(b) && located_as(w, p),
                None => b.step == TargetStep::FindFreeLetter && w is FindFreeLetter,
            }
        },
        TargetStep::Verify(k) => {
            let found = match listed {
                Ok(ps) => match letter_index(ps@, seq![a.free], 0) {
                    Some(i) => Some(ps@[i]),
                    None => None,
                },
                Err(_) => None,
            };
            &&& b.free == a.free
            &&& b.output == a.output
            &&& match found {
                Some(p) => search_done(b) && located_as(w, p),
                None => if k < 3 {
                    b.step == TargetStep::Verify((k + 1) as u8) && w == (TargetWork::ListPartitions { wait_ms: 500 })
                } else {
                    search_done(b) && failed_with(w, vanished_message(a.disk->0, a.part->0, a.orig@, a.output@))
                },
            }
        },
        _ => false,
    }
}

/// How many steps at most lie ahead.
pub open spec fn search_left(step: TargetStep) -> nat {
    match step {
        TargetStep::Done => 0,
        TargetStep::ListForLetter => 1,
        TargetStep::Verify(k) => if k < 4 { (4 - k) as nat } else { 1 },
        TargetStep::AssignLetter => 5,
        TargetStep::FindFreeLetter => 6,
        TargetStep::ListForNumbers => 7,
    }
}

/// The numbers are known in every step after the first list.
pub open spec fn search_wf(s: TargetSearch) -> bool {
    s.step != TargetStep::ListForLetter && s.step != TargetStep::Done ==> s.disk is Some && s.part is Some
}

fn find_letter(ps: &Vec<Partition>, l: &[char]) -> (r: Option<usize>)
    ensures
        match r {
            None => letter_index(ps@, l@, 0) is None,
            Some(i) => i < ps@.len() && letter_index(ps@, l@, 0) == Some(i as int),
        },
{
    let mut i: usize = 0;
    while i < ps.len()
        invariant
            i <= ps.len(),
            letter_index(ps@, l@, 0) == letter_index(ps@, l@, i as int),
        decreases ps.len() - i,
    {
        let n = volume_letter(ps[i].letter.as_str());
        if eq_ignore_ascii_case(n.as_slice(), l) {
            return Some(i);
        }
        i = i + 1;
    }
    None
}

fn find_numbers(ps: &Vec<Partition>, d: u32, p: u32) -> (r: Option<usize>)
    ensures
        match r {
            None => numbers_index(ps@, d, p, 0) is None,
            Some(i) => i < ps@.len() && numbers_index(ps@, d, p, 0) == Some(i as int),
        },
{
    let mut i: usize = 0;
    while i < ps.len()
        invariant
            i <= ps.len(),
            numbers_index(ps@, d, p, 0) == numbers_index(ps@, d, p, i as int),
        decreases ps.len() - i,
    {
        if ps[i].disk_number == Some(d) && ps[i].partition_number == Some(p) {
            return Some(i);
        }
        i = i + 1;
    }
    None
}

fn located(p: &Partition) -> (w: TargetWork)
    ensures
        located_as(w, *p),
{
    let n = volume_letter(p.letter.as_str());
    let mut l = String::new();
    push_chars(&mut l, n.as_slice());
    push_str(&mut l, ":");
    TargetWork::Located(Ok((l, p.partition_style)))
}

fn failed(m: String) -> (w: TargetWork)
    ensures
        failed_with(w, m@),
{
    TargetWork::Located(Err(m))
}

impl TargetSearch {
    /// Starts looking for the target that was drive `orig`, partition `part` of disk
    /// `disk`: the first work is always a partition list.
    pub fn new(disk: Option<u32>, part: Option<u32>, orig: &str) -> (r: (TargetSearch, TargetWork))
        ensures
            r.0.disk == disk,
            r.0.part == part,
            r.0.orig@ == orig@,
            r.0.step == (if disk is Some && part is Some { TargetStep::ListForNumbers } else { TargetStep::ListForLetter }),
            r.1 == (TargetWork::ListPartitions { wait_ms: 0 }),
            search_wf(r.0),
    {
        let step = if disk.is_some() && part.is_some() { TargetStep::ListForNumbers } else { TargetStep::ListForLetter };
        (TargetSearch { disk, part, orig: str_to_string(orig), free: 'A', output: String::new(), step },
            TargetWork::ListPartitions { wait_ms: 0 })
    }

    /// Takes a partition list (or why none could be had). Without numbers, the old
    /// letter is looked up once; with them, a lettered partition with those numbers
    /// is the answer, else a free letter is assigned; after assigning, the new
    /// letter is looked for four times.
    pub fn on_listed(&mut self, listed: Result<Vec<Partition>, String>) -> (w: TargetWork)
        requires
            search_wf(*old(self)),
            old(self).step == TargetStep::ListForLetter || old(self).step == TargetStep::ListForNumbers
                || old(self).step is Verify,
        ensures
            on_listed_spec(*old(self), *final(self), listed, w),
            search_wf(*final(self)),
    {
        match self.step {
            TargetStep::ListForLetter => {
                self.step = TargetStep::Done;
                match listed {
                    Err(x) => {
                        let mut m = str_to_string("枚举分区失败: ");
                        push_str(&mut m, x.as_str());
                        failed(m)
                    },
                    Ok(ps) => {
                        let o = volume_letter(self.orig.as_str());
                        match find_letter(&ps, o.as_slice()) {
                            Some(i) => located(&ps[i]),
                            None => {
                                let mut m = str_to_string("目标分区 ");
                                push_str(&mut m, self.orig.as_str());
                                push_str(&mut m, " 不存在，且无磁盘/分区号可重定位");
                                failed(m)
                            },
                        }
                    },
                }
            },
            TargetStep::ListForNumbers => {
                let d = self.disk.unwrap();
                let p = self.part.unwrap();
                let hit = match &listed {
                    Ok(ps) => match find_numbers(ps, d, p) {
                        Some(i) => {
                            let n = volume_letter(ps[i].letter.as_str());
                            if n.len() > 0 { Some(i) } else { None }
                        },
                        None => None,
                    },
                    Err(_) => None,
                };
                match (hit, &listed) {
                    (Some(i), Ok(ps)) => {
                        self.step = TargetStep::Done;
                        located(&ps[i])
                    },
                    _ => {
                        self.step = TargetStep::FindFreeLetter;
                        TargetWork::FindFreeLetter
                    },
                }
            },
            _ => {
                let k = match self.step {
                    TargetStep::Verify(k) => k,
                    _ => 3,
                };
                let l = vec![self.free];
                assert(l@ =~= seq![self.free]);
                let hit = match &listed {
                    Ok(ps) => find_letter(ps, l.as_slice()),
                    Err(_) => None,
                };
                match (hit, &listed) {
                    (Some(i), Ok(ps)) => {
                        self.step = TargetStep::Done;
                        located(&ps[i])
                    },
                    _ => {
                        if k < 3 {
                            self.step = TargetStep::Verify(k + 1);
                            TargetWork::ListPartitions { wait_ms: 500 }
                        } else {
                            self.step = TargetStep::Done;
                            let d = self.disk.unwrap();
                            let p = self.part.unwrap();
                            let mut m = str_to_string("目标分区 磁盘");
                            push_dec(&mut m, d as u64);
                            push_str(&mut m, ":分区");
                            push_dec(&mut m, p as u64);
                            push_str(&mut m, "（原 ");
                            push_str(&mut m, self.orig.as_str());
                            push_str(&mut m, "）在 Diskpart 脚本执行后不存在，或无法挂载盘符。\ndiskpart 输出：\n");
                            let ov = to_chars(self.output.as_str());
                            let t = trim_chars(ov.as_slice());
                            push_chars(&mut m, t.as_slice());
                            failed(m)
                        }
                    },
                }
            },
        }
    }

    /// Takes the free drive letter found (none: the search fails); the letter is then
    /// assigned to the target's disk and partition numbers.
    pub fn on_free_letter(&mut self, free: Option<char>) -> (w: TargetWork)
        requires
            search_wf(*old(self)),
            old(self).step == TargetStep::FindFreeLetter,
        ensures
            same_search(*old(self), *final(self)),
            search_left(final(self).step) < search_left(old(self).step),
            search_wf(*final(self)),
            match free {
                None => search_done(*final(self)) && failed_with(w, no_free_letter_message()),
                Some(c) => final(self).free == c && final(self).step == TargetStep::AssignLetter
                    && (w matches TargetWork::AssignLetter(s)
                        && s@ == assign_script_text(old(self).disk->0, old(self).part->0, c)),
            },
    {
        match free {
            None => {
                self.step = TargetStep::Done;
                failed(str_to_string("没有空闲盘符可分配给目标分区"))
            },
            Some(c) => {
                self.free = c;
                self.step = TargetStep::AssignLetter;
                let mut s = str_to_string("select disk ");
                push_dec(&mut s, self.disk.unwrap() as u64);
                push_str(&mut s, "\r\nselect partition ");
                push_dec(&mut s, self.part.unwrap() as u64);
                push_str(&mut s, "\r\nremove noerr\r\nassign letter=");
                push_char(&mut s, c);
                push_str(&mut s, "\r\nexit\r\n");
                TargetWork::AssignLetter(s)
            },
        }
    }

    /// Takes what running the assigning script gave: its output, after which the
    /// partitions are listed again after 800 ms; or why it could not run.
    pub fn on_assigned(&mut self, ran: Result<String, AssignFailure>) -> (w: TargetWork)
        requires
            search_wf(*old(self)),
            old(self).step == TargetStep::AssignLetter,
        ensures
            same_search(*old(self), *final(self)),
            search_left(final(self).step) < search_left(old(self).step),
            search_wf(*final(self)),
            final(self).free == old(self).free,
            match ran {
                Err(f) => search_done(*final(self)) && failed_with(w, assign_failed_message(f)),
                Ok(out) => final(self).output@ == out@ && final(self).step == TargetStep::Verify(0)
                    && w == (TargetWork::ListPartitions { wait_ms: 800 }),
            },
    {
        match ran {
            Err(AssignFailure::WriteScript(x)) => {
                self.step = TargetStep::Done;
                let mut m = str_to_string("写分配盘符脚本失败: ");
                push_str(&mut m, x.as_str());
                failed(m)
            },
            Err(AssignFailure::RunDiskpart(x)) => {
                self.step = TargetStep::Done;
                let mut m = str_to_string("运行 diskpart 分配盘符失败: ");
                push_str(&mut m, x.as_str());
                failed(m)
            },
            Ok(out) => {
                self.output = out;
                self.step = TargetStep::Verify(0);
                TargetWork::ListPartitions { wait_ms: 800 }
            },
        }
    }
}

/// Each partition list moves the search forward, so it ends after a bounded number
/// of lists, letters and scripts; and its answer comes exactly when it is done.
pub proof fn lemma_search_ends(a: TargetSearch, b: TargetSearch, listed: Result<Vec<Partition>, String>, w: TargetWork)
    requires
        on_listed_spec(a, b, listed, w),
    ensures
        search_left(b.step) < search_left(a.step),
        (w is Located) == (b.step == TargetStep::Done),
{
}

} // verus!
