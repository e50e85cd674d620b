//! Finding the EFI system partition on the disk that holds a given Windows
//! partition, and giving it the letter `S:`; and finding a drive letter for a
//! legacy boot partition.
use vstd::prelude::*;
use crate::bcd::{
    assign_esp_script, assign_letter_script, disk_from, esp_from, find_disk_script, list_partition_script,
    parse_disk_number, parse_esp_partition, volume_name, BootManager,
};
use crate::disk::{DiskPartitionInfo, PhysicalDisk};
use crate::text::{ascii_upper, dec, lines_of, push_char, push_dec, push_str, str_to_string, to_ascii_upper};

verus! {

/// What the search waits for.
#[derive(Debug, Clone, Copy, PartialEq, Eq, Structural)]
pub enum SameDiskStep {
    /// The output of `detail volume`.
    FindDisk,
    /// The output of `list partition` on that disk.
    ListPartitions,
    /// `S:` being freed.
    FreeS,
    /// The output of assigning `S:`.
    AssignS,
    /// Whether `S:\` exists.
    CheckS,
    Done,
}

/// A piece of work for the caller, or the answer.
pub enum SameDiskWork {
    /// Run this diskpart script and hand back its output (or why it could not run).
    Diskpart(String),
    /// Run `mountvol S: /d` (its outcome does not matter), then wait 200 ms.
    FreeLetterS,
    /// Wait 500 ms, then tell whether `S:\` exists.
    CheckS,
    /// The mounted EFI system partition (`S:`), or why there is none.
    Located(Result<String, String>),
}

/// A search for the EFI system partition of one disk.
pub struct SameDiskEsp {
    pub windows_partition: String,
    pub disk: usize,
    pub partition: usize,
    pub step: SameDiskStep,
}

pub open spec fn same_disk_done(b: SameDiskEsp, w: SameDiskWork, r: Result<Seq<char>, Seq<char>>) -> bool {
    &&& b.step == SameDiskStep::Done
    &&& match r {
        Ok(l) => w matches SameDiskWork::Located(Ok(x)) && x@ == l,
        Err(m) => w matches SameDiskWork::Located(Err(x)) && x@ == m,
    }
}

pub open spec fn same_disk_ranks(s: SameDiskStep) -> nat {
    match s {
        SameDiskStep::FindDisk => 5,
        SameDiskStep::ListPartitions => 4,
        SameDiskStep::FreeS => 3,
        SameDiskStep::AssignS => 2,
        SameDiskStep::CheckS => 1,
        SameDiskStep::Done => 0,
    }
}

/// What a diskpart run's output (or failure) leads to.
pub open spec fn on_output_spec(a: SameDiskEsp, b: SameDiskEsp, out: Result<String, String>, w: SameDiskWork) -> bool {
    &&& b.windows_partition == a.windows_partition
    &&& same_disk_ranks(b.step) < same_disk_ranks(a.step)
    &&& match out {
        Err(e) => same_disk_done(b, w, Err(e@)),
        Ok(s) => match a.step {
            SameDiskStep::FindDisk => match disk_from(lines_of(s@), 0, None) {
                None => same_disk_done(b, w, Err("无法确定分区所在磁盘"@)),
                Some(d) => b.disk == d && b.step == SameDiskStep::ListPartitions
                    && (w matches SameDiskWork::Diskpart(sc) && sc@ == "select disk "@ + dec(d) + "\nlist partition\n"@),
            },
            SameDiskStep::ListPartitions => match esp_from(lines_of(s@), 0) {
                None => same_disk_done(b, w, Err("未找到 ESP 分区"@)),
                Some(p) => b.disk == a.disk && b.partition == p && b.step == SameDiskStep::FreeS && w is FreeLetterS,
            },
            SameDiskStep::AssignS => b.step == SameDiskStep::CheckS && w is CheckS,
            _ => false,
        },
    }
}

impl BootManager {
    /// Starts looking for the EFI system partition on the disk of
    /// `windows_partition`: first the disk is learnt from `detail volume`.
    pub fn find_esp_on_same_disk(&self, windows_partition: &str) -> (r: (SameDiskEsp, SameDiskWork))
        ensures
            r.0.windows_partition@ == windows_partition@,
            r.0.step == SameDiskStep::FindDisk,
            r.1 matches SameDiskWork::Diskpart(sc)
                && sc@ == "select volume "@ + volume_name(windows_partition@) + "\ndetail volume\n"@,
    {
        (SameDiskEsp { windows_partition: str_to_string(windows_partition), disk: 0, partition: 0, step: SameDiskStep::FindDisk },
            SameDiskWork::Diskpart(find_disk_script(windows_partition)))
    }
}

impl SameDiskEsp {
    /// Takes the output of the last diskpart script: the disk number (the last line
    /// naming a disk), then the first system partition on it, then, after `S:` was
    /// assigned, a check that it exists. A failed run ends the search with its error.
    pub fn on_output(&mut self, out: Result<String, String>) -> (w: SameDiskWork)
        requires
            old(self).step == SameDiskStep::FindDisk || old(self).step == SameDiskStep::ListPartitions
                || old(self).step == SameDiskStep::AssignS,
        ensures
            on_output_spec(*old(self), *final(self), out, w),
    {
        match out {
            Err(e) => {
                self.step = SameDiskStep::Done;
                SameDiskWork::Located(Err(e))
            },
            Ok(s) => match self.step {
                SameDiskStep::FindDisk => match parse_disk_number(s.as_str()) {
                    None => {
                        self.step = SameDiskStep::Done;
                        SameDiskWork::Located(Err(str_to_string("无法确定分区所在磁盘")))
                    },
                    Some(d) => {
                        self.disk = d;
                        self.step = SameDiskStep::ListPartitions;
                        SameDiskWork::Diskpart(list_partition_script(d))
                    },
                },
                SameDiskStep::ListPartitions => match parse_esp_partition(s.as_str()) {
                    None => {
                        self.step = SameDiskStep::Done;
                        SameDiskWork::Located(Err(str_to_string("未找到 ESP 分区")))
                    },
                    Some(p) => {
                        self.partition = p;
                        self.step = SameDiskStep::FreeS;
                        SameDiskWork::FreeLetterS
                    },
                },
                _ => {
                    self.step = SameDiskStep::CheckS;
                    SameDiskWork::CheckS
                },
            },
        }
    }

    /// `S:` was freed: the system partition found is given the letter `S`.
    pub fn on_freed(&mut self) -> (w: SameDiskWork)
        requires
            old(self).step == SameDiskStep::FreeS,
        ensures
            final(self).windows_partition == old(self).windows_partition,
            final(self).disk == old(self).disk,
            final(self).partition == old(self).partition,
            final(self).step == SameDiskStep::AssignS,
            w matches SameDiskWork::Diskpart(sc) && sc@ == "select disk "@ + dec(old(self).disk as nat)
                + "\nselect partition "@ + dec(old(self).partition as nat) + "\nassign letter=S\n"@,
    {
        self.step = SameDiskStep::AssignS;
        SameDiskWork::Diskpart(assign_esp_script(self.disk, self.partition))
    }

    /// Whether `S:\` exists after the assignment decides the answer.
    pub fn on_checked(&mut self, exists: bool) -> (w: SameDiskWork)
        requires
            old(self).step == SameDiskStep::CheckS,
        ensures
            final(self).windows_partition == old(self).windows_partition,
            same_disk_done(*final(self), w, if exists { Ok("S:"@) } else { Err("ESP 盘符分配失败"@) }),
    {
        self.step = SameDiskStep::Done;
        if exists {
            SameDiskWork::Located(Ok(str_to_string("S:")))
        } else {
            SameDiskWork::Located(Err(str_to_string("ESP 盘符分配失败")))
        }
    }
}

// ---------------------------------------------------------------------------
// A letter for a legacy boot partition
// ---------------------------------------------------------------------------

pub open spec fn part_letter_in(parts: Seq<DiskPartitionInfo>, part: u32, i: int) -> Option<char>
    decreases parts.len() - i,
{
    if i < 0 || i >= parts.len() {
        None
    } else if parts[i].partition_number == part {
        parts[i].drive_letter
    } else {
        part_letter_in(parts, part, i + 1)
    }
}

/// The letter the scan reports for partition `part` of disk `disk`: that of the
/// first partition so numbered on the first disk so numbered.
pub open spec fn scanned_letter(disks: Seq<PhysicalDisk>, disk: u32, part: u32, i: int) -> Option<char>
    decreases disks.len() - i,
{
    if i < 0 || i >= disks.len() {
        None
    } else if disks[i].disk_number == disk {
        part_letter_in(disks[i].partitions@, part, 0)
    } else {
        scanned_letter(disks, disk, part, i + 1)
    }
}

/// The drive (`X:`, upper case) that the disk scan already reports for partition
/// `part` of disk `disk`, if any; it is used when it exists.
pub fn existing_partition_letter(disks: &Vec<PhysicalDisk>, disk: u32, part: u32) -> (r: Option<String>)
    ensures
        match scanned_letter(disks@, disk, part, 0) {
            Some(c) => r matches Some(l) && l@ == seq![ascii_upper(c), ':'],
            None => r is None,
        },
{
    let mut i: usize = 0;
    while i < disks.len()
        invariant
            i <= disks.len(),
            scanned_letter(disks@, disk, part, 0) == scanned_letter(disks@, disk, part, i as int),
        decreases disks.len() - i,
    {
        if disks[i].disk_number == disk {
            let parts = &disks[i].partitions;
            assert(scanned_letter(disks@, disk, part, 0) == part_letter_in(parts@, part, 0));
            let mut k: usize = 0;
            while k < parts.len()
                invariant
                    k <= parts.len(),
                    scanned_letter(disks@, disk, part, 0) == part_letter_in(parts@, part, 0),
                    part_letter_in(parts@, part, 0) == part_letter_in(parts@, part, k as int),
                decreases parts.len() - k,
            {
                if parts[k].partition_number == part {
                    assert(part_letter_in(parts@, part, k as int) == parts@[k as int].drive_letter);
                    return match parts[k].drive_letter {
                        Some(c) => {
                            let mut l = String::new();
                            push_char(&mut l, to_ascii_upper(c));
                            push_char(&mut l, ':');
                            assert(l@ =~= seq![ascii_upper(c), ':']);
                            Some(l)
                        },
                        None => None,
                    };
                }
                k = k + 1;
            }
            return None;
        }
        i = i + 1;
    }
    None
}

/// The script that gives partition `part` of disk `disk` the free letter `free`.
pub fn boot_partition_assign_script(disk: u32, part: u32, free: char) -> (r: String)
    ensures
        r@ == "select disk "@ + dec(disk as nat) + "\r\nselect partition "@ + dec(part as nat)
            + "\r\nassign letter="@ + seq![free] + "\r\n"@,
{
    assign_letter_script(disk, part, free)
}

/// Why the assigned letter cannot be used.
pub fn boot_letter_unusable_message(disk: u32, part: u32, free: char) -> (r: String)
    ensures
        r@ == "引导分区 磁盘"@ + dec(disk as nat) + ":分区"@ + dec(part as nat) + " 盘符 "@ + seq![free, ':']
            + " 不可用"@,
{
    let mut m = str_to_string("引导分区 磁盘");
    push_dec(&mut m, disk as u64);
    push_str(&mut m, ":分区");
    push_dec(&mut m, part as u64);
    push_str(&mut m, " 盘符 ");
    push_char(&mut m, free);
    push_char(&mut m, ':');
    push_str(&mut m, " 不可用");
    assert(m@ =~= "引导分区 磁盘"@ + dec(disk as nat) + ":分区"@ + dec(part as nat) + " 盘符 "@ + seq![free, ':']
        + " 不可用"@);
    m
}

} // verus!
