//! Boot configuration: `bcdedit` commands, reading `bcdedit` and `diskpart`
//! output, and choosing the partition that receives a legacy (BIOS) boot loader.
use vstd::prelude::*;
use crate::command::{command, CommandSpec};
use crate::disk::{DiskPartitionInfo, PhysicalDisk};
use crate::paths::{join, path_join};
use crate::repair::{BootRepair, RepairAction, RepairStep, windows_path};
use crate::esp::{EspAction, EspSearch, EspStep};
use crate::text::{
    ascii_upper, chars_eq, contains, contains_chars, dec, lines, lines_of, lines_view,
    lowercase, lowercase_chars, parse_nat, parse_usize, push_char, push_dec, push_str,
    split_whitespace, starts_with, starts_with_chars, str_to_string, strip_trailing,
    strip_trailing_char, to_ascii_upper, to_chars, ws_tokens, chars_to_string,
};

verus! {

/// Why a boot configuration step failed.
#[derive(Debug, Clone, PartialEq, Eq)]
pub enum BootError {
    SetDefaultFailed,
    SetTimeoutFailed,
    DeleteEntryFailed,
    CurrentGuidNotFound,
    /// The partition's disk could not be determined.
    DiskNotFound(String),
}

pub open spec fn boot_error_message(e: BootError) -> Seq<char> {
    match e {
        BootError::SetDefaultFailed => "Failed to set default boot entry"@,
        BootError::SetTimeoutFailed => "Failed to set boot timeout"@,
        BootError::DeleteEntryFailed => "Failed to delete boot entry"@,
        BootError::CurrentGuidNotFound => "Could not find current boot GUID"@,
        BootError::DiskNotFound(p) => "无法确定 "@ + p@ + " 所在磁盘（IOCTL 未匹配到盘符）"@,
    }
}

impl BootError {
    /// The message shown to the user.
    pub fn message(&self) -> (r: String)
        ensures
            r@ == boot_error_message(*self),
    {
        match self {
            BootError::SetDefaultFailed => str_to_string("Failed to set default boot entry"),
            BootError::SetTimeoutFailed => str_to_string("Failed to set boot timeout"),
            BootError::DeleteEntryFailed => str_to_string("Failed to delete boot entry"),
            BootError::CurrentGuidNotFound => str_to_string("Could not find current boot GUID"),
            BootError::DiskNotFound(p) => {
                let mut s = str_to_string("无法确定 ");
                push_str(&mut s, p.as_str());
                push_str(&mut s, " 所在磁盘（IOCTL 未匹配到盘符）");
                s
            },
        }
    }
}

/// Boot configuration through the bundled `bcdedit.exe` and `bcdboot.exe`.
pub struct BootManager {
    bcdedit_path: String,
    bcdboot_path: String,
    bin_dir: String,
}

impl BootManager {
    pub closed spec fn bcdedit(&self) -> Seq<char> {
        self.bcdedit_path@
    }

    pub closed spec fn bcdboot(&self) -> Seq<char> {
        self.bcdboot_path@
    }

    pub closed spec fn bin(&self) -> Seq<char> {
        self.bin_dir@
    }

    /// Uses the tools in `bin_dir`.
    pub fn new(bin_dir: &str) -> (r: BootManager)
        ensures
            r.bcdedit() == path_join(bin_dir@, "bcdedit.exe"@),
            r.bcdboot() == path_join(bin_dir@, "bcdboot.exe"@),
            r.bin() == bin_dir@,
    {
        BootManager {
            bcdedit_path: join(bin_dir, "bcdedit.exe"),
            bcdboot_path: join(bin_dir, "bcdboot.exe"),
            bin_dir: str_to_string(bin_dir),
        }
    }

    /// Repairs the boot files of `windows_partition` for UEFI (see
    /// [`BootManager::repair_boot_advanced`]).
    pub fn repair_boot(&self, windows_partition: &str, custom_script: bool) -> (r: (BootRepair, RepairAction))
        ensures
            r.0.windows_partition@ == windows_partition@,
            r.0.use_uefi,
            r.0.custom_script == custom_script,
            r.0.bcdboot@ == self.bcdboot(),
            r.0.bin_dir@ == self.bin(),
            r.0.esp is None,
            r.0.boot_letter@.len() == 0,
            r.0.boot_disk == 0,
            r.0.boot_part == 0,
            r.0.step == RepairStep::CheckWindows,
            r.1 matches RepairAction::CheckDir(d) && d@ == windows_path(windows_partition@),
    {
        self.repair_boot_advanced(windows_partition, true, custom_script)
    }

    /// Starts repairing the boot files of `windows_partition` for UEFI or legacy BIOS,
    /// with this manager's `bcdboot` and tools; `custom_script` says whether the
    /// user's repair script is enabled and present. The caller carries out the
    /// actions of the returned [`BootRepair`].
    pub fn repair_boot_advanced(&self, windows_partition: &str, use_uefi: bool, custom_script: bool) -> (r: (BootRepair, RepairAction))
        ensures
            r.0.windows_partition@ == windows_partition@,
            r.0.use_uefi == use_uefi,
            r.0.custom_script == custom_script,
            r.0.bcdboot@ == self.bcdboot(),
            r.0.bin_dir@ == self.bin(),
            r.0.esp is None,
            r.0.boot_letter@.len() == 0,
            r.0.boot_disk == 0,
            r.0.boot_part == 0,
            r.0.step == RepairStep::CheckWindows,
            r.1 matches RepairAction::CheckDir(d) && d@ == windows_path(windows_partition@),
    {
        BootRepair::new(windows_partition, use_uefi, custom_script, self.bcdboot_path.as_str(), self.bin_dir.as_str())
    }

    /// Starts looking for the EFI system partition and mounting it as `S:` (see
    /// [`EspSearch`]).
    pub fn find_efi_partition(&self) -> (r: (EspSearch, EspAction))
        ensures
            r.0.step == EspStep::CheckEfiDir,
            r.1 matches EspAction::CheckPath(p) && p@ == "S:\\EFI"@,
    {
        EspSearch::new()
    }

    /// `bcdedit /default <guid>`.
    pub fn set_default_boot(&self, guid: &str) -> (r: CommandSpec)
        ensures
            r.program@ == self.bcdedit(),
            r.args_view() == seq!["/default"@, guid@],
    {
        let c = command(self.bcdedit_path.as_str(), &["/default", guid]);
        assert(c.args_view() =~= seq!["/default"@, guid@]);
        c
    }

    /// `bcdedit /timeout <seconds>`.
    pub fn set_timeout(&self, seconds: u32) -> (r: CommandSpec)
        ensures
            r.program@ == self.bcdedit(),
            r.args_view() == seq!["/timeout"@, dec(seconds as nat)],
    {
        let mut n = String::new();
        push_dec(&mut n, seconds as u64);
        let c = command(self.bcdedit_path.as_str(), &["/timeout", n.as_str()]);
        assert(c.args_view() =~= seq!["/timeout"@, dec(seconds as nat)]);
        c
    }

    /// `bcdedit /delete <guid> /f`.
    pub fn delete_boot_entry(&self, guid: &str) -> (r: CommandSpec)
        ensures
            r.program@ == self.bcdedit(),
            r.args_view() == seq!["/delete"@, guid@, "/f"@],
    {
        let c = command(self.bcdedit_path.as_str(), &["/delete", guid, "/f"]);
        assert(c.args_view() =~= seq!["/delete"@, guid@, "/f"@]);
        c
    }
}

/// Which `bcdedit` operation a status belongs to.
#[derive(Debug, Clone, Copy, PartialEq, Eq, Structural)]
pub enum BcdOperation {
    SetDefault,
    SetTimeout,
    DeleteEntry,
}

pub open spec fn bcd_status_spec(op: BcdOperation, success: bool) -> Result<(), BootError> {
    if success {
        Ok(())
    } else {
        Err(
            match op {
                BcdOperation::SetDefault => BootError::SetDefaultFailed,
                BcdOperation::SetTimeout => BootError::SetTimeoutFailed,
                BcdOperation::DeleteEntry => BootError::DeleteEntryFailed,
            },
        )
    }
}

/// The outcome of a `bcdedit` operation from its exit status.
pub fn bcd_status(op: BcdOperation, success: bool) -> (r: Result<(), BootError>)
    ensures
        r == bcd_status_spec(op, success),
{
    if success {
        Ok(())
    } else {
        Err(
            match op {
                BcdOperation::SetDefault => BootError::SetDefaultFailed,
                BcdOperation::SetTimeout => BootError::SetTimeoutFailed,
                BcdOperation::DeleteEntry => BootError::DeleteEntryFailed,
            },
        )
    }
}

// ---------------------------------------------------------------------------
// bcdedit /enum
// ---------------------------------------------------------------------------

/// The identifier a line of `bcdedit /enum` gives: its last word, on lines
/// starting with `identifier` or holding `标识符`.
pub open spec fn line_identifier(line: Seq<char>) -> Option<Seq<char>> {
    if (starts_with(line, "identifier"@) || contains(line, "标识符"@)) && ws_tokens(line).len() > 0 {
        Some(ws_tokens(line).last())
    } else {
        None
    }
}

/// The identifier current when the first `device` line naming `drive` is reached.
pub open spec fn guid_from(ls: Seq<Seq<char>>, i: int, cur: Seq<char>, drive: Seq<char>) -> Option<Seq<char>>
    decreases ls.len() - i,
{
    if i < 0 || i >= ls.len() {
        None
    } else {
        let cur2 = match line_identifier(ls[i]) {
            Some(g) => g,
            None => cur,
        };
        if contains(ls[i], "device"@) && contains(ls[i], drive) {
            Some(cur2)
        } else {
            guid_from(ls, i + 1, cur2, drive)
        }
    }
}

/// The GUID of the entry booting the system drive, from `bcdedit /enum` output.
pub fn parse_current_boot_guid(stdout: &str, system_drive: &str) -> (r: Result<String, BootError>)
    ensures
        match guid_from(lines_of(stdout@), 0, Seq::empty(), system_drive@) {
            Some(g) => r matches Ok(s) && s@ == g,
            None => r == Err::<String, BootError>(BootError::CurrentGuidNotFound),
        },
{
    let text = to_chars(stdout);
    let drive = to_chars(system_drive);
    let ls = lines(text.as_slice());
    let ident = to_chars("identifier");
    let ident_cn = to_chars("标识符");
    let device = to_chars("device");
    let mut cur: Vec<char> = Vec::new();
    let mut i: usize = 0;
    while i < ls.len()
        invariant
            i <= ls.len(),
            lines_view(ls@) == lines_of(stdout@),
            text@ == stdout@,
            drive@ == system_drive@,
            ident@ == "identifier"@,
            ident_cn@ == "标识符"@,
            device@ == "device"@,
            guid_from(lines_of(stdout@), 0, Seq::empty(), system_drive@) == guid_from(
                lines_of(stdout@),
                i as int,
                cur@,
                system_drive@,
            ),
        decreases ls.len() - i,
    {
        let line = ls[i].as_slice();
        assert(line@ == lines_of(stdout@)[i as int]);
        if starts_with_chars(line, ident.as_slice()) || contains_chars(line, ident_cn.as_slice()) {
            let toks = split_whitespace(line);
            if toks.len() > 0 {
                let last = toks[toks.len() - 1].clone();
                assert(last@ == ws_tokens(line@).last());
                cur = last;
            }
        }
        if contains_chars(line, device.as_slice()) && contains_chars(line, drive.as_slice()) {
            return Ok(chars_to_string(cur.as_slice()));
        }
        i = i + 1;
    }
    Err(BootError::CurrentGuidNotFound)
}

// ---------------------------------------------------------------------------
// diskpart output
// ---------------------------------------------------------------------------

/// The number after the first word that contains `key` (any case) or equals
/// `word`, among the words from position `i` on, where that next word is a number.
pub open spec fn number_after(parts: Seq<Seq<char>>, i: int, key: Seq<char>, word: Seq<char>) -> Option<nat>
    decreases parts.len() - i,
{
    if i < 0 || i >= parts.len() {
        None
    } else if (contains(lowercase(parts[i]), key) || parts[i] == word) && i + 1 < parts.len()
        && parse_nat(parts[i + 1], usize::MAX as nat) is Some {
        parse_nat(parts[i + 1], usize::MAX as nat)
    } else {
        number_after(parts, i + 1, key, word)
    }
}

/// The disk number in a line of `detail volume` output.
pub open spec fn line_disk(line: Seq<char>) -> Option<nat> {
    if contains(lowercase(line), "disk"@) || contains(lowercase(line), "磁盘"@) {
        number_after(ws_tokens(line), 0, "disk"@, "磁盘"@)
    } else {
        None
    }
}

/// The disk number of the last line that names one.
pub open spec fn disk_from(ls: Seq<Seq<char>>, i: int, acc: Option<nat>) -> Option<nat>
    decreases ls.len() - i,
{
    if i < 0 || i >= ls.len() {
        acc
    } else {
        disk_from(
            ls,
            i + 1,
            match line_disk(ls[i]) {
                Some(n) => Some(n),
                None => acc,
            },
        )
    }
}

/// The partition number on a line describing a system (EFI) partition.
pub open spec fn line_esp(line: Seq<char>) -> Option<nat> {
    if contains(lowercase(line), "system"@) || contains(lowercase(line), "系统"@) {
        number_after(ws_tokens(line), 0, "partition"@, "分区"@)
    } else {
        None
    }
}

/// The first system partition number in `list partition` output.
pub open spec fn esp_from(ls: Seq<Seq<char>>, i: int) -> Option<nat>
    decreases ls.len() - i,
{
    if i < 0 || i >= ls.len() {
        None
    } else if line_esp(ls[i]) is Some {
        line_esp(ls[i])
    } else {
        esp_from(ls, i + 1)
    }
}

fn number_after_exec(parts: &Vec<Vec<char>>, key: &[char], word: &[char]) -> (r: Option<usize>)
    ensures
        match r {
            Some(k) => number_after(lines_view(parts@), 0, key@, word@) == Some(k as nat),
            None => number_after(lines_view(parts@), 0, key@, word@) is None,
        },
{
    let ghost ps = lines_view(parts@);
    let mut i: usize = 0;
    while i < parts.len()
        invariant
            i <= parts.len(),
            ps == lines_view(parts@),
            number_after(ps, 0, key@, word@) == number_after(ps, i as int, key@, word@),
        decreases parts.len() - i,
    {
        let part = parts[i].as_slice();
        assert(part@ == ps[i as int]);
        let low = lowercase_chars(part);
        if (contains_chars(low.as_slice(), key) || chars_eq(part, word)) && i + 1 < parts.len() {
            assert(parts[i + 1]@ == ps[i + 1]);
            if let Some(num) = parse_usize(parts[i + 1].as_slice()) {
                return Some(num);
            }
        }
        i = i + 1;
    }
    None
}

/// The disk that holds the selected volume, from `diskpart detail volume` output
/// (the last line naming a disk wins).
pub fn parse_disk_number(stdout: &str) -> (r: Option<usize>)
    ensures
        match r {
            Some(k) => disk_from(lines_of(stdout@), 0, None) == Some(k as nat),
            None => disk_from(lines_of(stdout@), 0, None) is None,
        },
{
    let text = to_chars(stdout);
    let ls = lines(text.as_slice());
    let key = to_chars("disk");
    let word = to_chars("磁盘");
    let mut acc: Option<usize> = None;
    let mut i: usize = 0;
    while i < ls.len()
        invariant
            i <= ls.len(),
            lines_view(ls@) == lines_of(stdout@),
            key@ == "disk"@,
            word@ == "磁盘"@,
            acc matches Some(a) ==> a <= usize::MAX,
            disk_from(lines_of(stdout@), 0, None) == disk_from(
                lines_of(stdout@),
                i as int,
                match acc {
                    Some(a) => Some(a as nat),
                    None => None,
                },
            ),
        decreases ls.len() - i,
    {
        let line = ls[i].as_slice();
        assert(line@ == lines_of(stdout@)[i as int]);
        let low = lowercase_chars(line);
        if contains_chars(low.as_slice(), key.as_slice()) || contains_chars(low.as_slice(), word.as_slice()) {
            let toks = split_whitespace(line);
            if let Some(n) = number_after_exec(&toks, key.as_slice(), word.as_slice()) {
                acc = Some(n);
            }
        }
        i = i + 1;
    }
    acc
}

/// The EFI system partition number from `diskpart list partition` output.
pub fn parse_esp_partition(stdout: &str) -> (r: Option<usize>)
    ensures
        match r {
            Some(k) => esp_from(lines_of(stdout@), 0) == Some(k as nat),
            None => esp_from(lines_of(stdout@), 0) is None,
        },
{
    let text = to_chars(stdout);
    let ls = lines(text.as_slice());
    let system = to_chars("system");
    let system_cn = to_chars("系统");
    let key = to_chars("partition");
    let word = to_chars("分区");
    let mut i: usize = 0;
    while i < ls.len()
        invariant
            i <= ls.len(),
            lines_view(ls@) == lines_of(stdout@),
            system@ == "system"@,
            system_cn@ == "系统"@,
            key@ == "partition"@,
            word@ == "分区"@,
            esp_from(lines_of(stdout@), 0) == esp_from(lines_of(stdout@), i as int),
        decreases ls.len() - i,
    {
        let line = ls[i].as_slice();
        assert(line@ == lines_of(stdout@)[i as int]);
        let low = lowercase_chars(line);
        if contains_chars(low.as_slice(), system.as_slice()) || contains_chars(low.as_slice(), system_cn.as_slice()) {
            let toks = split_whitespace(line);
            if let Some(n) = number_after_exec(&toks, key.as_slice(), word.as_slice()) {
                return Some(n);
            }
        }
        i = i + 1;
    }
    None
}

/// The volume name given to diskpart: the partition with trailing `:` and then
/// trailing `\` removed.
pub open spec fn volume_name(p: Seq<char>) -> Seq<char> {
    strip_trailing(strip_trailing(p, ':'), '\\')
}

/// `select volume <v>` / `detail volume`, to learn the disk of a volume.
pub fn find_disk_script(windows_partition: &str) -> (r: String)
    ensures
        r@ == "select volume "@ + volume_name(windows_partition@) + "\ndetail volume\n"@,
{
    let p = to_chars(windows_partition);
    let a = strip_trailing_char(p.as_slice(), ':');
    let b = strip_trailing_char(a.as_slice(), '\\');
    let mut s = str_to_string("select volume ");
    let v = chars_to_string(b.as_slice());
    push_str(&mut s, v.as_str());
    push_str(&mut s, "\ndetail volume\n");
    s
}

/// `select disk <d>` / `list partition`.
pub fn list_partition_script(disk: usize) -> (r: String)
    ensures
        r@ == "select disk "@ + dec(disk as nat) + "\nlist partition\n"@,
{
    let mut s = str_to_string("select disk ");
    push_dec(&mut s, disk as u64);
    push_str(&mut s, "\nlist partition\n");
    s
}

/// Assigns letter S to partition `part` of disk `disk`.
pub fn assign_esp_script(disk: usize, part: usize) -> (r: String)
    ensures
        r@ == "select disk "@ + dec(disk as nat) + "\nselect partition "@ + dec(part as nat)
            + "\nassign letter=S\n"@,
{
    let mut s = str_to_string("select disk ");
    push_dec(&mut s, disk as u64);
    push_str(&mut s, "\nselect partition ");
    push_dec(&mut s, part as u64);
    push_str(&mut s, "\nassign letter=S\n");
    s
}

/// Marks partition `part` of disk `disk` active.
pub fn set_active_script(disk: usize, part: usize) -> (r: String)
    ensures
        r@ == "select disk "@ + dec(disk as nat) + "\r\nselect partition "@ + dec(part as nat)
            + "\r\nactive\r\n"@,
{
    let mut s = str_to_string("select disk ");
    push_dec(&mut s, disk as u64);
    push_str(&mut s, "\r\nselect partition ");
    push_dec(&mut s, part as u64);
    push_str(&mut s, "\r\nactive\r\n");
    s
}

/// Marks the partition of a volume active, by its letter (trailing `\` and then `:` removed).
pub fn set_active_by_letter_script(boot_letter: &str) -> (r: String)
    ensures
        r@ == "select volume "@ + strip_trailing(strip_trailing(boot_letter@, '\\'), ':')
            + "\r\nactive\r\n"@,
{
    let p = to_chars(boot_letter);
    let a = strip_trailing_char(p.as_slice(), '\\');
    let b = strip_trailing_char(a.as_slice(), ':');
    let mut s = str_to_string("select volume ");
    let v = chars_to_string(b.as_slice());
    push_str(&mut s, v.as_str());
    push_str(&mut s, "\r\nactive\r\n");
    s
}

/// Gives partition `part` of disk `disk` the drive letter `letter`.
pub fn assign_letter_script(disk: u32, part: u32, letter: char) -> (r: String)
    ensures
        r@ == "select disk "@ + dec(disk as nat) + "\r\nselect partition "@ + dec(part as nat)
            + "\r\nassign letter="@ + seq![letter] + "\r\n"@,
{
    let mut s = str_to_string("select disk ");
    push_dec(&mut s, disk as u64);
    push_str(&mut s, "\r\nselect partition ");
    push_dec(&mut s, part as u64);
    push_str(&mut s, "\r\nassign letter=");
    push_char(&mut s, letter);
    push_str(&mut s, "\r\n");
    assert(s@ =~= "select disk "@ + dec(disk as nat) + "\r\nselect partition "@ + dec(part as nat)
        + "\r\nassign letter="@ + seq![letter] + "\r\n"@);
    s
}

// ---------------------------------------------------------------------------
// Legacy boot partition
// ---------------------------------------------------------------------------

/// Where a legacy (BIOS) boot loader goes.
#[derive(Debug, Clone, PartialEq, Eq)]
pub enum LegacyBootTarget {
    /// The separate active system partition; it still needs a drive letter.
    SystemPartition { disk: u32, partition: u32 },
    /// The Windows partition itself, which already has `letter`.
    WindowsPartition { letter: String, disk: u32, partition: u32 },
}

/// The upper-cased drive letter of a partition name such as `C:` or `C:\`.
pub open spec fn windows_letter(p: Seq<char>) -> Option<char> {
    let t = strip_trailing(strip_trailing(p, '\\'), ':');
    if t.len() > 0 {
        Some(ascii_upper(t[0]))
    } else {
        None
    }
}

/// First partition, from position `p` on, whose letter matches `wc` (any case).
pub open spec fn part_with_letter(parts: Seq<DiskPartitionInfo>, p: int, wc: char) -> Option<int>
    decreases parts.len() - p,
{
    if p < 0 || p >= parts.len() {
        None
    } else if parts[p].drive_letter is Some && ascii_upper(parts[p].drive_letter->0) == wc {
        Some(p)
    } else {
        part_with_letter(parts, p + 1, wc)
    }
}

/// (disk number, partition number) of the first partition lettered `wc`, disks in order.
pub open spec fn locate_letter(disks: Seq<PhysicalDisk>, d: int, wc: char) -> Option<(u32, u32)>
    decreases disks.len() - d,
{
    if d < 0 || d >= disks.len() {
        None
    } else {
        match part_with_letter(disks[d].partitions@, 0, wc) {
            Some(p) => Some((disks[d].disk_number, disks[d].partitions@[p].partition_number)),
            None => locate_letter(disks, d + 1, wc),
        }
    }
}

/// First active partition from position `p` on.
pub open spec fn active_part(parts: Seq<DiskPartitionInfo>, p: int) -> Option<u32>
    decreases parts.len() - p,
{
    if p < 0 || p >= parts.len() {
        None
    } else if parts[p].is_active {
        Some(parts[p].partition_number)
    } else {
        active_part(parts, p + 1)
    }
}

/// The active partition of the first disk numbered `n`, from disk `d` on.
pub open spec fn active_on_disk(disks: Seq<PhysicalDisk>, d: int, n: u32) -> Option<u32>
    decreases disks.len() - d,
{
    if d < 0 || d >= disks.len() {
        None
    } else if disks[d].disk_number == n {
        active_part(disks[d].partitions@, 0)
    } else {
        active_on_disk(disks, d + 1, n)
    }
}

/// The legacy boot partition: a separate active partition on the Windows partition's
/// disk when there is one, else the Windows partition itself.
pub open spec fn legacy_target_spec(disks: Seq<PhysicalDisk>, wp: Seq<char>) -> Result<(bool, u32, u32), ()> {
    match windows_letter(wp) {
        None => Err(()),
        Some(wc) => match locate_letter(disks, 0, wc) {
            None => Err(()),
            Some((dn, win_part)) => match active_on_disk(disks, 0, dn) {
                Some(ap) => if ap != 0 && ap != win_part {
                    Ok((true, dn, ap))
                } else {
                    Ok((false, dn, win_part))
                },
                None => Ok((false, dn, win_part)),
            },
        },
    }
}

proof fn lemma_part_with_letter(parts: Seq<DiskPartitionInfo>, p: int, wc: char) -> (q: int)
    requires
        0 <= p,
        part_with_letter(parts, p, wc) is Some,
    ensures
        q == part_with_letter(parts, p, wc)->0,
        p <= q < parts.len(),
        parts[q].drive_letter is Some && ascii_upper(parts[q].drive_letter->0) == wc,
    decreases parts.len() - p,
{
    if parts[p].drive_letter is Some && ascii_upper(parts[p].drive_letter->0) == wc {
        p
    } else {
        lemma_part_with_letter(parts, p + 1, wc)
    }
}

proof fn lemma_locate_letter(disks: Seq<PhysicalDisk>, d: int, wc: char) -> (w: (int, int))
    requires
        0 <= d,
        locate_letter(disks, d, wc) is Some,
    ensures
        d <= w.0 < disks.len(),
        0 <= w.1 < disks[w.0].partitions@.len(),
        locate_letter(disks, d, wc) == Some((disks[w.0].disk_number, disks[w.0].partitions@[w.1].partition_number)),
        disks[w.0].partitions@[w.1].drive_letter is Some,
        ascii_upper(disks[w.0].partitions@[w.1].drive_letter->0) == wc,
    decreases disks.len() - d,
{
    match part_with_letter(disks[d].partitions@, 0, wc) {
        Some(p) => {
            let q = lemma_part_with_letter(disks[d].partitions@, 0, wc);
            (d, q)
        },
        None => lemma_locate_letter(disks, d + 1, wc),
    }
}

proof fn lemma_active_part(parts: Seq<DiskPartitionInfo>, p: int) -> (q: int)
    requires
        0 <= p,
        active_part(parts, p) is Some,
    ensures
        p <= q < parts.len(),
        parts[q].is_active,
        parts[q].partition_number == active_part(parts, p)->0,
        forall|j: int| p <= j < q ==> !(#[trigger] parts[j]).is_active,
    decreases parts.len() - p,
{
    if parts[p].is_active {
        p
    } else {
        lemma_active_part(parts, p + 1)
    }
}

proof fn lemma_active_on_disk(disks: Seq<PhysicalDisk>, d: int, n: u32) -> (e: int)
    requires
        0 <= d,
        active_on_disk(disks, d, n) is Some,
    ensures
        d <= e < disks.len(),
        disks[e].disk_number == n,
        forall|k: int| d <= k < e ==> (#[trigger] disks[k]).disk_number != n,
        active_part(disks[e].partitions@, 0) == active_on_disk(disks, d, n),
    decreases disks.len() - d,
{
    if disks[d].disk_number == n {
        d
    } else {
        lemma_active_on_disk(disks, d + 1, n)
    }
}

/// When the legacy boot loader goes to a separate system partition, that is the
/// first active partition of the first disk with the Windows partition's disk
/// number, and that number is the disk holding the Windows partition: an active
/// partition on another disk never decides it.
pub proof fn lemma_legacy_system_partition_on_windows_disk(disks: Seq<PhysicalDisk>, wp: Seq<char>, dn: u32, ap: u32)
    requires
        legacy_target_spec(disks, wp) == Ok::<(bool, u32, u32), ()>((true, dn, ap)),
    ensures
        exists|d: int, p: int|
            #![trigger disks[d].partitions@[p]]
            0 <= d < disks.len() && 0 <= p < disks[d].partitions@.len() && disks[d].disk_number == dn
                && disks[d].partitions@[p].drive_letter is Some && windows_letter(wp) == Some(
                ascii_upper(disks[d].partitions@[p].drive_letter->0),
            ),
        exists|d: int, q: int|
            #![trigger disks[d].partitions@[q]]
            0 <= d < disks.len() && disks[d].disk_number == dn && (forall|k: int|
                0 <= k < d ==> (#[trigger] disks[k]).disk_number != dn) && 0 <= q < disks[d].partitions@.len()
                && disks[d].partitions@[q].is_active && disks[d].partitions@[q].partition_number == ap && (
            forall|j: int| 0 <= j < q ==> !(#[trigger] disks[d].partitions@[j]).is_active),
        ap != 0,
{
    let wc = windows_letter(wp)->0;
    let (d1, p1) = lemma_locate_letter(disks, 0, wc);
    assert(disks[d1].partitions@[p1].drive_letter is Some);
    let e = lemma_active_on_disk(disks, 0, dn);
    let q = lemma_active_part(disks[e].partitions@, 0);
    assert(disks[e].partitions@[q].is_active);
}

fn windows_letter_exec(p: &str) -> (r: Option<char>)
    ensures
        r == windows_letter(p@),
{
    let v = to_chars(p);
    let a = strip_trailing_char(v.as_slice(), '\\');
    let b = strip_trailing_char(a.as_slice(), ':');
    if b.len() > 0 {
        Some(to_ascii_upper(b[0]))
    } else {
        None
    }
}

fn locate_letter_exec(disks: &Vec<PhysicalDisk>, wc: char) -> (r: Option<(u32, u32)>)
    ensures
        r == locate_letter(disks@, 0, wc),
{
    let mut d: usize = 0;
    while d < disks.len()
        invariant
            d <= disks.len(),
            locate_letter(disks@, 0, wc) == locate_letter(disks@, d as int, wc),
        decreases disks.len() - d,
    {
        let parts = &disks[d].partitions;
        let mut p: usize = 0;
        while p < parts.len()
            invariant
                d < disks.len(),
                parts@ == disks@[d as int].partitions@,
                locate_letter(disks@, 0, wc) == locate_letter(disks@, d as int, wc),
                p <= parts.len(),
                part_with_letter(parts@, 0, wc) == part_with_letter(parts@, p as int, wc),
            decreases parts.len() - p,
        {
            if let Some(dl) = parts[p].drive_letter {
                if to_ascii_upper(dl) == wc {
                    return Some((disks[d].disk_number, parts[p].partition_number));
                }
            }
            p = p + 1;
        }
        d = d + 1;
    }
    None
}

fn active_on_disk_exec(disks: &Vec<PhysicalDisk>, n: u32) -> (r: Option<u32>)
    ensures
        r == active_on_disk(disks@, 0, n),
{
    let mut d: usize = 0;
    while d < disks.len()
        invariant
            d <= disks.len(),
            active_on_disk(disks@, 0, n) == active_on_disk(disks@, d as int, n),
        decreases disks.len() - d,
    {
        if disks[d].disk_number == n {
            let parts = &disks[d].partitions;
            let mut p: usize = 0;
            while p < parts.len()
                invariant
                    d < disks.len(),
                    disks@[d as int].disk_number == n,
                    parts@ == disks@[d as int].partitions@,
                    active_on_disk(disks@, 0, n) == active_part(parts@, 0),
                    p <= parts.len(),
                    active_part(parts@, 0) == active_part(parts@, p as int),
                decreases parts.len() - p,
            {
                if parts[p].is_active {
                    return Some(parts[p].partition_number);
                }
                p = p + 1;
            }
            return None;
        }
        d = d + 1;
    }
    None
}

/// Chooses where a legacy boot loader for `windows_partition` goes.
pub fn prepare_legacy_boot_partition(disks: &Vec<PhysicalDisk>, windows_partition: &str) -> (r: Result<LegacyBootTarget, BootError>)
    ensures
        match legacy_target_spec(disks@, windows_partition@) {
            Err(()) => r matches Err(BootError::DiskNotFound(p)) && p@ == windows_partition@,
            Ok((true, dn, ap)) => r == Ok::<LegacyBootTarget, BootError>(
                LegacyBootTarget::SystemPartition { disk: dn, partition: ap },
            ),
            Ok((false, dn, wp)) => r matches Ok(LegacyBootTarget::WindowsPartition { letter, disk, partition })
                && letter@ == windows_partition@ && disk == dn && partition == wp,
        },
{
    let wc = match windows_letter_exec(windows_partition) {
        Some(c) => c,
        None => {
            return Err(BootError::DiskNotFound(str_to_string(windows_partition)));
        },
    };
    let (dn, win_part) = match locate_letter_exec(disks, wc) {
        Some(x) => x,
        None => {
            return Err(BootError::DiskNotFound(str_to_string(windows_partition)));
        },
    };
    match active_on_disk_exec(disks, dn) {
        Some(ap) => {
            if ap != 0 && ap != win_part {
                return Ok(LegacyBootTarget::SystemPartition { disk: dn, partition: ap });
            }
        },
        None => {},
    }
    Ok(
        LegacyBootTarget::WindowsPartition {
            letter: str_to_string(windows_partition),
            disk: dn,
            partition: win_part,
        },
    )
}

} // verus!
