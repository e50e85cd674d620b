//! Starting the simpler tool jobs (driver backup and import, storage-controller
//! drivers, removing apps, time sync, batch format), the messages their background
//! work ends with, and how the tool dialogs show partitions and messages.
use vstd::prelude::*;
use crate::command::strings_view;
use crate::text::{contains, contains_chars, push_str, str_to_string, to_chars, chars_eq};
use crate::tools_state::{AppxDialog, BatchFormatDialog, HashDialog, HashVerifyResult, MessageJob, NvidiaDialog, NvidiaUninstallResult, WindowsPartitionInfo};
use crate::text::{dec, format_two_decimals, hundredths, push_dec, trim, trim_chars, two_decimals};
use crate::app_state::App;

verus! {

#[derive(Debug, Clone, Copy, PartialEq, Eq, Structural)]
pub enum DriverBackupMode {
    Export,
    Import,
}

/// A driver job for the background: export the drivers of the system on `target`
/// to `path`, or import those in `path` into it.
pub struct DriverJob {
    pub mode: DriverBackupMode,
    pub target: String,
    pub path: String,
}

pub open spec fn busy_text(mode: DriverBackupMode) -> Seq<char> {
    match mode {
        DriverBackupMode::Export => "正在导出驱动，请稍候..."@,
        DriverBackupMode::Import => "正在导入驱动，请稍候..."@,
    }
}

fn clone_strings(v: &Vec<String>) -> (r: Vec<String>)
    ensures
        strings_view(r@) == strings_view(v@),
{
    let mut r: Vec<String> = Vec::new();
    let mut i: usize = 0;
    while i < v.len()
        invariant
            i <= v.len(),
            strings_view(r@) == strings_view(v@).take(i as int),
        decreases v.len() - i,
    {
        let ghost before = strings_view(r@);
        r.push(str_to_string(v[i].as_str()));
        assert(strings_view(r@) =~= before.push(v@[i as int]@));
        assert(strings_view(v@).take(i + 1) =~= strings_view(v@).take(i as int).push(v@[i as int]@));
        i = i + 1;
    }
    assert(strings_view(v@).take(v.len() as int) =~= strings_view(v@));
    r
}

impl MessageJob {
    /// Starts exporting or importing drivers: a directory and a system partition
    /// are needed first (the directory is asked for first).
    pub fn start_driver_backup_action(&mut self, path: &str, target: Option<&str>, mode: DriverBackupMode) -> (r: Option<DriverJob>)
        ensures
            path@.len() == 0 ==> r is None && final(self).message@ == "请指定目录路径"@
                && final(self).loading == old(self).loading,
            path@.len() > 0 && target is None ==> r is None && final(self).message@ == "请选择系统分区"@
                && final(self).loading == old(self).loading,
            path@.len() > 0 && target is Some ==> (r matches Some(j) && j.mode == mode && j.path@ == path@
                && j.target@ == target->0@ && final(self).loading && final(self).message@ == busy_text(mode)),
    {
        if to_chars(path).len() == 0 {
            self.message = str_to_string("请指定目录路径");
            return None;
        }
        match target {
            None => {
                self.message = str_to_string("请选择系统分区");
                None
            },
            Some(t) => {
                self.loading = true;
                self.message = match mode {
                    DriverBackupMode::Export => str_to_string("正在导出驱动，请稍候..."),
                    DriverBackupMode::Import => str_to_string("正在导入驱动，请稍候..."),
                };
                Some(DriverJob { mode, target: str_to_string(t), path: str_to_string(path) })
            },
        }
    }

    /// Starts importing the storage-controller drivers in `driver_dir` into the
    /// system on `target`; the folder must exist (`dir_exists`).
    pub fn start_import_storage_driver(&mut self, target: Option<&str>, driver_dir: &str, dir_exists: bool) -> (r: Option<(String, String)>)
        ensures
            target is None ==> r is None && final(self).message@ == "请先选择目标分区"@
                && final(self).loading == old(self).loading,
            target is Some && !dir_exists ==> r is None && final(self).message@ == "驱动目录不存在: "@ + driver_dir@
                && final(self).loading == old(self).loading,
            target is Some && dir_exists ==> (r matches Some((t, d)) && t@ == target->0@ && d@ == driver_dir@
                && final(self).loading && final(self).message@ == "正在导入驱动..."@),
    {
        match target {
            None => {
                self.message = str_to_string("请先选择目标分区");
                None
            },
            Some(t) => {
                if !dir_exists {
                    let mut m = str_to_string("驱动目录不存在: ");
                    push_str(&mut m, driver_dir);
                    self.message = m;
                    return None;
                }
                self.loading = true;
                self.message = str_to_string("正在导入驱动...");
                Some((str_to_string(t), str_to_string(driver_dir)))
            },
        }
    }

    /// Starts a time sync, unless one runs (`false`).
    pub fn start_time_sync(&mut self) -> (r: bool)
        ensures
            r == !old(self).loading,
            r ==> final(self).loading && final(self).message@ == "正在连接NTP服务器..."@,
            !r ==> *final(self) == *old(self),
    {
        if self.loading {
            return false;
        }
        self.loading = true;
        self.message = str_to_string("正在连接NTP服务器...");
        true
    }
}

impl AppxDialog {
    /// Starts removing the `selected` apps from the chosen system: a system and at
    /// least one app are needed.
    pub fn start_remove_appx(&mut self, selected: &Vec<String>) -> (r: Option<(String, Vec<String>)>)
        ensures
            old(self).target is None ==> r is None && final(self).message@ == "请先选择目标分区"@
                && final(self).loading == old(self).loading,
            old(self).target is Some && selected@.len() == 0 ==> r is None
                && final(self).message@ == "请先选择要移除的应用"@ && final(self).loading == old(self).loading,
            old(self).target is Some && selected@.len() > 0 ==> (r matches Some((t, apps))
                && t@ == old(self).target->0@ && strings_view(apps@) == strings_view(selected@)
                && final(self).loading && final(self).message@ == "正在移除应用..."@),
            final(self).target == old(self).target,
            final(self).list == old(self).list,
    {
        let target = match &self.target {
            None => {
                self.message = str_to_string("请先选择目标分区");
                return None;
            },
            Some(t) => str_to_string(t.as_str()),
        };
        if selected.len() == 0 {
            self.message = str_to_string("请先选择要移除的应用");
            return None;
        }
        self.loading = true;
        self.message = str_to_string("正在移除应用...");
        Some((target, clone_strings(selected)))
    }
}

/// A batch format for the background: each partition is formatted with the label
/// and file system given.
pub struct BatchFormatJob {
    pub partitions: Vec<String>,
    pub label: String,
    pub file_system: String,
}

impl BatchFormatDialog {
    /// Starts formatting the `selected` partitions as NTFS labelled `新加卷`, unless
    /// a batch runs.
    pub fn start_batch_format(&mut self, selected: &Vec<String>) -> (r: Option<BatchFormatJob>)
        ensures
            old(self).loading ==> r is None && *final(self) == *old(self),
            !old(self).loading ==> (r matches Some(j) && strings_view(j.partitions@) == strings_view(selected@)
                && j.label@ == "新加卷"@ && j.file_system@ == "NTFS"@ && final(self).loading
                && final(self).message@ == "正在格式化分区..."@),
            final(self).partitions == old(self).partitions,
            final(self).partitions_loading == old(self).partitions_loading,
    {
        if self.loading {
            return None;
        }
        self.loading = true;
        self.message = str_to_string("正在格式化分区...");
        Some(BatchFormatJob {
            partitions: clone_strings(selected),
            label: str_to_string("新加卷"),
            file_system: str_to_string("NTFS"),
        })
    }
}

/// What a driver job ends with: its message on success, or why it failed; an
/// import from a missing folder fails without running.
pub open spec fn driver_job_message(j: DriverJob, dir_exists: bool, result: Result<(), String>) -> Result<Seq<char>, Seq<char>> {
    match j.mode {
        DriverBackupMode::Export => match result {
            Ok(()) => Ok("驱动导出成功: "@ + j.target@ + " -> "@ + j.path@),
            Err(e) => Err("驱动导出失败: "@ + e@),
        },
        DriverBackupMode::Import => if !dir_exists {
            Err("驱动目录不存在: "@ + j.path@)
        } else {
            match result {
                Ok(()) => Ok("驱动导入成功！"@),
                Err(e) => Err("驱动导入失败: "@ + e@),
            }
        },
    }
}

pub open spec fn res_view(r: Result<String, String>) -> Result<Seq<char>, Seq<char>> {
    match r {
        Ok(s) => Ok(s@),
        Err(s) => Err(s@),
    }
}

/// The message a driver job ends with (see [`driver_job_message`]); `result` is
/// the outcome of the DISM call, which an import from a missing folder never makes.
pub fn driver_job_outcome(j: &DriverJob, dir_exists: bool, result: Result<(), String>) -> (r: Result<String, String>)
    ensures
        res_view(r) == driver_job_message(*j, dir_exists, result),
{
    match j.mode {
        DriverBackupMode::Export => match result {
            Ok(()) => {
                let mut m = str_to_string("驱动导出成功: ");
                push_str(&mut m, j.target.as_str());
                push_str(&mut m, " -> ");
                push_str(&mut m, j.path.as_str());
                Ok(m)
            },
            Err(e) => {
                let mut m = str_to_string("驱动导出失败: ");
                push_str(&mut m, e.as_str());
                Err(m)
            },
        },
        DriverBackupMode::Import => if !dir_exists {
            let mut m = str_to_string("驱动目录不存在: ");
            push_str(&mut m, j.path.as_str());
            Err(m)
        } else {
            match result {
                Ok(()) => Ok(str_to_string("驱动导入成功！")),
                Err(e) => {
                    let mut m = str_to_string("驱动导入失败: ");
                    push_str(&mut m, e.as_str());
                    Err(m)
                },
            }
        },
    }
}

/// The message a storage-controller driver import ends with.
pub fn storage_driver_outcome(result: Result<(), String>) -> (r: Result<String, String>)
    ensures
        res_view(r) == match result {
            Ok(()) => Ok("驱动导入成功！"@),
            Err(e) => Err::<Seq<char>, Seq<char>>("驱动导入失败: "@ + e@),
        },
{
    match result {
        Ok(()) => Ok(str_to_string("驱动导入成功！")),
        Err(e) => {
            let mut m = str_to_string("驱动导入失败: ");
            push_str(&mut m, e.as_str());
            Err(m)
        },
    }
}

/// The first listed partition with letter `letter`, from `i` on.
pub open spec fn partition_with_letter(ps: Seq<WindowsPartitionInfo>, letter: Seq<char>, i: int) -> Option<int>
    decreases ps.len() - i,
{
    if i < 0 || i >= ps.len() {
        None
    } else if ps[i].letter@ == letter {
        Some(i)
    } else {
        partition_with_letter(ps, letter, i + 1)
    }
}

pub open spec fn partition_display(ps: Seq<WindowsPartitionInfo>, letter: Seq<char>) -> Seq<char> {
    match partition_with_letter(ps, letter, 0) {
        Some(i) => ps[i].letter@ + " ["@ + ps[i].windows_version@ + "] ["@ + ps[i].architecture@ + "]"@,
        None => letter,
    }
}

/// How a partition is shown in the tool dialogs: `X: [version] [architecture]` when
/// it is a listed Windows partition, else its letter.
pub fn format_partition_display(partitions: &Vec<WindowsPartitionInfo>, letter: &str) -> (r: String)
    ensures
        r@ == partition_display(partitions@, letter@),
{
    let lv = to_chars(letter);
    let mut i: usize = 0;
    while i < partitions.len()
        invariant
            i <= partitions.len(),
            lv@ == letter@,
            partition_with_letter(partitions@, letter@, 0) == partition_with_letter(partitions@, letter@, i as int),
        decreases partitions.len() - i,
    {
        let pv = to_chars(partitions[i].letter.as_str());
        if chars_eq(pv.as_slice(), lv.as_slice()) {
            let p = &partitions[i];
            let mut s = str_to_string(p.letter.as_str());
            push_str(&mut s, " [");
            push_str(&mut s, p.windows_version.as_str());
            push_str(&mut s, "] [");
            push_str(&mut s, p.architecture.as_str());
            push_str(&mut s, "]");
            return s;
        }
        i = i + 1;
    }
    str_to_string(letter)
}

/// How a tool message is coloured.
#[derive(Debug, Clone, Copy, PartialEq, Eq, Structural)]
pub enum MessageTone {
    Success,
    Failure,
    Neutral,
}

pub open spec fn tone_of(m: Seq<char>) -> MessageTone {
    if contains(m, "成功"@) {
        MessageTone::Success
    } else if contains(m, "失败"@) || contains(m, "错误"@) || contains(m, "不存在"@) {
        MessageTone::Failure
    } else {
        MessageTone::Neutral
    }
}

/// A message that says `成功` reads as success; one that says `失败`, `错误` or
/// `不存在` as failure; any other as neutral.
pub fn get_message_color(message: &str) -> (r: MessageTone)
    ensures
        r == tone_of(message@),
{
    let m = to_chars(message);
    let ok = to_chars("成功");
    let f1 = to_chars("失败");
    let f2 = to_chars("错误");
    let f3 = to_chars("不存在");
    if contains_chars(m.as_slice(), ok.as_slice()) {
        MessageTone::Success
    } else if contains_chars(m.as_slice(), f1.as_slice()) || contains_chars(m.as_slice(), f2.as_slice())
        || contains_chars(m.as_slice(), f3.as_slice()) {
        MessageTone::Failure
    } else {
        MessageTone::Neutral
    }
}

/// Which NVIDIA driver removal runs.
pub enum NvidiaJob {
    /// From the running system.
    Online,
    /// From the offline system on this partition.
    Offline(String),
}

impl NvidiaDialog {
    /// Starts removing the NVIDIA drivers of the chosen system (`__CURRENT__`: the
    /// running one), unless a removal runs.
    pub fn start_nvidia_uninstall(&mut self, target: Option<&str>) -> (r: Option<NvidiaJob>)
        ensures
            old(self).loading ==> r is None && *final(self) == *old(self),
            !old(self).loading && target is None ==> r is None && final(self).message@ == "请先选择目标系统"@
                && !final(self).loading,
            !old(self).loading && target is Some ==> final(self).loading
                && final(self).message@ == "正在卸载英伟达驱动..."@
                && (if target->0@ == "__CURRENT__"@ {
                    r matches Some(NvidiaJob::Online)
                } else {
                    r matches Some(NvidiaJob::Offline(t)) && t@ == target->0@
                }),
            final(self).hardware_summary == old(self).hardware_summary,
            final(self).hardware_loading == old(self).hardware_loading,
    {
        if self.loading {
            return None;
        }
        match target {
            None => {
                self.message = str_to_string("请先选择目标系统");
                None
            },
            Some(t) => {
                self.loading = true;
                self.message = str_to_string("正在卸载英伟达驱动...");
                let tv = to_chars(t);
                let cur = to_chars("__CURRENT__");
                if chars_eq(tv.as_slice(), cur.as_slice()) {
                    Some(NvidiaJob::Online)
                } else {
                    Some(NvidiaJob::Offline(str_to_string(t)))
                }
            },
        }
    }
}

/// What a removal reports: the tool's own result, or a failure that removed nothing.
pub fn nvidia_uninstall_outcome(result: Result<NvidiaUninstallResult, String>) -> (r: NvidiaUninstallResult)
    ensures
        match result {
            Ok(x) => r == x,
            Err(e) => !r.success && r.message@ == "卸载失败: "@ + e@ && !r.needs_reboot && r.uninstalled_count == 0
                && r.failed_count == 0,
        },
{
    match result {
        Ok(x) => x,
        Err(e) => {
            let mut m = str_to_string("卸载失败: ");
            push_str(&mut m, e.as_str());
            NvidiaUninstallResult { success: false, message: m, needs_reboot: false, uninstalled_count: 0, failed_count: 0 }
        },
    }
}

impl HashDialog {
    /// Starts hashing `file_path` (to compare with `expected`): nothing while a hash
    /// runs or without a path; a missing file (`file_exists`) gives an error result
    /// at once.
    pub fn start_hash_verify(&mut self, file_path: &str, expected: &str, file_exists: bool) -> (r: Option<(String, String)>)
        ensures
            old(self).loading || file_path@.len() == 0 ==> r is None && *final(self) == *old(self),
            !old(self).loading && file_path@.len() > 0 && !file_exists ==> r is None
                && !final(self).loading && final(self).progress == old(self).progress
                && (final(self).result matches Some(x) && x.file_path@ == file_path@ && x.file_size == 0
                    && x.sha256@.len() == 0 && x.expected@.len() == 0 && x.matched is None
                    && (x.error matches Some(e) && e@ == "文件不存在"@)),
            !old(self).loading && file_path@.len() > 0 && file_exists ==> (r matches Some((p, e)) && p@ == file_path@
                && e@ == expected@) && final(self).loading && final(self).result is None
                && final(self).progress == Some(0u8),
    {
        if self.loading {
            return None;
        }
        if to_chars(file_path).len() == 0 {
            return None;
        }
        if !file_exists {
            self.result = Some(HashVerifyResult {
                file_path: str_to_string(file_path),
                file_size: 0,
                sha256: String::new(),
                expected: String::new(),
                matched: None,
                error: Some(str_to_string("文件不存在")),
            });
            return None;
        }
        self.loading = true;
        self.result = None;
        self.progress = Some(0);
        Some((str_to_string(file_path), str_to_string(expected)))
    }
}

/// The percentage hashed after `read` of `size` bytes (0 for an empty file).
pub fn hash_progress(read: u64, size: u64) -> (r: u8)
    requires
        size <= u64::MAX / 100,
    ensures
        size == 0 ==> r == 0,
        size > 0 ==> r as int == (if read < size { read as int } else { size as int }) * 100 / (size as int),
{
    if size > 0 {
        let done = if read < size { read } else { size };
        assert(done * 100 <= size * 100) by (nonlinear_arith)
            requires
                done <= size,
        ;
        let q = done * 100 / size;
        assert((done as int) * 100 / (size as int) <= 100) by (nonlinear_arith)
            requires
                done <= size,
                size > 0,
        ;
        q as u8
    } else {
        0
    }
}

/// The result of hashing `file_path` (`file_size` bytes): the hash and, when a hash
/// was expected (not blank), whether it matched (`matches`, as the comparison
/// said); or why reading or hashing failed.
pub fn hash_result(file_path: &str, file_size: u64, sha: Result<String, String>, expected: &str, matches: bool) -> (r: HashVerifyResult)
    ensures
        r.file_path@ == file_path@,
        r.file_size == file_size,
        match sha {
            Ok(h) => r.sha256@ == h@ && r.expected@ == expected@ && r.error is None
                && r.matched == (if trim(expected@).len() == 0 { None } else { Some(matches) }),
            Err(e) => r.sha256@.len() == 0 && r.expected@.len() == 0 && r.matched is None
                && (r.error matches Some(m) && m@ == "读取/计算失败: "@ + e@),
        },
{
    match sha {
        Ok(h) => {
            let ev = to_chars(expected);
            let t = trim_chars(ev.as_slice());
            let matched = if t.len() == 0 { None } else { Some(matches) };
            HashVerifyResult {
                file_path: str_to_string(file_path),
                file_size,
                sha256: h,
                expected: str_to_string(expected),
                matched,
                error: None,
            }
        },
        Err(e) => {
            let mut m = str_to_string("读取/计算失败: ");
            push_str(&mut m, e.as_str());
            HashVerifyResult {
                file_path: str_to_string(file_path),
                file_size,
                sha256: String::new(),
                expected: String::new(),
                matched: None,
                error: Some(m),
            }
        },
    }
}

/// A file size as the hash dialog shows it: in GB, MB or KB (powers of 1024) with
/// two decimals from 1 KB on, else in bytes.
pub open spec fn hash_size_text(size: nat) -> Seq<char> {
    if size >= 0x4000_0000 {
        two_decimals(hundredths(size, 0x4000_0000)) + " GB"@
    } else if size >= 0x10_0000 {
        two_decimals(hundredths(size, 0x10_0000)) + " MB"@
    } else if size >= 0x400 {
        two_decimals(hundredths(size, 0x400)) + " KB"@
    } else {
        dec(size) + " 字节"@
    }
}

impl App {
    /// Writes a file size for the hash dialog (see [`hash_size_text`]).
    pub fn format_hash_file_size(size: u64) -> (r: String)
        ensures
            r@ == hash_size_text(size as nat),
    {
        let (mut s, unit) = if size >= 0x4000_0000 {
            (format_two_decimals(size, 0x4000_0000), " GB")
        } else if size >= 0x10_0000 {
            (format_two_decimals(size, 0x10_0000), " MB")
        } else if size >= 0x400 {
            (format_two_decimals(size, 0x400), " KB")
        } else {
            let mut b = String::new();
            push_dec(&mut b, size);
            (b, " 字节")
        };
        push_str(&mut s, unit);
        s
    }
}

} // verus!
