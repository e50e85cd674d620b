//! The state of the tool dialogs, and what the results of their background jobs
//! do to it.
use vstd::prelude::*;
use crate::app_state::{App, AfterDownload, Panel, PendingDownload, pe_download};
use crate::expand::{expand_state_fresh, ExpandCDialogState, ExpandCLoadResult, format_gb_one_decimal, gb_text};
use crate::paths::{get_pe_dir, path_join};
use crate::text::{dec, push_dec, push_str, str_to_string};

verus! {

/// A partition holding Windows, as the tool dialogs show it.
pub struct WindowsPartitionInfo {
    pub letter: String,
    pub windows_version: String,
    pub architecture: String,
}

/// An installed APPX package.
pub struct AppxPackage {
    pub package_name: String,
    pub display_name: String,
}

/// A partition offered for batch formatting.
pub struct FormatablePartition {
    pub letter: String,
    pub label: String,
}

/// What formatting one partition gave.
pub struct FormatOutcome {
    pub letter: String,
    pub message: String,
}

/// What a batch format gave.
pub struct BatchFormatResult {
    pub success_count: usize,
    pub fail_count: usize,
    pub results: Vec<FormatOutcome>,
}

/// What a time synchronisation gave.
pub struct TimeSyncResult {
    pub success: bool,
    pub message: String,
    pub old_time: Option<String>,
    pub new_time: Option<String>,
}

/// What removing the NVIDIA drivers gave.
pub struct NvidiaUninstallResult {
    pub success: bool,
    pub message: String,
    pub needs_reboot: bool,
    pub uninstalled_count: usize,
    pub failed_count: usize,
}

/// A graphics device.
pub struct GpuDevice {
    pub name: String,
}

/// The hardware overview of the NVIDIA dialog.
pub struct HardwareSummary {
    pub cpu_name: String,
    pub memory_size: u64,
    pub memory_available: u64,
    pub gpu_devices: Vec<GpuDevice>,
}

/// The outcome of hashing a file.
pub struct HashVerifyResult {
    pub file_path: String,
    pub file_size: u64,
    /// SHA-256 in lower-case hex.
    pub sha256: String,
    /// The expected hash, as the user typed it.
    pub expected: String,
    /// Whether it matched; `None` when nothing was expected.
    pub matched: Option<bool>,
    /// Reading or hashing failed.
    pub error: Option<String>,
}

/// A network adapter.
pub struct NetworkAdapterInfo {
    pub name: String,
    pub description: String,
    pub adapter_type: String,
    pub mac_address: String,
    pub ip_addresses: Vec<String>,
    pub status: String,
    pub speed: u64,
}

/// An installed program.
pub struct SoftwareInfo {
    pub name: String,
    pub version: String,
    pub publisher: String,
}

/// A job that reports with one message.
pub struct MessageJob {
    pub message: String,
    pub loading: bool,
}

/// The cached list of partitions holding Windows.
pub struct WindowsPartitionsCache {
    pub cache: Option<Vec<WindowsPartitionInfo>>,
    pub loading: bool,
}

/// The APPX removal dialog.
pub struct AppxDialog {
    pub target: Option<String>,
    pub list: Vec<AppxPackage>,
    pub message: String,
    pub loading: bool,
}

/// The batch format dialog.
pub struct BatchFormatDialog {
    pub partitions: Vec<FormatablePartition>,
    pub partitions_loading: bool,
    pub message: String,
    pub loading: bool,
}

/// The NVIDIA driver removal dialog.
pub struct NvidiaDialog {
    pub hardware_summary: Option<HardwareSummary>,
    pub hardware_loading: bool,
    pub message: String,
    pub loading: bool,
}

/// The file hash dialog.
pub struct HashDialog {
    pub progress: Option<u8>,
    pub result: Option<HashVerifyResult>,
    pub loading: bool,
}

/// The network information dialog.
pub struct NetworkDialog {
    pub show: bool,
    pub cache: Option<Vec<NetworkAdapterInfo>>,
}

/// The installed software dialog.
pub struct SoftwareDialog {
    pub show: bool,
    pub loading: bool,
    pub list: Vec<SoftwareInfo>,
}

/// The dialog that grows C:.
pub struct ExpandCDialog {
    pub show: bool,
    pub state: ExpandCDialogState,
}

/// The state of the tool dialogs.
pub struct ToolsState {
    pub windows_partitions: WindowsPartitionsCache,
    pub driver_backup: MessageJob,
    pub import_storage_driver: MessageJob,
    pub appx: AppxDialog,
    pub time_sync: MessageJob,
    pub batch_format: BatchFormatDialog,
    pub nvidia: NvidiaDialog,
    pub hash_verify: HashDialog,
    /// The message of the last toolbox action.
    pub tool_message: String,
    pub network: NetworkDialog,
    pub software: SoftwareDialog,
    pub expand_c: ExpandCDialog,
}

/// All tool dialogs but the one named are unchanged.
pub open spec fn same_tools_except_nvidia(a: ToolsState, b: ToolsState) -> bool {
    &&& a.windows_partitions == b.windows_partitions
    &&& a.driver_backup == b.driver_backup
    &&& a.import_storage_driver == b.import_storage_driver
    &&& a.appx == b.appx
    &&& a.time_sync == b.time_sync
    &&& a.batch_format == b.batch_format
    &&& a.hash_verify == b.hash_verify
    &&& a.tool_message == b.tool_message
    &&& a.network == b.network
    &&& a.software == b.software
    &&& a.expand_c == b.expand_c
}

pub open spec fn same_tools_except_hash(a: ToolsState, b: ToolsState) -> bool {
    &&& a.windows_partitions == b.windows_partitions
    &&& a.driver_backup == b.driver_backup
    &&& a.import_storage_driver == b.import_storage_driver
    &&& a.appx == b.appx
    &&& a.time_sync == b.time_sync
    &&& a.batch_format == b.batch_format
    &&& a.nvidia == b.nvidia
    &&& a.tool_message == b.tool_message
    &&& a.network == b.network
    &&& a.software == b.software
    &&& a.expand_c == b.expand_c
}

pub open spec fn same_tools_except_appx(a: ToolsState, b: ToolsState) -> bool {
    &&& a.windows_partitions == b.windows_partitions
    &&& a.driver_backup == b.driver_backup
    &&& a.import_storage_driver == b.import_storage_driver
    &&& a.time_sync == b.time_sync
    &&& a.batch_format == b.batch_format
    &&& a.nvidia == b.nvidia
    &&& a.hash_verify == b.hash_verify
    &&& a.tool_message == b.tool_message
    &&& a.network == b.network
    &&& a.software == b.software
    &&& a.expand_c == b.expand_c
}

pub open spec fn same_tools_except_batch(a: ToolsState, b: ToolsState) -> bool {
    &&& a.windows_partitions == b.windows_partitions
    &&& a.driver_backup == b.driver_backup
    &&& a.import_storage_driver == b.import_storage_driver
    &&& a.appx == b.appx
    &&& a.time_sync == b.time_sync
    &&& a.nvidia == b.nvidia
    &&& a.hash_verify == b.hash_verify
    &&& a.tool_message == b.tool_message
    &&& a.network == b.network
    &&& a.software == b.software
    &&& a.expand_c == b.expand_c
}

/// Everything but the tool dialogs is unchanged.
pub open spec fn same_outside_tools(a: App, b: App) -> bool {
    &&& a.env == b.env
    &&& a.image == b.image
    &&& a.target == b.target
    &&& a.install == b.install
    &&& a.unlock == b.unlock
    &&& a.panel == b.panel
    &&& a.pe_choice == b.pe_choice
    &&& a.pending_download == b.pending_download
    &&& a.error_message == b.error_message
}

// ---------------------------------------------------------------------------
// Hash verification and NVIDIA removal
// ---------------------------------------------------------------------------

pub open spec fn nvidia_message(r: NvidiaUninstallResult) -> Seq<char> {
    if r.success && r.needs_reboot {
        r.message@ + "，建议重启系统"@
    } else {
        r.message@
    }
}

/// The hash dialog after the progress reports and the outcome: the last report is
/// shown; an outcome replaces it and ends the job.
pub open spec fn hash_effect(a: HashDialog, b: HashDialog, progress: Seq<u8>, result: Option<HashVerifyResult>) -> bool {
    if result is None {
        &&& b.loading == a.loading
        &&& b.result == a.result
        &&& b.progress == (if progress.len() > 0 { Some(progress.last()) } else { a.progress })
    } else {
        &&& b.result == result
        &&& !b.loading
        &&& b.progress is None
    }
}

/// The NVIDIA dialog after the hardware overview and the removal outcome: the
/// overview is shown; a removal is reported (with a reboot advice when needed) and,
/// when it succeeded, the overview is reloaded unless that is under way (`reload`).
pub open spec fn nvidia_effect(
    a: NvidiaDialog,
    b: NvidiaDialog,
    hardware: Option<HardwareSummary>,
    result: Option<NvidiaUninstallResult>,
    reload: bool,
) -> bool {
    let mid_loading = if hardware is Some { false } else { a.hardware_loading };
    let mid_summary = if hardware is Some { hardware } else { a.hardware_summary };
    match result {
        None => {
            &&& !reload
            &&& b.hardware_loading == mid_loading
            &&& b.hardware_summary == mid_summary
            &&& b.message == a.message
            &&& b.loading == a.loading
        },
        Some(res) => {
            &&& b.message@ == nvidia_message(res)
            &&& !b.loading
            &&& reload == (res.success && !mid_loading)
            &&& (reload ==> b.hardware_loading && b.hardware_summary is None)
            &&& (!reload ==> b.hardware_loading == mid_loading && b.hardware_summary == mid_summary)
        },
    }
}

impl App {
    /// Takes the progress reports (`progress`, oldest first) and the outcome of the
    /// hashing job: the last report is shown; an outcome replaces it and ends the job.
    pub fn check_hash_verify_status(&mut self, progress: Vec<u8>, result: Option<HashVerifyResult>)
        ensures
            same_outside_tools(*old(self), *final(self)),
            same_tools_except_hash(old(self).tools, final(self).tools),
            hash_effect(old(self).tools.hash_verify, final(self).tools.hash_verify, progress@, result),
    {
        hash_events(&mut self.tools.hash_verify, progress, result);
    }

    /// Takes the hardware overview and the removal outcome of the NVIDIA dialog. A
    /// successful removal is reported (with a reboot advice when one is needed) and
    /// the overview is reloaded; returns whether the caller should read it again.
    #[verifier::rlimit(40)]
    pub fn check_nvidia_uninstall_result(
        &mut self,
        hardware: Option<HardwareSummary>,
        result: Option<NvidiaUninstallResult>,
    ) -> (reload_hardware: bool)
        ensures
            same_outside_tools(*old(self), *final(self)),
            nvidia_effect(old(self).tools.nvidia, final(self).tools.nvidia, hardware, result, reload_hardware),
            same_tools_except_nvidia(old(self).tools, final(self).tools),
    {
        nvidia_events(&mut self.tools.nvidia, hardware, result)
    }

    /// Starts reloading the hardware overview unless it is loading already; returns
    /// whether the caller should read it.
    pub fn start_load_nvidia_hardware_summary(&mut self) -> (r: bool)
        ensures
            same_outside_tools(*old(self), *final(self)),
            r == !old(self).tools.nvidia.hardware_loading,
            final(self).tools.nvidia.hardware_loading,
            r ==> final(self).tools.nvidia.hardware_summary is None,
            !r ==> final(self).tools == old(self).tools,
            final(self).tools.nvidia.message == old(self).tools.nvidia.message,
            final(self).tools.nvidia.loading == old(self).tools.nvidia.loading,
            same_tools_except_nvidia(old(self).tools, final(self).tools),
    {
        start_hardware_load(&mut self.tools.nvidia)
    }
}


// ---------------------------------------------------------------------------
// Results of the tool jobs
// ---------------------------------------------------------------------------

/// The results that arrived from the tool jobs since the last frame.
pub struct ToolEvents {
    pub windows_partitions: Option<Vec<WindowsPartitionInfo>>,
    pub driver_operation: Option<Result<String, String>>,
    pub storage_driver: Option<Result<String, String>>,
    pub appx_list: Option<Vec<AppxPackage>>,
    /// Removed and failed package counts.
    pub appx_removed: Option<(usize, usize)>,
    pub time_sync: Option<TimeSyncResult>,
    pub formatable_partitions: Option<Vec<FormatablePartition>>,
    pub batch_format: Option<BatchFormatResult>,
    pub nvidia_hardware: Option<HardwareSummary>,
    pub nvidia_uninstall: Option<NvidiaUninstallResult>,
    pub hash_progress: Vec<u8>,
    pub hash_result: Option<HashVerifyResult>,
}

/// Jobs to start again after the results were taken.
pub struct ToolFollowUps {
    /// Reload the APPX packages of this target.
    pub load_appx_for: Option<String>,
    pub load_formatable_partitions: bool,
    pub load_nvidia_hardware: bool,
}

pub open spec fn result_message(r: Result<String, String>) -> Seq<char> {
    match r {
        Ok(m) => m@,
        Err(m) => m@,
    }
}

pub open spec fn appx_removed_message(ok: usize, failed: usize) -> Seq<char> {
    "移除完成: 成功 "@ + dec(ok as nat) + ", 失败 "@ + dec(failed as nat)
}

pub open spec fn opt_text(o: Option<String>) -> Seq<char> {
    match o {
        Some(t) => t@,
        None => Seq::empty(),
    }
}

pub open spec fn time_sync_message(r: TimeSyncResult) -> Seq<char> {
    if r.success {
        r.message@ + "\n\n原时间: "@ + opt_text(r.old_time) + "\n新时间: "@ + opt_text(r.new_time)
    } else {
        r.message@
    }
}

/// One line per formatted partition.
pub open spec fn format_lines(rs: Seq<FormatOutcome>) -> Seq<char>
    decreases rs.len(),
{
    if rs.len() == 0 {
        Seq::empty()
    } else {
        format_lines(rs.drop_last()) + "\n"@ + rs.last().letter@ + ": "@ + rs.last().message@
    }
}

pub open spec fn batch_format_message(r: BatchFormatResult) -> Seq<char> {
    "格式化完成: 成功 "@ + dec(r.success_count as nat) + ", 失败 "@ + dec(r.fail_count as nat) + format_lines(r.results@)
}

fn take_message(r: Result<String, String>) -> (m: String)
    ensures
        m@ == result_message(r),
{
    match r {
        Ok(m) => m,
        Err(m) => m,
    }
}

fn push_usize(s: &mut String, n: usize)
    ensures
        final(s)@ == old(s)@ + dec(n as nat),
{
    push_dec(s, n as u64);
}

impl App {
    /// Starts reloading the APPX packages of the chosen target (none chosen: nothing
    /// happens); returns the target to read.
    pub fn start_load_appx_list(&mut self) -> (r: Option<String>)
        ensures
            same_outside_tools(*old(self), *final(self)),
            match old(self).tools.appx.target {
                None => r is None && final(self).tools == old(self).tools,
                Some(t) => {
                    &&& same_tools_except_appx(old(self).tools, final(self).tools)
                    &&& final(self).tools.appx.target == old(self).tools.appx.target
                    &&& r matches Some(x) && x@ == t@
                    &&& final(self).tools.appx.loading
                    &&& final(self).tools.appx.list@.len() == 0
                    &&& final(self).tools.appx.message@ == "正在加载应用列表..."@
                },
            },
    {
        start_appx_load(&mut self.tools.appx)
    }

    /// Starts reloading the partitions offered for formatting unless that is under
    /// way; returns whether the caller should read them.
    pub fn start_load_formatable_partitions(&mut self) -> (r: bool)
        ensures
            same_outside_tools(*old(self), *final(self)),
            r == !old(self).tools.batch_format.partitions_loading,
            !r ==> final(self).tools == old(self).tools,
            r ==> final(self).tools.batch_format.partitions_loading && final(self).tools.batch_format.partitions@.len() == 0,
            final(self).tools.batch_format.message == old(self).tools.batch_format.message,
            final(self).tools.batch_format.loading == old(self).tools.batch_format.loading,
            same_tools_except_batch(old(self).tools, final(self).tools),
    {
        start_partitions_load(&mut self.tools.batch_format)
    }

}

/// The effect of a package listing `list` and then a removal outcome `removed` on
/// the APPX dialog: a listing replaces the packages (an empty one says there is
/// nothing to remove); a removal is reported and the packages are reloaded when a
/// target is chosen (`r`).
pub open spec fn appx_effect(a: AppxDialog, b: AppxDialog, list: Option<Vec<AppxPackage>>, removed: Option<(usize, usize)>, r: Option<String>) -> bool {
    let list_msg = match list {
        Some(l) => if l@.len() == 0 { "未找到可移除的应用"@ } else { Seq::empty() },
        None => a.message@,
    };
    let list_loading = if list is Some { false } else { a.loading };
    let mid_list = match list {
        Some(l) => l@,
        None => a.list@,
    };
    match removed {
        None => {
            &&& r is None
            &&& b.message@ == list_msg
            &&& b.loading == list_loading
            &&& b.list@ == mid_list
        },
        Some((ok, failed)) => match a.target {
            None => {
                &&& r is None
                &&& b.message@ == appx_removed_message(ok, failed)
                &&& !b.loading
                &&& b.list@ == mid_list
            },
            Some(t) => {
                &&& r matches Some(x) && x@ == t@
                &&& b.message@ == "正在加载应用列表..."@
                &&& b.loading
                &&& b.list@.len() == 0
            },
        },
    }
}


/// A job that reported `r` (or nothing) shows its message and stops loading.
pub open spec fn message_job_effect(a: MessageJob, b: MessageJob, r: Option<Result<String, String>>) -> bool {
    match r {
        Some(x) => b.message@ == result_message(x) && !b.loading,
        None => b == a,
    }
}

/// The batch format dialog after a partition listing and a format outcome: a listing
/// replaces the partitions; an outcome is reported and the partitions are reloaded
/// unless that is under way (`reload`).
pub open spec fn batch_effect(
    a: BatchFormatDialog,
    b: BatchFormatDialog,
    listed: Option<Vec<FormatablePartition>>,
    formatted: Option<BatchFormatResult>,
    reload: bool,
) -> bool {
    let mid_parts = match listed {
        Some(l) => l@,
        None => a.partitions@,
    };
    let mid_loading = if listed is Some { false } else { a.partitions_loading };
    match formatted {
        None => {
            &&& !reload
            &&& b.partitions@ == mid_parts
            &&& b.partitions_loading == mid_loading
            &&& b.message == a.message
            &&& b.loading == a.loading
        },
        Some(f) => {
            &&& b.message@ == batch_format_message(f)
            &&& !b.loading
            &&& reload == !mid_loading
            &&& (reload ==> b.partitions_loading && b.partitions@.len() == 0)
            &&& (!reload ==> b.partitions_loading == mid_loading && b.partitions@ == mid_parts)
        },
    }
}

fn batch_message(r: &BatchFormatResult) -> (m: String)
    ensures
        m@ == batch_format_message(*r),
{
    let mut m = str_to_string("格式化完成: 成功 ");
    push_usize(&mut m, r.success_count);
    push_str(&mut m, ", 失败 ");
    push_usize(&mut m, r.fail_count);
    let ghost head = m@;
    let mut i: usize = 0;
    while i < r.results.len()
        invariant
            i <= r.results@.len(),
            m@ == head + format_lines(r.results@.take(i as int)),
            head == "格式化完成: 成功 "@ + dec(r.success_count as nat) + ", 失败 "@ + dec(r.fail_count as nat),
        decreases r.results@.len() - i,
    {
        push_str(&mut m, "\n");
        push_str(&mut m, r.results[i].letter.as_str());
        push_str(&mut m, ": ");
        push_str(&mut m, r.results[i].message.as_str());
        proof {
            assert(r.results@.take(i + 1).drop_last() =~= r.results@.take(i as int));
            assert(m@ =~= head + format_lines(r.results@.take(i + 1)));
        }
        i = i + 1;
    }
    assert(r.results@.take(r.results@.len() as int) =~= r.results@);
    m
}

fn time_sync_text(r: TimeSyncResult) -> (m: String)
    ensures
        m@ == time_sync_message(r),
{
    if r.success {
        let mut m = r.message;
        push_str(&mut m, "\n\n原时间: ");
        match &r.old_time {
            Some(t) => push_str(&mut m, t.as_str()),
            None => {},
        }
        push_str(&mut m, "\n新时间: ");
        match &r.new_time {
            Some(t) => push_str(&mut m, t.as_str()),
            None => {},
        }
        m
    } else {
        r.message
    }
}

impl App {
    /// Takes the results of the tool jobs that arrived since the last frame, dialog by
    /// dialog (see the `*_effect` functions), and says which jobs to start again.
    pub fn check_tools_async_operations(&mut self, ev: ToolEvents) -> (r: ToolFollowUps)
        ensures
            same_outside_tools(*old(self), *final(self)),
            match ev.windows_partitions {
                Some(p) => final(self).tools.windows_partitions.cache == Some(p)
                    && !final(self).tools.windows_partitions.loading,
                None => final(self).tools.windows_partitions == old(self).tools.windows_partitions,
            },
            message_job_effect(old(self).tools.driver_backup, final(self).tools.driver_backup, ev.driver_operation),
            message_job_effect(old(self).tools.import_storage_driver, final(self).tools.import_storage_driver, ev.storage_driver),
            appx_effect(old(self).tools.appx, final(self).tools.appx, ev.appx_list, ev.appx_removed, r.load_appx_for),
            final(self).tools.appx.target == old(self).tools.appx.target,
            match ev.time_sync {
                Some(t) => final(self).tools.time_sync.message@ == time_sync_message(t)
                    && !final(self).tools.time_sync.loading,
                None => final(self).tools.time_sync == old(self).tools.time_sync,
            },
            batch_effect(old(self).tools.batch_format, final(self).tools.batch_format, ev.formatable_partitions, ev.batch_format, r.load_formatable_partitions),
            nvidia_effect(old(self).tools.nvidia, final(self).tools.nvidia, ev.nvidia_hardware, ev.nvidia_uninstall, r.load_nvidia_hardware),
            hash_effect(old(self).tools.hash_verify, final(self).tools.hash_verify, ev.hash_progress@, ev.hash_result),
            final(self).tools.tool_message == old(self).tools.tool_message,
            final(self).tools.network == old(self).tools.network,
            final(self).tools.software == old(self).tools.software,
            final(self).tools.expand_c == old(self).tools.expand_c,
    {
        let ToolEvents {
            windows_partitions,
            driver_operation,
            storage_driver,
            appx_list,
            appx_removed,
            time_sync,
            formatable_partitions,
            batch_format,
            nvidia_hardware,
            nvidia_uninstall,
            hash_progress,
            hash_result,
        } = ev;
        if let Some(p) = windows_partitions {
            self.tools.windows_partitions.cache = Some(p);
            self.tools.windows_partitions.loading = false;
        }
        message_job_events(&mut self.tools.driver_backup, driver_operation);
        message_job_events(&mut self.tools.import_storage_driver, storage_driver);
        let load_appx_for = appx_events(&mut self.tools.appx, appx_list, appx_removed);
        if let Some(t) = time_sync {
            self.tools.time_sync.message = time_sync_text(t);
            self.tools.time_sync.loading = false;
        }
        let load_formatable_partitions = batch_events(&mut self.tools.batch_format, formatable_partitions, batch_format);
        let load_nvidia_hardware = nvidia_events(&mut self.tools.nvidia, nvidia_hardware, nvidia_uninstall);
        hash_events(&mut self.tools.hash_verify, hash_progress, hash_result);
        ToolFollowUps { load_appx_for, load_formatable_partitions, load_nvidia_hardware }
    }
}


// ---------------------------------------------------------------------------
// Dialog by dialog
// ---------------------------------------------------------------------------

fn hash_events(d: &mut HashDialog, progress: Vec<u8>, result: Option<HashVerifyResult>)
    ensures
        hash_effect(*old(d), *final(d), progress@, result),
{
    let n = progress.len();
    if n > 0 {
        d.progress = Some(progress[n - 1]);
    }
    if let Some(r) = result {
        d.result = Some(r);
        d.loading = false;
        d.progress = None;
    }
}

fn start_hardware_load(d: &mut NvidiaDialog) -> (r: bool)
    ensures
        r == !old(d).hardware_loading,
        !r ==> *final(d) == *old(d),
        r ==> final(d).hardware_loading && final(d).hardware_summary is None,
        final(d).message == old(d).message,
        final(d).loading == old(d).loading,
{
    if d.hardware_loading {
        return false;
    }
    d.hardware_loading = true;
    d.hardware_summary = None;
    true
}

fn nvidia_events(d: &mut NvidiaDialog, hardware: Option<HardwareSummary>, result: Option<NvidiaUninstallResult>) -> (reload: bool)
    ensures
        nvidia_effect(*old(d), *final(d), hardware, result, reload),
{
    if let Some(summary) = hardware {
        d.hardware_summary = Some(summary);
        d.hardware_loading = false;
    }
    match result {
        None => false,
        Some(res) => {
            let success = res.success;
            let msg = if res.success && res.needs_reboot {
                let mut m = res.message;
                push_str(&mut m, "，建议重启系统");
                m
            } else {
                res.message
            };
            d.message = msg;
            d.loading = false;
            if success {
                start_hardware_load(d)
            } else {
                false
            }
        },
    }
}

fn start_appx_load(d: &mut AppxDialog) -> (r: Option<String>)
    ensures
        final(d).target == old(d).target,
        match old(d).target {
            None => r is None && *final(d) == *old(d),
            Some(t) => {
                &&& r matches Some(x) && x@ == t@
                &&& final(d).loading
                &&& final(d).list@.len() == 0
                &&& final(d).message@ == "正在加载应用列表..."@
            },
        },
{
    let target = match &d.target {
        Some(t) => str_to_string(t.as_str()),
        None => {
            return None;
        },
    };
    d.loading = true;
    d.list = Vec::new();
    d.message = str_to_string("正在加载应用列表...");
    Some(target)
}

fn appx_events(d: &mut AppxDialog, list: Option<Vec<AppxPackage>>, removed: Option<(usize, usize)>) -> (r: Option<String>)
    ensures
        appx_effect(*old(d), *final(d), list, removed, r),
        final(d).target == old(d).target,
{
    if let Some(packages) = list {
        if packages.len() == 0 {
            d.message = str_to_string("未找到可移除的应用");
        } else {
            d.message = String::new();
        }
        d.list = packages;
        d.loading = false;
    }
    if let Some((ok, failed)) = removed {
        let mut m = str_to_string("移除完成: 成功 ");
        push_usize(&mut m, ok);
        push_str(&mut m, ", 失败 ");
        push_usize(&mut m, failed);
        d.message = m;
        d.loading = false;
        return start_appx_load(d);
    }
    None
}

fn start_partitions_load(d: &mut BatchFormatDialog) -> (r: bool)
    ensures
        r == !old(d).partitions_loading,
        !r ==> *final(d) == *old(d),
        r ==> final(d).partitions_loading && final(d).partitions@.len() == 0,
        final(d).message == old(d).message,
        final(d).loading == old(d).loading,
{
    if d.partitions_loading {
        return false;
    }
    d.partitions_loading = true;
    d.partitions = Vec::new();
    true
}

fn batch_events(d: &mut BatchFormatDialog, listed: Option<Vec<FormatablePartition>>, formatted: Option<BatchFormatResult>) -> (reload: bool)
    ensures
        batch_effect(*old(d), *final(d), listed, formatted, reload),
{
    if let Some(ps) = listed {
        d.partitions = ps;
        d.partitions_loading = false;
    }
    match formatted {
        None => false,
        Some(f) => {
            d.message = batch_message(&f);
            d.loading = false;
            start_partitions_load(d)
        },
    }
}

fn message_job_events(d: &mut MessageJob, r: Option<Result<String, String>>)
    ensures
        message_job_effect(*old(d), *final(d), r),
{
    if let Some(x) = r {
        d.message = take_message(x);
        d.loading = false;
    }
}


// ---------------------------------------------------------------------------
// Windows partitions, network, software, enlarging C:
// ---------------------------------------------------------------------------

pub open spec fn partition_info_view(p: WindowsPartitionInfo) -> (Seq<char>, Seq<char>, Seq<char>) {
    (p.letter@, p.windows_version@, p.architecture@)
}

pub open spec fn partition_infos_view(v: Seq<WindowsPartitionInfo>) -> Seq<(Seq<char>, Seq<char>, Seq<char>)> {
    v.map_values(|p: WindowsPartitionInfo| partition_info_view(p))
}

fn copy_partition_infos(v: &Vec<WindowsPartitionInfo>) -> (r: Vec<WindowsPartitionInfo>)
    ensures
        partition_infos_view(r@) == partition_infos_view(v@),
{
    let mut r: Vec<WindowsPartitionInfo> = Vec::new();
    let mut i: usize = 0;
    while i < v.len()
        invariant
            i <= v@.len(),
            r@.len() == i,
            partition_infos_view(r@) == partition_infos_view(v@.take(i as int)),
        decreases v@.len() - i,
    {
        let p = &v[i];
        r.push(WindowsPartitionInfo {
            letter: str_to_string(p.letter.as_str()),
            windows_version: str_to_string(p.windows_version.as_str()),
            architecture: str_to_string(p.architecture.as_str()),
        });
        proof {
            let ghost prev = partition_infos_view(v@.take(i as int));
            assert(partition_info_view(r@[i as int]) == partition_info_view(v@[i as int]));
            assert forall|k: int| 0 <= k < i implies partition_info_view(#[trigger] r@[k]) == partition_info_view(v@[k]) by {
                assert(partition_infos_view(r@.drop_last())[k] == prev[k]);
                assert(r@.drop_last()[k] == r@[k]);
            }
            assert(partition_infos_view(r@) =~= partition_infos_view(v@.take(i + 1)));
        }
        i = i + 1;
    }
    assert(v@.take(v@.len() as int) =~= v@);
    r
}

/// The message after resetting the network.
pub open spec fn reset_network_message(ok: usize, failed: usize) -> Seq<char> {
    let base = "网络重置完成: 成功 "@ + dec(ok as nat) + " 个命令, 失败 "@ + dec(failed as nat) + " 个命令"@;
    if ok > 0 {
        base + "\n建议重启计算机以完成网络重置。"@
    } else {
        base
    }
}

/// What the user's request to enlarge C: led to.
pub enum ExpandStart {
    /// The target size is out of range (message shown).
    OutOfRange,
    /// No PE is chosen (message shown).
    NoPe,
    /// The chosen PE is missing: run `pending_download`, then hand over.
    DownloadPe,
    /// Hand over to PE now.
    Handoff,
}

pub open spec fn size_range_message(min_mb: nat, max_mb: nat) -> Seq<char> {
    "目标大小必须在 "@ + gb_text(min_mb) + " GB 到 "@ + gb_text(max_mb) + " GB 之间"@
}

/// The dialog took the analysis `r`: its figures are shown; without C: or room to
/// grow the reason is shown, else the target defaults to the largest size.
pub open spec fn expand_load_effect(a: ExpandCDialogState, b: ExpandCDialogState, r: ExpandCLoadResult) -> bool {
    &&& !b.loading
    &&& b.executing == a.executing
    &&& b.current_size_mb == r.current_size_mb
    &&& b.used_mb == r.used_mb
    &&& b.free_mb == r.free_mb
    &&& b.max_size_mb == r.max_size_mb
    &&& b.no_move_max_mb == r.no_move_max_mb
    &&& b.can_expand == r.can_expand
    &&& b.reason@ == r.reason@
    &&& b.show_confirm_dialog == a.show_confirm_dialog
    &&& if !r.found {
        &&& b.message@ == "未找到当前系统 C 盘"@
        &&& b.target_size_mb == a.target_size_mb
        &&& b.target_size_text == a.target_size_text
    } else if !r.can_expand {
        &&& b.message@ == r.reason@
        &&& b.target_size_mb == a.target_size_mb
        &&& b.target_size_text == a.target_size_text
    } else {
        &&& b.message@.len() == 0
        &&& b.target_size_mb == r.max_size_mb
        &&& b.target_size_text@ == gb_text(r.max_size_mb as nat)
    }
}

impl App {
    /// Starts loading the partitions holding Windows (from `target.partitions`) unless
    /// that is under way; returns whether the caller should read them.
    pub fn start_load_windows_partitions(&mut self) -> (r: bool)
        ensures
            same_outside_tools(*old(self), *final(self)),
            r == !old(self).tools.windows_partitions.loading,
            final(self).tools.windows_partitions.loading,
            final(self).tools.windows_partitions.cache == old(self).tools.windows_partitions.cache,
            same_tools_except_windows(old(self).tools, final(self).tools),
    {
        if self.tools.windows_partitions.loading {
            return false;
        }
        self.tools.windows_partitions.loading = true;
        true
    }

    /// The cached partitions holding Windows (empty while unknown); when they are
    /// unknown and not loading, loading starts (second component).
    pub fn get_cached_windows_partitions(&mut self) -> (r: (Vec<WindowsPartitionInfo>, bool))
        ensures
            same_outside_tools(*old(self), *final(self)),
            same_tools_except_windows(old(self).tools, final(self).tools),
            final(self).tools.windows_partitions.cache == old(self).tools.windows_partitions.cache,
            r.1 == (old(self).tools.windows_partitions.cache is None && !old(self).tools.windows_partitions.loading),
            final(self).tools.windows_partitions.loading == (old(self).tools.windows_partitions.loading || r.1),
            partition_infos_view(r.0@) == match old(self).tools.windows_partitions.cache {
                Some(c) => partition_infos_view(c@),
                None => Seq::empty(),
            },
    {
        let mut start = false;
        if self.tools.windows_partitions.cache.is_none() && !self.tools.windows_partitions.loading {
            start = self.start_load_windows_partitions();
        }
        let list = match &self.tools.windows_partitions.cache {
            Some(c) => copy_partition_infos(c),
            None => {
                let v: Vec<WindowsPartitionInfo> = Vec::new();
                assert(partition_infos_view(v@) =~= Seq::empty());
                v
            },
        };
        (list, start)
    }

    /// Forgets the cached partitions and loads them again (unless that is under way);
    /// returns whether the caller should read them.
    pub fn refresh_windows_partitions_cache(&mut self) -> (r: bool)
        ensures
            same_outside_tools(*old(self), *final(self)),
            same_tools_except_windows(old(self).tools, final(self).tools),
            final(self).tools.windows_partitions.cache is None,
            final(self).tools.windows_partitions.loading,
            r == !old(self).tools.windows_partitions.loading,
    {
        self.tools.windows_partitions.cache = None;
        self.start_load_windows_partitions()
    }

    /// Opens the network dialog on the adapters the caller read.
    pub fn init_network_info_dialog(&mut self, adapters: Vec<NetworkAdapterInfo>)
        ensures
            same_outside_tools(*old(self), *final(self)),
            final(self).tools.network.show,
            final(self).tools.network.cache == Some(adapters),
            final(self).tools.windows_partitions == old(self).tools.windows_partitions,
            final(self).tools.driver_backup == old(self).tools.driver_backup,
            final(self).tools.import_storage_driver == old(self).tools.import_storage_driver,
            final(self).tools.appx == old(self).tools.appx,
            final(self).tools.time_sync == old(self).tools.time_sync,
            final(self).tools.batch_format == old(self).tools.batch_format,
            final(self).tools.nvidia == old(self).tools.nvidia,
            final(self).tools.hash_verify == old(self).tools.hash_verify,
            final(self).tools.tool_message == old(self).tools.tool_message,
            final(self).tools.software == old(self).tools.software,
            final(self).tools.expand_c == old(self).tools.expand_c,
    {
        self.tools.network = NetworkDialog { show: true, cache: Some(adapters) };
    }

    /// Reports a network reset that ran `success_count` commands well and
    /// `fail_count` badly; advises a reboot when any ran well.
    pub fn do_reset_network(&mut self, success_count: usize, fail_count: usize)
        ensures
            same_outside_tools(*old(self), *final(self)),
            final(self).tools.tool_message@ == reset_network_message(success_count, fail_count),
            final(self).tools.windows_partitions == old(self).tools.windows_partitions,
            final(self).tools.driver_backup == old(self).tools.driver_backup,
            final(self).tools.import_storage_driver == old(self).tools.import_storage_driver,
            final(self).tools.appx == old(self).tools.appx,
            final(self).tools.time_sync == old(self).tools.time_sync,
            final(self).tools.batch_format == old(self).tools.batch_format,
            final(self).tools.nvidia == old(self).tools.nvidia,
            final(self).tools.hash_verify == old(self).tools.hash_verify,
            final(self).tools.network == old(self).tools.network,
            final(self).tools.software == old(self).tools.software,
            final(self).tools.expand_c == old(self).tools.expand_c,
    {
        let mut m = str_to_string("网络重置完成: 成功 ");
        push_usize(&mut m, success_count);
        push_str(&mut m, " 个命令, 失败 ");
        push_usize(&mut m, fail_count);
        push_str(&mut m, " 个命令");
        if success_count > 0 {
            push_str(&mut m, "\n建议重启计算机以完成网络重置。");
        }
        self.tools.tool_message = m;
    }

    /// Opens the software dialog on the programs the caller listed.
    pub fn init_software_list_dialog(&mut self, installed: Vec<SoftwareInfo>)
        ensures
            same_outside_tools(*old(self), *final(self)),
            final(self).tools.software.show,
            !final(self).tools.software.loading,
            final(self).tools.software.list == installed,
            final(self).tools.windows_partitions == old(self).tools.windows_partitions,
            final(self).tools.driver_backup == old(self).tools.driver_backup,
            final(self).tools.import_storage_driver == old(self).tools.import_storage_driver,
            final(self).tools.appx == old(self).tools.appx,
            final(self).tools.time_sync == old(self).tools.time_sync,
            final(self).tools.batch_format == old(self).tools.batch_format,
            final(self).tools.nvidia == old(self).tools.nvidia,
            final(self).tools.hash_verify == old(self).tools.hash_verify,
            final(self).tools.tool_message == old(self).tools.tool_message,
            final(self).tools.network == old(self).tools.network,
            final(self).tools.expand_c == old(self).tools.expand_c,
    {
        self.tools.software.show = true;
        self.tools.software.loading = true;
        self.tools.software.list = installed;
        self.tools.software.loading = false;
    }

    /// Opens the enlarge-C: dialog afresh, analysing; the caller starts the analysis.
    pub fn init_expand_c_dialog(&mut self)
        ensures
            same_outside_tools(*old(self), *final(self)),
            same_tools_except_expand(old(self).tools, final(self).tools),
            final(self).tools.expand_c.show,
            ({
                let st = final(self).tools.expand_c.state;
                &&& st.loading && !st.executing
                &&& st.message@ == "正在分析 C 盘可扩容空间..."@
                &&& st.current_size_mb == 0 && st.used_mb == 0 && st.free_mb == 0
                &&& st.max_size_mb == 0 && st.no_move_max_mb == 0 && !st.can_expand
                &&& st.reason@.len() == 0 && st.target_size_text@.len() == 0
                &&& st.target_size_mb == 0 && !st.show_confirm_dialog
            }),
    {
        self.tools.expand_c.show = true;
        let mut st = ExpandCDialogState::default();
        st.loading = true;
        st.message = str_to_string("正在分析 C 盘可扩容空间...");
        self.tools.expand_c.state = st;
    }

    /// Takes the analysis of C: when it arrived (see [`expand_load_effect`]).
    pub fn check_expand_c_load(&mut self, result: Option<ExpandCLoadResult>)
        ensures
            same_outside_tools(*old(self), *final(self)),
            same_tools_except_expand(old(self).tools, final(self).tools),
            final(self).tools.expand_c.show == old(self).tools.expand_c.show,
            match result {
                None => final(self).tools.expand_c.state == old(self).tools.expand_c.state,
                Some(r) => expand_load_effect(old(self).tools.expand_c.state, final(self).tools.expand_c.state, r),
            },
    {
        if let Some(r) = result {
            let st = &mut self.tools.expand_c.state;
            st.loading = false;
            st.current_size_mb = r.current_size_mb;
            st.used_mb = r.used_mb;
            st.free_mb = r.free_mb;
            st.max_size_mb = r.max_size_mb;
            st.no_move_max_mb = r.no_move_max_mb;
            st.can_expand = r.can_expand;
            st.reason = str_to_string(r.reason.as_str());
            if !r.found {
                st.message = str_to_string("未找到当前系统 C 盘");
            } else if !r.can_expand {
                st.message = str_to_string(r.reason.as_str());
            } else {
                st.message = String::new();
                st.target_size_mb = r.max_size_mb;
                st.target_size_text = format_gb_one_decimal(r.max_size_mb);
            }
        }
    }

    /// The user confirmed enlarging C:. The target must lie between the smallest
    /// allowed size and the largest reachable one; a PE must be chosen; a missing PE
    /// is downloaded first (the dialog closes for the download page); otherwise the
    /// caller hands over to PE.
    pub fn start_expand_c_drive(&mut self, pe_file_exists: bool, exe_dir: &str) -> (r: ExpandStart)
        requires
            old(self).tools.expand_c.state.used_mb + 1024 <= u64::MAX,
        ensures
            ({
                let st = old(self).tools.expand_c.state;
                let min = if st.current_size_mb >= st.used_mb + 1024 { st.current_size_mb as int } else { st.used_mb + 1024 };
                if st.target_size_mb < min || st.target_size_mb > st.max_size_mb {
                    &&& r is OutOfRange
                    &&& final(self).tools.expand_c.state.message@ == size_range_message(min as nat, st.max_size_mb as nat)
                    &&& final(self).tools.expand_c.show == old(self).tools.expand_c.show
                    &&& final(self).tools.expand_c.state == (ExpandCDialogState {
                        message: final(self).tools.expand_c.state.message,
                        ..st
                    })
                    &&& same_outside_tools(*old(self), *final(self))
                } else if old(self).pe_choice is None {
                    &&& r is NoPe
                    &&& final(self).tools.expand_c.state.message@ == "未选择 PE 环境，无法扩容"@
                    &&& final(self).tools.expand_c.show == old(self).tools.expand_c.show
                    &&& final(self).tools.expand_c.state == (ExpandCDialogState {
                        message: final(self).tools.expand_c.state.message,
                        ..st
                    })
                    &&& same_outside_tools(*old(self), *final(self))
                } else if !pe_file_exists {
                    &&& r is DownloadPe
                    &&& final(self).pending_download matches Some(d)
                        && pe_download(d, old(self).pe_choice->0, exe_dir@) && d.next_action == AfterDownload::Expand
                    &&& !final(self).tools.expand_c.show
                    &&& final(self).panel == Panel::DownloadProgress
                    &&& final(self).tools.expand_c.state == old(self).tools.expand_c.state
                } else {
                    &&& r is Handoff
                    &&& *final(self) == *old(self)
                }
            }),
            same_tools_except_expand(old(self).tools, final(self).tools),
            final(self).env == old(self).env,
            final(self).image == old(self).image,
            final(self).target == old(self).target,
            final(self).install == old(self).install,
            final(self).unlock == old(self).unlock,
            final(self).pe_choice == old(self).pe_choice,
            final(self).error_message == old(self).error_message,
    {
        let min_mb = self.tools.expand_c.state.min_target_mb();
        let max_mb = self.tools.expand_c.state.max_size_mb;
        let target_mb = self.tools.expand_c.state.target_size_mb;
        if target_mb < min_mb || target_mb > max_mb {
            let mut m = str_to_string("目标大小必须在 ");
            let a = format_gb_one_decimal(min_mb);
            push_str(&mut m, a.as_str());
            push_str(&mut m, " GB 到 ");
            let b = format_gb_one_decimal(max_mb);
            push_str(&mut m, b.as_str());
            push_str(&mut m, " GB 之间");
            self.tools.expand_c.state.message = m;
            return ExpandStart::OutOfRange;
        }
        match &self.pe_choice {
            None => {
                self.tools.expand_c.state.message = str_to_string("未选择 PE 环境，无法扩容");
                return ExpandStart::NoPe;
            },
            Some(pe) => {
                if !pe_file_exists {
                    let d = PendingDownload {
                        url: str_to_string(pe.download_url.as_str()),
                        filename: str_to_string(pe.filename.as_str()),
                        md5: str_to_string(pe.md5.as_str()),
                        save_dir: get_pe_dir(exe_dir),
                        next_action: AfterDownload::Expand,
                    };
                    self.pending_download = Some(d);
                    self.tools.expand_c.show = false;
                    self.panel = Panel::DownloadProgress;
                    return ExpandStart::DownloadPe;
                }
            },
        }
        ExpandStart::Handoff
    }
}

pub open spec fn same_tools_except_windows(a: ToolsState, b: ToolsState) -> bool {
    &&& a.driver_backup == b.driver_backup
    &&& a.import_storage_driver == b.import_storage_driver
    &&& a.appx == b.appx
    &&& a.time_sync == b.time_sync
    &&& a.batch_format == b.batch_format
    &&& a.nvidia == b.nvidia
    &&& a.hash_verify == b.hash_verify
    &&& a.tool_message == b.tool_message
    &&& a.network == b.network
    &&& a.software == b.software
    &&& a.expand_c == b.expand_c
}

pub open spec fn same_tools_except_expand(a: ToolsState, b: ToolsState) -> bool {
    &&& a.windows_partitions == b.windows_partitions
    &&& a.driver_backup == b.driver_backup
    &&& a.import_storage_driver == b.import_storage_driver
    &&& a.appx == b.appx
    &&& a.time_sync == b.time_sync
    &&& a.batch_format == b.batch_format
    &&& a.nvidia == b.nvidia
    &&& a.hash_verify == b.hash_verify
    &&& a.tool_message == b.tool_message
    &&& a.network == b.network
    &&& a.software == b.software
}


impl ToolsState {
    /// All dialogs closed, nothing loaded.
    pub fn new() -> (r: ToolsState)
        ensures
            r.windows_partitions.cache is None,
            !r.windows_partitions.loading,
            r.appx.target is None,
            r.appx.list@.len() == 0,
            !r.appx.loading,
            r.batch_format.partitions@.len() == 0,
            !r.batch_format.partitions_loading,
            !r.nvidia.hardware_loading,
            r.nvidia.hardware_summary is None,
            r.hash_verify.result is None,
            !r.hash_verify.loading,
            r.driver_backup.message@.len() == 0,
            !r.driver_backup.loading,
            r.import_storage_driver.message@.len() == 0,
            !r.import_storage_driver.loading,
            r.appx.message@.len() == 0,
            r.time_sync.message@.len() == 0,
            !r.time_sync.loading,
            r.batch_format.message@.len() == 0,
            !r.batch_format.loading,
            r.nvidia.message@.len() == 0,
            !r.nvidia.loading,
            r.hash_verify.progress is None,
            r.tool_message@.len() == 0,
            !r.network.show,
            r.network.cache is None,
            !r.software.show,
            !r.software.loading,
            r.software.list@.len() == 0,
            !r.expand_c.show,
            expand_state_fresh(r.expand_c.state),
    {
        ToolsState {
            windows_partitions: WindowsPartitionsCache { cache: None, loading: false },
            driver_backup: MessageJob { message: String::new(), loading: false },
            import_storage_driver: MessageJob { message: String::new(), loading: false },
            appx: AppxDialog { target: None, list: Vec::new(), message: String::new(), loading: false },
            time_sync: MessageJob { message: String::new(), loading: false },
            batch_format: BatchFormatDialog {
                partitions: Vec::new(),
                partitions_loading: false,
                message: String::new(),
                loading: false,
            },
            nvidia: NvidiaDialog { hardware_summary: None, hardware_loading: false, message: String::new(), loading: false },
            hash_verify: HashDialog { progress: None, result: None, loading: false },
            tool_message: String::new(),
            network: NetworkDialog { show: false, cache: None },
            software: SoftwareDialog { show: false, loading: false, list: Vec::new() },
            expand_c: ExpandCDialog { show: false, state: ExpandCDialogState::default() },
        }
    }
}

} // verus!
