//! Installing directly onto a partition: the order of the steps, what each step
//! reports to the progress page, and which failures stop the installation.
//!
//! [`DirectInstall::advance`] takes the outcome of the last piece of work and gives
//! the progress reports to send and the next piece of work; the caller does the work.
use vstd::prelude::*;
use crate::app_state::{BootModeSelection, DriverAction, InstallOptions, is_gho_path};
use crate::disk::PartitionStyle;
use crate::dism::DismProgress;
use crate::install::{error_status_spec, send_error, send_step, step_status_spec};
use crate::text::{ends_with_chars, lowercase, push_str, str_to_string, to_chars, to_lowercase};

verus! {

/// Where a direct installation stands (which outcome it waits for).
#[derive(Debug, Clone, Copy, PartialEq, Eq, Structural)]
pub enum DirectStep {
    /// The user's partition scripts run.
    Scripts,
    /// The target is found again by disk and partition number after the scripts.
    Relocate,
    Format,
    /// An XP/2003 text-mode setup is prepared from the i386 source.
    XpSetup,
    ExportDrivers,
    ApplyImage,
    /// Checking whether exported drivers exist.
    CheckBackup,
    /// Importing or keeping the exported drivers.
    Drivers,
    /// Checking whether the new system has `\Windows\Boot` (XP has none).
    CheckWindowsBoot,
    MbrSignature,
    XpUefiBoot,
    Boot,
    UefiSeven,
    Advanced,
    UserDrivers,
    Unattend,
    Finished,
}

/// The outcome of the last piece of work.
pub enum DirectEvent {
    /// The partition scripts ran; their output (or error text).
    ScriptsRan(String),
    /// The target found again (letter and partition style), or why not.
    Relocated(Result<(String, PartitionStyle), String>),
    Done(Result<(), String>),
    Exists(bool),
}

/// A piece of work for the caller.
pub enum DirectWork {
    /// Nothing to do in this stage: report `Done(Ok(()))`.
    Nothing,
    RunDiskpartScripts,
    Relocate { disk: Option<u32>, partition: Option<u32>, letter: String },
    Format(String),
    /// Clear the other active partitions of the target disk, then prepare the
    /// text-mode setup from `source` (with the user's answer file, if any).
    XpSetup { target: String, source: String, custom_sif: Option<String> },
    ExportDrivers(String),
    RestoreGhost { image: String, target: String },
    ApplyImage { image: String, dir: String, index: u32 },
    CheckDir(String),
    /// Import the drivers, then delete the backup.
    ImportDrivers { target: String, backup: String },
    /// Copy the drivers onto the target, then delete the backup.
    SaveDrivers { backup: String, dest: String },
    EnsureMbrSignature(u32),
    WriteXpUefiBoot(String),
    WriteXpBoot(String),
    RepairBoot { target: String, uefi: bool },
    ApplyUefiSeven(String),
    ApplyAdvancedOptions { target: String, is_xp: bool },
    InjectUserDrivers { target: String, is_xp: bool },
    GenerateUnattend(String),
    /// The installation is over.
    Finish,
}

/// Progress reports to send, then work to do.
pub struct DirectAction {
    pub progress: Vec<DismProgress>,
    pub work: DirectWork,
}

/// A direct installation.
pub struct DirectInstall {
    pub target_partition: String,
    pub partition_style: PartitionStyle,
    pub target_disk: Option<u32>,
    pub target_part_no: Option<u32>,
    pub image_path: String,
    pub volume_index: u32,
    pub options: InstallOptions,
    /// The UefiSeven patch for Windows 7 on UEFI is chosen.
    pub win7_uefi_patch: bool,
    /// Where drivers are exported to.
    pub backup_dir: String,
    pub script_output: String,
    /// Exported drivers are kept rather than imported.
    pub saving_drivers: bool,
    pub is_xp: bool,
    pub use_uefi: bool,
    pub step: DirectStep,
}

pub open spec fn progress_view(v: Seq<DismProgress>) -> Seq<(Seq<char>, u8)> {
    v.map_values(|p: DismProgress| (p.status@, p.percentage))
}

/// The report of step `n`, named `name`, at `pct` percent.
pub open spec fn rep(n: nat, name: Seq<char>, pct: u8) -> (Seq<char>, u8) {
    (step_status_spec(n, name), pct)
}

pub open spec fn err_rep(msg: Seq<char>) -> (Seq<char>, u8) {
    (error_status_spec(msg), 0u8)
}

pub open spec fn scripts_name() -> Seq<char> { "运行 Diskpart 脚本"@ }
pub open spec fn format_name() -> Seq<char> { "格式化分区"@ }
pub open spec fn export_name() -> Seq<char> { "导出驱动"@ }
pub open spec fn apply_name() -> Seq<char> { "释放系统镜像"@ }
pub open spec fn import_name() -> Seq<char> { "导入驱动"@ }
pub open spec fn save_name() -> Seq<char> { "保存驱动"@ }
pub open spec fn boot_name() -> Seq<char> { "修复引导"@ }
pub open spec fn patch_name() -> Seq<char> { "应用Win7 UEFI补丁"@ }
pub open spec fn advanced_name() -> Seq<char> { "应用高级选项"@ }
pub open spec fn done_name() -> Seq<char> { "完成安装"@ }

/// The fixed inputs are kept.
pub open spec fn same_config(a: DirectInstall, b: DirectInstall) -> bool {
    &&& a.target_disk == b.target_disk
    &&& a.target_part_no == b.target_part_no
    &&& a.image_path == b.image_path
    &&& a.volume_index == b.volume_index
    &&& a.options == b.options
    &&& a.win7_uefi_patch == b.win7_uefi_patch
    &&& a.backup_dir == b.backup_dir
}

/// Everything but the step is kept.
pub open spec fn same_run(a: DirectInstall, b: DirectInstall) -> bool {
    &&& same_config(a, b)
    &&& a.target_partition == b.target_partition
    &&& a.partition_style == b.partition_style
    &&& a.script_output == b.script_output
    &&& a.saving_drivers == b.saving_drivers
    &&& a.is_xp == b.is_xp
    &&& a.use_uefi == b.use_uefi
}

/// The boot mode used: the explicit choice, or for `Auto` UEFI exactly on GPT.
pub open spec fn uefi_for(mode: BootModeSelection, style: PartitionStyle) -> bool {
    match mode {
        BootModeSelection::UEFI => true,
        BootModeSelection::Legacy => false,
        BootModeSelection::Auto => style == PartitionStyle::GPT,
    }
}

// ---------------------------------------------------------------------------
// Entering a stage: its first reports and its work
// ---------------------------------------------------------------------------

/// Step 1: formatting, when chosen.
pub open spec fn format_msgs(b: DirectInstall) -> Seq<(Seq<char>, u8)> {
    if b.options.format_partition {
        seq![rep(1, format_name(), 0), rep(1, format_name(), 30)]
    } else {
        seq![rep(1, format_name(), 0), rep(1, format_name(), 100)]
    }
}

pub open spec fn format_work(b: DirectInstall, w: DirectWork) -> bool {
    &&& b.step == DirectStep::Format
    &&& if b.options.format_partition {
        w matches DirectWork::Format(t) && t@ == b.target_partition@
    } else {
        w is Nothing
    }
}

/// After step 1: an XP i386 source skips to its text-mode setup; else step 2
/// exports drivers, when chosen.
pub open spec fn after_format_msgs(b: DirectInstall) -> Seq<(Seq<char>, u8)> {
    if b.options.is_xp_i386 {
        seq![rep(2, export_name(), 100), rep(3, apply_name(), 0)]
    } else if b.options.export_drivers {
        seq![rep(2, export_name(), 0), rep(2, export_name(), 20)]
    } else {
        seq![rep(2, export_name(), 0), rep(2, export_name(), 100)]
    }
}

pub open spec fn after_format_work(b: DirectInstall, w: DirectWork) -> bool {
    if b.options.is_xp_i386 {
        &&& b.step == DirectStep::XpSetup
        &&& w matches DirectWork::XpSetup { target, source, custom_sif }
        &&& target@ == b.target_partition@
        &&& source@ == b.image_path@
        &&& (b.options.custom_unattend_path@.len() == 0 ==> custom_sif is None)
        &&& (b.options.custom_unattend_path@.len() > 0 ==> (custom_sif matches Some(c)
            && c@ == b.options.custom_unattend_path@))
    } else {
        &&& b.step == DirectStep::ExportDrivers
        &&& if b.options.export_drivers {
            w matches DirectWork::ExportDrivers(d) && d@ == b.backup_dir@
        } else {
            w is Nothing
        }
    }
}

/// Step 3: the image is released (Ghost for `.gho`/`.ghs`, else the WIM engine onto
/// the partition's root).
pub open spec fn apply_msgs() -> Seq<(Seq<char>, u8)> {
    seq![rep(3, apply_name(), 0)]
}

pub open spec fn apply_work(b: DirectInstall, w: DirectWork) -> bool {
    &&& b.step == DirectStep::ApplyImage
    &&& if is_gho_path(b.image_path@) {
        w matches DirectWork::RestoreGhost { image, target } && image@ == b.image_path@ && target@ == b.target_partition@
    } else {
        w matches DirectWork::ApplyImage { image, dir, index } && image@ == b.image_path@
            && dir@ == b.target_partition@ + "\\"@ && index == b.volume_index
    }
}

/// Step 4: first, whether drivers were exported.
pub open spec fn drivers_check_msgs() -> Seq<(Seq<char>, u8)> {
    seq![rep(4, import_name(), 0)]
}

pub open spec fn drivers_check_work(b: DirectInstall, w: DirectWork) -> bool {
    &&& b.step == DirectStep::CheckBackup
    &&& w matches DirectWork::CheckDir(d) && d@ == b.backup_dir@
}

/// After step 4: unless the options already say XP, whether the new system is XP is
/// learnt from its `\Windows\Boot`.
pub open spec fn xp_check_work(b: DirectInstall, w: DirectWork) -> bool {
    &&& b.step == DirectStep::CheckWindowsBoot
    &&& if b.options.is_xp {
        w is Nothing
    } else {
        w matches DirectWork::CheckDir(d) && d@ == b.target_partition@ + "\\Windows\\Boot"@
    }
}

/// The boot files are written: XP on UEFI tries its UEFI loader first, XP otherwise
/// writes its legacy loader, any other system is repaired with `bcdboot`.
pub open spec fn boot_write_work(b: DirectInstall, w: DirectWork) -> bool {
    if b.is_xp && b.use_uefi {
        b.step == DirectStep::XpUefiBoot && (w matches DirectWork::WriteXpUefiBoot(t) && t@ == b.target_partition@)
    } else if b.is_xp {
        b.step == DirectStep::Boot && (w matches DirectWork::WriteXpBoot(t) && t@ == b.target_partition@)
    } else {
        b.step == DirectStep::Boot && (w matches DirectWork::RepairBoot { target, uefi } && target@ == b.target_partition@
            && uefi == b.use_uefi)
    }
}

/// Step 5: without boot repair it is passed; else the boot mode is fixed and a
/// legacy boot on a known disk first gets a disk signature.
pub open spec fn boot_msgs(b: DirectInstall) -> Seq<(Seq<char>, u8)> {
    if b.options.repair_boot {
        seq![rep(5, boot_name(), 0), rep(5, boot_name(), 20), rep(5, boot_name(), 50)]
    } else {
        seq![rep(5, boot_name(), 0), rep(5, boot_name(), 100)]
    }
}

pub open spec fn boot_work(b: DirectInstall, w: DirectWork) -> bool {
    if b.options.repair_boot {
        &&& b.use_uefi == uefi_for(b.options.boot_mode, b.partition_style)
        &&& if !b.use_uefi && b.target_disk is Some {
            b.step == DirectStep::MbrSignature && (w matches DirectWork::EnsureMbrSignature(d) && d == b.target_disk->0)
        } else {
            boot_write_work(b, w)
        }
    } else {
        b.step == DirectStep::Boot && w is Nothing
    }
}

/// Step 6 begins: advanced options are applied.
pub open spec fn advanced_msgs() -> Seq<(Seq<char>, u8)> {
    seq![rep(6, advanced_name(), 0), rep(6, advanced_name(), 20)]
}

pub open spec fn advanced_work(b: DirectInstall, w: DirectWork) -> bool {
    &&& b.step == DirectStep::Advanced
    &&& w matches DirectWork::ApplyAdvancedOptions { target, is_xp } && target@ == b.target_partition@ && is_xp == b.is_xp
}

/// The last reports.
pub open spec fn finish_msgs() -> Seq<(Seq<char>, u8)> {
    seq![rep(6, advanced_name(), 100), rep(7, done_name(), 100)]
}

pub open spec fn finished(b: DirectInstall, w: DirectWork) -> bool {
    b.step == DirectStep::Finished && w is Finish
}

// ---------------------------------------------------------------------------
// Transitions
// ---------------------------------------------------------------------------

pub open spec fn relocate_error_message(e: Seq<char>, output: Seq<char>) -> Seq<char> {
    "Diskpart 脚本执行后无法定位安装目标："@ + e
        + "\n已中止，未格式化、未释放任何文件。请点「刷新分区」重新选择目标分区，或检查 diskpart 脚本。\n脚本输出：\n"@
        + output
}

pub open spec fn format_error_message(target: Seq<char>, e: Seq<char>) -> Seq<char> {
    "格式化分区 "@ + target + " 失败："@ + e
        + "。已中止，未释放镜像、未写入任何安装文件。请确认该分区未被占用（关闭正在浏览它的资源管理器/程序）后重试。"@
}

pub open spec fn xp_error_message(e: Seq<char>) -> Seq<char> {
    "XP/2003 文本安装准备失败："@ + e
}

/// Drivers exported beforehand are imported (automatic import) or kept on the target
/// (save only); otherwise the step passes.
pub open spec fn driver_work(b: DirectInstall, exists: bool, out: Seq<(Seq<char>, u8)>, w: DirectWork) -> bool {
    &&& b.step == DirectStep::Drivers
    &&& if b.options.driver_action == DriverAction::AutoImport && exists {
        &&& !b.saving_drivers
        &&& out == seq![rep(4, import_name(), 30)]
        &&& w matches DirectWork::ImportDrivers { target, backup } && target@ == b.target_partition@ && backup@ == b.backup_dir@
    } else if b.options.driver_action == DriverAction::SaveOnly && exists {
        &&& b.saving_drivers
        &&& out == seq![rep(4, save_name(), 30)]
        &&& w matches DirectWork::SaveDrivers { backup, dest } && backup@ == b.backup_dir@
            && dest@ == b.target_partition@ + "\\LetRecovery_Drivers"@
    } else {
        &&& !b.saving_drivers
        &&& out.len() == 0
        &&& w is Nothing
    }
}

/// After the boot files: the Windows 7 UEFI patch when the boot succeeded on UEFI
/// and it is chosen; else step 5 ends and step 6 begins.
pub open spec fn after_boot(b: DirectInstall, ok: bool, out: Seq<(Seq<char>, u8)>, w: DirectWork) -> bool {
    if ok && b.use_uefi && b.win7_uefi_patch {
        &&& out == seq![rep(5, patch_name(), 70)]
        &&& b.step == DirectStep::UefiSeven
        &&& w matches DirectWork::ApplyUefiSeven(t) && t@ == b.target_partition@
    } else {
        &&& out == seq![rep(5, boot_name(), 100)] + advanced_msgs()
        &&& advanced_work(b, w)
    }
}

/// One transition from `a` on event `e` to `b`, sending the reports `out` and asking
/// for work `w`.
pub open spec fn direct_transition(a: DirectInstall, b: DirectInstall, e: DirectEvent, out: Seq<(Seq<char>, u8)>, w: DirectWork) -> bool {
    &&& same_config(a, b)
    &&& match a.step {
        DirectStep::Scripts => {
            let o = match e {
                DirectEvent::ScriptsRan(x) => x@,
                _ => Seq::empty(),
            };
            &&& b.script_output@ == o
            &&& b.step == DirectStep::Relocate
            &&& out.len() == 0
            &&& b.target_partition == a.target_partition
            &&& b.partition_style == a.partition_style
            &&& b.saving_drivers == a.saving_drivers
            &&& b.is_xp == a.is_xp
            &&& b.use_uefi == a.use_uefi
            &&& w matches DirectWork::Relocate { disk, partition, letter } && disk == a.target_disk
                && partition == a.target_part_no && letter@ == a.target_partition@
        },
        DirectStep::Relocate => match e {
            DirectEvent::Relocated(Ok((l, style))) => {
                &&& b.target_partition@ == l@
                &&& b.partition_style == style
                &&& b.script_output == a.script_output
                &&& b.saving_drivers == a.saving_drivers
                &&& b.is_xp == a.is_xp
                &&& b.use_uefi == a.use_uefi
                &&& out == seq![rep(1, scripts_name(), 100)] + format_msgs(b)
                &&& format_work(b, w)
            },
            DirectEvent::Relocated(Err(x)) => out == seq![err_rep(relocate_error_message(x@, a.script_output@))]
                && finished(b, w),
            _ => out.len() == 0 && finished(b, w),
        },
        DirectStep::Format => match e {
            DirectEvent::Done(Err(x)) => out == seq![err_rep(format_error_message(a.target_partition@, x@))] && finished(b, w),
            _ => {
                &&& out == (if a.options.format_partition { seq![rep(1, format_name(), 100)] } else { Seq::empty() })
                    + after_format_msgs(b)
                &&& after_format_work(b, w)
                &&& same_run(a, b)
            },
        },
        DirectStep::XpSetup => match e {
            DirectEvent::Done(Err(x)) => out == seq![err_rep(xp_error_message(x@))] && finished(b, w),
            _ => out == seq![rep(3, apply_name(), 100), rep(4, import_name(), 100), rep(5, boot_name(), 100),
                rep(6, advanced_name(), 100), rep(7, done_name(), 100)] && finished(b, w),
        },
        DirectStep::ExportDrivers => {
            &&& out == (if a.options.export_drivers { seq![rep(2, export_name(), 100)] } else { Seq::empty() }) + apply_msgs()
            &&& same_run(a, b)
            &&& apply_work(b, w)
        },
        DirectStep::ApplyImage => {
            &&& out == seq![rep(3, apply_name(), 100)] + drivers_check_msgs()
            &&& same_run(a, b)
            &&& drivers_check_work(b, w)
        },
        DirectStep::CheckBackup => {
            &&& b.target_partition == a.target_partition
            &&& b.partition_style == a.partition_style
            &&& b.script_output == a.script_output
            &&& b.is_xp == a.is_xp
            &&& b.use_uefi == a.use_uefi
            &&& driver_work(b, e matches DirectEvent::Exists(true), out, w)
        },
        DirectStep::Drivers => {
            &&& out == seq![rep(4, if a.saving_drivers { save_name() } else { import_name() }, 100)]
            &&& same_run(a, b)
            &&& xp_check_work(b, w)
        },
        DirectStep::CheckWindowsBoot => {
            &&& b.is_xp == (a.options.is_xp || e matches DirectEvent::Exists(false))
            &&& b.target_partition == a.target_partition
            &&& b.partition_style == a.partition_style
            &&& b.script_output == a.script_output
            &&& b.saving_drivers == a.saving_drivers
            &&& (!a.options.repair_boot ==> b.use_uefi == a.use_uefi)
            &&& out == boot_msgs(b)
            &&& boot_work(b, w)
        },
        DirectStep::MbrSignature => {
            &&& same_run(a, b)
            &&& out.len() == 0
            &&& boot_write_work(b, w)
        },
        DirectStep::XpUefiBoot => {
            &&& same_run(a, b)
            &&& match e {
                DirectEvent::Done(Ok(())) => after_boot(b, true, out, w),
                _ => out.len() == 0 && b.step == DirectStep::Boot
                    && (w matches DirectWork::WriteXpBoot(t) && t@ == a.target_partition@),
            }
        },
        DirectStep::Boot => {
            &&& same_run(a, b)
            &&& if a.options.repair_boot {
                after_boot(b, e matches DirectEvent::Done(Ok(())), out, w)
            } else {
                out == advanced_msgs() && advanced_work(b, w)
            }
        },
        DirectStep::UefiSeven => {
            &&& same_run(a, b)
            &&& out == seq![rep(5, boot_name(), 100)] + advanced_msgs()
            &&& advanced_work(b, w)
        },
        DirectStep::Advanced => {
            &&& same_run(a, b)
            &&& out == seq![rep(6, advanced_name(), 50)]
            &&& b.step == DirectStep::UserDrivers
            &&& w matches DirectWork::InjectUserDrivers { target, is_xp } && target@ == a.target_partition@ && is_xp == a.is_xp
        },
        DirectStep::UserDrivers => same_run(a, b) && if a.options.unattended_install {
            &&& out == seq![rep(6, advanced_name(), 70)]
            &&& b.step == DirectStep::Unattend
            &&& w matches DirectWork::GenerateUnattend(t) && t@ == a.target_partition@
        } else {
            out == seq![rep(6, advanced_name(), 70)] + finish_msgs() && finished(b, w)
        },
        DirectStep::Unattend => same_run(a, b) && out == finish_msgs() && finished(b, w),
        DirectStep::Finished => false,
    }
}


/// How many stages at most lie ahead of `step`.
pub open spec fn stages_left(step: DirectStep) -> nat {
    match step {
        DirectStep::Finished => 0,
        DirectStep::Unattend => 1,
        DirectStep::UserDrivers => 2,
        DirectStep::Advanced => 3,
        DirectStep::UefiSeven => 4,
        DirectStep::Boot => 5,
        DirectStep::XpUefiBoot => 6,
        DirectStep::MbrSignature => 7,
        DirectStep::CheckWindowsBoot => 8,
        DirectStep::Drivers => 9,
        DirectStep::CheckBackup => 10,
        DirectStep::ApplyImage => 11,
        DirectStep::ExportDrivers => 12,
        DirectStep::XpSetup => 13,
        DirectStep::Format => 14,
        DirectStep::Relocate => 15,
        DirectStep::Scripts => 16,
    }
}

/// Every transition moves forward, so an installation ends after at most sixteen
/// transitions whatever the outcomes; and the work asked for is `Finish` exactly when
/// the installation has ended.
pub proof fn lemma_direct_install_ends(a: DirectInstall, b: DirectInstall, e: DirectEvent, out: Seq<(Seq<char>, u8)>, w: DirectWork)
    requires
        direct_transition(a, b, e, out, w),
    ensures
        stages_left(b.step) < stages_left(a.step),
        (w is Finish) == (b.step == DirectStep::Finished),
{
    match a.step {
        DirectStep::Format => {
            if !(e matches DirectEvent::Done(Err(_))) {
                if b.options.is_xp_i386 {
                    assert(b.step == DirectStep::XpSetup);
                } else {
                    assert(b.step == DirectStep::ExportDrivers);
                }
            }
        },
        DirectStep::Relocate => {
            if e matches DirectEvent::Relocated(Ok(_)) {
                assert(b.step == DirectStep::Format);
            }
        },
        DirectStep::CheckWindowsBoot => {
            if b.options.repair_boot {
                if !b.use_uefi && b.target_disk is Some {
                    assert(b.step == DirectStep::MbrSignature);
                } else if b.is_xp && b.use_uefi {
                    assert(b.step == DirectStep::XpUefiBoot);
                } else {
                    assert(b.step == DirectStep::Boot);
                }
            }
        },
        DirectStep::MbrSignature => {
            if b.is_xp && b.use_uefi {
                assert(b.step == DirectStep::XpUefiBoot);
            } else {
                assert(b.step == DirectStep::Boot);
            }
        },
        DirectStep::XpUefiBoot => {
            if e matches DirectEvent::Done(Ok(())) {
                if b.use_uefi && b.win7_uefi_patch {
                    assert(b.step == DirectStep::UefiSeven);
                } else {
                    assert(b.step == DirectStep::Advanced);
                }
            }
        },
        DirectStep::Boot => {
            if a.options.repair_boot {
                if (e matches DirectEvent::Done(Ok(()))) && b.use_uefi && b.win7_uefi_patch {
                    assert(b.step == DirectStep::UefiSeven);
                } else {
                    assert(b.step == DirectStep::Advanced);
                }
            }
        },
        DirectStep::CheckBackup => {
            assert(b.step == DirectStep::Drivers);
        },
        _ => {},
    }
}

// ---------------------------------------------------------------------------
// Running it
// ---------------------------------------------------------------------------

pub(crate) fn push_rep(out: &mut Vec<DismProgress>, n: usize, name: &str, pct: u8)
    ensures
        progress_view(final(out)@) == progress_view(old(out)@).push(rep(n as nat, name@, pct)),
{
    out.push(send_step(n, name, pct));
    assert(progress_view(out@) =~= progress_view(old(out)@).push(rep(n as nat, name@, pct)));
}

pub(crate) fn push_err(out: &mut Vec<DismProgress>, msg: &str)
    ensures
        progress_view(final(out)@) == progress_view(old(out)@).push(err_rep(msg@)),
{
    out.push(send_error(msg));
    assert(progress_view(out@) =~= progress_view(old(out)@).push(err_rep(msg@)));
}

pub(crate) fn concat2(a: &str, b: &str) -> (r: String)
    ensures
        r@ == a@ + b@,
{
    let mut s = str_to_string(a);
    push_str(&mut s, b);
    s
}

pub(crate) fn is_gho_file(path: &str) -> (r: bool)
    ensures
        r == is_gho_path(path@),
{
    let l = to_lowercase(path);
    let v = to_chars(l.as_str());
    let g = to_chars(".gho");
    let h = to_chars(".ghs");
    ends_with_chars(v.as_slice(), g.as_slice()) || ends_with_chars(v.as_slice(), h.as_slice())
}

impl DirectInstall {
    fn enter_format(&mut self, out: &mut Vec<DismProgress>) -> (w: DirectWork)
        ensures
            progress_view(final(out)@) == progress_view(old(out)@) + format_msgs(*final(self)),
            format_work(*final(self), w),
            same_run(*old(self), *final(self)),
    {
        push_rep(out, 1, "格式化分区", 0);
        self.step = DirectStep::Format;
        if self.options.format_partition {
            push_rep(out, 1, "格式化分区", 30);
            DirectWork::Format(str_to_string(self.target_partition.as_str()))
        } else {
            push_rep(out, 1, "格式化分区", 100);
            DirectWork::Nothing
        }
    }

    fn enter_after_format(&mut self, out: &mut Vec<DismProgress>) -> (w: DirectWork)
        ensures
            progress_view(final(out)@) == progress_view(old(out)@) + after_format_msgs(*final(self)),
            after_format_work(*final(self), w),
            same_run(*old(self), *final(self)),
    {
        if self.options.is_xp_i386 {
            push_rep(out, 2, "导出驱动", 100);
            push_rep(out, 3, "释放系统镜像", 0);
            self.step = DirectStep::XpSetup;
            let custom_sif = if to_chars(self.options.custom_unattend_path.as_str()).len() == 0 {
                None
            } else {
                Some(str_to_string(self.options.custom_unattend_path.as_str()))
            };
            DirectWork::XpSetup {
                target: str_to_string(self.target_partition.as_str()),
                source: str_to_string(self.image_path.as_str()),
                custom_sif,
            }
        } else {
            push_rep(out, 2, "导出驱动", 0);
            self.step = DirectStep::ExportDrivers;
            if self.options.export_drivers {
                push_rep(out, 2, "导出驱动", 20);
                DirectWork::ExportDrivers(str_to_string(self.backup_dir.as_str()))
            } else {
                push_rep(out, 2, "导出驱动", 100);
                DirectWork::Nothing
            }
        }
    }

    fn enter_apply(&mut self, out: &mut Vec<DismProgress>) -> (w: DirectWork)
        ensures
            progress_view(final(out)@) == progress_view(old(out)@) + apply_msgs(),
            apply_work(*final(self), w),
            same_run(*old(self), *final(self)),
    {
        push_rep(out, 3, "释放系统镜像", 0);
        self.step = DirectStep::ApplyImage;
        if is_gho_file(self.image_path.as_str()) {
            DirectWork::RestoreGhost {
                image: str_to_string(self.image_path.as_str()),
                target: str_to_string(self.target_partition.as_str()),
            }
        } else {
            DirectWork::ApplyImage {
                image: str_to_string(self.image_path.as_str()),
                dir: concat2(self.target_partition.as_str(), "\\"),
                index: self.volume_index,
            }
        }
    }

    fn enter_boot(&mut self, out: &mut Vec<DismProgress>) -> (w: DirectWork)
        ensures
            progress_view(final(out)@) == progress_view(old(out)@) + boot_msgs(*final(self)),
            boot_work(*final(self), w),
            same_config(*old(self), *final(self)),
            final(self).target_partition == old(self).target_partition,
            final(self).partition_style == old(self).partition_style,
            final(self).script_output == old(self).script_output,
            final(self).saving_drivers == old(self).saving_drivers,
            final(self).is_xp == old(self).is_xp,
            !old(self).options.repair_boot ==> final(self).use_uefi == old(self).use_uefi,
    {
        push_rep(out, 5, "修复引导", 0);
        if !self.options.repair_boot {
            push_rep(out, 5, "修复引导", 100);
            self.step = DirectStep::Boot;
            return DirectWork::Nothing;
        }
        push_rep(out, 5, "修复引导", 20);
        self.use_uefi = match self.options.boot_mode {
            BootModeSelection::UEFI => true,
            BootModeSelection::Legacy => false,
            BootModeSelection::Auto => self.partition_style == PartitionStyle::GPT,
        };
        push_rep(out, 5, "修复引导", 50);
        if !self.use_uefi {
            if let Some(d) = self.target_disk {
                self.step = DirectStep::MbrSignature;
                return DirectWork::EnsureMbrSignature(d);
            }
        }
        self.write_boot()
    }

    fn write_boot(&mut self) -> (w: DirectWork)
        ensures
            boot_write_work(*final(self), w),
            same_run(*old(self), *final(self)),
    {
        let t = str_to_string(self.target_partition.as_str());
        if self.is_xp && self.use_uefi {
            self.step = DirectStep::XpUefiBoot;
            DirectWork::WriteXpUefiBoot(t)
        } else if self.is_xp {
            self.step = DirectStep::Boot;
            DirectWork::WriteXpBoot(t)
        } else {
            self.step = DirectStep::Boot;
            DirectWork::RepairBoot { target: t, uefi: self.use_uefi }
        }
    }

    fn enter_advanced(&mut self, out: &mut Vec<DismProgress>) -> (w: DirectWork)
        ensures
            progress_view(final(out)@) == progress_view(old(out)@) + advanced_msgs(),
            advanced_work(*final(self), w),
            same_run(*old(self), *final(self)),
    {
        push_rep(out, 6, "应用高级选项", 0);
        push_rep(out, 6, "应用高级选项", 20);
        self.step = DirectStep::Advanced;
        DirectWork::ApplyAdvancedOptions { target: str_to_string(self.target_partition.as_str()), is_xp: self.is_xp }
    }

    fn after_boot(&mut self, ok: bool, out: &mut Vec<DismProgress>) -> (w: DirectWork)
        ensures
            ({
                let added = progress_view(final(out)@).subrange(progress_view(old(out)@).len() as int, progress_view(final(out)@).len() as int);
                &&& progress_view(final(out)@).len() >= progress_view(old(out)@).len()
                &&& progress_view(final(out)@).subrange(0, progress_view(old(out)@).len() as int) == progress_view(old(out)@)
                &&& after_boot(*final(self), ok, added, w)
            }),
            same_run(*old(self), *final(self)),
    {
        let ghost before = progress_view(out@);
        if ok && self.use_uefi && self.win7_uefi_patch {
            push_rep(out, 5, "应用Win7 UEFI补丁", 70);
            self.step = DirectStep::UefiSeven;
            let w = DirectWork::ApplyUefiSeven(str_to_string(self.target_partition.as_str()));
            assert(progress_view(out@).subrange(before.len() as int, progress_view(out@).len() as int) =~= seq![rep(5, patch_name(), 70)]);
            assert(progress_view(out@).subrange(0, before.len() as int) =~= before);
            w
        } else {
            push_rep(out, 5, "修复引导", 100);
            let w = self.enter_advanced(out);
            assert(progress_view(out@).subrange(before.len() as int, progress_view(out@).len() as int) =~= seq![rep(5, boot_name(), 100)] + advanced_msgs());
            assert(progress_view(out@).subrange(0, before.len() as int) =~= before);
            w
        }
    }

    fn finish(&mut self, out: &mut Vec<DismProgress>) -> (w: DirectWork)
        ensures
            progress_view(final(out)@) == progress_view(old(out)@) + finish_msgs(),
            finished(*final(self), w),
            same_run(*old(self), *final(self)),
    {
        push_rep(out, 6, "应用高级选项", 100);
        push_rep(out, 7, "完成安装", 100);
        self.step = DirectStep::Finished;
        DirectWork::Finish
    }
}

/// What starting an installation sends and asks first: the partition scripts when
/// they are to run, else the formatting step.
pub open spec fn start_msgs(b: DirectInstall) -> Seq<(Seq<char>, u8)> {
    if b.options.run_diskpart_scripts {
        seq![rep(1, scripts_name(), 0)]
    } else {
        format_msgs(b)
    }
}

pub open spec fn start_work(b: DirectInstall, w: DirectWork) -> bool {
    if b.options.run_diskpart_scripts {
        b.step == DirectStep::Scripts && w is RunDiskpartScripts
    } else {
        format_work(b, w)
    }
}

impl DirectInstall {
    /// Starts installing the volume `volume_index` of `image_path` onto
    /// `target_partition` (disk and partition numbers `target_disk`/`target_part_no`,
    /// table style `partition_style`) with `options`; drivers are exported to
    /// `backup_dir`.
    pub fn new(
        target_partition: &str,
        partition_style: PartitionStyle,
        target_disk: Option<u32>,
        target_part_no: Option<u32>,
        image_path: &str,
        volume_index: u32,
        options: InstallOptions,
        win7_uefi_patch: bool,
        backup_dir: &str,
    ) -> (r: (DirectInstall, DirectAction))
        ensures
            r.0.target_partition@ == target_partition@,
            r.0.partition_style == partition_style,
            r.0.target_disk == target_disk,
            r.0.target_part_no == target_part_no,
            r.0.image_path@ == image_path@,
            r.0.volume_index == volume_index,
            r.0.options == options,
            r.0.win7_uefi_patch == win7_uefi_patch,
            r.0.backup_dir@ == backup_dir@,
            progress_view(r.1.progress@) == start_msgs(r.0),
            start_work(r.0, r.1.work),
    {
        let mut job = DirectInstall {
            target_partition: str_to_string(target_partition),
            partition_style,
            target_disk,
            target_part_no,
            image_path: str_to_string(image_path),
            volume_index,
            options,
            win7_uefi_patch,
            backup_dir: str_to_string(backup_dir),
            script_output: String::new(),
            saving_drivers: false,
            is_xp: false,
            use_uefi: false,
            step: DirectStep::Scripts,
        };
        let mut out: Vec<DismProgress> = Vec::new();
        let work = if job.options.run_diskpart_scripts {
            push_rep(&mut out, 1, "运行 Diskpart 脚本", 0);
            DirectWork::RunDiskpartScripts
        } else {
            job.enter_format(&mut out)
        };
        assert(progress_view(out@) =~= start_msgs(job));
        (job, DirectAction { progress: out, work })
    }

    /// Takes the outcome of the last piece of work and gives the reports to send and
    /// the next work (see [`direct_transition`]). A failed relocation, format or XP
    /// setup ends the installation with an error report, before any later step.
    pub fn advance(&mut self, event: DirectEvent) -> (act: DirectAction)
        requires
            old(self).step != DirectStep::Finished,
        ensures
            direct_transition(*old(self), *final(self), event, progress_view(act.progress@), act.work),
    {
        match self.step {
            DirectStep::Scripts => self.on_scripts(event),
            DirectStep::Relocate => self.on_relocate(event),
            DirectStep::Format => self.on_format(event),
            DirectStep::XpSetup => self.on_xp_setup(event),
            DirectStep::ExportDrivers => self.on_export(event),
            DirectStep::ApplyImage => self.on_apply(event),
            DirectStep::CheckBackup => self.on_check_backup(event),
            DirectStep::Drivers => self.on_drivers(event),
            DirectStep::CheckWindowsBoot => self.on_check_windows_boot(event),
            DirectStep::MbrSignature => self.on_mbr_signature(event),
            DirectStep::XpUefiBoot => self.on_xp_uefi_boot(event),
            DirectStep::Boot => self.on_boot(event),
            DirectStep::UefiSeven => self.on_uefi_seven(event),
            DirectStep::Advanced => self.on_advanced(event),
            DirectStep::UserDrivers => self.on_user_drivers(event),
            DirectStep::Unattend => self.on_unattend(event),
            DirectStep::Finished => DirectAction { progress: Vec::new(), work: DirectWork::Finish },
        }
    }

    fn on_scripts(&mut self, event: DirectEvent) -> (act: DirectAction)
        requires
            old(self).step == DirectStep::Scripts,
        ensures
            direct_transition(*old(self), *final(self), event, progress_view(act.progress@), act.work),
    {
        let out: Vec<DismProgress> = Vec::new();
        self.script_output = match event {
            DirectEvent::ScriptsRan(x) => x,
            _ => String::new(),
        };
        self.step = DirectStep::Relocate;
        let work = DirectWork::Relocate {
            disk: self.target_disk,
            partition: self.target_part_no,
            letter: str_to_string(self.target_partition.as_str()),
        };
        assert(progress_view(out@).len() == 0);
        DirectAction { progress: out, work }
    }

    fn on_relocate(&mut self, event: DirectEvent) -> (act: DirectAction)
        requires
            old(self).step == DirectStep::Relocate,
        ensures
            direct_transition(*old(self), *final(self), event, progress_view(act.progress@), act.work),
    {
        let mut out: Vec<DismProgress> = Vec::new();
        let work = match event {
            DirectEvent::Relocated(Ok((l, style))) => {
                self.target_partition = l;
                self.partition_style = style;
                push_rep(&mut out, 1, "运行 Diskpart 脚本", 100);
                let w = self.enter_format(&mut out);
                assert(progress_view(out@) =~= seq![rep(1, scripts_name(), 100)] + format_msgs(*self));
                w
            },
            DirectEvent::Relocated(Err(x)) => {
                let mut m = str_to_string("Diskpart 脚本执行后无法定位安装目标：");
                push_str(&mut m, x.as_str());
                push_str(&mut m, "\n已中止，未格式化、未释放任何文件。请点「刷新分区」重新选择目标分区，或检查 diskpart 脚本。\n脚本输出：\n");
                push_str(&mut m, self.script_output.as_str());
                push_err(&mut out, m.as_str());
                self.step = DirectStep::Finished;
                assert(progress_view(out@) =~= seq![err_rep(relocate_error_message(x@, self.script_output@))]);
                DirectWork::Finish
            },
            _ => {
                self.step = DirectStep::Finished;
                DirectWork::Finish
            },
        };
        DirectAction { progress: out, work }
    }

    fn on_format(&mut self, event: DirectEvent) -> (act: DirectAction)
        requires
            old(self).step == DirectStep::Format,
        ensures
            direct_transition(*old(self), *final(self), event, progress_view(act.progress@), act.work),
    {
        let mut out: Vec<DismProgress> = Vec::new();
        let failed = match &event {
            DirectEvent::Done(Err(x)) => Some(str_to_string(x.as_str())),
            _ => None,
        };
        let work = match failed {
            Some(x) => {
                let mut m = str_to_string("格式化分区 ");
                push_str(&mut m, self.target_partition.as_str());
                push_str(&mut m, " 失败：");
                push_str(&mut m, x.as_str());
                push_str(&mut m, "。已中止，未释放镜像、未写入任何安装文件。请确认该分区未被占用（关闭正在浏览它的资源管理器/程序）后重试。");
                push_err(&mut out, m.as_str());
                self.step = DirectStep::Finished;
                assert(progress_view(out@) =~= seq![err_rep(format_error_message(self.target_partition@, x@))]);
                DirectWork::Finish
            },
            None => {
                let ghost before = progress_view(out@);
                if self.options.format_partition {
                    push_rep(&mut out, 1, "格式化分区", 100);
                }
                let ghost mid = progress_view(out@);
                assert(mid =~= (if self.options.format_partition { seq![rep(1, format_name(), 100)] } else { Seq::empty() }));
                let w = self.enter_after_format(&mut out);
                w
            },
        };
        DirectAction { progress: out, work }
    }

    fn on_xp_setup(&mut self, event: DirectEvent) -> (act: DirectAction)
        requires
            old(self).step == DirectStep::XpSetup,
        ensures
            direct_transition(*old(self), *final(self), event, progress_view(act.progress@), act.work),
    {
        let mut out: Vec<DismProgress> = Vec::new();
        let work = match event {
            DirectEvent::Done(Err(x)) => {
                let mut m = str_to_string("XP/2003 文本安装准备失败：");
                push_str(&mut m, x.as_str());
                push_err(&mut out, m.as_str());
                self.step = DirectStep::Finished;
                assert(progress_view(out@) =~= seq![err_rep(xp_error_message(x@))]);
                DirectWork::Finish
            },
            _ => {
                push_rep(&mut out, 3, "释放系统镜像", 100);
                push_rep(&mut out, 4, "导入驱动", 100);
                push_rep(&mut out, 5, "修复引导", 100);
                push_rep(&mut out, 6, "应用高级选项", 100);
                push_rep(&mut out, 7, "完成安装", 100);
                self.step = DirectStep::Finished;
                assert(progress_view(out@) =~= seq![rep(3, apply_name(), 100), rep(4, import_name(), 100), rep(5, boot_name(), 100),
                    rep(6, advanced_name(), 100), rep(7, done_name(), 100)]);
                DirectWork::Finish
            },
        };
        DirectAction { progress: out, work }
    }

    fn on_export(&mut self, event: DirectEvent) -> (act: DirectAction)
        requires
            old(self).step == DirectStep::ExportDrivers,
        ensures
            direct_transition(*old(self), *final(self), event, progress_view(act.progress@), act.work),
    {
        let mut out: Vec<DismProgress> = Vec::new();
        if self.options.export_drivers {
            push_rep(&mut out, 2, "导出驱动", 100);
        }
        assert(progress_view(out@) =~= (if self.options.export_drivers { seq![rep(2, export_name(), 100)] } else { Seq::empty() }));
        let work = self.enter_apply(&mut out);
        DirectAction { progress: out, work }
    }

    fn on_apply(&mut self, event: DirectEvent) -> (act: DirectAction)
        requires
            old(self).step == DirectStep::ApplyImage,
        ensures
            direct_transition(*old(self), *final(self), event, progress_view(act.progress@), act.work),
    {
        let mut out: Vec<DismProgress> = Vec::new();
        push_rep(&mut out, 3, "释放系统镜像", 100);
        push_rep(&mut out, 4, "导入驱动", 0);
        self.step = DirectStep::CheckBackup;
        assert(progress_view(out@) =~= seq![rep(3, apply_name(), 100)] + drivers_check_msgs());
        let work = DirectWork::CheckDir(str_to_string(self.backup_dir.as_str()));
        DirectAction { progress: out, work }
    }

    fn on_check_backup(&mut self, event: DirectEvent) -> (act: DirectAction)
        requires
            old(self).step == DirectStep::CheckBackup,
        ensures
            direct_transition(*old(self), *final(self), event, progress_view(act.progress@), act.work),
    {
        let mut out: Vec<DismProgress> = Vec::new();
        let exists = match event {
            DirectEvent::Exists(true) => true,
            _ => false,
        };
        self.step = DirectStep::Drivers;
        let work = if self.options.driver_action == DriverAction::AutoImport && exists {
            self.saving_drivers = false;
            push_rep(&mut out, 4, "导入驱动", 30);
            assert(progress_view(out@) =~= seq![rep(4, import_name(), 30)]);
            DirectWork::ImportDrivers {
                target: str_to_string(self.target_partition.as_str()),
                backup: str_to_string(self.backup_dir.as_str()),
            }
        } else if self.options.driver_action == DriverAction::SaveOnly && exists {
            self.saving_drivers = true;
            push_rep(&mut out, 4, "保存驱动", 30);
            assert(progress_view(out@) =~= seq![rep(4, save_name(), 30)]);
            DirectWork::SaveDrivers {
                backup: str_to_string(self.backup_dir.as_str()),
                dest: concat2(self.target_partition.as_str(), "\\LetRecovery_Drivers"),
            }
        } else {
            self.saving_drivers = false;
            DirectWork::Nothing
        };
        DirectAction { progress: out, work }
    }

    fn on_drivers(&mut self, event: DirectEvent) -> (act: DirectAction)
        requires
            old(self).step == DirectStep::Drivers,
        ensures
            direct_transition(*old(self), *final(self), event, progress_view(act.progress@), act.work),
    {
        let mut out: Vec<DismProgress> = Vec::new();
        if self.saving_drivers {
            push_rep(&mut out, 4, "保存驱动", 100);
        } else {
            push_rep(&mut out, 4, "导入驱动", 100);
        }
        assert(progress_view(out@) =~= seq![rep(4, if self.saving_drivers { save_name() } else { import_name() }, 100)]);
        self.step = DirectStep::CheckWindowsBoot;
        let work = if self.options.is_xp {
            DirectWork::Nothing
        } else {
            DirectWork::CheckDir(concat2(self.target_partition.as_str(), "\\Windows\\Boot"))
        };
        DirectAction { progress: out, work }
    }

    fn on_check_windows_boot(&mut self, event: DirectEvent) -> (act: DirectAction)
        requires
            old(self).step == DirectStep::CheckWindowsBoot,
        ensures
            direct_transition(*old(self), *final(self), event, progress_view(act.progress@), act.work),
    {
        let mut out: Vec<DismProgress> = Vec::new();
        let missing = match event {
            DirectEvent::Exists(false) => true,
            _ => false,
        };
        self.is_xp = self.options.is_xp || missing;
        let work = self.enter_boot(&mut out);
        assert(progress_view(out@) =~= boot_msgs(*self));
        DirectAction { progress: out, work }
    }

    fn on_mbr_signature(&mut self, event: DirectEvent) -> (act: DirectAction)
        requires
            old(self).step == DirectStep::MbrSignature,
        ensures
            direct_transition(*old(self), *final(self), event, progress_view(act.progress@), act.work),
    {
        let out: Vec<DismProgress> = Vec::new();
        let work = self.write_boot();
        assert(progress_view(out@).len() == 0);
        DirectAction { progress: out, work }
    }

    fn on_xp_uefi_boot(&mut self, event: DirectEvent) -> (act: DirectAction)
        requires
            old(self).step == DirectStep::XpUefiBoot,
        ensures
            direct_transition(*old(self), *final(self), event, progress_view(act.progress@), act.work),
    {
        let mut out: Vec<DismProgress> = Vec::new();
        let ok = match event {
            DirectEvent::Done(Ok(())) => true,
            _ => false,
        };
        let work = if ok {
            let w = self.after_boot(true, &mut out);
            assert(progress_view(out@).subrange(0, progress_view(out@).len() as int) =~= progress_view(out@));
            w
        } else {
            self.step = DirectStep::Boot;
            assert(progress_view(out@).len() == 0);
            DirectWork::WriteXpBoot(str_to_string(self.target_partition.as_str()))
        };
        DirectAction { progress: out, work }
    }

    fn on_boot(&mut self, event: DirectEvent) -> (act: DirectAction)
        requires
            old(self).step == DirectStep::Boot,
        ensures
            direct_transition(*old(self), *final(self), event, progress_view(act.progress@), act.work),
    {
        let mut out: Vec<DismProgress> = Vec::new();
        let work = if self.options.repair_boot {
            let ok = match event {
                DirectEvent::Done(Ok(())) => true,
                _ => false,
            };
            let w = self.after_boot(ok, &mut out);
            assert(progress_view(out@).subrange(0, progress_view(out@).len() as int) =~= progress_view(out@));
            w
        } else {
            let w = self.enter_advanced(&mut out);
            assert(progress_view(out@) =~= advanced_msgs());
            w
        };
        DirectAction { progress: out, work }
    }

    fn on_uefi_seven(&mut self, event: DirectEvent) -> (act: DirectAction)
        requires
            old(self).step == DirectStep::UefiSeven,
        ensures
            direct_transition(*old(self), *final(self), event, progress_view(act.progress@), act.work),
    {
        let mut out: Vec<DismProgress> = Vec::new();
        push_rep(&mut out, 5, "修复引导", 100);
        let work = self.enter_advanced(&mut out);
        assert(progress_view(out@) =~= seq![rep(5, boot_name(), 100)] + advanced_msgs());
        DirectAction { progress: out, work }
    }

    fn on_advanced(&mut self, event: DirectEvent) -> (act: DirectAction)
        requires
            old(self).step == DirectStep::Advanced,
        ensures
            direct_transition(*old(self), *final(self), event, progress_view(act.progress@), act.work),
    {
        let mut out: Vec<DismProgress> = Vec::new();
        push_rep(&mut out, 6, "应用高级选项", 50);
        self.step = DirectStep::UserDrivers;
        assert(progress_view(out@) =~= seq![rep(6, advanced_name(), 50)]);
        let work = DirectWork::InjectUserDrivers { target: str_to_string(self.target_partition.as_str()), is_xp: self.is_xp };
        DirectAction { progress: out, work }
    }

    fn on_user_drivers(&mut self, event: DirectEvent) -> (act: DirectAction)
        requires
            old(self).step == DirectStep::UserDrivers,
        ensures
            direct_transition(*old(self), *final(self), event, progress_view(act.progress@), act.work),
    {
        let mut out: Vec<DismProgress> = Vec::new();
        push_rep(&mut out, 6, "应用高级选项", 70);
        let work = if self.options.unattended_install {
            self.step = DirectStep::Unattend;
            assert(progress_view(out@) =~= seq![rep(6, advanced_name(), 70)]);
            DirectWork::GenerateUnattend(str_to_string(self.target_partition.as_str()))
        } else {
            let w = self.finish(&mut out);
            assert(progress_view(out@) =~= seq![rep(6, advanced_name(), 70)] + finish_msgs());
            w
        };
        DirectAction { progress: out, work }
    }

    fn on_unattend(&mut self, event: DirectEvent) -> (act: DirectAction)
        requires
            old(self).step == DirectStep::Unattend,
        ensures
            direct_transition(*old(self), *final(self), event, progress_view(act.progress@), act.work),
    {
        let mut out: Vec<DismProgress> = Vec::new();
        let work = self.finish(&mut out);
        assert(progress_view(out@) =~= finish_msgs());
        DirectAction { progress: out, work }
    }
}

} // verus!
