//! The state of the main window: which image and which target partition are
//! chosen, and what each user action or finished background job does to that
//! choice. Background work (mounting, reading image metadata, probing files) is
//! done by the caller; the methods here take its results and say what to start next.
use vstd::prelude::*;
use crate::disk::{Partition, PartitionStyle};
use crate::wim::{ImageInfo, WimImageType};
use crate::install::InstallMode;
use crate::text::{
    contains, contains_chars, dec, ends_with, ends_with_chars, lowercase, push_dec, push_str,
    str_to_string, to_chars, to_lowercase, chars_eq, to_uppercase, uppercase, starts_with,
    starts_with_chars, push_char, matches_at, slice_chars, chars_to_string,
};
use crate::dism::DismProgress;
use crate::install::{parse_step_from_status, parse_step_spec, total_progress, total_progress_spec};
use crate::expand::{format_gb_one_decimal, gb_text};
use crate::paths::{get_pe_dir, path_join};
use crate::tools_state::ToolsState;

verus! {

/// The boot mode the user asked for.
#[derive(Debug, Clone, Copy, PartialEq, Eq, Structural)]
pub enum BootModeSelection {
    /// Follow the target disk's partition table.
    Auto,
    UEFI,
    Legacy,
}

/// What happens to the drivers of the system being replaced.
#[derive(Debug, Clone, Copy, PartialEq, Eq, Structural)]
pub enum DriverAction {
    /// Leave them alone.
    Skip,
    /// Export them next to the new system.
    SaveOnly,
    /// Export them and import them into the new system.
    AutoImport,
}

/// Outcome of mounting an ISO in the background.
pub enum IsoMountResult {
    /// A Vista-or-later install image (full path of install.wim/esd/swm).
    Success(String),
    /// An XP/2003 text-mode medium; the i386 source directory on the mounted drive.
    XpI386(String),
    Error(String),
}

/// Outcome of reading an image's volumes in the background.
pub enum ImageInfoResult {
    Success(Vec<ImageInfo>),
    Error(String),
}

/// Facts about the running environment.
#[derive(Debug, Clone, Copy, PartialEq, Eq, Structural)]
pub struct Environment {
    /// Running inside Windows PE.
    pub is_pe: bool,
    /// The "advanced options" switch of the configuration.
    pub advanced_options_enabled: bool,
}

/// The chosen image and the state of reading it.
pub struct ImageSelection {
    pub local_image_path: String,
    /// Set when the chosen medium is an XP/2003 i386 text-mode source.
    pub xp_i386_source: Option<String>,
    pub iso_mounting: bool,
    pub iso_mount_error: Option<String>,
    pub image_info_loading: bool,
    pub image_volumes: Vec<ImageInfo>,
    pub selected_volume: Option<usize>,
    /// Easy mode: start installing as soon as the image's volumes are known.
    pub easy_mode_pending_auto_start: bool,
    /// The chosen image or medium brings its own answer file.
    pub source_has_unattend: bool,
    /// The image volume (`path::index::name`) that the storage-controller driver
    /// default was last set for.
    pub storage_driver_default_target: Option<String>,
    /// Storage-controller drivers are imported into the new system.
    pub import_storage_controller_drivers: bool,
}

/// The chosen target partition and the installation options bound to it.
pub struct TargetSelection {
    pub partitions: Vec<Partition>,
    pub selected_partition: Option<usize>,
    pub format_partition: bool,
    pub repair_boot: bool,
    pub unattended_install: bool,
    /// The target already holds an answer file.
    pub partition_has_unattend: bool,
    pub last_unattend_check_partition: Option<String>,
    pub unattend_check_loading: bool,
    pub boot_mode: BootModeSelection,
    pub driver_action: DriverAction,
    pub auto_reboot: bool,
    pub custom_unattend_path: String,
    pub run_diskpart_scripts: bool,
}

/// What the caller starts after the image choice changed.
pub enum ImageLoadAction {
    /// Mount this ISO in the background.
    MountIso(String),
    /// Read the volumes of this WIM/ESD/SWM in the background.
    LoadImageInfo(String),
    /// A GHO image: re-check the source for an answer file.
    RefreshSourceUnattend,
    /// Nothing to load.
    Nothing,
}

// ---------------------------------------------------------------------------
// Image kinds by file name
// ---------------------------------------------------------------------------

pub open spec fn is_iso_path(p: Seq<char>) -> bool {
    ends_with(lowercase(p), ".iso"@)
}

pub open spec fn is_wim_path(p: Seq<char>) -> bool {
    let l = lowercase(p);
    ends_with(l, ".wim"@) || ends_with(l, ".esd"@) || ends_with(l, ".swm"@)
}

pub open spec fn is_gho_path(p: Seq<char>) -> bool {
    let l = lowercase(p);
    ends_with(l, ".gho"@) || ends_with(l, ".ghs"@)
}

/// What starting to read the image at `path` does to the volume list: a WIM family
/// image is read in the background (list emptied, nothing selected); a GHO image has a
/// single implicit volume; anything else is left as it was.
pub open spec fn begins_image_load(
    old_sel: ImageSelection,
    new_sel: ImageSelection,
    path: Seq<char>,
    r: ImageLoadAction,
) -> bool {
    if is_wim_path(path) {
        &&& r matches ImageLoadAction::LoadImageInfo(p) && p@ == path
        &&& new_sel.image_info_loading
        &&& new_sel.image_volumes@.len() == 0
        &&& new_sel.selected_volume is None
    } else if is_gho_path(path) {
        &&& r is RefreshSourceUnattend
        &&& new_sel.image_info_loading == old_sel.image_info_loading
        &&& new_sel.image_volumes@.len() == 0
        &&& new_sel.selected_volume == Some(0usize)
    } else {
        &&& r is Nothing
        &&& new_sel.image_info_loading == old_sel.image_info_loading
        &&& new_sel.image_volumes == old_sel.image_volumes
        &&& new_sel.selected_volume == old_sel.selected_volume
    }
}

pub(crate) fn ends_with_lit(l: &Vec<char>, suffix: &str) -> (r: bool)
    ensures
        r == ends_with(l@, suffix@),
{
    let s = to_chars(suffix);
    ends_with_chars(l.as_slice(), s.as_slice())
}

pub(crate) fn lower_chars(s: &str) -> (r: Vec<char>)
    ensures
        r@ == lowercase(s@),
{
    let l = to_lowercase(s);
    to_chars(l.as_str())
}

// ---------------------------------------------------------------------------
// Which volumes can be installed
// ---------------------------------------------------------------------------

/// Volume names that mark a PE or setup environment.
pub open spec fn names_setup_environment(name_l: Seq<char>) -> bool {
    ||| contains(name_l, "windows pe"@)
    ||| contains(name_l, "windows setup"@)
    ||| contains(name_l, "setup media"@)
    ||| contains(name_l, "winpe"@)
}

/// Volume names that mark an installable system or a backup of one.
pub open spec fn names_system(name_l: Seq<char>) -> bool {
    ||| contains(name_l, "windows 10"@)
    ||| contains(name_l, "windows 11"@)
    ||| contains(name_l, "windows server"@)
    ||| contains(name_l, "windows 8"@)
    ||| contains(name_l, "windows 7"@)
    ||| contains(name_l, "backup"@)
    ||| contains(name_l, "备份"@)
    ||| contains(name_l, "系统镜像"@)
    ||| contains(name_l, "镜像"@)
}

/// Whether a volume is a system one can install: standard installs and full backups
/// are; PE images are not; for an unknown kind, neither a PE installation type nor a
/// setup-environment name, and when the installation type is missing, a version number
/// or a system-like name.
pub open spec fn installable(vol: ImageInfo) -> bool {
    match vol.image_type {
        WimImageType::StandardInstall => true,
        WimImageType::FullBackup => true,
        WimImageType::WindowsPE => false,
        WimImageType::Unknown => {
            let name_l = lowercase(vol.name@);
            &&& lowercase(vol.installation_type@) != "windowspe"@
            &&& !names_setup_environment(name_l)
            &&& (vol.installation_type@.len() > 0 || vol.major_version is Some || names_system(name_l))
        },
    }
}

fn contains_lit(l: &Vec<char>, needle: &str) -> (r: bool)
    ensures
        r == contains(l@, needle@),
{
    let n = to_chars(needle);
    contains_chars(l.as_slice(), n.as_slice())
}

fn names_setup_environment_exec(name_l: &Vec<char>) -> (r: bool)
    ensures
        r == names_setup_environment(name_l@),
{
    contains_lit(name_l, "windows pe") || contains_lit(name_l, "windows setup")
        || contains_lit(name_l, "setup media") || contains_lit(name_l, "winpe")
}

fn names_system_exec(name_l: &Vec<char>) -> (r: bool)
    ensures
        r == names_system(name_l@),
{
    contains_lit(name_l, "windows 10") || contains_lit(name_l, "windows 11")
        || contains_lit(name_l, "windows server") || contains_lit(name_l, "windows 8")
        || contains_lit(name_l, "windows 7") || contains_lit(name_l, "backup")
        || contains_lit(name_l, "备份") || contains_lit(name_l, "系统镜像")
        || contains_lit(name_l, "镜像")
}

/// The first installable volume at or after `i`.
pub open spec fn first_installable(vols: Seq<ImageInfo>, i: int) -> Option<int>
    decreases vols.len() - i,
{
    if i < 0 || i >= vols.len() {
        None
    } else if installable(vols[i]) {
        Some(i)
    } else {
        first_installable(vols, i + 1)
    }
}

/// The first volume at or after `i` whose image index is `index`.
pub open spec fn first_with_index(vols: Seq<ImageInfo>, index: u32, i: int) -> Option<int>
    decreases vols.len() - i,
{
    if i < 0 || i >= vols.len() {
        None
    } else if vols[i].index == index {
        Some(i)
    } else {
        first_with_index(vols, index, i + 1)
    }
}

pub open spec fn as_index(o: Option<int>) -> Option<usize> {
    match o {
        Some(i) => Some(i as usize),
        None => None,
    }
}

/// An installation goes through PE: it runs outside PE and targets the running
/// system's partition.
pub open spec fn needs_pe(a: App) -> bool {
    !a.env.is_pe && (a.selected_target() matches Some(p) && p.is_system_partition)
}

/// Volume `i` is offered for choosing: the installable volumes are offered, or all
/// volumes when none is installable.
pub open spec fn shown_volume(vols: Seq<ImageInfo>, i: int) -> bool {
    0 <= i < vols.len() && (installable(vols[i]) || first_installable(vols, 0) is None)
}

/// The volume chosen once the list is shown (see [`App::default_volume`]).
pub open spec fn default_volume_spec(vols: Seq<ImageInfo>, selected: Option<usize>) -> Option<usize> {
    if vols.len() == 0 {
        selected
    } else if selected matches Some(i) && shown_volume(vols, i as int) {
        selected
    } else {
        match first_installable(vols, 0) {
            Some(k) => Some(k as usize),
            None => Some((vols.len() - 1) as usize),
        }
    }
}

pub(crate) fn find_installable(vols: &Vec<ImageInfo>) -> (r: Option<usize>)
    ensures
        r == as_index(first_installable(vols@, 0)),
        match r {
            Some(i) => first_installable(vols@, 0) == Some(i as int) && i < vols@.len(),
            None => first_installable(vols@, 0) is None,
        },
{
    let mut i: usize = 0;
    while i < vols.len()
        invariant
            i <= vols.len(),
            first_installable(vols@, 0) == first_installable(vols@, i as int),
        decreases vols.len() - i,
    {
        if App::is_installable_image(&vols[i]) {
            return Some(i);
        }
        i = i + 1;
    }
    None
}

fn find_volume_index(vols: &Vec<ImageInfo>, index: u32) -> (r: Option<usize>)
    ensures
        r == as_index(first_with_index(vols@, index, 0)),
{
    let mut i: usize = 0;
    while i < vols.len()
        invariant
            i <= vols.len(),
            first_with_index(vols@, index, 0) == first_with_index(vols@, index, i as int),
        decreases vols.len() - i,
    {
        if vols[i].index == index {
            return Some(i);
        }
        i = i + 1;
    }
    None
}

// ---------------------------------------------------------------------------
// Sizes
// ---------------------------------------------------------------------------

/// A size in megabytes as shown next to a partition.
pub open spec fn size_text(size_mb: nat) -> Seq<char> {
    if size_mb >= 1024 {
        gb_text(size_mb) + " GB"@
    } else {
        dec(size_mb) + " MB"@
    }
}

/// The boot mode an installation will actually use.
pub open spec fn actual_boot_mode(selection: BootModeSelection, style: PartitionStyle) -> Seq<char> {
    match selection {
        BootModeSelection::UEFI => "UEFI"@,
        BootModeSelection::Legacy => "Legacy"@,
        BootModeSelection::Auto => match style {
            PartitionStyle::MBR => "Legacy"@,
            _ => "UEFI"@,
        },
    }
}

pub open spec fn unattend_hint() -> Seq<char> {
    "以下选项依赖无人值守配置：\n• OOBE绕过强制联网\n• 自定义用户名\n• 删除预装UWP应用\n\n由于目标分区已存在无人值守配置文件，这些选项可能无法正常生效。"@
}

/// The page the main window shows.
#[derive(Debug, Clone, Copy, PartialEq, Eq, Structural)]
pub enum Panel {
    SystemInstall,
    InstallProgress,
    DownloadProgress,
}

/// BitLocker state of a volume.
#[derive(Debug, Clone, Copy, PartialEq, Eq, Structural)]
pub enum VolumeStatus {
    NotEncrypted,
    EncryptedUnlocked,
    EncryptedLocked,
    Encrypting,
    Decrypting,
}

/// How the unlock dialog asks for the key.
#[derive(Debug, Clone, Copy, PartialEq, Eq, Structural)]
pub enum BitLockerUnlockMode {
    Password,
    RecoveryKey,
}

/// A locked partition listed in the unlock dialog.
pub struct BitLockerPartition {
    pub letter: String,
    pub label: String,
    pub total_size_mb: u64,
    pub status: VolumeStatus,
    pub protection_method: String,
}

/// The options an installation runs with, fixed when it starts.
pub struct InstallOptions {
    pub format_partition: bool,
    pub repair_boot: bool,
    pub unattended_install: bool,
    pub export_drivers: bool,
    pub auto_reboot: bool,
    pub boot_mode: BootModeSelection,
    pub driver_action: DriverAction,
    pub custom_unattend_path: String,
    pub is_xp: bool,
    pub is_xp_i386: bool,
    pub run_diskpart_scripts: bool,
}

/// A decryption the installation asks for before it can go on.
pub struct DecryptRequest {
    /// The drive, as `X:`.
    pub drive: String,
    /// `true`: send the decrypt command; `false`: the drive is already decrypting.
    pub send: bool,
}

/// What the progress page shows.
pub struct InstallProgress {
    pub current_step: String,
    pub step_progress: u8,
    pub total_progress: u8,
}

/// The installation in progress, or about to start.
pub struct InstallState {
    pub is_installing: bool,
    pub progress: InstallProgress,
    /// The failure reported by the worker, shown in red.
    pub install_error: Option<String>,
    pub install_step: usize,
    pub install_mode: InstallMode,
    pub options: InstallOptions,
    pub target_partition: String,
    pub image_path: String,
    /// Image index of the volume to install (easy mode presets it).
    pub volume_index: u32,
    pub is_system_partition: bool,
    pub auto_reboot_triggered: bool,
    pub bitlocker_decryption_needed: bool,
    /// Drives whose decryption the installation waits for.
    pub decrypting_partitions: Vec<String>,
    /// Decryptions handed to the caller and not yet reported back.
    pub pending_decrypt: Vec<DecryptRequest>,
    /// The pending decryptions were asked for by `start_installation` (else by
    /// `continue_installation_after_bitlocker`).
    pub pending_from_start: bool,
}

/// The dialog that unlocks BitLocker partitions before installing.
pub struct UnlockDialog {
    pub show: bool,
    pub partitions: Vec<BitLockerPartition>,
    pub current: Option<String>,
    pub message: String,
    pub password: String,
    pub recovery_key: String,
    pub mode: BitLockerUnlockMode,
    /// Go on with the installation once everything is unlocked.
    pub continue_after: bool,
}

/// A PE image offered by the configuration.
pub struct PeEntry {
    /// The name of the PE boot entry.
    pub display_name: String,
    pub filename: String,
    pub download_url: String,
    pub md5: String,
}

/// What to go on with once a PE download finished.
#[derive(Debug, Clone, Copy, PartialEq, Eq, Structural)]
pub enum AfterDownload {
    Install,
    Expand,
}

/// A download to run before going on.
pub struct PendingDownload {
    pub url: String,
    pub filename: String,
    pub md5: String,
    pub save_dir: String,
    pub next_action: AfterDownload,
}

/// The state of the main window that the installation page works on.
pub struct App {
    pub env: Environment,
    pub image: ImageSelection,
    pub target: TargetSelection,
    pub install: InstallState,
    pub unlock: UnlockDialog,
    pub panel: Panel,
    /// The PE chosen for installations that go through PE.
    pub pe_choice: Option<PeEntry>,
    pub pending_download: Option<PendingDownload>,
    /// The message of the error dialog, when one is shown.
    pub error_message: Option<String>,
    /// The tool dialogs.
    pub tools: ToolsState,
}

/// Everything but the chosen image, target and error dialog is unchanged.
pub open spec fn same_flow(a: App, b: App) -> bool {
    &&& a.env == b.env
    &&& a.install == b.install
    &&& a.unlock == b.unlock
    &&& a.panel == b.panel
    &&& a.pe_choice == b.pe_choice
    &&& a.pending_download == b.pending_download
    &&& a.tools == b.tools
}

impl App {
    /// The partition currently selected, when the selection points into the list.
    pub open spec fn selected_target(&self) -> Option<Partition> {
        match self.target.selected_partition {
            Some(i) => if i < self.target.partitions@.len() {
                Some(self.target.partitions@[i as int])
            } else {
                None
            },
            None => None,
        }
    }

    /// Installing onto a selected partition that holds Windows or the running system
    /// turns on formatting and boot repair; otherwise nothing changes.
    pub fn update_install_options_for_partition(&mut self)
        ensures
            same_flow(*old(self), *final(self)),
            final(self).image == old(self).image,
            final(self).error_message == old(self).error_message,
            final(self).target.partitions == old(self).target.partitions,
            final(self).target.selected_partition == old(self).target.selected_partition,
            final(self).target.unattended_install == old(self).target.unattended_install,
            final(self).target.partition_has_unattend == old(self).target.partition_has_unattend,
            final(self).target.last_unattend_check_partition == old(self).target.last_unattend_check_partition,
            final(self).target.unattend_check_loading == old(self).target.unattend_check_loading,
            final(self).target.boot_mode == old(self).target.boot_mode,
            final(self).target.driver_action == old(self).target.driver_action,
            final(self).target.auto_reboot == old(self).target.auto_reboot,
            final(self).target.custom_unattend_path == old(self).target.custom_unattend_path,
            final(self).target.run_diskpart_scripts == old(self).target.run_diskpart_scripts,
            match old(self).selected_target() {
                Some(p) => if p.has_windows || p.is_system_partition {
                    final(self).target.format_partition && final(self).target.repair_boot
                } else {
                    final(self).target.format_partition == old(self).target.format_partition
                        && final(self).target.repair_boot == old(self).target.repair_boot
                },
                None => final(self).target.format_partition == old(self).target.format_partition
                    && final(self).target.repair_boot == old(self).target.repair_boot,
            },
    {
        if let Some(idx) = self.target.selected_partition {
            if idx < self.target.partitions.len() {
                let p = &self.target.partitions[idx];
                if p.has_windows || p.is_system_partition {
                    self.target.format_partition = true;
                    self.target.repair_boot = true;
                }
            }
        }
    }

    /// The answer-file option is locked while the target keeps its own answer file,
    /// that is, while it holds one and is not going to be formatted.
    pub fn is_unattend_option_disabled(&self) -> (r: bool)
        ensures
            r == (self.target.partition_has_unattend && !self.target.format_partition),
    {
        self.target.partition_has_unattend && !self.target.format_partition
    }

    /// The hint shown above the options that need the generated answer file.
    pub fn get_unattend_dependent_options_hint(&self) -> (r: &'static str)
        ensures
            r@ == unattend_hint(),
    {
        "以下选项依赖无人值守配置：\n• OOBE绕过强制联网\n• 自定义用户名\n• 删除预装UWP应用\n\n由于目标分区已存在无人值守配置文件，这些选项可能无法正常生效。"
    }

    /// A size in megabytes: from 1024 MB on, in GB with one decimal, else in MB.
    pub fn format_size(size_mb: u64) -> (r: String)
        ensures
            r@ == size_text(size_mb as nat),
    {
        if size_mb >= 1024 {
            let mut s = format_gb_one_decimal(size_mb);
            push_str(&mut s, " GB");
            s
        } else {
            let mut s = String::new();
            push_dec(&mut s, size_mb);
            push_str(&mut s, " MB");
            s
        }
    }

    /// The boot mode an installation will use: the explicit choice, or for `Auto` the
    /// target disk's style (MBR gives Legacy, GPT and unknown give UEFI).
    pub fn get_actual_boot_mode(selection: BootModeSelection, partition_style: PartitionStyle) -> (r: &'static str)
        ensures
            r@ == actual_boot_mode(selection, partition_style),
    {
        match selection {
            BootModeSelection::UEFI => "UEFI",
            BootModeSelection::Legacy => "Legacy",
            BootModeSelection::Auto => match partition_style {
                PartitionStyle::MBR => "Legacy",
                _ => "UEFI",
            },
        }
    }

    /// An installation goes through PE exactly when it runs outside PE and targets the
    /// running system's partition.
    pub fn check_if_needs_pe_for_install(&self) -> (r: bool)
        ensures
            r == (!self.env.is_pe && (self.selected_target() matches Some(p) && p.is_system_partition)),
    {
        if self.env.is_pe {
            return false;
        }
        if let Some(idx) = self.target.selected_partition {
            if idx < self.target.partitions.len() {
                return self.target.partitions[idx].is_system_partition;
            }
        }
        false
    }

    /// The install button is blocked exactly when, outside PE (`is_pe`), the
    /// installation has to go through PE (see [`needs_pe`]) and no PE is available.
    pub fn install_blocked(&self, is_pe: bool, pe_available: bool) -> (r: bool)
        ensures
            r == (!is_pe && needs_pe(*self) && !pe_available),
    {
        let needs = self.check_if_needs_pe_for_install();
        !is_pe && needs && !pe_available
    }

    /// The volume chosen after the volume list is shown: the current choice stays
    /// when it is among the shown volumes (see [`shown_volume`]); otherwise the first
    /// installable volume, or the last volume when none is installable. Without
    /// volumes nothing is shown and the choice stays.
    pub fn default_volume(vols: &Vec<ImageInfo>, selected: Option<usize>) -> (r: Option<usize>)
        ensures
            r == default_volume_spec(vols@, selected),
    {
        if vols.len() == 0 {
            return selected;
        }
        let first = find_installable(vols);
        if let Some(i) = selected {
            if i < vols.len() && (first.is_none() || App::is_installable_image(&vols[i])) {
                return selected;
            }
        }
        match first {
            Some(k) => Some(k),
            None => Some(vols.len() - 1),
        }
    }

    /// Whether a volume is a system that can be installed (see [`installable`]).
    pub fn is_installable_image(vol: &ImageInfo) -> (r: bool)
        ensures
            r == installable(*vol),
    {
        match vol.image_type {
            WimImageType::StandardInstall => true,
            WimImageType::FullBackup => true,
            WimImageType::WindowsPE => false,
            WimImageType::Unknown => {
                let name_l = lower_chars(vol.name.as_str());
                let type_l = lower_chars(vol.installation_type.as_str());
                let pe = to_chars("windowspe");
                if chars_eq(type_l.as_slice(), pe.as_slice()) {
                    return false;
                }
                if names_setup_environment_exec(&name_l) {
                    return false;
                }
                if to_chars(vol.installation_type.as_str()).len() == 0 {
                    if vol.major_version.is_some() {
                        return true;
                    }
                    return names_system_exec(&name_l);
                }
                true
            },
        }
    }
}


/// What polling the background image jobs asks the caller to do next.
pub struct ImagePollActions {
    /// Read the volumes of this image in the background.
    pub load_image_info: Option<String>,
    /// Re-check the source medium for an answer file.
    pub refresh_source_unattend: bool,
    /// Easy mode found its volume: start the installation.
    pub start_installation: bool,
}

/// The message shown when easy mode cannot find its volume.
pub open spec fn missing_volume_message(index: u32) -> Seq<char> {
    "未找到目标分卷 "@ + dec(index as nat) + "，请手动选择"@
}

/// The message shown when an image's volumes could not be read.
pub open spec fn image_info_error_message(e: Seq<char>) -> Seq<char> {
    "镜像信息加载失败: "@ + e
}

/// Positions of the partitions that hold Windows, in order.
pub open spec fn windows_positions(ps: Seq<Partition>) -> Seq<int>
    decreases ps.len(),
{
    if ps.len() == 0 {
        Seq::empty()
    } else if ps.last().has_windows {
        windows_positions(ps.drop_last()).push(ps.len() - 1)
    } else {
        windows_positions(ps.drop_last())
    }
}

/// Position of the first partition that holds the running system.
pub open spec fn first_system_partition(ps: Seq<Partition>, i: int) -> Option<int>
    decreases ps.len() - i,
{
    if i < 0 || i >= ps.len() {
        None
    } else if ps[i].is_system_partition {
        Some(i)
    } else {
        first_system_partition(ps, i + 1)
    }
}

proof fn lemma_windows_positions(ps: Seq<Partition>)
    ensures
        forall|k: int| 0 <= k < windows_positions(ps).len() ==> 0 <= #[trigger] windows_positions(ps)[k] < ps.len(),
    decreases ps.len(),
{
    if ps.len() > 0 {
        let sub = ps.drop_last();
        lemma_windows_positions(sub);
        assert forall|k: int| 0 <= k < windows_positions(ps).len() implies 0 <= #[trigger] windows_positions(ps)[k] < ps.len() by {
            if k < windows_positions(sub).len() {
                assert(windows_positions(ps)[k] == windows_positions(sub)[k]);
            }
        }
    }
}

impl App {
    /// Starts reading the image at `image_path` (see [`begins_image_load`]).
    pub fn start_image_info_loading(&mut self, image_path: &str) -> (r: ImageLoadAction)
        ensures
            begins_image_load(old(self).image, final(self).image, image_path@, r),
            same_flow(*old(self), *final(self)),
            final(self).target == old(self).target,
            final(self).error_message == old(self).error_message,
            final(self).image.local_image_path == old(self).image.local_image_path,
            final(self).image.xp_i386_source == old(self).image.xp_i386_source,
            final(self).image.iso_mounting == old(self).image.iso_mounting,
            final(self).image.iso_mount_error == old(self).image.iso_mount_error,
            final(self).image.easy_mode_pending_auto_start == old(self).image.easy_mode_pending_auto_start,
    {
        let l = lower_chars(image_path);
        if ends_with_lit(&l, ".wim") || ends_with_lit(&l, ".esd") || ends_with_lit(&l, ".swm") {
            self.image.image_info_loading = true;
            self.image.image_volumes = Vec::new();
            self.image.selected_volume = None;
            ImageLoadAction::LoadImageInfo(str_to_string(image_path))
        } else if ends_with_lit(&l, ".gho") || ends_with_lit(&l, ".ghs") {
            self.image.image_volumes = Vec::new();
            self.image.selected_volume = Some(0);
            ImageLoadAction::RefreshSourceUnattend
        } else {
            ImageLoadAction::Nothing
        }
    }

    /// The user picked a new image: forget any XP source, then mount an ISO or start
    /// reading the image.
    pub fn load_image_volumes(&mut self) -> (r: ImageLoadAction)
        ensures
            same_flow(*old(self), *final(self)),
            final(self).target == old(self).target,
            final(self).error_message == old(self).error_message,
            final(self).image.local_image_path == old(self).image.local_image_path,
            final(self).image.xp_i386_source is None,
            final(self).image.easy_mode_pending_auto_start == old(self).image.easy_mode_pending_auto_start,
            is_iso_path(old(self).image.local_image_path@) ==> {
                &&& r matches ImageLoadAction::MountIso(p) && p@ == old(self).image.local_image_path@
                &&& final(self).image.iso_mounting
                &&& final(self).image.iso_mount_error is None
                &&& final(self).image.image_info_loading == old(self).image.image_info_loading
                &&& final(self).image.image_volumes == old(self).image.image_volumes
                &&& final(self).image.selected_volume == old(self).image.selected_volume
            },
            !is_iso_path(old(self).image.local_image_path@) ==> {
                &&& begins_image_load(old(self).image, final(self).image, old(self).image.local_image_path@, r)
                &&& final(self).image.iso_mounting == old(self).image.iso_mounting
                &&& final(self).image.iso_mount_error == old(self).image.iso_mount_error
            },
    {
        self.image.xp_i386_source = None;
        let path = str_to_string(self.image.local_image_path.as_str());
        let l = lower_chars(path.as_str());
        if ends_with_lit(&l, ".iso") {
            self.image.iso_mounting = true;
            self.image.iso_mount_error = None;
            return ImageLoadAction::MountIso(path);
        }
        self.start_image_info_loading(path.as_str())
    }

    /// Takes the results of the background jobs: `mounted` is the ISO mount outcome,
    /// taken only while a mount is pending; `loaded` is the volume listing, taken only
    /// while a listing is pending (after the mount outcome was taken).
    ///
    /// A mounted install image becomes the chosen image and its volumes are read; an
    /// XP medium becomes the chosen source with its single implicit volume; a failed
    /// mount is reported. Read volumes replace the list; in easy mode the volume with
    /// the preset image index `install.volume_index` is selected and the installation
    /// starts (or the error dialog says it is missing), otherwise the first installable
    /// volume is selected. A failed listing empties the list and is reported.
    pub fn check_iso_mount_status(
        &mut self,
        mounted: Option<IsoMountResult>,
        loaded: Option<ImageInfoResult>,
    ) -> (r: ImagePollActions)
        ensures
            same_flow(*old(self), *final(self)),
            final(self).target == old(self).target,
            // no pending mount, or nothing arrived: the mount state is unchanged
            !(old(self).image.iso_mounting && mounted is Some) ==> {
                &&& final(self).image.iso_mounting == old(self).image.iso_mounting
                &&& final(self).image.local_image_path == old(self).image.local_image_path
                &&& final(self).image.xp_i386_source == old(self).image.xp_i386_source
            },
            old(self).image.iso_mounting && mounted is Some ==> !final(self).image.iso_mounting,
            old(self).image.iso_mounting ==> match mounted {
                Some(IsoMountResult::Success(p)) => {
                    &&& final(self).image.local_image_path@ == p@
                    &&& final(self).image.xp_i386_source is None
                    &&& (!((is_wim_path(p@) || old(self).image.image_info_loading)
                        && loaded matches Some(ImageInfoResult::Error(_))) ==> final(self).image.iso_mount_error is None)
                    &&& (is_wim_path(p@) ==> (r.load_image_info matches Some(q) && q@ == p@))
                    &&& (!is_wim_path(p@) ==> r.load_image_info is None)
                },
                Some(IsoMountResult::XpI386(d)) => {
                    &&& final(self).image.local_image_path@ == d@
                    &&& final(self).image.xp_i386_source matches Some(x) && x@ == d@
                    &&& (!(old(self).image.image_info_loading && loaded matches Some(ImageInfoResult::Error(_)))
                        ==> final(self).image.iso_mount_error is None)
                    &&& (!(old(self).image.image_info_loading && loaded is Some) ==> {
                        &&& final(self).image.image_volumes@.len() == 0
                        &&& final(self).image.selected_volume == Some(0usize)
                    })
                    &&& r.refresh_source_unattend
                    &&& r.load_image_info is None
                },
                Some(IsoMountResult::Error(e)) => {
                    &&& final(self).image.local_image_path == old(self).image.local_image_path
                    &&& final(self).image.xp_i386_source == old(self).image.xp_i386_source
                    &&& (!(old(self).image.image_info_loading && loaded matches Some(ImageInfoResult::Error(_)))
                        ==> (final(self).image.iso_mount_error matches Some(x) && x@ == e@))
                    &&& r.load_image_info is None
                },
                None => r.load_image_info is None,
            },
            !old(self).image.iso_mounting ==> r.load_image_info is None,
            // the volume listing
            ({
                let pending = old(self).image.iso_mounting && mounted is Some && (
                    (mounted matches Some(IsoMountResult::Success(p)) && is_wim_path(p@)))
                    || old(self).image.image_info_loading;
                &&& (!pending || loaded is None) ==> {
                    &&& r.start_installation == false
                    &&& final(self).image.easy_mode_pending_auto_start == old(self).image.easy_mode_pending_auto_start
                    &&& final(self).error_message == old(self).error_message
                }
                &&& (pending && loaded is Some) ==> !final(self).image.image_info_loading
                &&& pending ==> match loaded {
                    Some(ImageInfoResult::Success(v)) => {
                        &&& final(self).image.image_volumes@ == v@
                        &&& r.refresh_source_unattend
                        &&& if old(self).image.easy_mode_pending_auto_start {
                            &&& !final(self).image.easy_mode_pending_auto_start
                            &&& final(self).image.selected_volume == as_index(first_with_index(v@, old(self).install.volume_index, 0))
                            &&& r.start_installation == (first_with_index(v@, old(self).install.volume_index, 0) is Some)
                            &&& (first_with_index(v@, old(self).install.volume_index, 0) is None ==> (final(self).error_message matches Some(m) && m@ == missing_volume_message(old(self).install.volume_index)))
                            &&& (first_with_index(v@, old(self).install.volume_index, 0) is Some ==> final(self).error_message == old(self).error_message)
                        } else {
                            &&& final(self).image.easy_mode_pending_auto_start == old(self).image.easy_mode_pending_auto_start
                            &&& final(self).image.selected_volume == as_index(first_installable(v@, 0))
                            &&& !r.start_installation
                            &&& final(self).error_message == old(self).error_message
                        }
                    },
                    Some(ImageInfoResult::Error(e)) => {
                        &&& final(self).image.image_volumes@.len() == 0
                        &&& final(self).image.selected_volume is None
                        &&& final(self).image.iso_mount_error matches Some(m) && m@ == image_info_error_message(e@)
                        &&& !r.start_installation
                        &&& final(self).error_message == old(self).error_message
                    },
                    None => true,
                }
            }),
    {
        let mut actions = ImagePollActions { load_image_info: None, refresh_source_unattend: false, start_installation: false };
        if self.image.iso_mounting {
            if let Some(result) = mounted {
                self.image.iso_mounting = false;
                match result {
                    IsoMountResult::Success(image_path) => {
                        self.image.local_image_path = str_to_string(image_path.as_str());
                        self.image.iso_mount_error = None;
                        self.image.xp_i386_source = None;
                        match self.start_image_info_loading(image_path.as_str()) {
                            ImageLoadAction::LoadImageInfo(p) => {
                                actions.load_image_info = Some(p);
                            },
                            ImageLoadAction::RefreshSourceUnattend => {
                                actions.refresh_source_unattend = true;
                            },
                            _ => {},
                        }
                    },
                    IsoMountResult::XpI386(i386_dir) => {
                        self.image.local_image_path = str_to_string(i386_dir.as_str());
                        self.image.xp_i386_source = Some(i386_dir);
                        self.image.iso_mount_error = None;
                        self.image.image_volumes = Vec::new();
                        self.image.selected_volume = Some(0);
                        actions.refresh_source_unattend = true;
                    },
                    IsoMountResult::Error(error) => {
                        self.image.iso_mount_error = Some(error);
                    },
                }
            }
        }
        if self.image.image_info_loading {
            if let Some(result) = loaded {
                self.image.image_info_loading = false;
                match result {
                    ImageInfoResult::Success(volumes) => {
                        self.image.image_volumes = volumes;
                        actions.refresh_source_unattend = true;
                        if self.image.easy_mode_pending_auto_start {
                            let sel = find_volume_index(&self.image.image_volumes, self.install.volume_index);
                            self.image.selected_volume = sel;
                            self.image.easy_mode_pending_auto_start = false;
                            if sel.is_some() {
                                actions.start_installation = true;
                            } else {
                                let mut m = str_to_string("未找到目标分卷 ");
                                push_dec(&mut m, self.install.volume_index as u64);
                                push_str(&mut m, "，请手动选择");
                                self.error_message = Some(m);
                            }
                        } else {
                            self.image.selected_volume = find_installable(&self.image.image_volumes);
                        }
                    },
                    ImageInfoResult::Error(error) => {
                        self.image.image_volumes = Vec::new();
                        self.image.selected_volume = None;
                        let mut m = str_to_string("镜像信息加载失败: ");
                        push_str(&mut m, error.as_str());
                        self.image.iso_mount_error = Some(m);
                    },
                }
            }
        }
        actions
    }
}


/// The target options that a partition choice does not touch are unchanged.
pub open spec fn same_target_options(a: TargetSelection, b: TargetSelection) -> bool {
    &&& a.format_partition == b.format_partition
    &&& a.repair_boot == b.repair_boot
    &&& a.boot_mode == b.boot_mode
    &&& a.driver_action == b.driver_action
    &&& a.auto_reboot == b.auto_reboot
    &&& a.custom_unattend_path == b.custom_unattend_path
    &&& a.run_diskpart_scripts == b.run_diskpart_scripts
}

/// What asking for an answer-file check of partition `p` does: a partition without
/// Windows has none, and the generated answer file is turned on; a partition already
/// checked is left alone; otherwise a background check of its letter starts (`r`).
pub open spec fn unattend_check_effect(a: TargetSelection, b: TargetSelection, p: Partition, r: Option<String>) -> bool {
    if !p.has_windows {
        &&& !b.partition_has_unattend
        &&& b.last_unattend_check_partition matches Some(l) && l@ == p.letter@
        &&& b.unattended_install
        &&& b.unattend_check_loading == a.unattend_check_loading
        &&& r is None
    } else if a.last_unattend_check_partition matches Some(l) && l@ == p.letter@ {
        &&& b.partition_has_unattend == a.partition_has_unattend
        &&& b.last_unattend_check_partition == a.last_unattend_check_partition
        &&& b.unattended_install == a.unattended_install
        &&& b.unattend_check_loading == a.unattend_check_loading
        &&& r is None
    } else {
        &&& b.partition_has_unattend == a.partition_has_unattend
        &&& b.last_unattend_check_partition matches Some(l) && l@ == p.letter@
        &&& b.unattended_install == a.unattended_install
        &&& b.unattend_check_loading
        &&& r matches Some(l) && l@ == p.letter@
    }
}

/// Nothing about answer files changes and no check starts.
pub open spec fn no_unattend_check(a: TargetSelection, b: TargetSelection, r: Option<String>) -> bool {
    &&& b.partition_has_unattend == a.partition_has_unattend
    &&& b.last_unattend_check_partition == a.last_unattend_check_partition
    &&& b.unattended_install == a.unattended_install
    &&& b.unattend_check_loading == a.unattend_check_loading
    &&& r is None
}

fn same_letter(a: &Option<String>, b: &String) -> (r: bool)
    ensures
        r == (a matches Some(l) && l@ == b@),
{
    match a {
        Some(l) => {
            let x = to_chars(l.as_str());
            let y = to_chars(b.as_str());
            chars_eq(x.as_slice(), y.as_slice())
        },
        None => false,
    }
}

impl App {
    /// Asks for an answer-file check of partition `partition_index` (see
    /// [`unattend_check_effect`]); returns the letter to check in the background.
    pub fn start_unattend_check_for_partition(&mut self, partition_index: usize) -> (r: Option<String>)
        ensures
            same_flow(*old(self), *final(self)),
            final(self).image == old(self).image,
            final(self).error_message == old(self).error_message,
            final(self).target.partitions == old(self).target.partitions,
            final(self).target.selected_partition == old(self).target.selected_partition,
            same_target_options(old(self).target, final(self).target),
            partition_index < old(self).target.partitions@.len() ==> unattend_check_effect(
                old(self).target,
                final(self).target,
                old(self).target.partitions@[partition_index as int],
                r,
            ),
            partition_index >= old(self).target.partitions@.len() ==> no_unattend_check(old(self).target, final(self).target, r),
    {
        if partition_index >= self.target.partitions.len() {
            return None;
        }
        let has_windows = self.target.partitions[partition_index].has_windows;
        let letter = str_to_string(self.target.partitions[partition_index].letter.as_str());
        if !has_windows {
            self.target.partition_has_unattend = false;
            self.target.last_unattend_check_partition = Some(letter);
            self.target.unattended_install = true;
            return None;
        }
        if same_letter(&self.target.last_unattend_check_partition, &letter) {
            return None;
        }
        self.target.unattend_check_loading = true;
        self.target.last_unattend_check_partition = Some(str_to_string(letter.as_str()));
        Some(letter)
    }

    /// Takes a fresh partition list (`None` when listing failed: nothing changes).
    /// In PE the only partition holding Windows is selected, if there is exactly one;
    /// otherwise nothing is selected and no answer file is assumed. Outside PE the
    /// running system's partition is selected. A selected partition gets an
    /// answer-file check; the letter to check in the background is returned.
    pub fn refresh_partitions(&mut self, listed: Option<Vec<Partition>>) -> (r: Option<String>)
        ensures
            same_flow(*old(self), *final(self)),
            final(self).image == old(self).image,
            final(self).error_message == old(self).error_message,
            same_target_options(old(self).target, final(self).target),
            match listed {
                None => final(self).target == old(self).target && r is None,
                Some(ps) => {
                    &&& final(self).target.partitions@ == ps@
                    &&& if old(self).env.is_pe {
                        let w = windows_positions(ps@);
                        if w.len() == 1 {
                            &&& final(self).target.selected_partition == Some(w[0] as usize)
                            &&& unattend_check_effect(old(self).target, final(self).target, ps@[w[0]], r)
                        } else {
                            &&& final(self).target.selected_partition is None
                            &&& !final(self).target.partition_has_unattend
                            &&& final(self).target.last_unattend_check_partition == old(self).target.last_unattend_check_partition
                            &&& final(self).target.unattended_install == old(self).target.unattended_install
                            &&& final(self).target.unattend_check_loading == old(self).target.unattend_check_loading
                            &&& r is None
                        }
                    } else {
                        &&& final(self).target.selected_partition == as_index(first_system_partition(ps@, 0))
                        &&& match first_system_partition(ps@, 0) {
                            Some(i) => unattend_check_effect(old(self).target, final(self).target, ps@[i], r),
                            None => no_unattend_check(old(self).target, final(self).target, r),
                        }
                    }
                },
            },
    {
        match listed {
            None => None,
            Some(ps) => self.adopt_partitions(ps),
        }
    }

    /// The listing part of [`App::refresh_partitions`], for a list that was read.
    fn adopt_partitions(&mut self, partitions: Vec<Partition>) -> (r: Option<String>)
        ensures
            same_flow(*old(self), *final(self)),
            final(self).image == old(self).image,
            final(self).error_message == old(self).error_message,
            same_target_options(old(self).target, final(self).target),
            final(self).target.partitions@ == partitions@,
            if old(self).env.is_pe {
                let w = windows_positions(partitions@);
                if w.len() == 1 {
                    &&& final(self).target.selected_partition == Some(w[0] as usize)
                    &&& unattend_check_effect(old(self).target, final(self).target, partitions@[w[0]], r)
                } else {
                    &&& final(self).target.selected_partition is None
                    &&& !final(self).target.partition_has_unattend
                    &&& final(self).target.last_unattend_check_partition == old(self).target.last_unattend_check_partition
                    &&& final(self).target.unattended_install == old(self).target.unattended_install
                    &&& final(self).target.unattend_check_loading == old(self).target.unattend_check_loading
                    &&& r is None
                }
            } else {
                &&& final(self).target.selected_partition == as_index(first_system_partition(partitions@, 0))
                &&& match first_system_partition(partitions@, 0) {
                    Some(i) => unattend_check_effect(old(self).target, final(self).target, partitions@[i], r),
                    None => no_unattend_check(old(self).target, final(self).target, r),
                }
            },
    {
        self.target.partitions = partitions;
        if self.env.is_pe {
            let n = self.target.partitions.len();
            let mut count: usize = 0;
            let mut only: usize = 0;
            let mut i: usize = 0;
            while i < n
                invariant
                    i <= n,
                    n == self.target.partitions@.len(),
                    count == windows_positions(self.target.partitions@.take(i as int)).len(),
                    count <= i,
                    count >= 1 ==> only == windows_positions(self.target.partitions@.take(i as int))[0],
                decreases n - i,
            {
                proof {
                    let ps = self.target.partitions@;
                    assert(ps.take(i + 1).drop_last() =~= ps.take(i as int));
                    reveal_with_fuel(windows_positions, 2);
                    if count >= 1 {
                        let wi = windows_positions(ps.take(i as int));
                        let wj = windows_positions(ps.take(i + 1));
                        assert(wj.len() > 0 && wj[0] == wi[0]);
                    }
                }
                if self.target.partitions[i].has_windows {
                    if count == 0 {
                        only = i;
                    }
                    count = count + 1;
                }
                i = i + 1;
            }
            proof {
                assert(self.target.partitions@.take(n as int) =~= self.target.partitions@);
                lemma_windows_positions(self.target.partitions@);
            }
            if count == 1 {
                self.target.selected_partition = Some(only);
                self.start_unattend_check_for_partition(only)
            } else {
                self.target.selected_partition = None;
                self.target.partition_has_unattend = false;
                None
            }
        } else {
            let mut i: usize = 0;
            let n = self.target.partitions.len();
            while i < n && !self.target.partitions[i].is_system_partition
                invariant
                    i <= n,
                    n == self.target.partitions@.len(),
                    first_system_partition(self.target.partitions@, 0) == first_system_partition(self.target.partitions@, i as int),
                decreases n - i,
            {
                i = i + 1;
            }
            let found: Option<usize> = if i < n { Some(i) } else { None };
            self.target.selected_partition = found;
            match found {
                Some(idx) => self.start_unattend_check_for_partition(idx),
                None => None,
            }
        }
    }
}


// ---------------------------------------------------------------------------
// Starting an installation
// ---------------------------------------------------------------------------

/// What the caller read from BitLocker and the disk just before the installation
/// starts; the per-partition entries follow the order of `target.partitions`.
pub struct InstallProbe {
    /// BitLocker can be queried on this machine.
    pub bitlocker_available: bool,
    /// The partition is locked and must be unlocked first.
    pub needs_unlock: Vec<bool>,
    /// The partition's BitLocker state.
    pub status: Vec<VolumeStatus>,
    /// The recovery key of the target partition could be read.
    pub target_recovery_key: bool,
    /// The file of the chosen PE is present.
    pub pe_file_exists: bool,
    /// The directory of the program.
    pub exe_dir: String,
}

/// One entry per listed partition.
pub open spec fn probe_fits(a: App, probe: InstallProbe) -> bool {
    &&& probe.needs_unlock@.len() == a.target.partitions@.len()
    &&& probe.status@.len() == a.target.partitions@.len()
}

/// The unlock-dialog entry for partition `p` in state `st`.
pub open spec fn unlock_entry(b: BitLockerPartition, p: Partition, st: VolumeStatus) -> bool {
    &&& b.letter@ == p.letter@
    &&& b.label@ == p.label@
    &&& b.total_size_mb == p.total_size_mb
    &&& b.status == st
    &&& b.protection_method@ == "密码/恢复密钥"@
}

pub open spec fn letter_taken(ps: Seq<Partition>, acc: Seq<int>, l: Seq<char>) -> bool {
    exists|k: int| 0 <= k < acc.len() && #[trigger] ps[acc[k]].letter@ == l
}

/// The PE's own drive, `X:`.
pub open spec fn is_pe_drive(letter: Seq<char>) -> bool {
    starts_with(uppercase(letter), "X"@)
}

/// Scanning the first `n` partitions after `init`: each locked partition whose letter
/// is not listed yet and that is not the PE's drive is added.
pub open spec fn lock_scan(ps: Seq<Partition>, nu: Seq<bool>, n: int, init: Seq<int>) -> Seq<int>
    decreases n,
{
    if n <= 0 {
        init
    } else {
        let acc = lock_scan(ps, nu, n - 1, init);
        let i = n - 1;
        if letter_taken(ps, acc, ps[i].letter@) || is_pe_drive(ps[i].letter@) || !nu[i] {
            acc
        } else {
            acc.push(i)
        }
    }
}

/// Positions of the partitions to unlock before installing: the target first when it
/// is locked, then every other locked partition but the PE's drive.
pub open spec fn locked_for_install(a: App, probe: InstallProbe) -> Seq<int> {
    if !probe.bitlocker_available {
        Seq::empty()
    } else {
        let ps = a.target.partitions@;
        let init = match a.target.selected_partition {
            Some(i) => if i < ps.len() && probe.needs_unlock@[i as int] {
                seq![i as int]
            } else {
                Seq::empty()
            },
            None => Seq::empty(),
        };
        lock_scan(ps, probe.needs_unlock@, ps.len() as int, init)
    }
}

/// `X:` for a partition lettered `X…` (`C:` when the letter is empty).
pub open spec fn drive_of(letter: Seq<char>) -> Seq<char> {
    seq![if letter.len() > 0 { letter[0] } else { 'C' }, ':']
}

/// The decryptions to ask for among the first `n` partitions: unlocked encrypted
/// ones get a decrypt command, those already decrypting are waited for.
pub open spec fn decrypt_targets(ps: Seq<Partition>, st: Seq<VolumeStatus>, n: int) -> Seq<(Seq<char>, bool)>
    decreases n,
{
    if n <= 0 {
        Seq::empty()
    } else {
        let prev = decrypt_targets(ps, st, n - 1);
        let i = n - 1;
        if st[i] == VolumeStatus::EncryptedUnlocked {
            prev.push((drive_of(ps[i].letter@), true))
        } else if st[i] == VolumeStatus::Decrypting {
            prev.push((drive_of(ps[i].letter@), false))
        } else {
            prev
        }
    }
}

/// Outside PE, an encrypted target whose recovery key cannot be read cannot be
/// unlocked from PE: everything must be decrypted here first.
pub open spec fn needs_predecryption(a: App, probe: InstallProbe) -> bool {
    &&& !a.env.is_pe
    &&& a.selected_target() is Some
    &&& ({
        let st = probe.status@[a.target.selected_partition->0 as int];
        st == VolumeStatus::EncryptedUnlocked || st == VolumeStatus::EncryptedLocked
    })
    &&& !probe.target_recovery_key
}

/// The decryptions asked for before installing.
pub open spec fn planned_decryptions(a: App, probe: InstallProbe) -> Seq<(Seq<char>, bool)> {
    if needs_predecryption(a, probe) {
        decrypt_targets(a.target.partitions@, probe.status@, a.target.partitions@.len() as int)
    } else {
        Seq::empty()
    }
}

pub open spec fn requests_view(v: Seq<DecryptRequest>) -> Seq<(Seq<char>, bool)> {
    v.map_values(|q: DecryptRequest| (q.drive@, q.send))
}

pub open spec fn strings_of(v: Seq<String>) -> Seq<Seq<char>> {
    v.map_values(|x: String| x@)
}

/// The drives waited for once the requests were answered: those already decrypting
/// and those whose decrypt command was accepted.
pub open spec fn settled(reqs: Seq<(Seq<char>, bool)>, ok: Seq<bool>, n: int) -> Seq<Seq<char>>
    decreases n,
{
    if n <= 0 {
        Seq::empty()
    } else {
        let prev = settled(reqs, ok, n - 1);
        if !reqs[n - 1].1 || ok[n - 1] {
            prev.push(reqs[n - 1].0)
        } else {
            prev
        }
    }
}

/// The installation state other than the decryption bookkeeping is unchanged.
pub open spec fn same_install_except_decryption(a: InstallState, b: InstallState) -> bool {
    &&& same_install_setup(a, b)
    &&& a.bitlocker_decryption_needed == b.bitlocker_decryption_needed
}

/// The installation's set-up (all but the decryption bookkeeping) is unchanged.
pub open spec fn same_install_setup(a: InstallState, b: InstallState) -> bool {
    &&& a.is_installing == b.is_installing
    &&& a.progress == b.progress
    &&& a.install_error == b.install_error
    &&& a.install_step == b.install_step
    &&& a.install_mode == b.install_mode
    &&& a.options == b.options
    &&& a.target_partition == b.target_partition
    &&& a.image_path == b.image_path
    &&& a.volume_index == b.volume_index
    &&& a.is_system_partition == b.is_system_partition
    &&& a.auto_reboot_triggered == b.auto_reboot_triggered
}

/// Only the installation state changes.
pub open spec fn only_install_changes(a: App, b: App) -> bool {
    &&& a.env == b.env
    &&& a.image == b.image
    &&& a.target == b.target
    &&& a.unlock == b.unlock
    &&& a.panel == b.panel
    &&& a.pe_choice == b.pe_choice
    &&& a.pending_download == b.pending_download
    &&& a.error_message == b.error_message
    &&& a.tools == b.tools
}

fn drive_string(letter: &String) -> (r: String)
    ensures
        r@ == drive_of(letter@),
{
    let v = to_chars(letter.as_str());
    let c = if v.len() > 0 { v[0] } else { 'C' };
    let mut d = String::new();
    push_char(&mut d, c);
    push_char(&mut d, ':');
    assert(d@ =~= drive_of(letter@));
    d
}

impl App {
    /// The partitions to unlock before installing (see [`locked_for_install`]), each
    /// with its letter, label, size and BitLocker state.
    pub fn check_bitlocker_for_install(&self, probe: &InstallProbe) -> (r: Vec<BitLockerPartition>)
        requires
            probe_fits(*self, *probe),
        ensures
            r@.len() == locked_for_install(*self, *probe).len(),
            forall|k: int| 0 <= k < r@.len() ==> {
                let i = locked_for_install(*self, *probe)[k];
                unlock_entry(#[trigger] r@[k], self.target.partitions@[i], probe.status@[i])
            },
    {
        let mut out: Vec<BitLockerPartition> = Vec::new();
        if !probe.bitlocker_available {
            return out;
        }
        let ps = &self.target.partitions;
        let n = ps.len();
        let ghost init: Seq<int> = Seq::empty();
        if let Some(idx) = self.target.selected_partition {
            if idx < n && probe.needs_unlock[idx] {
                out.push(self.unlock_entry_for(idx, probe));
                proof {
                    init = seq![idx as int];
                }
            }
        }
        let ghost acc = init;
        assert(acc =~= lock_scan(ps@, probe.needs_unlock@, 0, init));
        let mut i: usize = 0;
        while i < n
            invariant
                i <= n,
                n == ps@.len(),
                probe_fits(*self, *probe),
                ps == &self.target.partitions,
                probe.bitlocker_available,
                init == (match self.target.selected_partition {
                    Some(j) => if j < ps@.len() && probe.needs_unlock@[j as int] {
                        seq![j as int]
                    } else {
                        Seq::<int>::empty()
                    },
                    None => Seq::<int>::empty(),
                }),
                acc == lock_scan(ps@, probe.needs_unlock@, i as int, init),
                out@.len() == acc.len(),
                forall|k: int| 0 <= k < acc.len() ==> 0 <= #[trigger] acc[k] < n,
                forall|k: int| 0 <= k < out@.len() ==> unlock_entry(#[trigger] out@[k], ps@[acc[k]], probe.status@[acc[k]]),
            decreases n - i,
        {
            let taken = letter_listed(&out, &ps[i].letter);
            proof {
                if taken {
                    let k = choose|k: int| 0 <= k < out@.len() && out@[k].letter@ == ps@[i as int].letter@;
                    assert(ps@[acc[k]].letter@ == ps@[i as int].letter@);
                    assert(letter_taken(ps@, acc, ps@[i as int].letter@));
                } else {
                    assert forall|k: int| 0 <= k < acc.len() implies #[trigger] ps@[acc[k]].letter@ != ps@[i as int].letter@ by {
                        assert(out@[k].letter@ == ps@[acc[k]].letter@);
                    }
                }
            }
            let upper = to_uppercase(ps[i].letter.as_str());
            let uv = to_chars(upper.as_str());
            let xs = to_chars("X");
            let pe_drive = starts_with_chars(uv.as_slice(), xs.as_slice());
            if !taken && !pe_drive && probe.needs_unlock[i] {
                out.push(self.unlock_entry_for(i, probe));
                proof {
                    acc = acc.push(i as int);
                }
            }
            i = i + 1;
        }
        proof {
            assert(acc == locked_for_install(*self, *probe));
        }
        out
    }

    fn unlock_entry_for(&self, i: usize, probe: &InstallProbe) -> (r: BitLockerPartition)
        requires
            i < self.target.partitions@.len(),
            probe_fits(*self, *probe),
        ensures
            unlock_entry(r, self.target.partitions@[i as int], probe.status@[i as int]),
    {
        let p = &self.target.partitions[i];
        BitLockerPartition {
            letter: str_to_string(p.letter.as_str()),
            label: str_to_string(p.label.as_str()),
            total_size_mb: p.total_size_mb,
            status: probe.status[i],
            protection_method: str_to_string("密码/恢复密钥"),
        }
    }

    /// Decides which decryptions must precede the installation (none in PE, none
    /// when the target is not encrypted or its recovery key can be handed to PE) and
    /// records them as pending; `true` when there is any to ask for.
    fn plan_decryption(&mut self, probe: &InstallProbe) -> (r: bool)
        requires
            probe_fits(*old(self), *probe),
            old(self).selected_target() is Some,
        ensures
            only_install_changes(*old(self), *final(self)),
            same_install_except_decryption(old(self).install, final(self).install),
            final(self).install.pending_from_start == old(self).install.pending_from_start,
            old(self).env.is_pe ==> final(self).install == old(self).install && !r,
            !old(self).env.is_pe ==> {
                &&& final(self).install.decrypting_partitions@.len() == 0
                &&& requests_view(final(self).install.pending_decrypt@) == planned_decryptions(*old(self), *probe)
                &&& r == (planned_decryptions(*old(self), *probe).len() > 0)
            },
    {
        if self.env.is_pe {
            return false;
        }
        let sel = self.target.selected_partition.unwrap();
        let st = probe.status[sel];
        self.install.decrypting_partitions = Vec::new();
        self.install.pending_decrypt = Vec::new();
        let target_encrypted = st == VolumeStatus::EncryptedUnlocked || st == VolumeStatus::EncryptedLocked;
        if !target_encrypted || probe.target_recovery_key {
            assert(requests_view(self.install.pending_decrypt@) =~= planned_decryptions(*old(self), *probe));
            return false;
        }
        let n = self.target.partitions.len();
        let mut i: usize = 0;
        while i < n
            invariant
                i <= n,
                n == self.target.partitions@.len(),
                probe_fits(*self, *probe),
                requests_view(self.install.pending_decrypt@) == decrypt_targets(self.target.partitions@, probe.status@, i as int),
                only_install_changes(*old(self), *self),
                same_install_except_decryption(old(self).install, self.install),
                self.install.pending_from_start == old(self).install.pending_from_start,
                self.install.decrypting_partitions@.len() == 0,
            decreases n - i,
        {
            let s = probe.status[i];
            if s == VolumeStatus::EncryptedUnlocked || s == VolumeStatus::Decrypting {
                let d = drive_string(&self.target.partitions[i].letter);
                let q = DecryptRequest { drive: d, send: s == VolumeStatus::EncryptedUnlocked };
                self.install.pending_decrypt.push(q);
                assert(requests_view(self.install.pending_decrypt@) =~= decrypt_targets(self.target.partitions@, probe.status@, i + 1));
            } else {
                assert(requests_view(self.install.pending_decrypt@) =~= decrypt_targets(self.target.partitions@, probe.status@, i + 1));
            }
            i = i + 1;
        }
        self.install.pending_decrypt.len() > 0
    }

    /// Takes the answers to the pending decryptions (`sent_ok[k]`: the decrypt command
    /// of request `k` was accepted) and records the drives to wait for.
    fn settle_decryption(&mut self, sent_ok: &Vec<bool>) -> (r: bool)
        requires
            sent_ok@.len() == old(self).install.pending_decrypt@.len(),
        ensures
            only_install_changes(*old(self), *final(self)),
            same_install_except_decryption(old(self).install, final(self).install),
            final(self).install.pending_from_start == old(self).install.pending_from_start,
            strings_of(final(self).install.decrypting_partitions@) == settled(
                requests_view(old(self).install.pending_decrypt@),
                sent_ok@,
                sent_ok@.len() as int,
            ),
            final(self).install.pending_decrypt@.len() == 0,
            r == (final(self).install.decrypting_partitions@.len() > 0),
    {
        let mut waiting: Vec<String> = Vec::new();
        let n = sent_ok.len();
        let mut i: usize = 0;
        let ghost reqs = requests_view(self.install.pending_decrypt@);
        while i < n
            invariant
                i <= n,
                n == sent_ok@.len(),
                n == self.install.pending_decrypt@.len(),
                reqs == requests_view(self.install.pending_decrypt@),
                strings_of(waiting@) == settled(reqs, sent_ok@, i as int),
            decreases n - i,
        {
            let q = &self.install.pending_decrypt[i];
            assert(reqs[i as int] == (q.drive@, q.send));
            if !q.send || sent_ok[i] {
                waiting.push(str_to_string(q.drive.as_str()));
            }
            assert(strings_of(waiting@) =~= settled(reqs, sent_ok@, i + 1));
            i = i + 1;
        }
        self.install.decrypting_partitions = waiting;
        self.install.pending_decrypt = Vec::new();
        self.install.decrypting_partitions.len() > 0
    }
}

fn letter_listed(out: &Vec<BitLockerPartition>, letter: &String) -> (r: bool)
    ensures
        r == exists|k: int| 0 <= k < out@.len() && out@[k].letter@ == letter@,
{
    let l = to_chars(letter.as_str());
    let mut k: usize = 0;
    while k < out.len()
        invariant
            k <= out@.len(),
            l@ == letter@,
            forall|j: int| 0 <= j < k ==> out@[j].letter@ != letter@,
        decreases out.len() - k,
    {
        let x = to_chars(out[k].letter.as_str());
        if chars_eq(x.as_slice(), l.as_slice()) {
            return true;
        }
        k = k + 1;
    }
    false
}


/// What the caller does after an installation request was handled.
pub enum InstallAction {
    /// Nothing to do: no target, refused (error dialog), or the unlock dialog opened.
    Nothing,
    /// Send the decrypt commands in `install.pending_decrypt`, then report with
    /// [`App::decryption_requested`].
    RequestDecryption,
    /// The chosen PE is missing: run `pending_download`, then go on.
    DownloadPe,
    /// The installation state is ready; the worker starts (after the drives in
    /// `install.decrypting_partitions` are decrypted, when there are any).
    Begin,
}

pub open spec fn xp_gpt_message() -> Seq<char> {
    "原版 Windows XP/2003（i386 介质）仅支持 Legacy/BIOS + MBR 启动，无法安装到 GPT/UEFI 目标。\n如确需（例如使用 UEFI 化的魔改镜像，或先用 Diskpart 脚本把盘改成 MBR），\n请到「关于 → 高级选项」开启后重试。"@
}

pub open spec fn xp_in_place_message() -> Seq<char> {
    "从 XP i386 介质安装不支持在运行中的系统上原地安装到当前系统盘。\n请先重启进入 PE 环境，再选择目标分区进行安装。"@
}

/// Image index of the chosen volume (1 when none is chosen).
pub open spec fn chosen_volume_index(a: App) -> u32 {
    match a.image.selected_volume {
        Some(v) => if v < a.image.image_volumes@.len() {
            a.image.image_volumes@[v as int].index
        } else {
            1
        },
        None => 1,
    }
}

/// The installation is of XP/2003: an i386 medium, or a volume of version 5.
pub open spec fn selected_is_xp(a: App) -> bool {
    ||| a.image.xp_i386_source is Some
    ||| (a.image.selected_volume matches Some(v) && v < a.image.image_volumes@.len()
        && a.image.image_volumes@[v as int].major_version == Some(5u16))
}

/// The options fixed when the installation starts from state `a`.
pub open spec fn options_from(a: App, o: InstallOptions) -> bool {
    &&& o.format_partition == a.target.format_partition
    &&& o.repair_boot == a.target.repair_boot
    &&& o.unattended_install == a.target.unattended_install
    &&& o.export_drivers == (a.target.driver_action == DriverAction::SaveOnly || a.target.driver_action == DriverAction::AutoImport)
    &&& o.auto_reboot == a.target.auto_reboot
    &&& o.boot_mode == a.target.boot_mode
    &&& o.driver_action == a.target.driver_action
    &&& o.custom_unattend_path@ == (if a.target.unattended_install { a.target.custom_unattend_path@ } else { Seq::empty() })
    &&& o.is_xp == selected_is_xp(a)
    &&& o.is_xp_i386 == (a.image.xp_i386_source is Some)
    &&& o.run_diskpart_scripts == (a.env.advanced_options_enabled && a.target.run_diskpart_scripts)
}

/// The installation set up from state `a` for partition `i`: mode (through PE exactly
/// outside PE onto the running system), options, target, image, volume, fresh
/// progress, on the progress page; the choices and dialogs are kept.
pub open spec fn install_set_up(a: App, b: App, i: int) -> bool {
    let p = a.target.partitions@[i];
    &&& b.install.install_mode == (if a.env.is_pe || !p.is_system_partition { InstallMode::Direct } else { InstallMode::ViaPE })
    &&& options_from(a, b.install.options)
    &&& b.install.is_installing
    &&& b.panel == Panel::InstallProgress
    &&& b.install.progress.current_step@.len() == 0
    &&& b.install.progress.step_progress == 0
    &&& b.install.progress.total_progress == 0
    &&& !b.install.auto_reboot_triggered
    &&& b.install.target_partition@ == p.letter@
    &&& b.install.image_path@ == a.image.local_image_path@
    &&& b.install.volume_index == chosen_volume_index(a)
    &&& b.install.is_system_partition == p.is_system_partition
    &&& b.install.install_error == a.install.install_error
    &&& b.env == a.env
    &&& b.image == a.image
    &&& b.target == a.target
    &&& b.unlock == a.unlock
    &&& b.pe_choice == a.pe_choice
    &&& b.error_message == a.error_message
    &&& b.tools == a.tools
}

/// [`install_set_up`], with the decryption bookkeeping, the step and any pending
/// download left as they were.
pub open spec fn install_initialized(a: App, b: App, i: int) -> bool {
    &&& install_set_up(a, b, i)
    &&& b.install.install_step == a.install.install_step
    &&& b.install.bitlocker_decryption_needed == a.install.bitlocker_decryption_needed
    &&& b.install.decrypting_partitions == a.install.decrypting_partitions
    &&& b.install.pending_decrypt == a.install.pending_decrypt
    &&& b.install.pending_from_start == a.install.pending_from_start
    &&& b.pending_download == a.pending_download
}

/// The download that fetches the chosen PE `pe` into `bin\pe`.
pub open spec fn pe_download(d: PendingDownload, pe: PeEntry, exe_dir: Seq<char>) -> bool {
    &&& d.url@ == pe.download_url@
    &&& d.filename@ == pe.filename@
    &&& d.md5@ == pe.md5@
    &&& d.save_dir@ == path_join(path_join(exe_dir, "bin"@), "pe"@)
}

/// From state `a`, with no decryption to wait for, the installation on partition `i`
/// is set up (`mid` being that set-up state): through PE with the chosen PE missing,
/// the PE is downloaded first (installation not running, download page); otherwise it
/// begins at step 0.
pub open spec fn goes_ahead(a: App, b: App, i: int, probe: InstallProbe, r: InstallAction) -> bool {
    let through_pe = !a.env.is_pe && a.target.partitions@[i].is_system_partition;
    let download = through_pe && a.pe_choice is Some && !probe.pe_file_exists;
    &&& options_from(a, b.install.options)
    &&& b.install.install_mode == (if through_pe { InstallMode::ViaPE } else { InstallMode::Direct })
    &&& b.install.target_partition@ == a.target.partitions@[i].letter@
    &&& b.install.image_path@ == a.image.local_image_path@
    &&& b.install.volume_index == chosen_volume_index(a)
    &&& b.install.is_system_partition == a.target.partitions@[i].is_system_partition
    &&& !b.install.bitlocker_decryption_needed
    &&& !b.install.auto_reboot_triggered
    &&& b.install.progress.current_step@.len() == 0
    &&& b.install.progress.step_progress == 0
    &&& b.install.progress.total_progress == 0
    &&& b.env == a.env
    &&& b.image == a.image
    &&& b.target == a.target
    &&& b.unlock == a.unlock
    &&& b.pe_choice == a.pe_choice
    &&& b.error_message == a.error_message
    &&& b.tools == a.tools
    &&& if download {
        &&& r is DownloadPe
        &&& !b.install.is_installing
        &&& b.panel == Panel::DownloadProgress
        &&& b.pending_download matches Some(d) && pe_download(d, a.pe_choice->0, probe.exe_dir@)
            && d.next_action == AfterDownload::Install
    } else {
        &&& r is Begin
        &&& b.install.is_installing
        &&& b.panel == Panel::InstallProgress
        &&& b.install.install_step == 0
        &&& b.pending_download == a.pending_download
    }
}

impl App {
    /// Sets up the installation state for partition `partition_index` (see
    /// [`install_initialized`]).
    fn initialize_install_state(&mut self, partition_index: usize)
        requires
            partition_index < old(self).target.partitions@.len(),
        ensures
            install_initialized(*old(self), *final(self), partition_index as int),
    {
        let volume_index = self.chosen_volume();
        let options = self.options_now();
        let is_system_partition = self.target.partitions[partition_index].is_system_partition;
        let target_partition = str_to_string(self.target.partitions[partition_index].letter.as_str());
        let image_path = str_to_string(self.image.local_image_path.as_str());
        self.install.install_mode = if self.env.is_pe || !is_system_partition {
            InstallMode::Direct
        } else {
            InstallMode::ViaPE
        };
        self.install.options = options;
        self.install.is_installing = true;
        self.panel = Panel::InstallProgress;
        self.install.progress = InstallProgress { current_step: String::new(), step_progress: 0, total_progress: 0 };
        self.install.auto_reboot_triggered = false;
        self.install.target_partition = target_partition;
        self.install.image_path = image_path;
        self.install.volume_index = volume_index;
        self.install.is_system_partition = is_system_partition;
    }

    fn chosen_volume(&self) -> (r: u32)
        ensures
            r == chosen_volume_index(*self),
    {
        match self.image.selected_volume {
            Some(v) => if v < self.image.image_volumes.len() {
                self.image.image_volumes[v].index
            } else {
                1
            },
            None => 1,
        }
    }

    fn options_now(&self) -> (r: InstallOptions)
        ensures
            options_from(*self, r),
    {
        let is_xp_i386 = self.image.xp_i386_source.is_some();
        let selected_is_xp = is_xp_i386 || match self.image.selected_volume {
            Some(v) => v < self.image.image_volumes.len() && match self.image.image_volumes[v].major_version {
                Some(m) => m == 5,
                None => false,
            },
            None => false,
        };
        let da = self.target.driver_action;
        InstallOptions {
            format_partition: self.target.format_partition,
            repair_boot: self.target.repair_boot,
            unattended_install: self.target.unattended_install,
            export_drivers: da == DriverAction::SaveOnly || da == DriverAction::AutoImport,
            auto_reboot: self.target.auto_reboot,
            boot_mode: self.target.boot_mode,
            driver_action: da,
            custom_unattend_path: if self.target.unattended_install {
                str_to_string(self.target.custom_unattend_path.as_str())
            } else {
                String::new()
            },
            is_xp: selected_is_xp,
            is_xp_i386,
            run_diskpart_scripts: self.env.advanced_options_enabled && self.target.run_diskpart_scripts,
        }
    }

    /// Sets up the installation without decryptions and, when it goes through PE and
    /// the chosen PE is missing, asks for the download first.
    fn go_ahead(&mut self, partition_index: usize, probe: &InstallProbe) -> (r: InstallAction)
        requires
            partition_index < old(self).target.partitions@.len(),
        ensures
            goes_ahead(*old(self), *final(self), partition_index as int, *probe, r),
            final(self).install.decrypting_partitions == old(self).install.decrypting_partitions,
            final(self).install.pending_decrypt == old(self).install.pending_decrypt,
            final(self).install.install_error == old(self).install.install_error,
    {
        self.install.bitlocker_decryption_needed = false;
        self.initialize_install_state(partition_index);
        if self.install.install_mode == InstallMode::ViaPE {
            if let Some(pe) = &self.pe_choice {
                if !probe.pe_file_exists {
                    let d = PendingDownload {
                        url: str_to_string(pe.download_url.as_str()),
                        filename: str_to_string(pe.filename.as_str()),
                        md5: str_to_string(pe.md5.as_str()),
                        save_dir: get_pe_dir(probe.exe_dir.as_str()),
                        next_action: AfterDownload::Install,
                    };
                    self.pending_download = Some(d);
                    self.panel = Panel::DownloadProgress;
                    self.install.is_installing = false;
                    return InstallAction::DownloadPe;
                }
            }
        }
        self.install.install_step = 0;
        InstallAction::Begin
    }
}


/// The XP/2003 checks refuse the target: an i386 medium cannot boot from GPT/UEFI
/// (unless advanced options are on), nor be installed in place onto the running
/// system outside PE. `Some` holds the message shown.
pub open spec fn xp_refusal(a: App, p: Partition) -> Option<Seq<char>> {
    if a.image.xp_i386_source is None {
        None
    } else if (p.partition_style == PartitionStyle::GPT || a.target.boot_mode == BootModeSelection::UEFI)
        && !a.env.advanced_options_enabled {
        Some(xp_gpt_message())
    } else if !a.env.is_pe && p.is_system_partition {
        Some(xp_in_place_message())
    } else {
        None
    }
}

/// The unlock dialog lists the partitions at `locked` and goes on afterwards.
pub open spec fn unlock_dialog_opened(a: App, b: App, probe: InstallProbe, locked: Seq<int>) -> bool {
    &&& b.unlock.show
    &&& b.unlock.partitions@.len() == locked.len()
    &&& (forall|k: int| 0 <= k < locked.len() ==> unlock_entry(#[trigger] b.unlock.partitions@[k], a.target.partitions@[locked[k]], probe.status@[locked[k]]))
    &&& b.unlock.current matches Some(c) && c@ == a.target.partitions@[locked[0]].letter@
    &&& b.unlock.message@.len() == 0
    &&& b.unlock.password@.len() == 0
    &&& b.unlock.recovery_key@.len() == 0
    &&& b.unlock.mode == BitLockerUnlockMode::Password
    &&& b.unlock.continue_after
    &&& b.env == a.env
    &&& b.image == a.image
    &&& b.target == a.target
    &&& b.install == a.install
    &&& b.panel == a.panel
    &&& b.pe_choice == a.pe_choice
    &&& b.pending_download == a.pending_download
    &&& b.error_message == a.error_message
    &&& b.tools == a.tools
}

/// The decryptions were handed to the caller: pending, nothing waited for yet.
pub open spec fn decryption_asked(a: App, b: App, probe: InstallProbe, from_start: bool) -> bool {
    &&& requests_view(b.install.pending_decrypt@) == planned_decryptions(a, probe)
    &&& b.install.pending_from_start == from_start
    &&& b.install.decrypting_partitions@.len() == 0
    &&& only_install_changes(a, b)
    &&& same_install_except_decryption(a.install, b.install)
}

/// Continuing the installation from `a` (no decryption asked for yet): ask for the
/// planned decryptions when there are any, else set up the installation.
pub open spec fn continues(a: App, b: App, probe: InstallProbe, r: InstallAction) -> bool {
    let i = a.target.selected_partition->0 as int;
    if planned_decryptions(a, probe).len() > 0 {
        r is RequestDecryption && decryption_asked(a, b, probe, false)
    } else {
        &&& goes_ahead(a, b, i, probe, r)
        &&& (!a.env.is_pe ==> b.install.decrypting_partitions@.len() == 0 && b.install.pending_decrypt@.len() == 0)
        &&& (a.env.is_pe ==> b.install.decrypting_partitions == a.install.decrypting_partitions
            && b.install.pending_decrypt == a.install.pending_decrypt)
    }
}

impl App {
    /// The user asked to install. Without a valid target nothing happens. An XP/2003
    /// medium may be refused (error dialog, see [`xp_refusal`]). Locked BitLocker
    /// partitions open the unlock dialog. Otherwise the installation continues as
    /// [`App::continue_installation_after_bitlocker`] does, asking first for the
    /// decryptions that must precede it.
    #[verifier::rlimit(30)]
    pub fn start_installation(&mut self, probe: &InstallProbe) -> (r: InstallAction)
        requires
            probe_fits(*old(self), *probe),
        ensures
            match old(self).selected_target() {
                None => r is Nothing && *final(self) == *old(self),
                Some(p) => {
                    let locked = locked_for_install(*old(self), *probe);
                    if xp_refusal(*old(self), p) is Some {
                        &&& r is Nothing
                        &&& final(self).error_message matches Some(m) && m@ == xp_refusal(*old(self), p)->0
                        &&& same_flow(*old(self), *final(self))
                        &&& final(self).image == old(self).image
                        &&& final(self).target == old(self).target
                    } else if locked.len() > 0 {
                        r is Nothing && unlock_dialog_opened(*old(self), *final(self), *probe, locked)
                    } else if planned_decryptions(*old(self), *probe).len() > 0 {
                        r is RequestDecryption && decryption_asked(*old(self), *final(self), *probe, true)
                    } else {
                        continues(*old(self), *final(self), *probe, r)
                    }
                },
            },
    {
        let idx = match self.target.selected_partition {
            Some(i) => i,
            None => {
                return InstallAction::Nothing;
            },
        };
        if idx >= self.target.partitions.len() {
            return InstallAction::Nothing;
        }
        if self.refuse_xp_target(idx) {
            return InstallAction::Nothing;
        }
        let locked = self.check_bitlocker_for_install(probe);
        if locked.len() > 0 {
            self.open_unlock_dialog(locked);
            return InstallAction::Nothing;
        }
        if self.plan_decryption(probe) {
            self.install.pending_from_start = true;
            return InstallAction::RequestDecryption;
        }
        self.install.bitlocker_decryption_needed = false;
        let ghost mid = *self;
        let r = self.continue_installation_after_bitlocker(probe);
        proof {
            assert(planned_decryptions(mid, *probe) == planned_decryptions(*old(self), *probe));
            assert(chosen_volume_index(mid) == chosen_volume_index(*old(self)));
            assert(selected_is_xp(mid) == selected_is_xp(*old(self)));
        }
        r
    }

    /// Applies the XP/2003 checks to partition `idx` (see [`xp_refusal`]); on refusal
    /// the error dialog shows the reason.
    fn refuse_xp_target(&mut self, idx: usize) -> (r: bool)
        requires
            idx < old(self).target.partitions@.len(),
        ensures
            r == (xp_refusal(*old(self), old(self).target.partitions@[idx as int]) is Some),
            r ==> (final(self).error_message matches Some(m)
                && m@ == xp_refusal(*old(self), old(self).target.partitions@[idx as int])->0),
            !r ==> final(self).error_message == old(self).error_message,
            same_flow(*old(self), *final(self)),
            final(self).image == old(self).image,
            final(self).target == old(self).target,
    {
        if self.image.xp_i386_source.is_some() {
            let p = &self.target.partitions[idx];
            let target_is_uefi = p.partition_style == PartitionStyle::GPT || self.target.boot_mode == BootModeSelection::UEFI;
            if target_is_uefi && !self.env.advanced_options_enabled {
                self.error_message = Some(str_to_string(
                    "原版 Windows XP/2003（i386 介质）仅支持 Legacy/BIOS + MBR 启动，无法安装到 GPT/UEFI 目标。\n如确需（例如使用 UEFI 化的魔改镜像，或先用 Diskpart 脚本把盘改成 MBR），\n请到「关于 → 高级选项」开启后重试。",
                ));
                return true;
            }
            if !self.env.is_pe && p.is_system_partition {
                self.error_message = Some(str_to_string(
                    "从 XP i386 介质安装不支持在运行中的系统上原地安装到当前系统盘。\n请先重启进入 PE 环境，再选择目标分区进行安装。",
                ));
                return true;
            }
        }
        false
    }

    /// Opens the unlock dialog on `locked` (not empty), to go on afterwards.
    fn open_unlock_dialog(&mut self, locked: Vec<BitLockerPartition>)
        requires
            locked@.len() > 0,
        ensures
            final(self).unlock.show,
            final(self).unlock.partitions@ == locked@,
            final(self).unlock.current matches Some(c) && c@ == locked@[0].letter@,
            final(self).unlock.message@.len() == 0,
            final(self).unlock.password@.len() == 0,
            final(self).unlock.recovery_key@.len() == 0,
            final(self).unlock.mode == BitLockerUnlockMode::Password,
            final(self).unlock.continue_after,
            final(self).env == old(self).env,
            final(self).image == old(self).image,
            final(self).target == old(self).target,
            final(self).install == old(self).install,
            final(self).panel == old(self).panel,
            final(self).pe_choice == old(self).pe_choice,
            final(self).pending_download == old(self).pending_download,
            final(self).error_message == old(self).error_message,
            final(self).tools == old(self).tools,
    {
        let first = str_to_string(locked[0].letter.as_str());
        self.unlock = UnlockDialog {
            show: true,
            partitions: locked,
            current: Some(first),
            message: String::new(),
            password: String::new(),
            recovery_key: String::new(),
            mode: BitLockerUnlockMode::Password,
            continue_after: true,
        };
    }

    /// Goes on once the target is unlocked: ask for the decryptions that must precede
    /// the installation when there are any, else set it up (see [`continues`]).
    pub fn continue_installation_after_bitlocker(&mut self, probe: &InstallProbe) -> (r: InstallAction)
        requires
            probe_fits(*old(self), *probe),
        ensures
            old(self).selected_target() is None ==> r is Nothing && *final(self) == *old(self),
            old(self).selected_target() is Some ==> continues(*old(self), *final(self), *probe, r),
    {
        let idx = match self.target.selected_partition {
            Some(i) => i,
            None => {
                return InstallAction::Nothing;
            },
        };
        if idx >= self.target.partitions.len() {
            return InstallAction::Nothing;
        }
        if self.plan_decryption(probe) {
            self.install.pending_from_start = false;
            return InstallAction::RequestDecryption;
        }
        self.go_ahead(idx, probe)
    }
}


impl App {
    /// Takes the answers to the decryptions asked for (`sent_ok[k]`: the decrypt
    /// command of request `k` was accepted). When some drive is to be waited for, the
    /// installation is set up and waits at step 0. Otherwise it goes on as it would
    /// have without decryption: a request that came from `start_installation` is
    /// planned again (continuing after BitLocker), else the installation is set up.
    pub fn decryption_requested(&mut self, sent_ok: &Vec<bool>, probe: &InstallProbe) -> (r: InstallAction)
        requires
            sent_ok@.len() == old(self).install.pending_decrypt@.len(),
            probe_fits(*old(self), *probe),
            old(self).selected_target() is Some,
        ensures
            ({
                let waiting = settled(requests_view(old(self).install.pending_decrypt@), sent_ok@, sent_ok@.len() as int);
                let i = old(self).target.selected_partition->0 as int;
                if waiting.len() > 0 {
                    &&& r is Begin
                    &&& install_set_up(*old(self), *final(self), i)
                    &&& final(self).install.bitlocker_decryption_needed
                    &&& strings_of(final(self).install.decrypting_partitions@) == waiting
                    &&& final(self).install.pending_decrypt@.len() == 0
                    &&& final(self).install.install_step == 0
                    &&& final(self).pending_download == old(self).pending_download
                } else if old(self).install.pending_from_start && planned_decryptions(*old(self), *probe).len() > 0 {
                    &&& r is RequestDecryption
                    &&& requests_view(final(self).install.pending_decrypt@) == planned_decryptions(*old(self), *probe)
                    &&& !final(self).install.pending_from_start
                    &&& final(self).install.decrypting_partitions@.len() == 0
                    &&& !final(self).install.bitlocker_decryption_needed
                    &&& only_install_changes(*old(self), *final(self))
                    &&& same_install_setup(old(self).install, final(self).install)
                } else {
                    &&& goes_ahead(*old(self), *final(self), i, *probe, r)
                    &&& final(self).install.decrypting_partitions@.len() == 0
                    &&& final(self).install.pending_decrypt@.len() == 0
                }
            }),
    {
        let idx = self.target.selected_partition.unwrap();
        let ghost before = *self;
        if self.settle_decryption(sent_ok) {
            self.install.bitlocker_decryption_needed = true;
            let ghost mid = *self;
            self.initialize_install_state(idx);
            self.install.install_step = 0;
            proof {
                assert(chosen_volume_index(mid) == chosen_volume_index(before));
                assert(selected_is_xp(mid) == selected_is_xp(before));
            }
            return InstallAction::Begin;
        }
        self.install.bitlocker_decryption_needed = false;
        let ghost mid = *self;
        proof {
            assert(planned_decryptions(mid, *probe) == planned_decryptions(before, *probe));
            assert(chosen_volume_index(mid) == chosen_volume_index(before));
            assert(selected_is_xp(mid) == selected_is_xp(before));
        }
        if self.install.pending_from_start {
            return self.continue_installation_after_bitlocker(probe);
        }
        self.go_ahead(idx, probe)
    }
}


// ---------------------------------------------------------------------------
// Progress reports from the installation worker
// ---------------------------------------------------------------------------

/// `s` without any number of leading copies of `p` (what `trim_start_matches` does).
pub open spec fn strip_leading_seq(s: Seq<char>, p: Seq<char>) -> Seq<char>
    decreases s.len(),
{
    if p.len() > 0 && starts_with(s, p) {
        strip_leading_seq(s.subrange(p.len() as int, s.len() as int), p)
    } else {
        s
    }
}

/// What one progress report did.
pub struct ProgressOutcome {
    /// Read the next queued report now (`false`: wait for the next frame).
    pub keep_reading: bool,
    /// The installation is complete and should reboot by itself now.
    pub reboot: bool,
}

/// The effect of one progress report `st`/`pct` on the installation state.
pub open spec fn progress_effect(a: InstallState, b: InstallState, st: Seq<char>, pct: u8, r: ProgressOutcome) -> bool {
    if st == "DECRYPTION_COMPLETE"@ {
        &&& b.decrypting_partitions@.len() == 0
        &&& b.progress.current_step@ == "准备开始安装..."@
        &&& b.progress.step_progress == a.progress.step_progress
        &&& b.progress.total_progress == a.progress.total_progress
        &&& b.install_error == a.install_error
        &&& b.install_step == a.install_step
        &&& b.auto_reboot_triggered == a.auto_reboot_triggered
        &&& !r.keep_reading && !r.reboot
    } else if starts_with(st, "DECRYPTING:"@) {
        &&& b.decrypting_partitions == a.decrypting_partitions
        &&& b.progress.current_step@ == strip_leading_seq(st, "DECRYPTING:"@)
        &&& b.progress.step_progress == pct
        &&& b.progress.total_progress == a.progress.total_progress
        &&& b.install_error == a.install_error
        &&& b.install_step == a.install_step
        &&& b.auto_reboot_triggered == a.auto_reboot_triggered
        &&& !r.keep_reading && !r.reboot
    } else if starts_with(st, "ERROR:"@) {
        &&& b.decrypting_partitions == a.decrypting_partitions
        &&& b.install_error matches Some(e) && e@ == st.subrange(6, st.len() as int)
        &&& b.progress.current_step@ == "安装失败"@
        &&& b.progress.step_progress == a.progress.step_progress
        &&& b.progress.total_progress == a.progress.total_progress
        &&& b.install_step == a.install_step
        &&& b.auto_reboot_triggered == a.auto_reboot_triggered
        &&& !r.keep_reading && !r.reboot
    } else {
        &&& b.decrypting_partitions == a.decrypting_partitions
        &&& b.install_error == a.install_error
        &&& r.keep_reading
        &&& match parse_step_spec(st) {
            None => {
                &&& b.progress == a.progress
                &&& b.install_step == a.install_step
                &&& b.auto_reboot_triggered == a.auto_reboot_triggered
                &&& !r.reboot
            },
            Some((step, name)) => {
                let total = total_progress_spec(a.install_mode, step, pct as nat);
                let fire = total >= 100 && a.options.auto_reboot && !a.auto_reboot_triggered;
                &&& b.progress.step_progress == pct
                &&& b.install_step as nat == step
                &&& b.progress.current_step@ == name
                &&& b.progress.total_progress as nat == total
                &&& r.reboot == fire
                &&& b.auto_reboot_triggered == (a.auto_reboot_triggered || fire)
            },
        }
    }
}

fn strip_leading(s: &[char], p: &[char]) -> (r: Vec<char>)
    ensures
        r@ == strip_leading_seq(s@, p@),
{
    let mut start: usize = 0;
    let n = s.len();
    if p.len() > 0 {
        assert(s@.subrange(0, n as int) =~= s@);
        while matches_at(s, p, start)
            invariant
                start <= n,
                n == s@.len(),
                p@.len() > 0,
                strip_leading_seq(s@, p@) == strip_leading_seq(s@.subrange(start as int, n as int), p@),
            decreases n - start,
        {
            let ghost t = s@.subrange(start as int, n as int);
            assert(starts_with(t, p@)) by {
                assert(t.subrange(0, p@.len() as int) =~= s@.subrange(start as int, start + p@.len()));
            }
            assert(t.subrange(p@.len() as int, t.len() as int) =~= s@.subrange(start + p@.len(), n as int));
            start = start + p.len();
        }
        let ghost t = s@.subrange(start as int, n as int);
        if p.len() <= n - start {
            assert(!starts_with(t, p@)) by {
                assert(t.subrange(0, p@.len() as int) =~= s@.subrange(start as int, start + p@.len()));
            }
        }
    } else {
        assert(s@.subrange(0, n as int) =~= s@);
    }
    proof {
        if p@.len() == 0 {
            assert(s@.subrange(start as int, n as int) =~= s@);
        }
    }
    slice_chars(s, start, n)
}

impl App {
    /// Takes one progress report of the installation worker (see
    /// [`progress_effect`]). The decryption and error reports end this frame's
    /// reading; step reports update the step, its progress and the overall progress,
    /// and ask for the automatic reboot once, when the installation is complete and
    /// the user chose it.
    pub fn update_install_progress(&mut self, progress: &DismProgress) -> (r: ProgressOutcome)
        ensures
            progress_effect(old(self).install, final(self).install, progress.status@, progress.percentage, r),
            final(self).install.is_installing == old(self).install.is_installing,
            final(self).install.install_mode == old(self).install.install_mode,
            final(self).install.options == old(self).install.options,
            final(self).install.target_partition == old(self).install.target_partition,
            final(self).install.image_path == old(self).install.image_path,
            final(self).install.volume_index == old(self).install.volume_index,
            final(self).install.is_system_partition == old(self).install.is_system_partition,
            final(self).install.bitlocker_decryption_needed == old(self).install.bitlocker_decryption_needed,
            final(self).install.pending_decrypt == old(self).install.pending_decrypt,
            final(self).install.pending_from_start == old(self).install.pending_from_start,
            final(self).env == old(self).env,
            final(self).image == old(self).image,
            final(self).target == old(self).target,
            final(self).unlock == old(self).unlock,
            final(self).panel == old(self).panel,
            final(self).pe_choice == old(self).pe_choice,
            final(self).pending_download == old(self).pending_download,
            final(self).error_message == old(self).error_message,
            final(self).tools == old(self).tools,
    {
        let st = to_chars(progress.status.as_str());
        let done = to_chars("DECRYPTION_COMPLETE");
        let decrypting = to_chars("DECRYPTING:");
        let error = to_chars("ERROR:");
        proof {
            reveal_strlit("ERROR:");
        }
        if chars_eq(st.as_slice(), done.as_slice()) {
            self.install.decrypting_partitions = Vec::new();
            self.install.progress.current_step = str_to_string("准备开始安装...");
            return ProgressOutcome { keep_reading: false, reboot: false };
        }
        if starts_with_chars(st.as_slice(), decrypting.as_slice()) {
            let rest = strip_leading(st.as_slice(), decrypting.as_slice());
            self.install.progress.current_step = chars_to_string(rest.as_slice());
            self.install.progress.step_progress = progress.percentage;
            return ProgressOutcome { keep_reading: false, reboot: false };
        }
        if starts_with_chars(st.as_slice(), error.as_slice()) {
            let msg = slice_chars(st.as_slice(), 6, st.len());
            self.install.install_error = Some(chars_to_string(msg.as_slice()));
            self.install.progress.current_step = str_to_string("安装失败");
            return ProgressOutcome { keep_reading: false, reboot: false };
        }
        match parse_step_from_status(progress.status.as_str()) {
            None => ProgressOutcome { keep_reading: true, reboot: false },
            Some((step, name)) => {
                self.install.progress.step_progress = progress.percentage;
                let cur = to_chars(self.install.progress.current_step.as_str());
                let nv = to_chars(name.as_str());
                if step != self.install.install_step || !chars_eq(cur.as_slice(), nv.as_slice()) {
                    self.install.install_step = step;
                    self.install.progress.current_step = name;
                }
                let total = total_progress(self.install.install_mode, step, progress.percentage);
                self.install.progress.total_progress = total;
                let mut reboot = false;
                if total >= 100 && self.install.options.auto_reboot && !self.install.auto_reboot_triggered {
                    self.install.auto_reboot_triggered = true;
                    reboot = true;
                }
                ProgressOutcome { keep_reading: true, reboot }
            },
        }
    }
}


impl App {
    /// A window with nothing chosen yet, in the given environment: no image, no
    /// partitions, automatic boot mode, drivers left alone, answer file generated.
    pub fn new(env: Environment) -> (r: App)
        ensures
            r.env == env,
            r.image.local_image_path@.len() == 0,
            r.image.xp_i386_source is None,
            !r.image.iso_mounting,
            !r.image.image_info_loading,
            r.image.image_volumes@.len() == 0,
            r.image.selected_volume is None,
            r.target.partitions@.len() == 0,
            r.target.selected_partition is None,
            r.target.boot_mode == BootModeSelection::Auto,
            r.target.driver_action == DriverAction::Skip,
            r.target.unattended_install,
            !r.install.is_installing,
            r.install.decrypting_partitions@.len() == 0,
            r.install.pending_decrypt@.len() == 0,
            !r.unlock.show,
            r.panel == Panel::SystemInstall,
            r.pe_choice is None,
            r.pending_download is None,
            r.error_message is None,
    {
        App {
            env,
            image: ImageSelection {
                local_image_path: String::new(),
                xp_i386_source: None,
                iso_mounting: false,
                iso_mount_error: None,
                image_info_loading: false,
                image_volumes: Vec::new(),
                selected_volume: None,
                easy_mode_pending_auto_start: false,
                source_has_unattend: false,
                storage_driver_default_target: None,
                import_storage_controller_drivers: false,
            },
            target: TargetSelection {
                partitions: Vec::new(),
                selected_partition: None,
                format_partition: false,
                repair_boot: false,
                unattended_install: true,
                partition_has_unattend: false,
                last_unattend_check_partition: None,
                unattend_check_loading: false,
                boot_mode: BootModeSelection::Auto,
                driver_action: DriverAction::Skip,
                auto_reboot: false,
                custom_unattend_path: String::new(),
                run_diskpart_scripts: false,
            },
            install: InstallState {
                is_installing: false,
                progress: InstallProgress { current_step: String::new(), step_progress: 0, total_progress: 0 },
                install_error: None,
                install_step: 0,
                install_mode: InstallMode::Direct,
                options: InstallOptions {
                    format_partition: false,
                    repair_boot: false,
                    unattended_install: true,
                    export_drivers: false,
                    auto_reboot: false,
                    boot_mode: BootModeSelection::Auto,
                    driver_action: DriverAction::Skip,
                    custom_unattend_path: String::new(),
                    is_xp: false,
                    is_xp_i386: false,
                    run_diskpart_scripts: false,
                },
                target_partition: String::new(),
                image_path: String::new(),
                volume_index: 1,
                is_system_partition: false,
                auto_reboot_triggered: false,
                bitlocker_decryption_needed: false,
                decrypting_partitions: Vec::new(),
                pending_decrypt: Vec::new(),
                pending_from_start: false,
            },
            unlock: UnlockDialog {
                show: false,
                partitions: Vec::new(),
                current: None,
                message: String::new(),
                password: String::new(),
                recovery_key: String::new(),
                mode: BitLockerUnlockMode::Password,
                continue_after: false,
            },
            panel: Panel::SystemInstall,
            pe_choice: None,
            pending_download: None,
            error_message: None,
            tools: ToolsState::new(),
        }
    }
}

} // verus!
