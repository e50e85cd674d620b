//! Preparing an installation that finishes inside PE: the PE boot entry is
//! installed, the image and the settings are copied to a data partition, and the
//! machine restarts into PE, which does the rest.
//!
//! [`PeInstall::advance`] takes the outcome of the last piece of work and gives the
//! progress reports to send and the next piece of work; the caller does the work.
use vstd::prelude::*;
use crate::app_state::{DriverAction, InstallOptions, is_gho_path};
use crate::direct_install::{concat2, err_rep, is_gho_file, progress_view, push_err, push_rep, rep};
use crate::dism::DismProgress;
use crate::text::{push_str, str_to_string, to_chars};

verus! {

/// Where the preparation stands (which outcome it waits for).
#[derive(Debug, Clone, Copy, PartialEq, Eq, Structural)]
pub enum PeStep {
    /// Whether the chosen PE file is present.
    CheckPe,
    /// The PE boot entry is being installed.
    BootToPe,
    /// A data partition is being chosen.
    FindData,
    ExportDrivers,
    /// The image's integrity is being checked.
    VerifyImage,
    CopyImage,
    /// The UefiSeven files are being copied.
    UefiSeven,
    /// The user's drivers for the `n`-th system version are being copied.
    UserDrivers(u8),
    WriteConfig,
    Finished,
}

/// The outcome of the last piece of work.
pub enum PeEvent {
    /// The full path of the PE file, when it is present.
    PeFound(Option<String>),
    /// The data partition and its data directory, or why none could be had.
    DataDir(Result<(String, String), String>),
    Done(Result<(), String>),
}

/// What the PE side reads to finish the installation.
pub struct PeInstallConfig {
    pub unattended: bool,
    pub restore_drivers: bool,
    pub driver_action: DriverAction,
    pub auto_reboot: bool,
    pub volume_index: u32,
    pub target_partition: String,
    /// The image's file name, as copied into the data directory.
    pub image_file: String,
    pub is_gho: bool,
    pub custom_unattend_path: String,
    pub win7_uefi_patch: bool,
    pub is_xp: bool,
    pub run_diskpart_scripts: bool,
    /// Where the configuration is written.
    pub data_partition: String,
}

/// A piece of work for the caller.
pub enum PeWork {
    CheckPeExists(String),
    BootToPe { pe_path: String, display_name: String },
    /// Choose a partition other than `exclude` with room for `image`, and create its
    /// data directory.
    FindDataPartition { exclude: String, image: String },
    ExportDrivers(String),
    /// Check the image, reporting its percentages as step 4.
    VerifyImage(String),
    /// Copy, reporting the percentages as step 4.
    CopyImage { src: String, dst: String },
    CopyUefiSeven(String),
    /// Copy the user's drivers for `version`, if that folder holds an `.inf`.
    CopyUserDrivers { version: String, dest: String },
    WriteConfig(PeInstallConfig),
    /// The preparation is over.
    Finish,
}

/// Progress reports to send, then work to do.
pub struct PeAction {
    pub progress: Vec<DismProgress>,
    pub work: PeWork,
}

/// A PE installation being prepared.
pub struct PeInstall {
    pub target_partition: String,
    pub image_path: String,
    pub volume_index: u32,
    pub options: InstallOptions,
    pub win7_uefi_patch: bool,
    /// The name the PE boot entry gets.
    pub display_name: String,
    pub pe_path: String,
    pub data_partition: String,
    pub data_dir: String,
    pub step: PeStep,
}

pub open spec fn check_name() -> Seq<char> { "检查PE环境"@ }
pub open spec fn pe_boot_name() -> Seq<char> { "安装PE引导"@ }
pub open spec fn pe_export_name() -> Seq<char> { "导出驱动"@ }
pub open spec fn verify_name() -> Seq<char> { "校验镜像"@ }
pub open spec fn copy_name() -> Seq<char> { "复制镜像文件"@ }
pub open spec fn config_name() -> Seq<char> { "写入配置文件"@ }
pub open spec fn reboot_name() -> Seq<char> { "准备重启"@ }

/// Drivers are exported when they are to be kept or imported.
pub open spec fn exports_drivers(o: InstallOptions) -> bool {
    o.driver_action == DriverAction::SaveOnly || o.driver_action == DriverAction::AutoImport
}

pub open spec fn is_separator(c: char) -> bool {
    c == '\\' || c == '/'
}

/// The part of a path after its last `\` or `/`.
pub open spec fn last_component(s: Seq<char>) -> Seq<char>
    decreases s.len(),
{
    if s.len() == 0 {
        s
    } else if is_separator(s.last()) {
        Seq::empty()
    } else {
        last_component(s.drop_last()).push(s.last())
    }
}

/// The system versions whose user drivers are copied, in order.
pub open spec fn driver_version(i: int) -> Seq<char> {
    if i == 0 { "win7"@ } else if i == 1 { "win8"@ } else if i == 2 { "win10"@ } else { "win11"@ }
}

/// The fixed inputs are kept.
pub open spec fn same_job(a: PeInstall, b: PeInstall) -> bool {
    &&& a.target_partition == b.target_partition
    &&& a.image_path == b.image_path
    &&& a.volume_index == b.volume_index
    &&& a.options == b.options
    &&& a.win7_uefi_patch == b.win7_uefi_patch
    &&& a.display_name == b.display_name
}

/// Everything but the step is kept.
pub open spec fn same_prep(a: PeInstall, b: PeInstall) -> bool {
    &&& same_job(a, b)
    &&& a.pe_path == b.pe_path
    &&& a.data_partition == b.data_partition
    &&& a.data_dir == b.data_dir
}

pub open spec fn pe_finished(b: PeInstall, w: PeWork) -> bool {
    b.step == PeStep::Finished && w is Finish
}

/// Step 4 begins: the image is checked.
pub open spec fn verify_work(b: PeInstall, w: PeWork) -> bool {
    &&& b.step == PeStep::VerifyImage
    &&& w matches PeWork::VerifyImage(i) && i@ == b.image_path@
}

/// The user's drivers for the `i`-th version are copied.
pub open spec fn user_drivers_work(b: PeInstall, i: int, w: PeWork) -> bool {
    &&& b.step == PeStep::UserDrivers(i as u8)
    &&& w matches PeWork::CopyUserDrivers { version, dest } && version@ == driver_version(i)
        && dest@ == b.data_dir@ + "\\user_drivers\\"@ + driver_version(i)
}

/// The configuration that the PE side reads.
pub open spec fn config_of(a: PeInstall, c: PeInstallConfig) -> bool {
    &&& c.unattended == a.options.unattended_install
    &&& c.restore_drivers == a.options.export_drivers
    &&& c.driver_action == a.options.driver_action
    &&& c.auto_reboot == a.options.auto_reboot
    &&& c.volume_index == a.volume_index
    &&& c.target_partition@ == a.target_partition@
    &&& c.image_file@ == last_component(a.image_path@)
    &&& c.is_gho == is_gho_path(a.image_path@)
    &&& c.custom_unattend_path@ == a.options.custom_unattend_path@
    &&& c.win7_uefi_patch == a.win7_uefi_patch
    &&& c.is_xp == a.options.is_xp
    &&& c.run_diskpart_scripts == a.options.run_diskpart_scripts
    &&& c.data_partition@ == a.data_partition@
}

pub open spec fn verify_error_message(m: Seq<char>) -> Seq<char> {
    "镜像校验失败：镜像可能已损坏或不完整（"@ + m + "）。请重新获取镜像后重试。"@
}

pub open spec fn copy_error_message(e: Seq<char>) -> Seq<char> {
    "复制失败: "@ + e
}

/// One transition from `a` on event `e` to `b`, sending the reports `out` and asking
/// for work `w`.
pub open spec fn pe_transition(a: PeInstall, b: PeInstall, e: PeEvent, out: Seq<(Seq<char>, u8)>, w: PeWork) -> bool {
    &&& same_job(a, b)
    &&& match a.step {
        PeStep::CheckPe => match e {
            PeEvent::PeFound(Some(p)) => {
                &&& out == seq![rep(1, check_name(), 100), rep(2, pe_boot_name(), 0), rep(2, pe_boot_name(), 30)]
                &&& b.pe_path@ == p@
                &&& b.step == PeStep::BootToPe
                &&& w matches PeWork::BootToPe { pe_path, display_name } && pe_path@ == p@
                    && display_name@ == a.display_name@
            },
            _ => out == seq![rep(1, check_name(), 100)] && pe_finished(b, w),
        },
        PeStep::BootToPe => match e {
            PeEvent::Done(Err(_)) => out == seq![rep(2, pe_boot_name(), 100)] && pe_finished(b, w),
            _ => {
                &&& out == seq![rep(2, pe_boot_name(), 100), rep(3, pe_export_name(), 0)]
                &&& same_prep(a, b)
                &&& b.step == PeStep::FindData
                &&& w matches PeWork::FindDataPartition { exclude, image } && exclude@ == a.target_partition@
                    && image@ == a.image_path@
            },
        },
        PeStep::FindData => match e {
            PeEvent::DataDir(Ok((part, dir))) => {
                &&& b.pe_path == a.pe_path
                &&& b.data_partition@ == part@
                &&& b.data_dir@ == dir@
                &&& if exports_drivers(a.options) {
                    &&& out == seq![rep(3, pe_export_name(), 30)]
                    &&& b.step == PeStep::ExportDrivers
                    &&& w matches PeWork::ExportDrivers(d) && d@ == dir@ + "\\drivers"@
                } else {
                    &&& out == seq![rep(3, pe_export_name(), 100), rep(4, verify_name(), 0)]
                    &&& verify_work(b, w)
                }
            },
            PeEvent::DataDir(Err(m)) => out == seq![err_rep(m@)] && pe_finished(b, w),
            _ => out.len() == 0 && pe_finished(b, w),
        },
        PeStep::ExportDrivers => {
            &&& same_prep(a, b)
            &&& out == seq![rep(3, pe_export_name(), 100), rep(4, verify_name(), 0)]
            &&& verify_work(b, w)
        },
        PeStep::VerifyImage => match e {
            PeEvent::Done(Err(m)) => out == seq![err_rep(verify_error_message(m@))] && pe_finished(b, w),
            _ => {
                &&& same_prep(a, b)
                &&& out == seq![rep(4, copy_name(), 0)]
                &&& b.step == PeStep::CopyImage
                &&& w matches PeWork::CopyImage { src, dst } && src@ == a.image_path@
                    && dst@ == a.data_dir@ + "\\"@ + last_component(a.image_path@)
            },
        },
        PeStep::CopyImage => match e {
            PeEvent::Done(Err(m)) => out == seq![err_rep(copy_error_message(m@))] && pe_finished(b, w),
            _ => {
                &&& same_prep(a, b)
                &&& out == seq![rep(4, copy_name(), 100)]
                &&& if a.win7_uefi_patch {
                    b.step == PeStep::UefiSeven && (w matches PeWork::CopyUefiSeven(d) && d@ == a.data_dir@ + "\\uefiseven"@)
                } else {
                    user_drivers_work(b, 0, w)
                }
            },
        },
        PeStep::UefiSeven => same_prep(a, b) && out.len() == 0 && user_drivers_work(b, 0, w),
        PeStep::UserDrivers(i) => {
            &&& same_prep(a, b)
            &&& if i < 3 {
                out.len() == 0 && user_drivers_work(b, i + 1, w)
            } else {
                &&& out == seq![rep(5, config_name(), 0)]
                &&& b.step == PeStep::WriteConfig
                &&& w matches PeWork::WriteConfig(c) && config_of(a, c)
            }
        },
        PeStep::WriteConfig => {
            &&& same_prep(a, b)
            &&& out == seq![rep(5, config_name(), 100), rep(6, reboot_name(), 100)]
            &&& pe_finished(b, w)
        },
        PeStep::Finished => false,
    }
}

/// How many stages at most lie ahead of `step`.
pub open spec fn pe_stages_left(step: PeStep) -> nat {
    match step {
        PeStep::Finished => 0,
        PeStep::WriteConfig => 1,
        PeStep::UserDrivers(i) => if i < 4 { (5 - i) as nat } else { 2 },
        PeStep::UefiSeven => 6,
        PeStep::CopyImage => 7,
        PeStep::VerifyImage => 8,
        PeStep::ExportDrivers => 9,
        PeStep::FindData => 10,
        PeStep::BootToPe => 11,
        PeStep::CheckPe => 12,
    }
}

/// Every transition moves forward, so a preparation ends whatever the outcomes; and
/// the work asked for is `Finish` exactly when it has ended.
pub proof fn lemma_pe_install_ends(a: PeInstall, b: PeInstall, e: PeEvent, out: Seq<(Seq<char>, u8)>, w: PeWork)
    requires
        pe_transition(a, b, e, out, w),
    ensures
        pe_stages_left(b.step) < pe_stages_left(a.step),
        (w is Finish) == (b.step == PeStep::Finished),
{
    match a.step {
        PeStep::FindData => {
            if (e matches PeEvent::DataDir(Ok(_))) && exports_drivers(a.options) {
                assert(b.step == PeStep::ExportDrivers);
            }
        },
        PeStep::CopyImage => {
            if !(e matches PeEvent::Done(Err(_))) && !a.win7_uefi_patch {
                assert(b.step == PeStep::UserDrivers(0));
            }
        },
        PeStep::UserDrivers(i) => {
            if i < 3 {
                assert(b.step == PeStep::UserDrivers((i + 1) as u8));
            }
        },
        _ => {},
    }
}

/// What starting sends and asks first: without a chosen PE the preparation ends at
/// once; else the PE file is looked for.
pub open spec fn pe_start(pe_file: Option<Seq<char>>, out: Seq<(Seq<char>, u8)>, b: PeInstall, w: PeWork) -> bool {
    match pe_file {
        None => out == seq![rep(1, check_name(), 0), rep(1, check_name(), 100)] && pe_finished(b, w),
        Some(f) => {
            &&& out == seq![rep(1, check_name(), 0), rep(1, check_name(), 50)]
            &&& b.step == PeStep::CheckPe
            &&& w matches PeWork::CheckPeExists(n) && n@ == f
        },
    }
}

proof fn lemma_last_component_suffix(s: Seq<char>, i: int)
    requires
        0 <= i <= s.len(),
        forall|j: int| i <= j < s.len() ==> !is_separator(#[trigger] s[j]),
    ensures
        last_component(s) == last_component(s.subrange(0, i)) + s.subrange(i, s.len() as int),
    decreases s.len(),
{
    if i == s.len() {
        assert(s.subrange(0, i) =~= s);
        assert(s.subrange(i, s.len() as int) =~= Seq::<char>::empty());
        assert(last_component(s) + Seq::<char>::empty() =~= last_component(s));
    } else {
        let t = s.drop_last();
        assert forall|j: int| i <= j < t.len() implies !is_separator(#[trigger] t[j]) by {
            assert(t[j] == s[j]);
        }
        lemma_last_component_suffix(t, i);
        assert(t.subrange(0, i) =~= s.subrange(0, i));
        assert(!is_separator(s[s.len() - 1]));
        assert(s.subrange(i, s.len() as int) =~= t.subrange(i, t.len() as int).push(s.last()));
        assert((last_component(t.subrange(0, i)) + t.subrange(i, t.len() as int)).push(s.last())
            =~= last_component(s.subrange(0, i)) + s.subrange(i, s.len() as int));
    }
}

/// The image's file name: the part of `path` after its last `\` or `/`.
pub fn file_name_of(path: &str) -> (r: String)
    ensures
        r@ == last_component(path@),
{
    let v = to_chars(path);
    let mut i: usize = v.len();
    while i > 0
        invariant
            i <= v.len(),
            v@ == path@,
            forall|j: int| i <= j < v@.len() ==> !is_separator(#[trigger] v@[j]),
        ensures
            i == 0 || is_separator(v@[i - 1]),
            forall|j: int| i <= j < v@.len() ==> !is_separator(#[trigger] v@[j]),
        decreases i,
    {
        let c = v[i - 1];
        if c == '\\' || c == '/' {
            break;
        }
        i = i - 1;
    }
    proof {
        lemma_last_component_suffix(v@, i as int);
        if i == 0 {
            assert(v@.subrange(0, 0) =~= Seq::<char>::empty());
        } else {
            assert(v@.subrange(0, i as int).last() == v@[i - 1]);
        }
    }
    let mut r = String::new();
    let mut k: usize = i;
    while k < v.len()
        invariant
            i <= k <= v.len(),
            r@ == v@.subrange(i as int, k as int),
        decreases v.len() - k,
    {
        crate::text::push_char(&mut r, v[k]);
        assert(v@.subrange(i as int, k + 1) =~= v@.subrange(i as int, k as int).push(v@[k as int]));
        k = k + 1;
    }
    r
}

impl PeInstall {
    /// Starts preparing the installation of volume `volume_index` of `image_path`
    /// onto `target_partition` with `options`, through the PE file `pe_file` (none
    /// chosen: `None`) whose boot entry is named `display_name`.
    pub fn new(
        target_partition: &str,
        image_path: &str,
        volume_index: u32,
        options: InstallOptions,
        win7_uefi_patch: bool,
        pe_file: Option<&str>,
        display_name: &str,
    ) -> (r: (PeInstall, PeAction))
        ensures
            r.0.target_partition@ == target_partition@,
            r.0.image_path@ == image_path@,
            r.0.volume_index == volume_index,
            r.0.options == options,
            r.0.win7_uefi_patch == win7_uefi_patch,
            r.0.display_name@ == display_name@,
            pe_start(match pe_file { Some(f) => Some(f@), None => None }, progress_view(r.1.progress@), r.0, r.1.work),
    {
        let mut job = PeInstall {
            target_partition: str_to_string(target_partition),
            image_path: str_to_string(image_path),
            volume_index,
            options,
            win7_uefi_patch,
            display_name: str_to_string(display_name),
            pe_path: String::new(),
            data_partition: String::new(),
            data_dir: String::new(),
            step: PeStep::CheckPe,
        };
        let mut out: Vec<DismProgress> = Vec::new();
        push_rep(&mut out, 1, "检查PE环境", 0);
        let work = match pe_file {
            None => {
                push_rep(&mut out, 1, "检查PE环境", 100);
                job.step = PeStep::Finished;
                PeWork::Finish
            },
            Some(f) => {
                push_rep(&mut out, 1, "检查PE环境", 50);
                PeWork::CheckPeExists(str_to_string(f))
            },
        };
        assert(progress_view(out@) =~= (match pe_file {
            None => seq![rep(1, check_name(), 0), rep(1, check_name(), 100)],
            Some(_) => seq![rep(1, check_name(), 0), rep(1, check_name(), 50)],
        }));
        (job, PeAction { progress: out, work })
    }

    /// Takes the outcome of the last piece of work and gives the reports to send and
    /// the next work (see [`pe_transition`]). A missing PE file or a failed boot entry
    /// ends the preparation quietly; no data partition, a damaged image or a failed
    /// copy ends it with an error report.
    pub fn advance(&mut self, event: PeEvent) -> (act: PeAction)
        requires
            old(self).step != PeStep::Finished,
        ensures
            pe_transition(*old(self), *final(self), event, progress_view(act.progress@), act.work),
    {
        match self.step {
            PeStep::CheckPe => self.on_check_pe(event),
            PeStep::BootToPe => self.on_boot_to_pe(event),
            PeStep::FindData => self.on_find_data(event),
            PeStep::ExportDrivers => self.on_export_drivers(event),
            PeStep::VerifyImage => self.on_verify(event),
            PeStep::CopyImage => self.on_copy(event),
            PeStep::UefiSeven => self.on_uefi_seven(event),
            PeStep::UserDrivers(i) => self.on_user_drivers(i, event),
            PeStep::WriteConfig => self.on_write_config(event),
            PeStep::Finished => PeAction { progress: Vec::new(), work: PeWork::Finish },
        }
    }

    fn finish_quietly(&mut self) -> (w: PeWork)
        ensures
            pe_finished(*final(self), w),
            same_prep(*old(self), *final(self)),
    {
        self.step = PeStep::Finished;
        PeWork::Finish
    }

    fn start_verify(&mut self, out: &mut Vec<DismProgress>) -> (w: PeWork)
        ensures
            progress_view(final(out)@) == progress_view(old(out)@) + seq![rep(3, pe_export_name(), 100), rep(4, verify_name(), 0)],
            verify_work(*final(self), w),
            same_prep(*old(self), *final(self)),
    {
        push_rep(out, 3, "导出驱动", 100);
        push_rep(out, 4, "校验镜像", 0);
        self.step = PeStep::VerifyImage;
        assert(progress_view(out@) =~= progress_view(old(out)@) + seq![rep(3, pe_export_name(), 100), rep(4, verify_name(), 0)]);
        PeWork::VerifyImage(str_to_string(self.image_path.as_str()))
    }

    fn start_user_drivers(&mut self, i: u8) -> (w: PeWork)
        requires
            i < 4,
        ensures
            user_drivers_work(*final(self), i as int, w),
            same_prep(*old(self), *final(self)),
    {
        let version = if i == 0 { "win7" } else if i == 1 { "win8" } else if i == 2 { "win10" } else { "win11" };
        proof {
            reveal_strlit("win7");
            reveal_strlit("win8");
            reveal_strlit("win10");
            reveal_strlit("win11");
        }
        assert(version@ == driver_version(i as int));
        let mut dest = concat2(self.data_dir.as_str(), "\\user_drivers\\");
        push_str(&mut dest, version);
        self.step = PeStep::UserDrivers(i);
        PeWork::CopyUserDrivers { version: str_to_string(version), dest }
    }

    fn on_check_pe(&mut self, event: PeEvent) -> (act: PeAction)
        requires
            old(self).step == PeStep::CheckPe,
        ensures
            pe_transition(*old(self), *final(self), event, progress_view(act.progress@), act.work),
    {
        let mut out: Vec<DismProgress> = Vec::new();
        push_rep(&mut out, 1, "检查PE环境", 100);
        let work = match event {
            PeEvent::PeFound(Some(p)) => {
                push_rep(&mut out, 2, "安装PE引导", 0);
                push_rep(&mut out, 2, "安装PE引导", 30);
                self.pe_path = str_to_string(p.as_str());
                self.step = PeStep::BootToPe;
                assert(progress_view(out@) =~= seq![rep(1, check_name(), 100), rep(2, pe_boot_name(), 0), rep(2, pe_boot_name(), 30)]);
                PeWork::BootToPe { pe_path: p, display_name: str_to_string(self.display_name.as_str()) }
            },
            _ => {
                assert(progress_view(out@) =~= seq![rep(1, check_name(), 100)]);
                self.finish_quietly()
            },
        };
        PeAction { progress: out, work }
    }

    fn on_boot_to_pe(&mut self, event: PeEvent) -> (act: PeAction)
        requires
            old(self).step == PeStep::BootToPe,
        ensures
            pe_transition(*old(self), *final(self), event, progress_view(act.progress@), act.work),
    {
        let mut out: Vec<DismProgress> = Vec::new();
        push_rep(&mut out, 2, "安装PE引导", 100);
        let work = match event {
            PeEvent::Done(Err(_)) => {
                assert(progress_view(out@) =~= seq![rep(2, pe_boot_name(), 100)]);
                self.finish_quietly()
            },
            _ => {
                push_rep(&mut out, 3, "导出驱动", 0);
                self.step = PeStep::FindData;
                assert(progress_view(out@) =~= seq![rep(2, pe_boot_name(), 100), rep(3, pe_export_name(), 0)]);
                PeWork::FindDataPartition {
                    exclude: str_to_string(self.target_partition.as_str()),
                    image: str_to_string(self.image_path.as_str()),
                }
            },
        };
        PeAction { progress: out, work }
    }

    fn on_find_data(&mut self, event: PeEvent) -> (act: PeAction)
        requires
            old(self).step == PeStep::FindData,
        ensures
            pe_transition(*old(self), *final(self), event, progress_view(act.progress@), act.work),
    {
        let mut out: Vec<DismProgress> = Vec::new();
        let work = match event {
            PeEvent::DataDir(Ok((part, dir))) => {
                self.data_partition = part;
                self.data_dir = dir;
                if self.options.driver_action == DriverAction::SaveOnly
                    || self.options.driver_action == DriverAction::AutoImport {
                    push_rep(&mut out, 3, "导出驱动", 30);
                    self.step = PeStep::ExportDrivers;
                    assert(progress_view(out@) =~= seq![rep(3, pe_export_name(), 30)]);
                    PeWork::ExportDrivers(concat2(self.data_dir.as_str(), "\\drivers"))
                } else {
                    let w = self.start_verify(&mut out);
                    assert(progress_view(out@) =~= seq![rep(3, pe_export_name(), 100), rep(4, verify_name(), 0)]);
                    w
                }
            },
            PeEvent::DataDir(Err(m)) => {
                push_err(&mut out, m.as_str());
                assert(progress_view(out@) =~= seq![err_rep(m@)]);
                self.finish_quietly()
            },
            _ => self.finish_quietly(),
        };
        PeAction { progress: out, work }
    }

    fn on_export_drivers(&mut self, event: PeEvent) -> (act: PeAction)
        requires
            old(self).step == PeStep::ExportDrivers,
        ensures
            pe_transition(*old(self), *final(self), event, progress_view(act.progress@), act.work),
    {
        let mut out: Vec<DismProgress> = Vec::new();
        let work = self.start_verify(&mut out);
        assert(progress_view(out@) =~= seq![rep(3, pe_export_name(), 100), rep(4, verify_name(), 0)]);
        PeAction { progress: out, work }
    }

    fn on_verify(&mut self, event: PeEvent) -> (act: PeAction)
        requires
            old(self).step == PeStep::VerifyImage,
        ensures
            pe_transition(*old(self), *final(self), event, progress_view(act.progress@), act.work),
    {
        let mut out: Vec<DismProgress> = Vec::new();
        let work = match event {
            PeEvent::Done(Err(m)) => {
                let mut msg = str_to_string("镜像校验失败：镜像可能已损坏或不完整（");
                push_str(&mut msg, m.as_str());
                push_str(&mut msg, "）。请重新获取镜像后重试。");
                push_err(&mut out, msg.as_str());
                assert(progress_view(out@) =~= seq![err_rep(verify_error_message(m@))]);
                self.finish_quietly()
            },
            _ => {
                push_rep(&mut out, 4, "复制镜像文件", 0);
                self.step = PeStep::CopyImage;
                assert(progress_view(out@) =~= seq![rep(4, copy_name(), 0)]);
                let mut dst = concat2(self.data_dir.as_str(), "\\");
                let name = file_name_of(self.image_path.as_str());
                push_str(&mut dst, name.as_str());
                PeWork::CopyImage { src: str_to_string(self.image_path.as_str()), dst }
            },
        };
        PeAction { progress: out, work }
    }

    fn on_copy(&mut self, event: PeEvent) -> (act: PeAction)
        requires
            old(self).step == PeStep::CopyImage,
        ensures
            pe_transition(*old(self), *final(self), event, progress_view(act.progress@), act.work),
    {
        let mut out: Vec<DismProgress> = Vec::new();
        let work = match event {
            PeEvent::Done(Err(m)) => {
                let mut msg = str_to_string("复制失败: ");
                push_str(&mut msg, m.as_str());
                push_err(&mut out, msg.as_str());
                assert(progress_view(out@) =~= seq![err_rep(copy_error_message(m@))]);
                self.finish_quietly()
            },
            _ => {
                push_rep(&mut out, 4, "复制镜像文件", 100);
                assert(progress_view(out@) =~= seq![rep(4, copy_name(), 100)]);
                if self.win7_uefi_patch {
                    self.step = PeStep::UefiSeven;
                    PeWork::CopyUefiSeven(concat2(self.data_dir.as_str(), "\\uefiseven"))
                } else {
                    self.start_user_drivers(0)
                }
            },
        };
        PeAction { progress: out, work }
    }

    fn on_uefi_seven(&mut self, event: PeEvent) -> (act: PeAction)
        requires
            old(self).step == PeStep::UefiSeven,
        ensures
            pe_transition(*old(self), *final(self), event, progress_view(act.progress@), act.work),
    {
        let out: Vec<DismProgress> = Vec::new();
        let work = self.start_user_drivers(0);
        assert(progress_view(out@).len() == 0);
        PeAction { progress: out, work }
    }

    fn on_user_drivers(&mut self, i: u8, event: PeEvent) -> (act: PeAction)
        requires
            old(self).step == PeStep::UserDrivers(i),
        ensures
            pe_transition(*old(self), *final(self), event, progress_view(act.progress@), act.work),
    {
        let mut out: Vec<DismProgress> = Vec::new();
        let work = if i < 3 {
            let w = self.start_user_drivers(i + 1);
            assert(progress_view(out@).len() == 0);
            w
        } else {
            push_rep(&mut out, 5, "写入配置文件", 0);
            self.step = PeStep::WriteConfig;
            assert(progress_view(out@) =~= seq![rep(5, config_name(), 0)]);
            PeWork::WriteConfig(self.config())
        };
        PeAction { progress: out, work }
    }

    fn config(&self) -> (c: PeInstallConfig)
        ensures
            config_of(*self, c),
    {
        PeInstallConfig {
            unattended: self.options.unattended_install,
            restore_drivers: self.options.export_drivers,
            driver_action: self.options.driver_action,
            auto_reboot: self.options.auto_reboot,
            volume_index: self.volume_index,
            target_partition: str_to_string(self.target_partition.as_str()),
            image_file: file_name_of(self.image_path.as_str()),
            is_gho: is_gho_file(self.image_path.as_str()),
            custom_unattend_path: str_to_string(self.options.custom_unattend_path.as_str()),
            win7_uefi_patch: self.win7_uefi_patch,
            is_xp: self.options.is_xp,
            run_diskpart_scripts: self.options.run_diskpart_scripts,
            data_partition: str_to_string(self.data_partition.as_str()),
        }
    }

    fn on_write_config(&mut self, event: PeEvent) -> (act: PeAction)
        requires
            old(self).step == PeStep::WriteConfig,
        ensures
            pe_transition(*old(self), *final(self), event, progress_view(act.progress@), act.work),
    {
        let mut out: Vec<DismProgress> = Vec::new();
        push_rep(&mut out, 5, "写入配置文件", 100);
        push_rep(&mut out, 6, "准备重启", 100);
        assert(progress_view(out@) =~= seq![rep(5, config_name(), 100), rep(6, reboot_name(), 100)]);
        let work = self.finish_quietly();
        PeAction { progress: out, work }
    }
}

} // verus!
