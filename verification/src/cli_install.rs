//! Driving a whole unattended reinstall from the command line: the image and the
//! settings are staged on a data partition, the PE boot entry is set and the
//! machine restarts into PE, which finishes the installation.
//!
//! [`CliInstall`] decides each step from the outcome of the last one; the caller
//! does the file, disk and boot work.
use vstd::prelude::*;
use crate::app_state::is_gho_path;
use crate::direct_install::{concat2, is_gho_file};
use crate::pe_install::{file_name_of, last_component};
use crate::text::{push_str, str_to_string, to_chars, trim, trim_chars};
use crate::command::{command, CommandSpec};

verus! {

/// What the installation is asked to do (the `--config` file).
pub struct CliInstallSpec {
    /// The partition to reinstall (such as `C:`), formatted inside PE.
    pub target_partition: String,
    pub image_path: String,
    /// The PE boot file (`.wim` or `.iso`).
    pub pe_path: String,
    pub volume_index: u32,
    /// Whether the image is a Ghost image; by its extension when not given.
    pub is_gho: Option<bool>,
    /// 0: leave drivers alone, 1: back them up, 2: import them.
    pub driver_action_mode: u8,
    pub unattended: bool,
    pub auto_reboot: bool,
    pub custom_unattend_path: String,
    /// Where to stage the image and settings; chosen automatically when not given.
    pub data_partition: Option<String>,
    /// The name of the PE boot entry; `LetRecovery PE` when not given.
    pub pe_display_name: Option<String>,
}

/// The settings written for the PE side (the options of the advanced-options file
/// are added by the caller).
pub struct CliInstallConfig {
    pub unattended: bool,
    pub restore_drivers: bool,
    pub driver_action_mode: u8,
    pub auto_reboot: bool,
    pub volume_index: u32,
    pub target_partition: String,
    /// The image's file name inside the data directory.
    pub image_file: String,
    pub is_gho: bool,
    pub custom_unattend_path: String,
    pub data_partition: String,
}

#[derive(Debug, Clone, Copy, PartialEq, Eq, Structural)]
pub enum CliStep {
    CheckFiles,
    FindDataPartition,
    MakeDataDir,
    Stage,
    WriteConfig,
    BootToPe,
    Reboot,
    Done,
}

/// The outcome of the last piece of work.
pub enum CliEvent {
    /// Whether the image and the PE file exist, and the image's size (0 when
    /// unknown).
    Checked { image_exists: bool, pe_exists: bool, image_size: u64 },
    /// A partition with room for the image, none, or why the search failed.
    DataPartition(Result<Option<String>, String>),
    /// The data directory of the data partition, once created (or why not).
    DataDir(Result<String, String>),
    Done(Result<(), String>),
}

/// Why the installation stopped.
pub enum CliError {
    /// No partition has room for an image of this many bytes.
    NoDataPartition(u64),
    Message(String),
}

/// A piece of work for the caller, or the end.
pub enum CliWork {
    /// Tell whether these files exist and the image's size.
    CheckFiles { image: String, pe: String },
    /// Find a partition other than `exclude` with room for `image_size` bytes.
    FindDataPartition { exclude: String, image_size: u64 },
    /// Create the data directory of this partition and hand back its path.
    MakeDataDir(String),
    /// Copy `src` to `dst`, unless both name the same file.
    Stage { src: String, dst: String },
    /// Write the settings and the target marker.
    WriteConfig { target: String, data_partition: String, config: CliInstallConfig },
    BootToPe { pe_path: String, display_name: String },
    /// Restart (this command restarts in 5 seconds).
    Reboot(CommandSpec),
    Finish(Result<(), CliError>),
}

pub struct CliInstall {
    pub spec: CliInstallSpec,
    pub is_gho: bool,
    pub image_size: u64,
    pub data_partition: String,
    /// Where the image is staged.
    pub staged: String,
    pub step: CliStep,
}

pub open spec fn cli_is_gho(spec: CliInstallSpec) -> bool {
    match spec.is_gho {
        Some(g) => g,
        None => is_gho_path(spec.image_path@),
    }
}

pub open spec fn display_name_of(spec: CliInstallSpec) -> Seq<char> {
    match spec.pe_display_name {
        Some(n) => n@,
        None => "LetRecovery PE"@,
    }
}

pub open spec fn cli_failed(b: CliInstall, w: CliWork, m: Seq<char>) -> bool {
    b.step == CliStep::Done && (w matches CliWork::Finish(Err(CliError::Message(x))) && x@ == m)
}

pub open spec fn cli_config_of(a: CliInstall, c: CliInstallConfig) -> bool {
    &&& c.unattended == a.spec.unattended
    &&& !c.restore_drivers
    &&& c.driver_action_mode == a.spec.driver_action_mode
    &&& c.auto_reboot == a.spec.auto_reboot
    &&& c.volume_index == a.spec.volume_index
    &&& c.target_partition@ == a.spec.target_partition@
    &&& c.image_file@ == last_component(a.spec.image_path@)
    &&& c.is_gho == a.is_gho
    &&& c.custom_unattend_path@ == a.spec.custom_unattend_path@
    &&& c.data_partition@ == a.data_partition@
}

pub open spec fn same_cli(a: CliInstall, b: CliInstall) -> bool {
    a.spec == b.spec && a.is_gho == b.is_gho
}

/// One step from `a` on event `e` to `b`, asking for `w`.
pub open spec fn cli_transition(a: CliInstall, b: CliInstall, e: CliEvent, w: CliWork) -> bool {
    &&& same_cli(a, b)
    &&& match a.step {
        CliStep::CheckFiles => match e {
            CliEvent::Checked { image_exists, pe_exists, image_size } => if !image_exists {
                cli_failed(b, w, "镜像文件不存在: "@ + a.spec.image_path@)
            } else if !pe_exists {
                cli_failed(b, w, "PE 启动文件不存在: "@ + a.spec.pe_path@)
            } else {
                &&& b.image_size == image_size
                &&& match a.spec.data_partition {
                    Some(p) => b.data_partition@ == p@ && b.step == CliStep::MakeDataDir
                        && (w matches CliWork::MakeDataDir(x) && x@ == p@),
                    None => b.step == CliStep::FindDataPartition && (w matches CliWork::FindDataPartition { exclude, image_size: s }
                        && exclude@ == a.spec.target_partition@ && s == image_size),
                }
            },
            _ => cli_failed(b, w, "镜像文件不存在: "@ + a.spec.image_path@),
        },
        CliStep::FindDataPartition => match e {
            CliEvent::DataPartition(Ok(Some(p))) => b.data_partition@ == p@ && b.step == CliStep::MakeDataDir
                && (w matches CliWork::MakeDataDir(x) && x@ == p@),
            CliEvent::DataPartition(Ok(None)) => b.step == CliStep::Done
                && (w matches CliWork::Finish(Err(CliError::NoDataPartition(s))) && s == a.image_size),
            CliEvent::DataPartition(Err(x)) => cli_failed(b, w, "查找数据分区失败: "@ + x@),
            _ => cli_failed(b, w, "查找数据分区失败: "@),
        },
        CliStep::MakeDataDir => match e {
            CliEvent::DataDir(Ok(dir)) => if last_component(a.spec.image_path@).len() == 0 {
                cli_failed(b, w, "无法取得镜像文件名: "@ + a.spec.image_path@)
            } else {
                &&& b.data_partition == a.data_partition
                &&& b.step == CliStep::Stage
                &&& b.staged@ == dir@ + "\\"@ + last_component(a.spec.image_path@)
                &&& w matches CliWork::Stage { src, dst } && src@ == a.spec.image_path@ && dst@ == b.staged@
            },
            CliEvent::DataDir(Err(dir)) => cli_failed(b, w, "创建数据目录失败: "@ + dir@),
            _ => cli_failed(b, w, "创建数据目录失败: "@),
        },
        CliStep::Stage => match e {
            CliEvent::Done(Err(_)) => cli_failed(b, w, "拷贝镜像失败: "@ + a.spec.image_path@ + " -> "@ + a.staged@),
            _ => b.data_partition == a.data_partition && b.step == CliStep::WriteConfig
                && (w matches CliWork::WriteConfig { target, data_partition, config } && target@ == a.spec.target_partition@
                    && data_partition@ == a.data_partition@ && cli_config_of(a, config)),
        },
        CliStep::WriteConfig => match e {
            CliEvent::Done(Err(x)) => cli_failed(b, w, "写入安装配置失败: "@ + x@),
            _ => b.step == CliStep::BootToPe && (w matches CliWork::BootToPe { pe_path, display_name }
                && pe_path@ == a.spec.pe_path@ && display_name@ == display_name_of(a.spec)),
        },
        CliStep::BootToPe => match e {
            CliEvent::Done(Err(x)) => cli_failed(b, w, "设置 PE 引导失败: "@ + x@),
            _ => if a.spec.auto_reboot {
                b.step == CliStep::Reboot && (w matches CliWork::Reboot(c) && c.program@ == "shutdown"@
                    && c.args_view() == seq!["/r"@, "/t"@, "5"@, "/c"@, "LetRecovery 即将重启进入 PE 完成系统安装..."@])
            } else {
                b.step == CliStep::Done && (w matches CliWork::Finish(Ok(())))
            },
        },
        CliStep::Reboot => b.step == CliStep::Done && (w matches CliWork::Finish(Ok(()))),
        CliStep::Done => false,
    }
}

pub open spec fn cli_left(s: CliStep) -> nat {
    match s {
        CliStep::CheckFiles => 7,
        CliStep::FindDataPartition => 6,
        CliStep::MakeDataDir => 5,
        CliStep::Stage => 4,
        CliStep::WriteConfig => 3,
        CliStep::BootToPe => 2,
        CliStep::Reboot => 1,
        CliStep::Done => 0,
    }
}

/// Every step moves forward, so the command always ends, and it ends exactly when
/// its outcome is handed out.
pub proof fn lemma_cli_install_ends(a: CliInstall, b: CliInstall, e: CliEvent, w: CliWork)
    requires
        cli_transition(a, b, e, w),
    ensures
        cli_left(b.step) < cli_left(a.step),
        (w is Finish) == (b.step == CliStep::Done),
{
}

fn fail(m: String) -> (w: CliWork)
    ensures
        w matches CliWork::Finish(Err(CliError::Message(x))) && x@ == m@,
{
    CliWork::Finish(Err(CliError::Message(m)))
}

fn prefixed(p: &str, x: &str) -> (r: String)
    ensures
        r@ == p@ + x@,
{
    let mut m = str_to_string(p);
    push_str(&mut m, x);
    m
}

impl CliInstall {
    /// Starts the installation: a blank target is refused at once; else the image
    /// and the PE file are checked.
    pub fn new(spec: CliInstallSpec) -> (r: (CliInstall, CliWork))
        ensures
            r.0.spec == spec,
            r.0.is_gho == cli_is_gho(spec),
            trim(spec.target_partition@).len() == 0 ==> r.0.step == CliStep::Done
                && (r.1 matches CliWork::Finish(Err(CliError::Message(x))) && x@ == "target_partition 不能为空"@),
            trim(spec.target_partition@).len() > 0 ==> r.0.step == CliStep::CheckFiles
                && (r.1 matches CliWork::CheckFiles { image, pe } && image@ == spec.image_path@ && pe@ == spec.pe_path@),
    {
        let is_gho = match spec.is_gho {
            Some(g) => g,
            None => is_gho_file(spec.image_path.as_str()),
        };
        let tv = to_chars(spec.target_partition.as_str());
        let t = trim_chars(tv.as_slice());
        if t.len() == 0 {
            let job = CliInstall { spec, is_gho, image_size: 0, data_partition: String::new(), staged: String::new(), step: CliStep::Done };
            return (job, fail(str_to_string("target_partition 不能为空")));
        }
        let work = CliWork::CheckFiles { image: str_to_string(spec.image_path.as_str()), pe: str_to_string(spec.pe_path.as_str()) };
        (CliInstall { spec, is_gho, image_size: 0, data_partition: String::new(), staged: String::new(), step: CliStep::CheckFiles }, work)
    }

    /// Takes the outcome of the last piece of work (see [`cli_transition`]).
    pub fn advance(&mut self, e: CliEvent) -> (w: CliWork)
        requires
            old(self).step != CliStep::Done,
        ensures
            cli_transition(*old(self), *final(self), e, w),
    {
        match self.step {
            CliStep::CheckFiles => match e {
                CliEvent::Checked { image_exists, pe_exists, image_size } => {
                    if !image_exists {
                        self.step = CliStep::Done;
                        return fail(prefixed("镜像文件不存在: ", self.spec.image_path.as_str()));
                    }
                    if !pe_exists {
                        self.step = CliStep::Done;
                        return fail(prefixed("PE 启动文件不存在: ", self.spec.pe_path.as_str()));
                    }
                    self.image_size = image_size;
                    match &self.spec.data_partition {
                        Some(p) => {
                            self.data_partition = str_to_string(p.as_str());
                            self.step = CliStep::MakeDataDir;
                            CliWork::MakeDataDir(str_to_string(p.as_str()))
                        },
                        None => {
                            self.step = CliStep::FindDataPartition;
                            CliWork::FindDataPartition {
                                exclude: str_to_string(self.spec.target_partition.as_str()),
                                image_size,
                            }
                        },
                    }
                },
                _ => {
                    self.step = CliStep::Done;
                    fail(prefixed("镜像文件不存在: ", self.spec.image_path.as_str()))
                },
            },
            CliStep::FindDataPartition => match e {
                CliEvent::DataPartition(Ok(Some(p))) => {
                    let w = CliWork::MakeDataDir(str_to_string(p.as_str()));
                    self.data_partition = p;
                    self.step = CliStep::MakeDataDir;
                    w
                },
                CliEvent::DataPartition(Ok(None)) => {
                    self.step = CliStep::Done;
                    CliWork::Finish(Err(CliError::NoDataPartition(self.image_size)))
                },
                CliEvent::DataPartition(Err(x)) => {
                    self.step = CliStep::Done;
                    fail(prefixed("查找数据分区失败: ", x.as_str()))
                },
                _ => {
                    self.step = CliStep::Done;
                    fail(str_to_string("查找数据分区失败: "))
                },
            },
            CliStep::MakeDataDir => match e {
                CliEvent::DataDir(Ok(dir)) => {
                    let name = file_name_of(self.spec.image_path.as_str());
                    if to_chars(name.as_str()).len() == 0 {
                        self.step = CliStep::Done;
                        return fail(prefixed("无法取得镜像文件名: ", self.spec.image_path.as_str()));
                    }
                    let mut dst = concat2(dir.as_str(), "\\");
                    push_str(&mut dst, name.as_str());
                    self.step = CliStep::Stage;
                    self.staged = str_to_string(dst.as_str());
                    CliWork::Stage { src: str_to_string(self.spec.image_path.as_str()), dst }
                },
                CliEvent::DataDir(Err(dir)) => {
                    self.step = CliStep::Done;
                    fail(prefixed("创建数据目录失败: ", dir.as_str()))
                },
                _ => {
                    self.step = CliStep::Done;
                    fail(str_to_string("创建数据目录失败: "))
                },
            },
            CliStep::Stage => match e {
                CliEvent::Done(Err(_)) => {
                    self.step = CliStep::Done;
                    let mut m = prefixed("拷贝镜像失败: ", self.spec.image_path.as_str());
                    push_str(&mut m, " -> ");
                    push_str(&mut m, self.staged.as_str());
                    fail(m)
                },
                _ => {
                    self.step = CliStep::WriteConfig;
                    let config = CliInstallConfig {
                        unattended: self.spec.unattended,
                        restore_drivers: false,
                        driver_action_mode: self.spec.driver_action_mode,
                        auto_reboot: self.spec.auto_reboot,
                        volume_index: self.spec.volume_index,
                        target_partition: str_to_string(self.spec.target_partition.as_str()),
                        image_file: file_name_of(self.spec.image_path.as_str()),
                        is_gho: self.is_gho,
                        custom_unattend_path: str_to_string(self.spec.custom_unattend_path.as_str()),
                        data_partition: str_to_string(self.data_partition.as_str()),
                    };
                    CliWork::WriteConfig {
                        target: str_to_string(self.spec.target_partition.as_str()),
                        data_partition: str_to_string(self.data_partition.as_str()),
                        config,
                    }
                },
            },
            CliStep::WriteConfig => match e {
                CliEvent::Done(Err(x)) => {
                    self.step = CliStep::Done;
                    fail(prefixed("写入安装配置失败: ", x.as_str()))
                },
                _ => {
                    self.step = CliStep::BootToPe;
                    let display_name = match &self.spec.pe_display_name {
                        Some(n) => str_to_string(n.as_str()),
                        None => str_to_string("LetRecovery PE"),
                    };
                    CliWork::BootToPe { pe_path: str_to_string(self.spec.pe_path.as_str()), display_name }
                },
            },
            CliStep::BootToPe => match e {
                CliEvent::Done(Err(x)) => {
                    self.step = CliStep::Done;
                    fail(prefixed("设置 PE 引导失败: ", x.as_str()))
                },
                _ => if self.spec.auto_reboot {
                    self.step = CliStep::Reboot;
                    let c = command("shutdown", &["/r", "/t", "5", "/c", "LetRecovery 即将重启进入 PE 完成系统安装..."]);
                    assert(c.args_view() =~= seq!["/r"@, "/t"@, "5"@, "/c"@, "LetRecovery 即将重启进入 PE 完成系统安装..."@]);
                    CliWork::Reboot(c)
                } else {
                    self.step = CliStep::Done;
                    CliWork::Finish(Ok(()))
                },
            },
            CliStep::Reboot => {
                self.step = CliStep::Done;
                CliWork::Finish(Ok(()))
            },
            CliStep::Done => CliWork::Finish(Ok(())),
        }
    }
}

/// The message when no data partition has room, with the image's size in GB as
/// the caller writes it (two decimals).
pub fn no_data_partition_message(size_gb_text: &str) -> (r: String)
    ensures
        r@ == "未找到空间足够的数据分区来暂存镜像（需约 "@ + size_gb_text@ + " GB）"@,
{
    let mut m = str_to_string("未找到空间足够的数据分区来暂存镜像（需约 ");
    push_str(&mut m, size_gb_text);
    push_str(&mut m, " GB）");
    m
}

} // verus!
