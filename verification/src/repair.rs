//! Repairing the boot files of an installed Windows, step by step.
//!
//! The repair runs `bcdboot` (and for legacy BIOS `bootsect` and `diskpart`) with
//! fallbacks. [`BootRepair::advance`] decides each next action from the result of
//! the previous one; the caller runs the actions and reports what happened.
use vstd::prelude::*;
use crate::bcd::{set_active_by_letter_script, set_active_script};
use crate::command::{CommandSpec, strings_view};
use crate::paths::{join, path_join};
use crate::text::{dec, push_str, str_to_string};

verus! {

/// Where a boot repair stands.
#[derive(Debug, Clone, Copy, PartialEq, Eq, Structural)]
pub enum RepairStep {
    /// Checking that `<partition>\Windows` exists.
    CheckWindows,
    /// Looking for the EFI system partition for the user's repair script.
    FindScriptEsp,
    /// Running the user's repair script.
    CustomScript,
    /// Looking for the EFI system partition.
    FindEsp,
    /// `bcdboot` onto the EFI system partition: 0 `/f UEFI`, 1 `/f ALL`, 2 without `/f`.
    UefiBcdboot(u8),
    /// Checking the boot files on the EFI system partition.
    CheckEfiFiles,
    /// Copying `bootmgfw.efi` to the fallback `bootx64.efi`.
    CopyBootFile,
    /// `bcdboot /f UEFI` without a target partition (no EFI system partition found).
    UefiAuto,
    /// Looking for the legacy boot partition.
    LegacyTarget,
    /// `bcdboot` for BIOS: 0 onto the boot partition, 1 without `/s`, 2 without `/f`.
    LegacyBcdboot(u8),
    /// Writing the boot sector with `bootsect`.
    Bootsect,
    /// Marking the boot partition active.
    SetActive,
    Finished,
}

/// Why a boot repair failed.
#[derive(Debug, Clone, PartialEq, Eq)]
pub enum RepairError {
    /// The Windows directory (given) does not exist.
    WindowsDirMissing(String),
    /// Every `bcdboot` onto the EFI system partition failed (its error output).
    UefiFailed(String),
    /// `bcdboot` without a target partition failed.
    AutoFailed(String),
    /// Every legacy `bcdboot` failed.
    LegacyFailed(String),
    /// A program could not be started.
    Command(String),
}

pub open spec fn repair_error_message(e: RepairError) -> Seq<char> {
    match e {
        RepairError::WindowsDirMissing(p) => "Windows 目录不存在: "@ + p@,
        RepairError::UefiFailed(s) => "UEFI 引导修复失败: "@ + s@,
        RepairError::AutoFailed(s) => "引导修复失败: "@ + s@,
        RepairError::LegacyFailed(s) => "Legacy 引导修复失败: "@ + s@,
        RepairError::Command(s) => s@,
    }
}

impl RepairError {
    /// The message shown to the user.
    pub fn message(&self) -> (r: String)
        ensures
            r@ == repair_error_message(*self),
    {
        let (head, tail) = match self {
            RepairError::WindowsDirMissing(p) => ("Windows 目录不存在: ", p),
            RepairError::UefiFailed(s) => ("UEFI 引导修复失败: ", s),
            RepairError::AutoFailed(s) => ("引导修复失败: ", s),
            RepairError::LegacyFailed(s) => ("Legacy 引导修复失败: ", s),
            RepairError::Command(s) => ("", s),
        };
        let mut m = str_to_string(head);
        push_str(&mut m, tail.as_str());
        proof {
            reveal_strlit("");
        }
        m
    }
}

/// What happened to the last action.
pub enum RepairEvent {
    /// Whether the Windows directory exists.
    WindowsDir(bool),
    /// The EFI system partition found (on the same disk, else mounted), as `S:`.
    Esp(Option<String>),
    /// Whether the user's repair script succeeded.
    Script(bool),
    /// A program ran; whether it succeeded, and its error output.
    Command { success: bool, stderr: String },
    /// A program could not be started.
    CommandError(String),
    /// Which boot files exist on the EFI system partition.
    Files { bootmgfw: bool, bootx64: bool },
    /// The legacy boot partition (letter, disk, partition), or none found.
    LegacyTarget(Option<(String, usize, usize)>),
    /// The action was carried out (its outcome does not matter).
    Done,
}

/// What the caller does next.
pub enum RepairAction {
    /// Check whether this directory exists.
    CheckDir(String),
    /// Find the EFI system partition.
    FindEsp,
    /// Run the user's repair script.
    RunScript { esp: Option<String> },
    /// Create these directories (errors do not matter), then run the command.
    Run { create_dirs: Vec<String>, command: CommandSpec },
    /// Check which of these files exist.
    CheckFiles { bootmgfw: String, bootx64: String },
    /// Copy a file (errors do not matter).
    Copy { from: String, to: String },
    /// Find the legacy boot partition and give it a drive letter.
    FindLegacyTarget,
    /// Run the command if its program exists; report `Done` when it does not.
    RunIfPresent(CommandSpec),
    /// Run this `diskpart` script (errors do not matter).
    Diskpart(String),
    /// The repair is over.
    Finish(Result<(), RepairError>),
}

/// A boot repair of one Windows partition.
pub struct BootRepair {
    pub windows_partition: String,
    pub use_uefi: bool,
    /// The user's repair script is enabled (advanced options) and present.
    pub custom_script: bool,
    pub bcdboot: String,
    pub bin_dir: String,
    pub esp: Option<String>,
    pub boot_letter: String,
    pub boot_disk: usize,
    pub boot_part: usize,
    pub step: RepairStep,
}

/// `<partition>\Windows`.
pub open spec fn windows_path(p: Seq<char>) -> Seq<char> {
    p + "\\Windows"@
}

/// The arguments of each `bcdboot` attempt onto the EFI system partition `esp`.
pub open spec fn uefi_args(w: Seq<char>, esp: Seq<char>, k: u8) -> Seq<Seq<char>> {
    if k == 0 {
        seq![w, "/s"@, esp, "/f"@, "UEFI"@, "/l"@, "zh-cn"@]
    } else if k == 1 {
        seq![w, "/s"@, esp, "/f"@, "ALL"@, "/l"@, "zh-cn"@]
    } else {
        seq![w, "/s"@, esp, "/l"@, "zh-cn"@]
    }
}

/// The arguments of each legacy `bcdboot` attempt onto boot partition `b`.
pub open spec fn legacy_args(w: Seq<char>, b: Seq<char>, k: u8) -> Seq<Seq<char>> {
    if k == 0 {
        seq![w, "/s"@, b, "/f"@, "BIOS"@, "/l"@, "zh-cn"@]
    } else if k == 1 {
        seq![w, "/f"@, "BIOS"@, "/l"@, "zh-cn"@]
    } else {
        seq![w, "/l"@, "zh-cn"@]
    }
}

/// The `bcdboot` run with `args`.
pub open spec fn runs(a: RepairAction, bcdboot: Seq<char>, dirs: Seq<Seq<char>>, args: Seq<Seq<char>>) -> bool {
    a matches RepairAction::Run { create_dirs, command }
        && strings_view(create_dirs@) == dirs && command.program@ == bcdboot && command.args_view() == args
}

/// The events expected in each step.
pub open spec fn expects(step: RepairStep, e: RepairEvent) -> bool {
    match step {
        RepairStep::CheckWindows => e is WindowsDir,
        RepairStep::FindScriptEsp | RepairStep::FindEsp => e is Esp,
        RepairStep::CustomScript => e is Script,
        RepairStep::UefiBcdboot(k) => k <= 2 && (e is Command || e is CommandError),
        RepairStep::UefiAuto => e is Command || e is CommandError,
        RepairStep::LegacyBcdboot(k) => k <= 2 && (e is Command || e is CommandError),
        RepairStep::CheckEfiFiles => e is Files,
        RepairStep::CopyBootFile => e is Done,
        RepairStep::LegacyTarget => e is LegacyTarget,
        RepairStep::Bootsect => e is Command || e is CommandError || e is Done,
        RepairStep::SetActive => true,
        RepairStep::Finished => false,
    }
}

/// Steps still possible at most; every transition lowers it.
pub open spec fn remaining(step: RepairStep) -> nat {
    match step {
        RepairStep::CheckWindows => 20,
        RepairStep::FindScriptEsp => 19,
        RepairStep::CustomScript => 18,
        RepairStep::FindEsp => 17,
        RepairStep::UefiBcdboot(k) => if k <= 2 { (16 - k) as nat } else { 16 },
        RepairStep::CheckEfiFiles => 10,
        RepairStep::CopyBootFile => 9,
        RepairStep::UefiAuto => 9,
        RepairStep::LegacyTarget => 8,
        RepairStep::LegacyBcdboot(k) => if k <= 2 { (7 - k) as nat } else { 7 },
        RepairStep::Bootsect => 3,
        RepairStep::SetActive => 2,
        RepairStep::Finished => 0,
    }
}

/// The repair's fixed inputs are kept.
pub open spec fn same_job(a: BootRepair, b: BootRepair) -> bool {
    &&& a.windows_partition == b.windows_partition
    &&& a.use_uefi == b.use_uefi
    &&& a.custom_script == b.custom_script
    &&& a.bcdboot == b.bcdboot
    &&& a.bin_dir == b.bin_dir
}

/// The default repair after the checks (and a failed script): UEFI looks for the
/// EFI system partition, legacy for the boot partition.
pub open spec fn default_start(a: BootRepair, b: BootRepair, act: RepairAction) -> bool {
    if a.use_uefi {
        b.step == RepairStep::FindEsp && act is FindEsp
    } else {
        b.step == RepairStep::LegacyTarget && act is FindLegacyTarget
    }
}

/// A program failed to start: the repair ends with that error.
pub open spec fn stops_with_command_error(b: BootRepair, act: RepairAction, m: String) -> bool {
    b.step == RepairStep::Finished && (act matches RepairAction::Finish(Err(RepairError::Command(x))) && x@ == m@)
}

pub open spec fn finishes_ok(b: BootRepair, act: RepairAction) -> bool {
    b.step == RepairStep::Finished && act matches RepairAction::Finish(Ok(()))
}

/// One transition of the repair from state `a` on event `e` to state `b` and action `act`.
pub open spec fn transition(a: BootRepair, b: BootRepair, e: RepairEvent, act: RepairAction) -> bool {
    let w = windows_path(a.windows_partition@);
    match a.step {
        RepairStep::CheckWindows => match e {
            RepairEvent::WindowsDir(false) => b.step == RepairStep::Finished
                && (act matches RepairAction::Finish(Err(RepairError::WindowsDirMissing(p))) && p@ == w),
            _ => if a.custom_script {
                if a.use_uefi {
                    b.step == RepairStep::FindScriptEsp && act is FindEsp
                } else {
                    b.step == RepairStep::CustomScript && (act matches RepairAction::RunScript { esp } && esp is None)
                }
            } else {
                default_start(a, b, act)
            },
        },
        RepairStep::FindScriptEsp => match e {
            RepairEvent::Esp(found) => b.step == RepairStep::CustomScript
                && (act matches RepairAction::RunScript { esp } && esp == found),
            _ => false,
        },
        RepairStep::CustomScript => match e {
            RepairEvent::Script(true) => finishes_ok(b, act),
            _ => default_start(a, b, act),
        },
        RepairStep::FindEsp => match e {
            RepairEvent::Esp(Some(l)) => {
                &&& b.esp == Some(l)
                &&& b.step == RepairStep::UefiBcdboot(0)
                &&& runs(act, a.bcdboot@, seq![l@ + "\\EFI\\Microsoft"@, l@ + "\\EFI\\Boot"@], uefi_args(w, l@, 0))
            },
            _ => b.step == RepairStep::UefiAuto && runs(act, a.bcdboot@, Seq::empty(), seq![w, "/f"@, "UEFI"@, "/l"@, "zh-cn"@]),
        },
        RepairStep::UefiBcdboot(k) => {
            let l = a.esp->0@;
            match e {
                RepairEvent::CommandError(m) => stops_with_command_error(b, act, m),
                RepairEvent::Command { success, stderr } => if success {
                    b.step == RepairStep::CheckEfiFiles && (act matches RepairAction::CheckFiles { bootmgfw, bootx64 }
                        && bootmgfw@ == l + "\\EFI\\Microsoft\\Boot\\bootmgfw.efi"@
                        && bootx64@ == l + "\\EFI\\Boot\\bootx64.efi"@)
                } else if k < 2 {
                    b.step == RepairStep::UefiBcdboot((k + 1) as u8) && runs(act, a.bcdboot@, Seq::empty(), uefi_args(w, l, (k + 1) as u8))
                } else {
                    b.step == RepairStep::Finished && (act matches RepairAction::Finish(Err(RepairError::UefiFailed(x))) && x@ == stderr@)
                },
                _ => false,
            }
        },
        RepairStep::CheckEfiFiles => match e {
            RepairEvent::Files { bootmgfw, bootx64 } => if !bootx64 && bootmgfw {
                let l = a.esp->0@;
                b.step == RepairStep::CopyBootFile && (act matches RepairAction::Copy { from, to }
                    && from@ == l + "\\EFI\\Microsoft\\Boot\\bootmgfw.efi"@ && to@ == l + "\\EFI\\Boot\\bootx64.efi"@)
            } else {
                finishes_ok(b, act)
            },
            _ => false,
        },
        RepairStep::CopyBootFile => finishes_ok(b, act),
        RepairStep::UefiAuto => match e {
            RepairEvent::CommandError(m) => stops_with_command_error(b, act, m),
            RepairEvent::Command { success, stderr } => if success {
                finishes_ok(b, act)
            } else {
                b.step == RepairStep::Finished && (act matches RepairAction::Finish(Err(RepairError::AutoFailed(x))) && x@ == stderr@)
            },
            _ => false,
        },
        RepairStep::LegacyTarget => {
            let (letter, disk, part) = match e {
                RepairEvent::LegacyTarget(Some((l, d, p))) => (l@, d, p),
                _ => (a.windows_partition@, 0usize, 0usize),
            };
            &&& b.boot_letter@ == letter
            &&& b.boot_disk == disk
            &&& b.boot_part == part
            &&& b.step == RepairStep::LegacyBcdboot(0)
            &&& runs(act, a.bcdboot@, Seq::empty(), legacy_args(w, letter, 0))
        },
        RepairStep::LegacyBcdboot(k) => match e {
            RepairEvent::CommandError(m) => stops_with_command_error(b, act, m),
            RepairEvent::Command { success, stderr } => if success {
                b.step == RepairStep::Bootsect && (act matches RepairAction::RunIfPresent(c)
                    && c.program@ == path_join(a.bin_dir@, "bootsect.exe"@)
                    && c.args_view() == seq!["/nt60"@, a.boot_letter@, "/force"@, "/mbr"@])
            } else if k < 2 {
                b.step == RepairStep::LegacyBcdboot((k + 1) as u8) && runs(act, a.bcdboot@, Seq::empty(), legacy_args(w, a.boot_letter@, (k + 1) as u8))
            } else {
                b.step == RepairStep::Finished && (act matches RepairAction::Finish(Err(RepairError::LegacyFailed(x))) && x@ == stderr@)
            },
            _ => false,
        },
        RepairStep::Bootsect => match e {
            RepairEvent::CommandError(m) => stops_with_command_error(b, act, m),
            _ => b.step == RepairStep::SetActive && (act matches RepairAction::Diskpart(script) && script@ == (if a.boot_part > 0 {
                "select disk "@ + dec(a.boot_disk as nat) + "\r\nselect partition "@ + dec(a.boot_part as nat) + "\r\nactive\r\n"@
            } else {
                "select volume "@ + strip_drive_suffix(a.boot_letter@) + "\r\nactive\r\n"@
            })),
        },
        RepairStep::SetActive => finishes_ok(b, act),
        RepairStep::Finished => false,
    }
}

/// The drive letter without trailing `\` and `:`.
pub open spec fn strip_drive_suffix(p: Seq<char>) -> Seq<char> {
    crate::text::strip_trailing(crate::text::strip_trailing(p, '\\'), ':')
}

fn push_arg(v: &mut Vec<String>, a: &str)
    ensures
        strings_view(final(v)@) == strings_view(old(v)@).push(a@),
{
    v.push(str_to_string(a));
    assert(strings_view(v@) =~= strings_view(old(v)@).push(a@));
}

fn concat(a: &str, b: &str) -> (r: String)
    ensures
        r@ == a@ + b@,
{
    let mut s = str_to_string(a);
    push_str(&mut s, b);
    s
}

impl BootRepair {
    /// Starts repairing the boot files of `windows_partition` (such as `C:`): first
    /// the Windows directory is checked.
    pub fn new(windows_partition: &str, use_uefi: bool, custom_script: bool, bcdboot: &str, bin_dir: &str) -> (r: (BootRepair, RepairAction))
        ensures
            r.0.windows_partition@ == windows_partition@,
            r.0.use_uefi == use_uefi,
            r.0.custom_script == custom_script,
            r.0.bcdboot@ == bcdboot@,
            r.0.bin_dir@ == bin_dir@,
            r.0.esp is None,
            r.0.boot_letter@.len() == 0,
            r.0.boot_disk == 0,
            r.0.boot_part == 0,
            r.0.step == RepairStep::CheckWindows,
            r.1 matches RepairAction::CheckDir(d) && d@ == windows_path(windows_partition@),
    {
        let job = BootRepair {
            windows_partition: str_to_string(windows_partition),
            use_uefi,
            custom_script,
            bcdboot: str_to_string(bcdboot),
            bin_dir: str_to_string(bin_dir),
            esp: None,
            boot_letter: String::new(),
            boot_disk: 0,
            boot_part: 0,
            step: RepairStep::CheckWindows,
        };
        (job, RepairAction::CheckDir(concat(windows_partition, "\\Windows")))
    }

    fn windows_dir(&self) -> (r: String)
        ensures
            r@ == windows_path(self.windows_partition@),
    {
        concat(self.windows_partition.as_str(), "\\Windows")
    }

    fn bcdboot_run(&self, dirs: Vec<String>, args: Vec<String>) -> (r: RepairAction)
        ensures
            runs(r, self.bcdboot@, strings_view(dirs@), strings_view(args@)),
    {
        RepairAction::Run {
            create_dirs: dirs,
            command: CommandSpec { program: str_to_string(self.bcdboot.as_str()), args },
        }
    }

    fn start_default(&mut self) -> (act: RepairAction)
        ensures
            same_job(*old(self), *final(self)),
            final(self).esp == old(self).esp,
            default_start(*old(self), *final(self), act),
    {
        if self.use_uefi {
            self.step = RepairStep::FindEsp;
            RepairAction::FindEsp
        } else {
            self.step = RepairStep::LegacyTarget;
            RepairAction::FindLegacyTarget
        }
    }

    fn uefi_attempt_args(&self, esp: &String, k: u8) -> (args: Vec<String>)
        requires
            k <= 2,
        ensures
            strings_view(args@) == uefi_args(windows_path(self.windows_partition@), esp@, k),
    {
        let w = self.windows_dir();
        let mut args: Vec<String> = Vec::new();
        push_arg(&mut args, w.as_str());
        push_arg(&mut args, "/s");
        push_arg(&mut args, esp.as_str());
        if k < 2 {
            push_arg(&mut args, "/f");
            push_arg(&mut args, if k == 0 { "UEFI" } else { "ALL" });
        }
        push_arg(&mut args, "/l");
        push_arg(&mut args, "zh-cn");
        assert(strings_view(args@) =~= uefi_args(windows_path(self.windows_partition@), esp@, k));
        args
    }

    fn uefi_attempt(&self, esp: &String, k: u8) -> (act: RepairAction)
        requires
            k <= 2,
        ensures
            runs(act, self.bcdboot@, Seq::empty(), uefi_args(windows_path(self.windows_partition@), esp@, k)),
    {
        let args = self.uefi_attempt_args(esp, k);
        let dirs: Vec<String> = Vec::new();
        assert(strings_view(dirs@) =~= Seq::empty());
        self.bcdboot_run(dirs, args)
    }

    fn legacy_attempt(&self, boot: &String, k: u8) -> (act: RepairAction)
        requires
            k <= 2,
        ensures
            runs(act, self.bcdboot@, Seq::empty(), legacy_args(windows_path(self.windows_partition@), boot@, k)),
    {
        let w = self.windows_dir();
        let mut args: Vec<String> = Vec::new();
        push_arg(&mut args, w.as_str());
        if k == 0 {
            push_arg(&mut args, "/s");
            push_arg(&mut args, boot.as_str());
        }
        if k < 2 {
            push_arg(&mut args, "/f");
            push_arg(&mut args, "BIOS");
        }
        push_arg(&mut args, "/l");
        push_arg(&mut args, "zh-cn");
        assert(strings_view(args@) =~= legacy_args(windows_path(self.windows_partition@), boot@, k));
        let dirs: Vec<String> = Vec::new();
        assert(strings_view(dirs@) =~= Seq::empty());
        self.bcdboot_run(dirs, args)
    }
}


impl BootRepair {
    /// Takes what happened to the last action and gives the next one (see
    /// [`transition`]). Each step is taken at most once and the attempts only move
    /// forward, so every repair ends (`remaining` falls with each step).
    pub fn advance(&mut self, event: RepairEvent) -> (act: RepairAction)
        requires
            expects(old(self).step, event),
            old(self).step matches RepairStep::UefiBcdboot(_) ==> old(self).esp is Some,
            old(self).step == RepairStep::CheckEfiFiles ==> old(self).esp is Some,
        ensures
            transition(*old(self), *final(self), event, act),
            same_job(*old(self), *final(self)),
            remaining(final(self).step) < remaining(old(self).step),
            final(self).step matches RepairStep::UefiBcdboot(_) ==> final(self).esp is Some,
            final(self).step == RepairStep::CheckEfiFiles ==> final(self).esp is Some,
    {
        match self.step {
            RepairStep::CheckWindows => {
                let exists = match event {
                    RepairEvent::WindowsDir(b) => b,
                    _ => true,
                };
                if !exists {
                    let w = self.windows_dir();
                    self.step = RepairStep::Finished;
                    return RepairAction::Finish(Err(RepairError::WindowsDirMissing(w)));
                }
                if self.custom_script {
                    if self.use_uefi {
                        self.step = RepairStep::FindScriptEsp;
                        RepairAction::FindEsp
                    } else {
                        self.step = RepairStep::CustomScript;
                        RepairAction::RunScript { esp: None }
                    }
                } else {
                    self.start_default()
                }
            },
            RepairStep::FindScriptEsp => {
                let found = match event {
                    RepairEvent::Esp(f) => f,
                    _ => None,
                };
                self.step = RepairStep::CustomScript;
                RepairAction::RunScript { esp: found }
            },
            RepairStep::CustomScript => {
                if let RepairEvent::Script(true) = event {
                    self.step = RepairStep::Finished;
                    return RepairAction::Finish(Ok(()));
                }
                self.start_default()
            },
            RepairStep::FindEsp => {
                match event {
                    RepairEvent::Esp(Some(l)) => {
                        let mut dirs: Vec<String> = Vec::new();
                        dirs.push(concat(l.as_str(), "\\EFI\\Microsoft"));
                        dirs.push(concat(l.as_str(), "\\EFI\\Boot"));
                        assert(strings_view(dirs@) =~= seq![l@ + "\\EFI\\Microsoft"@, l@ + "\\EFI\\Boot"@]);
                        let args = self.uefi_attempt_args(&l, 0);
                        let act = self.bcdboot_run(dirs, args);
                        self.esp = Some(l);
                        self.step = RepairStep::UefiBcdboot(0);
                        act
                    },
                    _ => {
                        let w = self.windows_dir();
                        let mut args: Vec<String> = Vec::new();
                        push_arg(&mut args, w.as_str());
                        push_arg(&mut args, "/f");
                        push_arg(&mut args, "UEFI");
                        push_arg(&mut args, "/l");
                        push_arg(&mut args, "zh-cn");
                        assert(strings_view(args@) =~= seq![w@, "/f"@, "UEFI"@, "/l"@, "zh-cn"@]);
                        let dirs: Vec<String> = Vec::new();
                        assert(strings_view(dirs@) =~= Seq::empty());
                        let act = self.bcdboot_run(dirs, args);
                        self.step = RepairStep::UefiAuto;
                        act
                    },
                }
            },
            RepairStep::UefiBcdboot(k) => {
                match event {
                    RepairEvent::CommandError(m) => {
                        self.step = RepairStep::Finished;
                        RepairAction::Finish(Err(RepairError::Command(m)))
                    },
                    RepairEvent::Command { success, stderr } => {
                        let l = match &self.esp {
                            Some(x) => str_to_string(x.as_str()),
                            None => String::new(),
                        };
                        if success {
                            self.step = RepairStep::CheckEfiFiles;
                            RepairAction::CheckFiles {
                                bootmgfw: concat(l.as_str(), "\\EFI\\Microsoft\\Boot\\bootmgfw.efi"),
                                bootx64: concat(l.as_str(), "\\EFI\\Boot\\bootx64.efi"),
                            }
                        } else if k < 2 {
                            let act = self.uefi_attempt(&l, k + 1);
                            self.step = RepairStep::UefiBcdboot(k + 1);
                            act
                        } else {
                            self.step = RepairStep::Finished;
                            RepairAction::Finish(Err(RepairError::UefiFailed(stderr)))
                        }
                    },
                    _ => {
                        self.step = RepairStep::Finished;
                        RepairAction::Finish(Ok(()))
                    },
                }
            },
            RepairStep::CheckEfiFiles => {
                let (bootmgfw, bootx64) = match event {
                    RepairEvent::Files { bootmgfw, bootx64 } => (bootmgfw, bootx64),
                    _ => (false, true),
                };
                if !bootx64 && bootmgfw {
                    let l = match &self.esp {
                        Some(x) => str_to_string(x.as_str()),
                        None => String::new(),
                    };
                    self.step = RepairStep::CopyBootFile;
                    RepairAction::Copy {
                        from: concat(l.as_str(), "\\EFI\\Microsoft\\Boot\\bootmgfw.efi"),
                        to: concat(l.as_str(), "\\EFI\\Boot\\bootx64.efi"),
                    }
                } else {
                    self.step = RepairStep::Finished;
                    RepairAction::Finish(Ok(()))
                }
            },
            RepairStep::CopyBootFile => {
                self.step = RepairStep::Finished;
                RepairAction::Finish(Ok(()))
            },
            RepairStep::UefiAuto => {
                match event {
                    RepairEvent::CommandError(m) => {
                        self.step = RepairStep::Finished;
                        RepairAction::Finish(Err(RepairError::Command(m)))
                    },
                    RepairEvent::Command { success, stderr } => {
                        self.step = RepairStep::Finished;
                        if success {
                            RepairAction::Finish(Ok(()))
                        } else {
                            RepairAction::Finish(Err(RepairError::AutoFailed(stderr)))
                        }
                    },
                    _ => {
                        self.step = RepairStep::Finished;
                        RepairAction::Finish(Ok(()))
                    },
                }
            },
            RepairStep::LegacyTarget => {
                match event {
                    RepairEvent::LegacyTarget(Some((l, d, p))) => {
                        self.boot_letter = l;
                        self.boot_disk = d;
                        self.boot_part = p;
                    },
                    _ => {
                        self.boot_letter = str_to_string(self.windows_partition.as_str());
                        self.boot_disk = 0;
                        self.boot_part = 0;
                    },
                }
                let b = str_to_string(self.boot_letter.as_str());
                let act = self.legacy_attempt(&b, 0);
                self.step = RepairStep::LegacyBcdboot(0);
                act
            },
            RepairStep::LegacyBcdboot(k) => {
                match event {
                    RepairEvent::CommandError(m) => {
                        self.step = RepairStep::Finished;
                        RepairAction::Finish(Err(RepairError::Command(m)))
                    },
                    RepairEvent::Command { success, stderr } => {
                        if success {
                            let program = join(self.bin_dir.as_str(), "bootsect.exe");
                            let mut args: Vec<String> = Vec::new();
                            push_arg(&mut args, "/nt60");
                            push_arg(&mut args, self.boot_letter.as_str());
                            push_arg(&mut args, "/force");
                            push_arg(&mut args, "/mbr");
                            assert(strings_view(args@) =~= seq!["/nt60"@, self.boot_letter@, "/force"@, "/mbr"@]);
                            self.step = RepairStep::Bootsect;
                            RepairAction::RunIfPresent(CommandSpec { program, args })
                        } else if k < 2 {
                            let b = str_to_string(self.boot_letter.as_str());
                            let act = self.legacy_attempt(&b, k + 1);
                            self.step = RepairStep::LegacyBcdboot(k + 1);
                            act
                        } else {
                            self.step = RepairStep::Finished;
                            RepairAction::Finish(Err(RepairError::LegacyFailed(stderr)))
                        }
                    },
                    _ => {
                        self.step = RepairStep::Finished;
                        RepairAction::Finish(Ok(()))
                    },
                }
            },
            RepairStep::Bootsect => {
                if let RepairEvent::CommandError(m) = event {
                    self.step = RepairStep::Finished;
                    return RepairAction::Finish(Err(RepairError::Command(m)));
                }
                let script = if self.boot_part > 0 {
                    set_active_script(self.boot_disk, self.boot_part)
                } else {
                    set_active_by_letter_script(self.boot_letter.as_str())
                };
                self.step = RepairStep::SetActive;
                RepairAction::Diskpart(script)
            },
            RepairStep::SetActive => {
                self.step = RepairStep::Finished;
                RepairAction::Finish(Ok(()))
            },
            RepairStep::Finished => RepairAction::Finish(Ok(())),
        }
    }
}

} // verus!
