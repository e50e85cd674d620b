//! Handing the enlargement of C: over to PE: the plan is written to C: itself (the
//! enlargement formats nothing), the PE boot entry is set, and the machine restarts
//! into PE, where the disk work is done.
//!
//! [`ExpandHandoff`] decides each step from the outcome of the last one and keeps the
//! dialog's message up to date; the caller does the file and boot work.
use vstd::prelude::*;
use crate::app_state::App;
use crate::command::{command, CommandSpec};
use crate::expand::ExpandCDialogState;
use crate::text::{push_str, str_to_string};
use crate::tools_state::same_tools_except_expand;

verus! {

/// The plan handed to PE.
pub struct ExpandConfig {
    pub target_partition: String,
    /// The final size of the partition in MB; 0 means as large as possible.
    pub target_size_mb: u64,
    /// The imaging engine PE is to use.
    pub wim_engine: u8,
}

#[derive(Debug, Clone, Copy, PartialEq, Eq, Structural)]
pub enum HandoffStep {
    WriteConfig,
    BootToPe,
    Reboot,
    Done,
}

/// A piece of work for the caller, or the end.
pub enum HandoffWork {
    /// Write `config` for the partition `target`, keeping it on `data_partition`.
    WriteConfig { target: String, data_partition: String, config: ExpandConfig },
    /// Set up the PE boot entry for this PE file.
    BootToPe { pe_path: String, display_name: String },
    /// Restart (this command restarts in 5 seconds).
    Reboot(CommandSpec),
    /// Nothing more to do; the dialog's message says how it went.
    Finish,
}

pub struct ExpandHandoff {
    pub pe_path: String,
    pub step: HandoffStep,
}

/// The final size written to the plan: 0 (as large as possible) when the largest
/// size was chosen.
pub open spec fn handoff_target_size(st: ExpandCDialogState) -> u64 {
    if st.target_size_mb >= st.max_size_mb {
        0
    } else {
        st.target_size_mb
    }
}

/// The dialog stopped with this message.
pub open spec fn handoff_failed(a: ExpandCDialogState, b: ExpandCDialogState, m: Seq<char>) -> bool {
    &&& !b.executing
    &&& b.message@ == m
    &&& b == (ExpandCDialogState { executing: false, message: b.message, ..a })
}

pub open spec fn only_message(a: ExpandCDialogState, b: ExpandCDialogState, m: Seq<char>) -> bool {
    &&& b.message@ == m
    &&& b == (ExpandCDialogState { message: b.message, ..a })
}

/// One step of the hand-over from `h` on the outcome `e` to `g`, asking for `w`, with
/// the dialog going from `a` to `b`.
pub open spec fn handoff_transition(
    h: ExpandHandoff,
    g: ExpandHandoff,
    a: ExpandCDialogState,
    b: ExpandCDialogState,
    e: Result<(), String>,
    w: HandoffWork,
) -> bool {
    &&& g.pe_path == h.pe_path
    &&& match h.step {
        HandoffStep::WriteConfig => match e {
            Err(x) => g.step == HandoffStep::Done && w is Finish
                && handoff_failed(a, b, "写入扩容配置失败: "@ + x@),
            Ok(()) => g.step == HandoffStep::BootToPe && b == a
                && (w matches HandoffWork::BootToPe { pe_path, display_name }
                    && pe_path@ == h.pe_path@ && display_name@ == "LetRecovery PE"@),
        },
        HandoffStep::BootToPe => match e {
            Err(x) => g.step == HandoffStep::Done && w is Finish
                && handoff_failed(a, b, "安装 PE 引导失败: "@ + x@),
            Ok(()) => g.step == HandoffStep::Reboot && b == a
                && (w matches HandoffWork::Reboot(c) && c.program@ == "shutdown"@
                    && c.args_view() == seq!["/r"@, "/t"@, "5"@, "/c"@, "LetRecovery 即将重启进入 WinPE 进行无损扩容..."@]),
        },
        HandoffStep::Reboot => g.step == HandoffStep::Done && w is Finish
            && only_message(a, b, "准备完成，即将重启进入 WinPE..."@),
        HandoffStep::Done => false,
    }
}

pub open spec fn handoff_left(s: HandoffStep) -> nat {
    match s {
        HandoffStep::WriteConfig => 3,
        HandoffStep::BootToPe => 2,
        HandoffStep::Reboot => 1,
        HandoffStep::Done => 0,
    }
}

/// Every step of the hand-over moves forward, so it always ends, and it ends exactly
/// when it says so.
pub proof fn lemma_handoff_ends(
    h: ExpandHandoff,
    g: ExpandHandoff,
    a: ExpandCDialogState,
    b: ExpandCDialogState,
    e: Result<(), String>,
    w: HandoffWork,
)
    requires
        handoff_transition(h, g, a, b, e, w),
    ensures
        handoff_left(g.step) < handoff_left(h.step),
        (w is Finish) == (g.step == HandoffStep::Done),
{
}

fn prefixed(p: &str, x: &str) -> (r: String)
    ensures
        r@ == p@ + x@,
{
    let mut m = str_to_string(p);
    push_str(&mut m, x);
    m
}

impl App {
    /// Starts handing the enlargement over to PE. `pe_file` is where the chosen PE's
    /// file was found (`None` when it was not). The dialog shows that it is
    /// preparing; without a chosen PE, or with its file missing, it stops with a
    /// message; otherwise the plan for C: is written first.
    pub fn start_expand_pe_handoff(&mut self, pe_file: Option<String>, wim_engine: u8) -> (r: (ExpandHandoff, HandoffWork))
        ensures
            ({
                let a = old(self).tools.expand_c.state;
                let b = final(self).tools.expand_c.state;
                let prepared = ExpandCDialogState { executing: true, message: b.message, ..a };
                if old(self).pe_choice is None {
                    &&& r.0.step == HandoffStep::Done && r.1 is Finish
                    &&& handoff_failed(prepared, b, "未选择 PE 环境，无法扩容"@)
                } else if pe_file is None {
                    &&& r.0.step == HandoffStep::Done && r.1 is Finish
                    &&& handoff_failed(prepared, b, "PE 文件不存在，无法扩容"@)
                } else {
                    &&& b == prepared && b.executing && b.message@ == "正在准备扩容环境..."@
                    &&& r.0.step == HandoffStep::WriteConfig
                    &&& r.0.pe_path@ == pe_file->0@
                    &&& r.1 matches HandoffWork::WriteConfig { target, data_partition, config }
                        && target@ == "C:"@ && data_partition@ == "C:"@
                        && config.target_partition@ == "C:"@
                        && config.target_size_mb == handoff_target_size(a)
                        && config.wim_engine == wim_engine
                }
            }),
            final(self).tools.expand_c.show == true,
            same_tools_except_expand(old(self).tools, final(self).tools),
            *final(self) == (App { tools: final(self).tools, ..*old(self) }),
    {
        self.tools.expand_c.show = true;
        self.tools.expand_c.state.executing = true;
        self.tools.expand_c.state.message = str_to_string("正在准备扩容环境...");
        let target_size_mb = if self.tools.expand_c.state.target_size_mb >= self.tools.expand_c.state.max_size_mb {
            0
        } else {
            self.tools.expand_c.state.target_size_mb
        };
        if self.pe_choice.is_none() {
            self.tools.expand_c.state.executing = false;
            self.tools.expand_c.state.message = str_to_string("未选择 PE 环境，无法扩容");
            return (ExpandHandoff { pe_path: String::new(), step: HandoffStep::Done }, HandoffWork::Finish);
        }
        match pe_file {
            None => {
                self.tools.expand_c.state.executing = false;
                self.tools.expand_c.state.message = str_to_string("PE 文件不存在，无法扩容");
                (ExpandHandoff { pe_path: String::new(), step: HandoffStep::Done }, HandoffWork::Finish)
            },
            Some(path) => {
                let config = ExpandConfig {
                    target_partition: str_to_string("C:"),
                    target_size_mb,
                    wim_engine,
                };
                let w = HandoffWork::WriteConfig {
                    target: str_to_string("C:"),
                    data_partition: str_to_string("C:"),
                    config,
                };
                (ExpandHandoff { pe_path: path, step: HandoffStep::WriteConfig }, w)
            },
        }
    }
}

impl ExpandHandoff {
    /// Takes the outcome of the last piece of work (see [`handoff_transition`]).
    pub fn advance(&mut self, dialog: &mut ExpandCDialogState, e: Result<(), String>) -> (w: HandoffWork)
        requires
            old(self).step != HandoffStep::Done,
        ensures
            handoff_transition(*old(self), *final(self), *old(dialog), *final(dialog), e, w),
    {
        match self.step {
            HandoffStep::WriteConfig => match e {
                Err(x) => {
                    self.step = HandoffStep::Done;
                    dialog.executing = false;
                    dialog.message = prefixed("写入扩容配置失败: ", x.as_str());
                    HandoffWork::Finish
                },
                Ok(()) => {
                    self.step = HandoffStep::BootToPe;
                    HandoffWork::BootToPe {
                        pe_path: str_to_string(self.pe_path.as_str()),
                        display_name: str_to_string("LetRecovery PE"),
                    }
                },
            },
            HandoffStep::BootToPe => match e {
                Err(x) => {
                    self.step = HandoffStep::Done;
                    dialog.executing = false;
                    dialog.message = prefixed("安装 PE 引导失败: ", x.as_str());
                    HandoffWork::Finish
                },
                Ok(()) => {
                    self.step = HandoffStep::Reboot;
                    let c = command("shutdown", &["/r", "/t", "5", "/c", "LetRecovery 即将重启进入 WinPE 进行无损扩容..."]);
                    assert(c.args_view() =~= seq!["/r"@, "/t"@, "5"@, "/c"@, "LetRecovery 即将重启进入 WinPE 进行无损扩容..."@]);
                    HandoffWork::Reboot(c)
                },
            },
            HandoffStep::Reboot => {
                self.step = HandoffStep::Done;
                dialog.message = str_to_string("准备完成，即将重启进入 WinPE...");
                HandoffWork::Finish
            },
            HandoffStep::Done => HandoffWork::Finish,
        }
    }
}

} // verus!
