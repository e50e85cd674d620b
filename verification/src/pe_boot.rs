//! Creating the one-time boot entry into Windows PE: the entries remembered from an
//! earlier run are deleted, a ramdisk entry and a loader entry are created and set
//! up, the loader is put first in the boot menu with a 5-second timeout, both
//! GUIDs are remembered in `C:\LetRecovery_PE\pe_guid.txt`, and the loader read
//! back from that file is booted once, next time.
use vstd::prelude::*;
use crate::command::{CommandSpec, strings_view};
use crate::pe::{
    args_list_view, extract_guid, extract_guid_spec, guid_file_content, loader_settings, loader_settings_spec,
    next_boot_guid, nonempty_lines, pe_error_message, ramdisk_device, ramdisk_settings, ramdisk_settings_spec,
    stale_pe_guids, PeManager,
};
use crate::text::{lines_of, push_str, str_to_string};
use crate::paths::{join, path_join};

verus! {

/// Where the two PE entries are remembered.
pub open spec fn guid_file_path() -> Seq<char> {
    "C:\\LetRecovery_PE\\pe_guid.txt"@
}

/// Where the two PE entries are remembered (see [`guid_file_path`]); the file is read
/// before a new entry is made, so that the entries it names are removed.
pub fn guid_file() -> (r: String)
    ensures
        r@ == guid_file_path(),
{
    str_to_string("C:\\LetRecovery_PE\\pe_guid.txt")
}

#[derive(Debug, Clone, Copy, PartialEq, Eq, Structural)]
pub enum PeBootStep {
    Cleanup,
    CreateRamdisk,
    RamdiskSettings,
    CreateLoader,
    LoaderSettings,
    DisplayOrder,
    Timeout,
    WriteGuids,
    ReadGuids,
    NextBoot,
    Done,
}

/// The outcome of the last piece of work.
pub enum PeBootEvent {
    /// `bcdedit` ran (its output), or could not be started (why).
    Ran(Result<String, String>),
    Written(Result<(), String>),
    /// The file's content, or none when it could not be read.
    Read(Option<String>),
}

pub enum PeBootWork {
    /// Run `bcdedit` with these arguments.
    Run(CommandSpec),
    WriteFile { path: String, content: String },
    ReadFile(String),
    Finish(Result<(), String>),
}

pub struct PeBootSetup {
    pub bcdedit: String,
    pub display_name: String,
    pub wim_bcd_path: String,
    pub sdi_bcd_path: String,
    pub is_uefi: bool,
    pub ramdisk_guid: String,
    pub loader_guid: String,
    /// The arguments of the commands of this step still to run after the running one.
    pub pending: Vec<Vec<String>>,
    pub step: PeBootStep,
}

pub open spec fn runs(w: PeBootWork, program: Seq<char>, args: Seq<Seq<char>>) -> bool {
    w matches PeBootWork::Run(c) && c.program@ == program && c.args_view() == args
}

pub open spec fn delete_args(gs: Seq<Seq<char>>) -> Seq<Seq<Seq<char>>> {
    gs.map_values(|g: Seq<char>| seq!["/delete"@, g, "/f"@])
}

pub open spec fn finished_with(b: PeBootSetup, w: PeBootWork, r: Result<(), Seq<char>>) -> bool {
    &&& b.step == PeBootStep::Done
    &&& match r {
        Ok(()) => w matches PeBootWork::Finish(Ok(())),
        Err(m) => w matches PeBootWork::Finish(Err(x)) && x@ == m,
    }
}

pub open spec fn same_setup(a: PeBootSetup, b: PeBootSetup) -> bool {
    &&& a.bcdedit == b.bcdedit
    &&& a.display_name == b.display_name
    &&& a.wim_bcd_path == b.wim_bcd_path
    &&& a.sdi_bcd_path == b.sdi_bcd_path
    &&& a.is_uefi == b.is_uefi
}

/// Running the next of the `pending` commands, or when none is left, `then`.
pub open spec fn next_or(a: PeBootSetup, b: PeBootSetup, w: PeBootWork, then: bool) -> bool {
    let p = args_list_view(a.pending@);
    if p.len() > 0 {
        &&& b.step == a.step
        &&& args_list_view(b.pending@) == p.drop_first()
        &&& runs(w, a.bcdedit@, p[0])
        &&& b.ramdisk_guid == a.ramdisk_guid
        &&& b.loader_guid == a.loader_guid
    } else {
        then
    }
}

pub open spec fn starts_ramdisk(a: PeBootSetup, b: PeBootSetup, w: PeBootWork) -> bool {
    b.step == PeBootStep::CreateRamdisk && runs(w, a.bcdedit@, seq!["/create"@, "/d"@, a.display_name@ + " RAM"@, "/device"@])
}

/// A GUID from creating an entry: without one the setup fails with the output.
pub open spec fn on_created(out: Result<String, String>, b: PeBootSetup, w: PeBootWork, ok: spec_fn(Seq<char>) -> bool) -> bool {
    match out {
        Err(e) => finished_with(b, w, Err(e@)),
        Ok(s) => match extract_guid_spec(s@) {
            None => finished_with(b, w, Err(pe_error_message(crate::pe::PeError::GuidNotFound(s)))),
            Some(g) => ok(g),
        },
    }
}

pub open spec fn pe_boot_transition(a: PeBootSetup, b: PeBootSetup, e: PeBootEvent, w: PeBootWork) -> bool {
    &&& same_setup(a, b)
    &&& match a.step {
        PeBootStep::Cleanup => next_or(a, b, w, starts_ramdisk(a, b, w)),
        PeBootStep::CreateRamdisk => match e {
            PeBootEvent::Ran(out) => on_created(out, b, w, |g: Seq<char>| {
                let p = ramdisk_settings_spec(g, a.sdi_bcd_path@);
                &&& b.ramdisk_guid@ == g
                &&& b.step == PeBootStep::RamdiskSettings
                &&& runs(w, a.bcdedit@, p[0])
                &&& args_list_view(b.pending@) == p.drop_first()
            }),
            _ => finished_with(b, w, Err(Seq::empty())),
        },
        PeBootStep::RamdiskSettings => match e {
            PeBootEvent::Ran(Err(x)) => finished_with(b, w, Err(x@)),
            _ => next_or(a, b, w, b.step == PeBootStep::CreateLoader && b.ramdisk_guid == a.ramdisk_guid
                && runs(w, a.bcdedit@, seq!["/create"@, "/d"@, a.display_name@, "/application"@, "osloader"@])),
        },
        PeBootStep::CreateLoader => match e {
            PeBootEvent::Ran(out) => on_created(out, b, w, |g: Seq<char>| {
                let p = loader_settings_spec(g, ramdisk_device(a.wim_bcd_path@, a.ramdisk_guid@), a.is_uefi);
                &&& b.loader_guid@ == g
                &&& b.ramdisk_guid == a.ramdisk_guid
                &&& b.step == PeBootStep::LoaderSettings
                &&& runs(w, a.bcdedit@, p[0])
                &&& args_list_view(b.pending@) == p.drop_first()
            }),
            _ => finished_with(b, w, Err(Seq::empty())),
        },
        PeBootStep::LoaderSettings => match e {
            PeBootEvent::Ran(Err(x)) => finished_with(b, w, Err(x@)),
            _ => next_or(a, b, w, b.step == PeBootStep::DisplayOrder && b.ramdisk_guid == a.ramdisk_guid
                && b.loader_guid == a.loader_guid
                && runs(w, a.bcdedit@, seq!["/displayorder"@, a.loader_guid@, "/addfirst"@])),
        },
        PeBootStep::DisplayOrder => match e {
            PeBootEvent::Ran(Err(x)) => finished_with(b, w, Err(x@)),
            _ => b.step == PeBootStep::Timeout && b.ramdisk_guid == a.ramdisk_guid && b.loader_guid == a.loader_guid
                && runs(w, a.bcdedit@, seq!["/timeout"@, "5"@]),
        },
        PeBootStep::Timeout => match e {
            PeBootEvent::Ran(Err(x)) => finished_with(b, w, Err(x@)),
            _ => b.step == PeBootStep::WriteGuids && (w matches PeBootWork::WriteFile { path, content }
                && path@ == guid_file_path() && content@ == a.ramdisk_guid@ + "\n"@ + a.loader_guid@),
        },
        PeBootStep::WriteGuids => match e {
            PeBootEvent::Written(Err(x)) => finished_with(b, w, Err(x@)),
            _ => b.step == PeBootStep::ReadGuids && (w matches PeBootWork::ReadFile(p) && p@ == guid_file_path()),
        },
        PeBootStep::ReadGuids => match e {
            PeBootEvent::Read(Some(c)) => if lines_of(c@).len() >= 2 {
                b.step == PeBootStep::NextBoot && runs(w, a.bcdedit@, seq!["/bootsequence"@, lines_of(c@)[1]])
            } else {
                finished_with(b, w, Ok(()))
            },
            _ => finished_with(b, w, Ok(())),
        },
        PeBootStep::NextBoot => match e {
            PeBootEvent::Ran(Err(x)) => finished_with(b, w, Err(x@)),
            _ => finished_with(b, w, Ok(())),
        },
        PeBootStep::Done => false,
    }
}

pub open spec fn step_rank(s: PeBootStep) -> nat {
    match s {
        PeBootStep::Cleanup => 10,
        PeBootStep::CreateRamdisk => 9,
        PeBootStep::RamdiskSettings => 8,
        PeBootStep::CreateLoader => 7,
        PeBootStep::LoaderSettings => 6,
        PeBootStep::DisplayOrder => 5,
        PeBootStep::Timeout => 4,
        PeBootStep::WriteGuids => 3,
        PeBootStep::ReadGuids => 2,
        PeBootStep::NextBoot => 1,
        PeBootStep::Done => 0,
    }
}

/// Every transition moves to a later step, or stays in its step with one command
/// fewer pending; so the setup ends. It ends exactly when its outcome is handed out.
pub proof fn lemma_pe_boot_ends(a: PeBootSetup, b: PeBootSetup, e: PeBootEvent, w: PeBootWork)
    requires
        pe_boot_transition(a, b, e, w),
    ensures
        step_rank(b.step) < step_rank(a.step)
            || (b.step == a.step && b.pending@.len() < a.pending@.len()),
        (w is Finish) == (b.step == PeBootStep::Done),
{
    assert(args_list_view(a.pending@).len() == a.pending@.len());
    assert(args_list_view(b.pending@).len() == b.pending@.len());
}

fn bcdedit_run(program: &str, args: Vec<String>) -> (w: PeBootWork)
    ensures
        w matches PeBootWork::Run(c) && c.program@ == program@ && c.args_view() == strings_view(args@),
{
    PeBootWork::Run(CommandSpec { program: str_to_string(program), args })
}

fn push_arg(v: &mut Vec<String>, a: &str)
    ensures
        strings_view(final(v)@) == strings_view(old(v)@).push(a@),
{
    v.push(str_to_string(a));
    assert(strings_view(v@) =~= strings_view(old(v)@).push(a@));
}

fn args2(a: &str, b: &str) -> (r: Vec<String>)
    ensures
        strings_view(r@) == seq![a@, b@],
{
    let mut v: Vec<String> = Vec::new();
    push_arg(&mut v, a);
    push_arg(&mut v, b);
    assert(strings_view(v@) =~= seq![a@, b@]);
    v
}

fn args3(a: &str, b: &str, c: &str) -> (r: Vec<String>)
    ensures
        strings_view(r@) == seq![a@, b@, c@],
{
    let mut v = args2(a, b);
    push_arg(&mut v, c);
    assert(strings_view(v@) =~= seq![a@, b@, c@]);
    v
}

fn args4(a: &str, b: &str, c: &str, d: &str) -> (r: Vec<String>)
    ensures
        strings_view(r@) == seq![a@, b@, c@, d@],
{
    let mut v = args3(a, b, c);
    push_arg(&mut v, d);
    assert(strings_view(v@) =~= seq![a@, b@, c@, d@]);
    v
}

fn args5(a: &str, b: &str, c: &str, d: &str, e: &str) -> (r: Vec<String>)
    ensures
        strings_view(r@) == seq![a@, b@, c@, d@, e@],
{
    let mut v = args4(a, b, c, d);
    push_arg(&mut v, e);
    assert(strings_view(v@) =~= seq![a@, b@, c@, d@, e@]);
    v
}

impl PeBootSetup {
    /// Runs the next pending command; `None` when none is left.
    fn pop_pending(&mut self) -> (w: Option<PeBootWork>)
        ensures
            args_list_view(old(self).pending@).len() > 0 ==> (w matches Some(x) && runs(x, old(self).bcdedit@,
                args_list_view(old(self).pending@)[0]) && args_list_view(final(self).pending@)
                == args_list_view(old(self).pending@).drop_first()),
            args_list_view(old(self).pending@).len() == 0 ==> w is None && final(self).pending == old(self).pending,
            final(self).step == old(self).step,
            final(self).ramdisk_guid == old(self).ramdisk_guid,
            final(self).loader_guid == old(self).loader_guid,
            same_setup(*old(self), *final(self)),
    {
        if self.pending.len() == 0 {
            return None;
        }
        let args = self.pending.remove(0);
        assert(args_list_view(self.pending@) =~= args_list_view(old(self).pending@).drop_first());
        Some(bcdedit_run(self.bcdedit.as_str(), args))
    }

    fn fail(&mut self, m: String) -> (w: PeBootWork)
        ensures
            finished_with(*final(self), w, Err(m@)),
            same_setup(*old(self), *final(self)),
    {
        self.step = PeBootStep::Done;
        PeBootWork::Finish(Err(m))
    }

    /// Takes the outcome of the last piece of work (see [`pe_boot_transition`]).
    pub fn advance(&mut self, e: PeBootEvent) -> (w: PeBootWork)
        requires
            old(self).step != PeBootStep::Done,
        ensures
            pe_boot_transition(*old(self), *final(self), e, w),
    {
        match self.step {
            PeBootStep::Cleanup => match self.pop_pending() {
                Some(w) => w,
                None => {
                    self.step = PeBootStep::CreateRamdisk;
                    let mut d = str_to_string(self.display_name.as_str());
                    push_str(&mut d, " RAM");
                    let w = bcdedit_run(self.bcdedit.as_str(), args4("/create", "/d", d.as_str(), "/device"));
                    w
                },
            },
            PeBootStep::CreateRamdisk => match e {
                PeBootEvent::Ran(Err(x)) => self.fail(x),
                PeBootEvent::Ran(Ok(out)) => match extract_guid(out.as_str()) {
                    Err(pe) => self.fail(pe.message()),
                    Ok(g) => {
                        let mut ps = ramdisk_settings(g.as_str(), self.sdi_bcd_path.as_str());
                        assert(args_list_view(ps@).len() == ps@.len());
                        let ghost all = args_list_view(ps@);
                        self.ramdisk_guid = g;
                        self.step = PeBootStep::RamdiskSettings;
                        let first = ps.remove(0);
                        assert(args_list_view(ps@) =~= all.drop_first());
                        self.pending = ps;
                        bcdedit_run(self.bcdedit.as_str(), first)
                    },
                },
                _ => self.fail(String::new()),
            },
            PeBootStep::RamdiskSettings => match e {
                PeBootEvent::Ran(Err(x)) => self.fail(x),
                _ => match self.pop_pending() {
                    Some(w) => w,
                    None => {
                        self.step = PeBootStep::CreateLoader;
                        bcdedit_run(self.bcdedit.as_str(), args5("/create", "/d", self.display_name.as_str(), "/application", "osloader"))
                    },
                },
            },
            PeBootStep::CreateLoader => match e {
                PeBootEvent::Ran(Err(x)) => self.fail(x),
                PeBootEvent::Ran(Ok(out)) => match extract_guid(out.as_str()) {
                    Err(pe) => self.fail(pe.message()),
                    Ok(g) => {
                        let mut ps = loader_settings(g.as_str(), self.wim_bcd_path.as_str(), self.ramdisk_guid.as_str(), self.is_uefi);
                        assert(args_list_view(ps@).len() == ps@.len());
                        let ghost all = args_list_view(ps@);
                        self.loader_guid = g;
                        self.step = PeBootStep::LoaderSettings;
                        let first = ps.remove(0);
                        assert(args_list_view(ps@) =~= all.drop_first());
                        self.pending = ps;
                        bcdedit_run(self.bcdedit.as_str(), first)
                    },
                },
                _ => self.fail(String::new()),
            },
            PeBootStep::LoaderSettings => match e {
                PeBootEvent::Ran(Err(x)) => self.fail(x),
                _ => match self.pop_pending() {
                    Some(w) => w,
                    None => {
                        self.step = PeBootStep::DisplayOrder;
                        bcdedit_run(self.bcdedit.as_str(), args3("/displayorder", self.loader_guid.as_str(), "/addfirst"))
                    },
                },
            },
            PeBootStep::DisplayOrder => match e {
                PeBootEvent::Ran(Err(x)) => self.fail(x),
                _ => {
                    self.step = PeBootStep::Timeout;
                    bcdedit_run(self.bcdedit.as_str(), args2("/timeout", "5"))
                },
            },
            PeBootStep::Timeout => match e {
                PeBootEvent::Ran(Err(x)) => self.fail(x),
                _ => {
                    self.step = PeBootStep::WriteGuids;
                    PeBootWork::WriteFile {
                        path: str_to_string("C:\\LetRecovery_PE\\pe_guid.txt"),
                        content: guid_file_content(self.ramdisk_guid.as_str(), self.loader_guid.as_str()),
                    }
                },
            },
            PeBootStep::WriteGuids => match e {
                PeBootEvent::Written(Err(x)) => self.fail(x),
                _ => {
                    self.step = PeBootStep::ReadGuids;
                    PeBootWork::ReadFile(str_to_string("C:\\LetRecovery_PE\\pe_guid.txt"))
                },
            },
            PeBootStep::ReadGuids => {
                let next = match &e {
                    PeBootEvent::Read(Some(c)) => next_boot_guid(c.as_str()),
                    _ => None,
                };
                match next {
                    Some(g) => {
                        self.step = PeBootStep::NextBoot;
                        bcdedit_run(self.bcdedit.as_str(), args2("/bootsequence", g.as_str()))
                    },
                    None => {
                        self.step = PeBootStep::Done;
                        PeBootWork::Finish(Ok(()))
                    },
                }
            },
            PeBootStep::NextBoot => match e {
                PeBootEvent::Ran(Err(x)) => self.fail(x),
                _ => {
                    self.step = PeBootStep::Done;
                    PeBootWork::Finish(Ok(()))
                },
            },
            PeBootStep::Done => PeBootWork::Finish(Ok(())),
        }
    }
}

impl PeManager {
    /// Starts creating the PE boot entry `display_name` for the PE image `wim_path`
    /// with the ramdisk file `sdi_path` (both on `C:`, written as BCD paths), for
    /// UEFI or legacy firmware; `old_guids` is the remembered-entries file of an
    /// earlier run, if there is one: its entries are deleted first.
    pub fn create_pe_boot_entry(
        &self,
        display_name: &str,
        wim_bcd_path: &str,
        sdi_bcd_path: &str,
        is_uefi: bool,
        old_guids: Option<&str>,
    ) -> (r: (PeBootSetup, PeBootWork))
        ensures
            r.0.bcdedit@ == self.bcdedit(),
            r.0.display_name@ == display_name@,
            r.0.wim_bcd_path@ == wim_bcd_path@,
            r.0.sdi_bcd_path@ == sdi_bcd_path@,
            r.0.is_uefi == is_uefi,
            ({
                let stale = match old_guids {
                    Some(c) => delete_args(nonempty_lines(lines_of(c@))),
                    None => Seq::empty(),
                };
                if stale.len() > 0 {
                    &&& r.0.step == PeBootStep::Cleanup
                    &&& runs(r.1, self.bcdedit(), stale[0])
                    &&& args_list_view(r.0.pending@) == stale.drop_first()
                } else {
                    starts_ramdisk(r.0, r.0, r.1)
                }
            }),
    {
        let bcdedit = self.bcdedit_path();
        let mut pending: Vec<Vec<String>> = Vec::new();
        if let Some(c) = old_guids {
            let gs = stale_pe_guids(c);
            let mut i: usize = 0;
            while i < gs.len()
                invariant
                    i <= gs.len(),
                    args_list_view(pending@) == delete_args(strings_view(gs@).take(i as int)),
                decreases gs.len() - i,
            {
                let ghost before = args_list_view(pending@);
                pending.push(args3("/delete", gs[i].as_str(), "/f"));
                assert(args_list_view(pending@) =~= before.push(seq!["/delete"@, gs@[i as int]@, "/f"@]));
                assert(delete_args(strings_view(gs@).take(i + 1)) =~= delete_args(strings_view(gs@).take(i as int)).push(
                    seq!["/delete"@, gs@[i as int]@, "/f"@]));
                i = i + 1;
            }
            assert(strings_view(gs@).take(gs.len() as int) =~= strings_view(gs@));
        }
        let mut job = PeBootSetup {
            bcdedit,
            display_name: str_to_string(display_name),
            wim_bcd_path: str_to_string(wim_bcd_path),
            sdi_bcd_path: str_to_string(sdi_bcd_path),
            is_uefi,
            ramdisk_guid: String::new(),
            loader_guid: String::new(),
            pending,
            step: PeBootStep::Cleanup,
        };
        let w = job.advance(PeBootEvent::Ran(Ok(String::new())));
        (job, w)
    }
}

// ---------------------------------------------------------------------------
// Files the PE boot uses
// ---------------------------------------------------------------------------

/// Where a PE file named `filename` is looked for, in order: `bin\pe`, beside the
/// program, its `PE` and `pe` folders, then the user's download folder (its path,
/// or none: the name alone).
pub fn check_pe_locations(bin_dir: &str, exe_dir: &str, download_dir: Option<&str>, filename: &str) -> (r: Vec<String>)
    ensures
        strings_view(r@) == seq![
            path_join(path_join(bin_dir@, "pe"@), filename@),
            path_join(exe_dir@, filename@),
            path_join(path_join(exe_dir@, "PE"@), filename@),
            path_join(path_join(exe_dir@, "pe"@), filename@),
            path_join(match download_dir { Some(d) => d@, None => Seq::empty() }, filename@),
        ],
{
    let mut v: Vec<String> = Vec::new();
    let a = join(bin_dir, "pe");
    push_arg(&mut v, join(a.as_str(), filename).as_str());
    push_arg(&mut v, join(exe_dir, filename).as_str());
    let b = join(exe_dir, "PE");
    push_arg(&mut v, join(b.as_str(), filename).as_str());
    let c = join(exe_dir, "pe");
    push_arg(&mut v, join(c.as_str(), filename).as_str());
    let d = match download_dir {
        Some(d) => join(d, filename),
        None => {
            proof {
                reveal_strlit("");
            }
            join("", filename)
        },
    };
    push_arg(&mut v, d.as_str());
    assert(strings_view(v@) =~= seq![
        path_join(path_join(bin_dir@, "pe"@), filename@),
        path_join(exe_dir@, filename@),
        path_join(path_join(exe_dir@, "PE"@), filename@),
        path_join(path_join(exe_dir@, "pe"@), filename@),
        path_join(match download_dir { Some(d) => d@, None => Seq::empty() }, filename@),
    ]);
    v
}

/// Where a mounted PE ISO keeps its `boot.wim`, in order of preference.
pub fn iso_boot_wim_candidates(mount_point: &str) -> (r: Vec<String>)
    ensures
        strings_view(r@) == seq![
            mount_point@ + "\\sources\\boot.wim"@,
            mount_point@ + "\\Boot\\boot.wim"@,
            mount_point@ + "\\boot.wim"@,
            mount_point@ + "\\BOOT\\BOOT.WIM"@,
        ],
{
    let mut v: Vec<String> = Vec::new();
    let mut a = str_to_string(mount_point);
    push_str(&mut a, "\\sources\\boot.wim");
    push_arg(&mut v, a.as_str());
    let mut b = str_to_string(mount_point);
    push_str(&mut b, "\\Boot\\boot.wim");
    push_arg(&mut v, b.as_str());
    let mut c = str_to_string(mount_point);
    push_str(&mut c, "\\boot.wim");
    push_arg(&mut v, c.as_str());
    let mut d = str_to_string(mount_point);
    push_str(&mut d, "\\BOOT\\BOOT.WIM");
    push_arg(&mut v, d.as_str());
    assert(strings_view(v@) =~= seq![
        mount_point@ + "\\sources\\boot.wim"@,
        mount_point@ + "\\Boot\\boot.wim"@,
        mount_point@ + "\\boot.wim"@,
        mount_point@ + "\\BOOT\\BOOT.WIM"@,
    ]);
    v
}

/// Where a mounted PE ISO keeps its `boot.sdi`, in order of preference.
pub fn iso_sdi_candidates(mount_point: &str) -> (r: Vec<String>)
    ensures
        strings_view(r@) == seq![
            mount_point@ + "\\boot\\boot.sdi"@,
            mount_point@ + "\\Boot\\boot.sdi"@,
            mount_point@ + "\\BOOT\\BOOT.SDI"@,
        ],
{
    let mut v: Vec<String> = Vec::new();
    let mut a = str_to_string(mount_point);
    push_str(&mut a, "\\boot\\boot.sdi");
    push_arg(&mut v, a.as_str());
    let mut b = str_to_string(mount_point);
    push_str(&mut b, "\\Boot\\boot.sdi");
    push_arg(&mut v, b.as_str());
    let mut c = str_to_string(mount_point);
    push_str(&mut c, "\\BOOT\\BOOT.SDI");
    push_arg(&mut v, c.as_str());
    assert(strings_view(v@) =~= seq![
        mount_point@ + "\\boot\\boot.sdi"@,
        mount_point@ + "\\Boot\\boot.sdi"@,
        mount_point@ + "\\BOOT\\BOOT.SDI"@,
    ]);
    v
}

/// The running system's `boot.sdi` files, copied when the PE brings none.
pub fn system_sdi_candidates() -> (r: Vec<String>)
    ensures
        strings_view(r@) == seq!["C:\\Windows\\Boot\\DVD\\PCAT\\boot.sdi"@, "C:\\Windows\\Boot\\DVD\\EFI\\boot.sdi"@],
{
    args2("C:\\Windows\\Boot\\DVD\\PCAT\\boot.sdi", "C:\\Windows\\Boot\\DVD\\EFI\\boot.sdi")
}

/// The smallest valid `boot.sdi`: 512 bytes, starting with `$SDI` and version 1.1.
pub fn minimal_sdi() -> (r: Vec<u8>)
    ensures
        r@.len() == 512,
        r@.take(8) == seq![0x24u8, 0x53u8, 0x44u8, 0x49u8, 1u8, 0u8, 1u8, 0u8],
        forall|i: int| 8 <= i < 512 ==> r@[i] == 0u8,
{
    let mut v: Vec<u8> = Vec::new();
    v.push(0x24u8);
    v.push(0x53u8);
    v.push(0x44u8);
    v.push(0x49u8);
    v.push(1);
    v.push(0);
    v.push(1);
    v.push(0);
    while v.len() < 512
        invariant
            8 <= v@.len() <= 512,
            v@.take(8) == seq![0x24u8, 0x53u8, 0x44u8, 0x49u8, 1u8, 0u8, 1u8, 0u8],
            forall|i: int| 8 <= i < v@.len() ==> v@[i] == 0u8,
        decreases 512 - v.len(),
    {
        let ghost before = v@;
        v.push(0);
        assert(v@.take(8) =~= before.take(8));
    }
    v
}

/// Where the PE files are staged on the system drive: the folder, its `boot.wim`
/// and its `boot.sdi`.
pub fn pe_staging_paths() -> (r: (String, String, String))
    ensures
        r.0@ == "C:\\LetRecovery_PE"@,
        r.1@ == "C:\\LetRecovery_PE\\boot.wim"@,
        r.2@ == "C:\\LetRecovery_PE\\boot.sdi"@,
{
    (str_to_string("C:\\LetRecovery_PE"), str_to_string("C:\\LetRecovery_PE\\boot.wim"), str_to_string("C:\\LetRecovery_PE\\boot.sdi"))
}

/// An encrypted volume, with its recovery key when it could be read.
pub struct EncryptedVolume {
    pub letter: String,
    pub label: String,
    pub recovery_key: Option<String>,
}

/// The entry handed to PE for a volume whose key was read: `letter label` and the key.
pub open spec fn key_entries(vs: Seq<EncryptedVolume>) -> Seq<(Seq<char>, Seq<char>)>
    decreases vs.len(),
{
    if vs.len() == 0 {
        Seq::empty()
    } else {
        let rest = key_entries(vs.drop_last());
        match vs.last().recovery_key {
            Some(k) => rest.push((vs.last().letter@ + " "@ + vs.last().label@, k@)),
            None => rest,
        }
    }
}

pub open spec fn entries_view(v: Seq<(String, String)>) -> Seq<(Seq<char>, Seq<char>)> {
    v.map_values(|e: (String, String)| (e.0@, e.1@))
}

/// The recovery keys passed on to PE so that it can unlock the encrypted volumes
/// itself: one entry per volume whose key was read, in order; volumes without a key
/// are left out. Nothing is passed on when the list is empty.
pub fn bitlocker_key_entries(volumes: &Vec<EncryptedVolume>) -> (r: Vec<(String, String)>)
    ensures
        entries_view(r@) == key_entries(volumes@),
{
    let mut out: Vec<(String, String)> = Vec::new();
    let mut i: usize = 0;
    while i < volumes.len()
        invariant
            i <= volumes@.len(),
            entries_view(out@) == key_entries(volumes@.take(i as int)),
        decreases volumes.len() - i,
    {
        let v = &volumes[i];
        assert(volumes@.take(i + 1).drop_last() =~= volumes@.take(i as int));
        match &v.recovery_key {
            Some(k) => {
                let mut name = str_to_string(v.letter.as_str());
                push_str(&mut name, " ");
                push_str(&mut name, v.label.as_str());
                out.push((name, str_to_string(k.as_str())));
                assert(entries_view(out@) =~= key_entries(volumes@.take(i as int)).push(
                    (v.letter@ + " "@ + v.label@, k@),
                ));
            },
            None => {},
        }
        i = i + 1;
    }
    assert(volumes@.take(volumes@.len() as int) =~= volumes@);
    out
}

} // verus!
