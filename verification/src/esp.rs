//! Finding the EFI system partition and mounting it as `S:`.
//!
//! `S:` may already be the EFI system partition; else `mountvol S: /s` may mount
//! it; else the first four disks are listed with `diskpart` and each system
//! partition found is given the letter S in turn. [`EspSearch::advance`] decides
//! each next action from the outcome of the previous one.
use vstd::prelude::*;
use crate::bcd::{assign_esp_script, list_partition_script};
use crate::command::{command, CommandSpec};
use crate::text::{
    chars_eq, contains, contains_chars, lines, lines_of, lines_view, lowercase, lowercase_chars,
    parse_nat, parse_usize, split_whitespace, str_to_string, to_chars, ws_tokens,
};

verus! {

/// The partition numbers named on a line, from word `i` on: each word containing
/// `key` (any case) or equal to `word`, followed by a number.
pub open spec fn numbers_after_all(parts: Seq<Seq<char>>, i: int, key: Seq<char>, word: Seq<char>) -> Seq<nat>
    decreases parts.len() - i,
{
    if i < 0 || i >= parts.len() {
        Seq::empty()
    } else if (contains(lowercase(parts[i]), key) || parts[i] == word) && i + 1 < parts.len()
        && parse_nat(parts[i + 1], usize::MAX as nat) is Some {
        seq![parse_nat(parts[i + 1], usize::MAX as nat)->0] + numbers_after_all(parts, i + 1, key, word)
    } else {
        numbers_after_all(parts, i + 1, key, word)
    }
}

/// The system partitions named on one line of `diskpart list partition` output.
pub open spec fn line_esp_candidates(line: Seq<char>) -> Seq<nat> {
    if contains(lowercase(line), "system"@) || contains(lowercase(line), "系统"@) {
        numbers_after_all(ws_tokens(line), 0, "partition"@, "分区"@)
    } else {
        Seq::empty()
    }
}

/// The system partitions named in the output lines from `i` on, in order.
pub open spec fn candidates_from(ls: Seq<Seq<char>>, i: int) -> Seq<nat>
    decreases ls.len() - i,
{
    if i < 0 || i >= ls.len() {
        Seq::empty()
    } else {
        line_esp_candidates(ls[i]) + candidates_from(ls, i + 1)
    }
}

/// The system partitions that a `list partition` output names, in order.
pub open spec fn esp_candidates_spec(stdout: Seq<char>) -> Seq<nat> {
    candidates_from(lines_of(stdout), 0)
}

pub open spec fn usizes_view(v: Seq<usize>) -> Seq<nat> {
    v.map_values(|x: usize| x as nat)
}

fn numbers_after_all_exec(parts: &Vec<Vec<char>>, key: &[char], word: &[char]) -> (r: Vec<usize>)
    ensures
        usizes_view(r@) == numbers_after_all(lines_view(parts@), 0, key@, word@),
{
    let ghost ps = lines_view(parts@);
    let mut r: Vec<usize> = Vec::new();
    let n = parts.len();
    let mut i: usize = 0;
    while i < n
        invariant
            i <= n,
            n == parts@.len(),
            ps == lines_view(parts@),
            usizes_view(r@) + numbers_after_all(ps, i as int, key@, word@) == numbers_after_all(ps, 0, key@, word@),
        decreases n - i,
    {
        let part = parts[i].as_slice();
        assert(part@ == ps[i as int]);
        let low = lowercase_chars(part);
        let mut hit: Option<usize> = None;
        if (contains_chars(low.as_slice(), key) || chars_eq(part, word)) && i + 1 < n {
            assert(parts[i + 1]@ == ps[i + 1]);
            hit = parse_usize(parts[i + 1].as_slice());
        }
        let ghost before = usizes_view(r@);
        let ghost rest = numbers_after_all(ps, i + 1, key@, word@);
        match hit {
            Some(v) => {
                r.push(v);
                assert(usizes_view(r@) =~= before.push(v as nat));
                assert(before + (seq![v as nat] + rest) =~= before.push(v as nat) + rest);
            },
            None => {
                assert(before + rest =~= before + rest);
            },
        }
        i = i + 1;
    }
    assert(usizes_view(r@) + numbers_after_all(ps, n as int, key@, word@) =~= usizes_view(r@));
    r
}

/// The system partitions that a `diskpart list partition` output names, in order
/// (see [`esp_candidates_spec`]).
pub fn esp_candidates(stdout: &str) -> (r: Vec<usize>)
    ensures
        usizes_view(r@) == esp_candidates_spec(stdout@),
{
    let text = to_chars(stdout);
    let ls = lines(text.as_slice());
    let system = to_chars("system");
    let system_cn = to_chars("系统");
    let key = to_chars("partition");
    let word = to_chars("分区");
    let ghost all = lines_of(stdout@);
    let mut out: Vec<usize> = Vec::new();
    let mut i: usize = 0;
    while i < ls.len()
        invariant
            i <= ls@.len(),
            lines_view(ls@) == all,
            all == lines_of(stdout@),
            system@ == "system"@,
            system_cn@ == "系统"@,
            key@ == "partition"@,
            word@ == "分区"@,
            usizes_view(out@) + candidates_from(all, i as int) == candidates_from(all, 0),
        decreases ls@.len() - i,
    {
        let line = ls[i].as_slice();
        assert(line@ == all[i as int]);
        let low = lowercase_chars(line);
        let ghost before = usizes_view(out@);
        let ghost here = line_esp_candidates(all[i as int]);
        let ghost rest = candidates_from(all, i + 1);
        if contains_chars(low.as_slice(), system.as_slice()) || contains_chars(low.as_slice(), system_cn.as_slice()) {
            let toks = split_whitespace(line);
            let nums = numbers_after_all_exec(&toks, key.as_slice(), word.as_slice());
            assert(usizes_view(nums@) == here);
            let mut j: usize = 0;
            while j < nums.len()
                invariant
                    j <= nums@.len(),
                    usizes_view(nums@) == here,
                    usizes_view(out@) == before + here.take(j as int),
                decreases nums@.len() - j,
            {
                let ghost prev = usizes_view(out@);
                out.push(nums[j]);
                assert(usizes_view(out@) =~= prev.push(nums@[j as int] as nat));
                assert(here[j as int] == nums@[j as int] as nat);
                assert(here.take(j + 1) =~= here.take(j as int).push(here[j as int]));
                assert(usizes_view(out@) =~= before + here.take(j + 1));
                j = j + 1;
            }
            assert(here.take(nums@.len() as int) =~= here);
        } else {
            assert(here =~= Seq::<nat>::empty());
            assert(usizes_view(out@) =~= before + here);
        }
        assert(before + (here + rest) =~= (before + here) + rest);
        i = i + 1;
    }
    assert(usizes_view(out@) + candidates_from(all, ls@.len() as int) =~= usizes_view(out@));
    out
}


/// Where the search stands.
#[derive(Debug, Clone, Copy, PartialEq, Eq, Structural)]
pub enum EspStep {
    /// Checking whether `S:\EFI` exists.
    CheckEfiDir,
    /// Running `mountvol S: /s`.
    Mountvol,
    /// Checking whether `S:\` exists after `mountvol`.
    CheckMounted,
    /// Listing the partitions of disk `d` (0 to 3).
    ListDisk(u32),
    /// Giving letter S to candidate `k` of disk `d`.
    Assign(u32, usize),
    /// Checking whether `S:\` exists after assigning candidate `k` of disk `d`.
    CheckAssigned(u32, usize),
    Finished,
}

/// Why no EFI system partition could be mounted.
#[derive(Debug, Clone, PartialEq, Eq)]
pub enum EspError {
    NotFound,
    /// A script could not be written or `diskpart` could not be started.
    Io(String),
}

pub open spec fn esp_error_message(e: EspError) -> Seq<char> {
    match e {
        EspError::NotFound => "未找到 EFI 系统分区"@,
        EspError::Io(m) => m@,
    }
}

impl EspError {
    /// The message shown to the user.
    pub fn message(&self) -> (r: String)
        ensures
            r@ == esp_error_message(*self),
    {
        match self {
            EspError::NotFound => str_to_string("未找到 EFI 系统分区"),
            EspError::Io(m) => str_to_string(m.as_str()),
        }
    }
}

/// What happened to the last action.
pub enum EspEvent {
    /// Whether the path exists.
    Exists(bool),
    /// Whether the program could be started.
    Ran(bool),
    /// `diskpart` ran; its output.
    Output(String),
    /// The script could not be written or `diskpart` could not be started.
    Failed(String),
}

/// What the caller does next.
pub enum EspAction {
    CheckPath(String),
    Run(CommandSpec),
    /// Run this `diskpart` script and report its output.
    Diskpart(String),
    Finish(Result<String, EspError>),
}

/// A search for the EFI system partition.
pub struct EspSearch {
    pub step: EspStep,
    /// The system partitions of the disk being tried.
    pub candidates: Vec<usize>,
}

pub open spec fn found_s(act: EspAction) -> bool {
    act matches EspAction::Finish(Ok(l)) && l@ == "S:"@
}

pub open spec fn checks_s_root(act: EspAction) -> bool {
    act matches EspAction::CheckPath(p) && p@ == "S:\\"@
}

pub open spec fn lists_disk(b: EspSearch, act: EspAction, d: u32) -> bool {
    b.step == EspStep::ListDisk(d) && (act matches EspAction::Diskpart(sc)
        && sc@ == "select disk "@ + crate::text::dec(d as nat) + "\nlist partition\n"@)
}

pub open spec fn assigns(b: EspSearch, act: EspAction, d: u32, k: int) -> bool {
    b.step == EspStep::Assign(d, k as usize) && 0 <= k < b.candidates@.len() && (act matches EspAction::Diskpart(sc)
        && sc@ == "select disk "@ + crate::text::dec(d as nat) + "\nselect partition "@
            + crate::text::dec(b.candidates@[k] as nat) + "\nassign letter=S\n"@)
}

/// After disk `d`: the next of the first four disks, or not found.
pub open spec fn next_disk(b: EspSearch, act: EspAction, d: u32) -> bool {
    if d + 1 < 4 {
        lists_disk(b, act, (d + 1) as u32)
    } else {
        b.step == EspStep::Finished && act matches EspAction::Finish(Err(EspError::NotFound))
    }
}

/// One transition of the search.
pub open spec fn esp_transition(a: EspSearch, b: EspSearch, e: EspEvent, act: EspAction) -> bool {
    match a.step {
        EspStep::CheckEfiDir => if e matches EspEvent::Exists(true) {
            b.step == EspStep::Finished && found_s(act)
        } else {
            b.step == EspStep::Mountvol && (act matches EspAction::Run(c) && c.program@ == "mountvol"@
                && c.args_view() == seq!["S:"@, "/s"@])
        },
        EspStep::Mountvol => if e matches EspEvent::Ran(true) {
            b.step == EspStep::CheckMounted && checks_s_root(act)
        } else {
            lists_disk(b, act, 0)
        },
        EspStep::CheckMounted => if e matches EspEvent::Exists(true) {
            b.step == EspStep::Finished && found_s(act)
        } else {
            lists_disk(b, act, 0)
        },
        EspStep::ListDisk(d) => match e {
            EspEvent::Failed(m) => b.step == EspStep::Finished && (act matches EspAction::Finish(Err(EspError::Io(x))) && x@ == m@),
            EspEvent::Output(out) => if esp_candidates_spec(out@).len() > 0 {
                usizes_view(b.candidates@) == esp_candidates_spec(out@) && assigns(b, act, d, 0)
            } else {
                next_disk(b, act, d)
            },
            _ => false,
        },
        EspStep::Assign(d, k) => match e {
            EspEvent::Failed(m) => b.step == EspStep::Finished && (act matches EspAction::Finish(Err(EspError::Io(x))) && x@ == m@),
            _ => b.step == EspStep::CheckAssigned(d, k) && b.candidates == a.candidates && checks_s_root(act),
        },
        EspStep::CheckAssigned(d, k) => if e matches EspEvent::Exists(true) {
            b.step == EspStep::Finished && found_s(act)
        } else if k + 1 < a.candidates@.len() {
            b.candidates == a.candidates && assigns(b, act, d, k + 1)
        } else {
            next_disk(b, act, d)
        },
        EspStep::Finished => false,
    }
}

/// The events expected in each step; disks are numbered below 4 and candidates
/// exist.
pub open spec fn esp_expects(s: EspSearch, e: EspEvent) -> bool {
    match s.step {
        EspStep::CheckEfiDir | EspStep::CheckMounted => e is Exists,
        EspStep::Mountvol => e is Ran,
        EspStep::ListDisk(d) => d < 4 && (e is Output || e is Failed),
        EspStep::Assign(d, k) => d < 4 && k < s.candidates@.len(),
        EspStep::CheckAssigned(d, k) => d < 4 && k < s.candidates@.len() && e is Exists,
        EspStep::Finished => false,
    }
}

/// How far the search still is from its end: the earlier checks, then the disks
/// left, then listing, then the candidates left (two actions each).
pub open spec fn esp_rank(s: EspSearch) -> (nat, nat, nat) {
    match s.step {
        EspStep::CheckEfiDir => (7, 0, 0),
        EspStep::Mountvol => (6, 0, 0),
        EspStep::CheckMounted => (5, 0, 0),
        EspStep::ListDisk(d) => ((4 - d) as nat, 1, 0),
        EspStep::Assign(d, k) => ((4 - d) as nat, 0, (2 * (s.candidates@.len() - k)) as nat),
        EspStep::CheckAssigned(d, k) => ((4 - d) as nat, 0, (2 * (s.candidates@.len() - k) - 1) as nat),
        EspStep::Finished => (0, 0, 0),
    }
}

pub open spec fn lex_less(x: (nat, nat, nat), y: (nat, nat, nat)) -> bool {
    ||| x.0 < y.0
    ||| (x.0 == y.0 && x.1 < y.1)
    ||| (x.0 == y.0 && x.1 == y.1 && x.2 < y.2)
}

/// Every search step stays well-formed: disks below 4, candidate indexes in range.
pub open spec fn esp_well_formed(s: EspSearch) -> bool {
    match s.step {
        EspStep::ListDisk(d) => d < 4,
        EspStep::Assign(d, k) | EspStep::CheckAssigned(d, k) => d < 4 && k < s.candidates@.len(),
        _ => true,
    }
}

impl EspSearch {
    /// Starts the search: first `S:\EFI` is checked.
    pub fn new() -> (r: (EspSearch, EspAction))
        ensures
            r.0.step == EspStep::CheckEfiDir,
            r.1 matches EspAction::CheckPath(p) && p@ == "S:\\EFI"@,
    {
        (EspSearch { step: EspStep::CheckEfiDir, candidates: Vec::new() }, EspAction::CheckPath(str_to_string("S:\\EFI")))
    }

    fn list(&mut self, d: u32) -> (act: EspAction)
        requires
            d < 4,
        ensures
            lists_disk(*final(self), act, d),
            final(self).candidates == old(self).candidates,
    {
        self.step = EspStep::ListDisk(d);
        EspAction::Diskpart(list_partition_script(d as usize))
    }

    fn assign(&mut self, d: u32, k: usize) -> (act: EspAction)
        requires
            k < old(self).candidates@.len(),
        ensures
            assigns(*final(self), act, d, k as int),
            final(self).candidates == old(self).candidates,
    {
        self.step = EspStep::Assign(d, k);
        EspAction::Diskpart(assign_esp_script(d as usize, self.candidates[k]))
    }

    fn after_disk(&mut self, d: u32) -> (act: EspAction)
        requires
            d < 4,
        ensures
            next_disk(*final(self), act, d),
    {
        if d + 1 < 4 {
            self.list(d + 1)
        } else {
            self.step = EspStep::Finished;
            EspAction::Finish(Err(EspError::NotFound))
        }
    }

    /// Takes the outcome of the last action and gives the next one (see
    /// [`esp_transition`]); the search always ends, `esp_rank` falling at each step.
    pub fn advance(&mut self, event: EspEvent) -> (act: EspAction)
        requires
            esp_expects(*old(self), event),
        ensures
            esp_transition(*old(self), *final(self), event, act),
            esp_well_formed(*final(self)),
            lex_less(esp_rank(*final(self)), esp_rank(*old(self))),
    {
        match self.step {
            EspStep::CheckEfiDir => {
                if let EspEvent::Exists(true) = event {
                    self.step = EspStep::Finished;
                    return EspAction::Finish(Ok(str_to_string("S:")));
                }
                self.step = EspStep::Mountvol;
                let c = command("mountvol", &["S:", "/s"]);
                assert(c.args_view() =~= seq!["S:"@, "/s"@]);
                EspAction::Run(c)
            },
            EspStep::Mountvol => {
                if let EspEvent::Ran(true) = event {
                    self.step = EspStep::CheckMounted;
                    return EspAction::CheckPath(str_to_string("S:\\"));
                }
                self.list(0)
            },
            EspStep::CheckMounted => {
                if let EspEvent::Exists(true) = event {
                    self.step = EspStep::Finished;
                    return EspAction::Finish(Ok(str_to_string("S:")));
                }
                self.list(0)
            },
            EspStep::ListDisk(d) => match event {
                EspEvent::Output(out) => {
                    let cands = esp_candidates(out.as_str());
                    if cands.len() > 0 {
                        self.candidates = cands;
                        self.assign(d, 0)
                    } else {
                        self.after_disk(d)
                    }
                },
                EspEvent::Failed(m) => {
                    self.step = EspStep::Finished;
                    EspAction::Finish(Err(EspError::Io(m)))
                },
                _ => {
                    self.step = EspStep::Finished;
                    EspAction::Finish(Err(EspError::NotFound))
                },
            },
            EspStep::Assign(d, k) => match event {
                EspEvent::Failed(m) => {
                    self.step = EspStep::Finished;
                    EspAction::Finish(Err(EspError::Io(m)))
                },
                _ => {
                    self.step = EspStep::CheckAssigned(d, k);
                    EspAction::CheckPath(str_to_string("S:\\"))
                },
            },
            EspStep::CheckAssigned(d, k) => {
                if let EspEvent::Exists(true) = event {
                    self.step = EspStep::Finished;
                    return EspAction::Finish(Ok(str_to_string("S:")));
                }
                if k < self.candidates.len() - 1 {
                    self.assign(d, k + 1)
                } else {
                    self.after_disk(d)
                }
            },
            EspStep::Finished => EspAction::Finish(Err(EspError::NotFound)),
        }
    }
}

} // verus!
