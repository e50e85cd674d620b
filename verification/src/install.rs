//! The progress protocol between an installation worker and the progress page,
//! and the small decisions taken while installing.
use vstd::prelude::*;
use crate::dism::DismProgress;
use crate::text::{
    dec, digits_value, find_chars_from, find_from, lemma_dec, lemma_find_from, lemma_find_from_at,
    lemma_parse_dec, occurs_at, parse_nat, parse_usize, push_dec, push_str, slice_chars,
    starts_with, starts_with_chars, str_to_string, to_chars, chars_to_string, is_digit, all_digits,
};

verus! {

/// How an installation is carried out.
#[derive(Debug, Clone, Copy, PartialEq, Eq, Structural)]
pub enum InstallMode {
    /// Deployed from the running environment.
    Direct,
    /// Prepared here and finished after rebooting into Windows PE.
    ViaPE,
}

pub open spec fn step_status_spec(step: nat, name: Seq<char>) -> Seq<char> {
    "STEP:"@ + dec(step) + ":"@ + name
}

pub open spec fn error_status_spec(msg: Seq<char>) -> Seq<char> {
    "ERROR:"@ + msg
}

/// The status text announcing step `step` named `name`.
pub fn step_status(step: usize, name: &str) -> (r: String)
    ensures
        r@ == step_status_spec(step as nat, name@),
{
    let mut s = str_to_string("STEP:");
    push_dec(&mut s, step as u64);
    push_str(&mut s, ":");
    push_str(&mut s, name);
    s
}

/// The progress message a worker sends when it enters a step.
pub fn send_step(step: usize, name: &str, percentage: u8) -> (r: DismProgress)
    ensures
        r.percentage == percentage,
        r.status@ == step_status_spec(step as nat, name@),
{
    DismProgress { percentage, status: step_status(step, name) }
}

/// The progress message a worker sends when the installation fails.
pub fn send_error(msg: &str) -> (r: DismProgress)
    ensures
        r.percentage == 0,
        r.status@ == error_status_spec(msg@),
{
    let mut s = str_to_string("ERROR:");
    push_str(&mut s, msg);
    DismProgress { percentage: 0, status: s }
}

/// What `parse_step_from_status` recovers from a status text: the step number
/// between `STEP:` and the next `:`, and everything after that colon as the name.
pub open spec fn parse_step_spec(s: Seq<char>) -> Option<(nat, Seq<char>)> {
    if !starts_with(s, "STEP:"@) {
        None
    } else {
        match find_from(s, ":"@, 5) {
            None => None,
            Some(j) => match parse_nat(s.subrange(5, j), usize::MAX as nat) {
                Some(n) => Some((n, s.subrange(j + 1, s.len() as int))),
                None => None,
            },
        }
    }
}

proof fn lemma_lit_lens()
    ensures
        "STEP:"@.len() == 5,
        ":"@.len() == 1,
        ":"@[0] == ':',
{
    reveal_strlit("STEP:");
    reveal_strlit(":");
}

/// Reads the step number and name from a `STEP:<n>:<name>` status text.
pub fn parse_step_from_status(status: &str) -> (r: Option<(usize, String)>)
    ensures
        match parse_step_spec(status@) {
            Some((n, name)) => r matches Some((k, t)) && k as nat == n && t@ == name,
            None => r is None,
        },
{
    let v = to_chars(status);
    let prefix = to_chars("STEP:");
    let colon = to_chars(":");
    proof {
        lemma_lit_lens();
    }
    if !starts_with_chars(v.as_slice(), prefix.as_slice()) {
        return None;
    }
    match find_chars_from(v.as_slice(), colon.as_slice(), 5) {
        None => None,
        Some(j) => {
            proof {
                lemma_find_from(v@, ":"@, 5);
                assert(find_from(v@, ":"@, 5) == Some(j as int));
                assert(j + 1 <= v@.len());
            }
            let num = slice_chars(v.as_slice(), 5, j);
            match parse_usize(num.as_slice()) {
                Some(n) => {
                    let len = v.len();
                    let name = slice_chars(v.as_slice(), j + 1, len);
                    Some((n, chars_to_string(name.as_slice())))
                },
                None => None,
            }
        },
    }
}

/// The step protocol is lossless: the step number and name that a worker sends with
/// `send_step` are exactly what `parse_step_from_status` reads back, whatever the name
/// holds (colons included).
pub proof fn lemma_step_status_roundtrip(step: nat, name: Seq<char>)
    requires
        step <= usize::MAX,
    ensures
        parse_step_spec(step_status_spec(step, name)) == Some((step, name)),
{
    lemma_lit_lens();
    lemma_dec(step);
    let d = dec(step);
    let s = step_status_spec(step, name);
    let j: int = 5 + d.len() as int;
    assert(s.subrange(0, 5) =~= "STEP:"@);
    assert(s.subrange(5, j) =~= d);
    assert(s[j] == ':');
    assert(s.subrange(j, j + 1) =~= ":"@);
    assert forall|k: int| 5 <= k < j implies !occurs_at(s, ":"@, k) by {
        assert(s[k] == d[k - 5]);
        assert(is_digit(d[k - 5]));
        assert(s.subrange(k, k + 1)[0] == s[k]);
    }
    lemma_find_from_at(s, ":"@, 5, j);
    lemma_parse_dec(step, usize::MAX as nat);
    assert(s.subrange(j + 1, s.len() as int) =~= name);
}

/// Starting point and weight of a step in the overall progress.
pub open spec fn step_base_weight(mode: InstallMode, step: nat) -> (nat, nat) {
    match mode {
        InstallMode::Direct => {
            let base: nat = if step == 1 {
                0
            } else if step == 2 {
                5
            } else if step == 3 {
                10
            } else if step == 4 {
                90
            } else if step == 5 {
                93
            } else if step == 6 {
                96
            } else if step == 7 {
                100
            } else {
                0
            };
            (base, if step == 3 { 80 } else { 3 })
        },
        InstallMode::ViaPE => {
            let base: nat = if step == 1 {
                0
            } else if step == 2 {
                10
            } else if step == 3 {
                30
            } else if step == 4 {
                50
            } else if step == 5 {
                90
            } else if step == 6 {
                100
            } else {
                0
            };
            (base, if step == 4 { 40 } else { 10 })
        },
    }
}

/// Overall progress when step `step` is `percentage` done, capped at 100.
pub open spec fn total_progress_spec(mode: InstallMode, step: nat, percentage: nat) -> nat {
    let (base, weight) = step_base_weight(mode, step);
    let t = base + percentage * weight / 100;
    if t > 100 {
        100
    } else {
        t
    }
}

/// Overall installation progress from the current step and its percentage.
pub fn total_progress(mode: InstallMode, step: usize, percentage: u8) -> (r: u8)
    ensures
        r as nat == total_progress_spec(mode, step as nat, percentage as nat),
        r <= 100,
{
    let (base, weight): (u32, u32) = match mode {
        InstallMode::Direct => {
            let base: u32 = if step == 1 {
                0
            } else if step == 2 {
                5
            } else if step == 3 {
                10
            } else if step == 4 {
                90
            } else if step == 5 {
                93
            } else if step == 6 {
                96
            } else if step == 7 {
                100
            } else {
                0
            };
            (base, if step == 3 { 80 } else { 3 })
        },
        InstallMode::ViaPE => {
            let base: u32 = if step == 1 {
                0
            } else if step == 2 {
                10
            } else if step == 3 {
                30
            } else if step == 4 {
                50
            } else if step == 5 {
                90
            } else if step == 6 {
                100
            } else {
                0
            };
            (base, if step == 4 { 40 } else { 10 })
        },
    };
    let p = percentage as u32;
    assert(p * weight <= 255 * 80) by (nonlinear_arith)
        requires
            p <= 255,
            weight <= 80,
    ;
    let t = base + p * weight / 100;
    if t > 100 {
        100
    } else {
        t as u8
    }
}

/// The folder under `bin\drivers` holding drivers for a target system whose
/// `ntdll.dll` has version `major.minor.build`: 6.1 is Windows 7, 6.2 and 6.3 are
/// Windows 8, 10.x is Windows 11 from build 22000 and Windows 10 before.
pub open spec fn user_driver_folder(is_xp: bool, version: Option<(u16, u16, u16)>) -> Option<Seq<char>> {
    if is_xp {
        None
    } else {
        match version {
            None => None,
            Some((major, minor, build)) => if major == 6 && minor == 1 {
                Some("win7"@)
            } else if major == 6 && (minor == 2 || minor == 3) {
                Some("win8"@)
            } else if major == 10 {
                if build >= 22000 {
                    Some("win11"@)
                } else {
                    Some("win10"@)
                }
            } else {
                None
            },
        }
    }
}

/// Which user driver folder applies to a target system (none for XP, whose drivers
/// are injected otherwise, and none when the version is unknown).
pub fn detect_user_driver_version(is_xp: bool, version: Option<(u16, u16, u16)>) -> (r: Option<String>)
    ensures
        match user_driver_folder(is_xp, version) {
            Some(f) => r matches Some(s) && s@ == f,
            None => r is None,
        },
{
    if is_xp {
        return None;
    }
    match version {
        None => None,
        Some((major, minor, build)) => {
            if major == 6 && minor == 1 {
                Some(str_to_string("win7"))
            } else if major == 6 && (minor == 2 || minor == 3) {
                Some(str_to_string("win8"))
            } else if major == 10 {
                if build >= 22000 {
                    Some(str_to_string("win11"))
                } else {
                    Some(str_to_string("win10"))
                }
            } else {
                None
            }
        },
    }
}

} // verus!
