//! Where the program keeps its bundled tools, relative to its own directory.
//!
//! Paths are Windows paths: components are joined with `\`.
use vstd::prelude::*;
use crate::text::{chars_to_string, push_char, push_str, str_to_string, to_chars};

verus! {

/// `Path::join` of a relative component on Windows: the component is appended
/// after a `\` unless the base is empty or already ends with a separator.
pub open spec fn path_join(base: Seq<char>, name: Seq<char>) -> Seq<char> {
    if base.len() == 0 {
        name
    } else if base.last() == '\\' || base.last() == '/' {
        base + name
    } else {
        base + seq!['\\'] + name
    }
}

/// Joins a relative component onto a directory.
pub fn join(base: &str, name: &str) -> (r: String)
    ensures
        r@ == path_join(base@, name@),
{
    let b = to_chars(base);
    let mut s = chars_to_string(b.as_slice());
    if b.len() == 0 {
        return str_to_string(name);
    }
    let last = b[b.len() - 1];
    if last != '\\' && last != '/' {
        push_char(&mut s, '\\');
    }
    push_str(&mut s, name);
    assert(s@ =~= path_join(base@, name@));
    s
}

/// The `bin` directory beside the program.
pub fn get_bin_dir(exe_dir: &str) -> (r: String)
    ensures
        r@ == path_join(exe_dir@, "bin"@),
{
    join(exe_dir, "bin")
}

/// Windows PE images: `bin\pe`.
pub fn get_pe_dir(exe_dir: &str) -> (r: String)
    ensures
        r@ == path_join(path_join(exe_dir@, "bin"@), "pe"@),
{
    let bin = get_bin_dir(exe_dir);
    join(bin.as_str(), "pe")
}

/// Tools now sit directly in `bin`.
pub fn get_tools_dir(exe_dir: &str) -> (r: String)
    ensures
        r@ == path_join(exe_dir@, "bin"@),
{
    get_bin_dir(exe_dir)
}

/// Drivers: `bin\drivers`.
pub fn get_drivers_dir(exe_dir: &str) -> (r: String)
    ensures
        r@ == path_join(path_join(exe_dir@, "bin"@), "drivers"@),
{
    let bin = get_bin_dir(exe_dir);
    join(bin.as_str(), "drivers")
}

/// User partition scripts: `bin\diskpart` when that directory exists, else the
/// older `diskpart` beside the program.
pub fn get_diskpart_scripts_dir(exe_dir: &str, bin_diskpart_exists: bool) -> (r: String)
    ensures
        r@ == if bin_diskpart_exists {
            path_join(path_join(exe_dir@, "bin"@), "diskpart"@)
        } else {
            path_join(exe_dir@, "diskpart"@)
        },
{
    if bin_diskpart_exists {
        let bin = get_bin_dir(exe_dir);
        join(bin.as_str(), "diskpart")
    } else {
        join(exe_dir, "diskpart")
    }
}

/// UEFI compatibility files: `bin\uefiseven`.
pub fn get_uefiseven_dir(exe_dir: &str) -> (r: String)
    ensures
        r@ == path_join(path_join(exe_dir@, "bin"@), "uefiseven"@),
{
    let bin = get_bin_dir(exe_dir);
    join(bin.as_str(), "uefiseven")
}

/// Scratch files: `temp` beside the program.
pub fn get_temp_dir(exe_dir: &str) -> (r: String)
    ensures
        r@ == path_join(exe_dir@, "temp"@),
{
    join(exe_dir, "temp")
}

} // verus!
