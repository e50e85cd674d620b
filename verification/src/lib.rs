//! The decisions of a Windows reinstallation and recovery tool, verified.
//!
//! Every module states in its contracts what the tool decides: how Ghost and WIM
//! images are read, which scripts and commands go to diskpart, bcdedit and
//! bcdboot, how an installation proceeds step by step (directly or through
//! Windows PE), how boot files are repaired, and what the tool dialogs do with
//! what the system reports. The work with files, disks and processes is left to
//! the caller, which hands the outcomes back: the long-running flows are state
//! machines whose `advance` functions take the outcome of the last piece of work
//! and name the next one.
use vstd::prelude::*;

pub mod text;
pub mod gho;
pub mod wim;
pub mod dism;
pub mod install;
pub mod disk;
pub mod expand;
pub mod paths;
pub mod command;
pub mod bcd;
pub mod pe;
pub mod app_state;
pub mod tools_state;
pub mod repair;
pub mod esp;
pub mod direct_install;
pub mod pe_install;
pub mod diskpart;
pub mod relocate;
pub mod unattend;
pub mod unattend_check;
pub mod iso;
pub mod esp_on_disk;
pub mod bitlocker_manage;
pub mod tool_jobs;
pub mod cli_install;
pub mod partition_copy;
pub mod pe_boot;
pub mod expand_handoff;

verus! {

} // verus!
pub mod install_start;
