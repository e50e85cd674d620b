//! Plain descriptions of disks and partitions, as the system reports them.
use vstd::prelude::*;

verus! {

/// A partition as read from a physical disk's partition table.
#[derive(Debug, Clone, Copy, PartialEq, Eq, Structural)]
pub struct DiskPartitionInfo {
    pub partition_number: u32,
    pub drive_letter: Option<char>,
    pub offset_bytes: u64,
    pub size_bytes: u64,
    pub used_bytes: u64,
    pub free_bytes: u64,
    pub is_esp: bool,
    pub is_msr: bool,
    pub is_recovery: bool,
    /// MBR boot indicator (0x80).
    pub is_active: bool,
}

/// A physical disk and its partitions, in table order.
#[derive(Debug, Clone)]
pub struct PhysicalDisk {
    pub disk_number: u32,
    pub size_bytes: u64,
    pub partitions: Vec<DiskPartitionInfo>,
}

/// Partition table style of a disk.
#[derive(Debug, Clone, Copy, PartialEq, Eq, Structural)]
pub enum PartitionStyle {
    MBR,
    GPT,
    Unknown,
}

/// A volume as listed by drive letter.
#[derive(Debug, Clone)]
pub struct Partition {
    pub letter: String,
    pub label: String,
    pub total_size_mb: u64,
    pub free_size_mb: u64,
    pub has_windows: bool,
    pub is_system_partition: bool,
    pub partition_style: PartitionStyle,
    pub disk_number: Option<u32>,
    pub partition_number: Option<u32>,
}

} // verus!
