//! Starting an installation that has been set up: the progress page moves to its
//! first step, and the direct installation or the preparation through PE is
//! started with what the setup fixed (target, image, volume, options).
use vstd::prelude::*;
use crate::app_state::{App, InstallOptions, InstallProgress, InstallState};
use crate::direct_install::{progress_view, start_msgs, start_work, DirectAction, DirectInstall};
use crate::disk::{Partition, PartitionStyle};
use crate::paths::{join, path_join};
use crate::pe_install::{pe_start, PeAction, PeInstall};
use crate::text::{chars_eq, str_to_string, to_chars};

verus! {

/// The two option sets are the same.
pub open spec fn same_options(a: InstallOptions, b: InstallOptions) -> bool {
    &&& a.format_partition == b.format_partition
    &&& a.repair_boot == b.repair_boot
    &&& a.unattended_install == b.unattended_install
    &&& a.export_drivers == b.export_drivers
    &&& a.auto_reboot == b.auto_reboot
    &&& a.boot_mode == b.boot_mode
    &&& a.driver_action == b.driver_action
    &&& a.custom_unattend_path@ == b.custom_unattend_path@
    &&& a.is_xp == b.is_xp
    &&& a.is_xp_i386 == b.is_xp_i386
    &&& a.run_diskpart_scripts == b.run_diskpart_scripts
}

/// The first partition from `i` on whose letter is `l`.
pub open spec fn first_with_letter(ps: Seq<Partition>, l: Seq<char>, i: int) -> Option<int>
    decreases ps.len() - i,
{
    if i < 0 || i >= ps.len() {
        None
    } else if ps[i].letter@ == l {
        Some(i)
    } else {
        first_with_letter(ps, l, i + 1)
    }
}

/// The table style, disk number and partition number of the install target, found
/// by its letter among the listed partitions: unknown and none when it is not listed.
pub open spec fn target_layout(ps: Seq<Partition>, l: Seq<char>) -> (PartitionStyle, Option<u32>, Option<u32>) {
    match first_with_letter(ps, l, 0) {
        Some(i) => (ps[i].partition_style, ps[i].disk_number, ps[i].partition_number),
        None => (PartitionStyle::Unknown, None, None),
    }
}

/// The progress page moved to step 1, named `step`; with `clear_error` the last
/// failure is forgotten. Nothing else changes.
pub open spec fn first_step_shown(a: App, b: App, step: Seq<char>, clear_error: bool) -> bool {
    &&& b.install.progress.current_step@ == step
    &&& b == (App {
        install: InstallState {
            install_step: 1,
            progress: InstallProgress { current_step: b.install.progress.current_step, ..a.install.progress },
            install_error: if clear_error { None } else { a.install.install_error },
            ..a.install
        },
        ..a
    })
}

fn copy_options(o: &InstallOptions) -> (r: InstallOptions)
    ensures
        same_options(r, *o),
{
    InstallOptions {
        format_partition: o.format_partition,
        repair_boot: o.repair_boot,
        unattended_install: o.unattended_install,
        export_drivers: o.export_drivers,
        auto_reboot: o.auto_reboot,
        boot_mode: o.boot_mode,
        driver_action: o.driver_action,
        custom_unattend_path: str_to_string(o.custom_unattend_path.as_str()),
        is_xp: o.is_xp,
        is_xp_i386: o.is_xp_i386,
        run_diskpart_scripts: o.run_diskpart_scripts,
    }
}

fn find_letter(ps: &Vec<Partition>, l: &str) -> (r: Option<usize>)
    ensures
        match r {
            Some(i) => i < ps@.len() && first_with_letter(ps@, l@, 0) == Some(i as int),
            None => first_with_letter(ps@, l@, 0) is None,
        },
{
    let lv = to_chars(l);
    let mut i: usize = 0;
    while i < ps.len()
        invariant
            i <= ps@.len(),
            lv@ == l@,
            first_with_letter(ps@, l@, 0) == first_with_letter(ps@, l@, i as int),
        decreases ps.len() - i,
    {
        let pv = to_chars(ps[i].letter.as_str());
        if chars_eq(pv.as_slice(), lv.as_slice()) {
            return Some(i);
        }
        i = i + 1;
    }
    None
}

impl App {
    /// Starts the direct installation that was set up: the target's table style
    /// and disk and partition numbers are looked up by its letter (the installation
    /// finds the target again by these numbers after partition scripts ran), the
    /// progress page shows step 1 with no old failure, and the installation starts;
    /// drivers are exported under `temp_dir`.
    pub fn start_direct_install_thread(&mut self, win7_uefi_patch: bool, temp_dir: &str) -> (r: (DirectInstall, DirectAction))
        ensures
            first_step_shown(*old(self), *final(self), "格式化分区"@, true),
            ({
                let a = old(self).install;
                let (style, disk, part) = target_layout(old(self).target.partitions@, a.target_partition@);
                &&& r.0.target_partition@ == a.target_partition@
                &&& r.0.partition_style == style
                &&& r.0.target_disk == disk
                &&& r.0.target_part_no == part
                &&& r.0.image_path@ == a.image_path@
                &&& r.0.volume_index == a.volume_index
                &&& same_options(r.0.options, a.options)
                &&& r.0.win7_uefi_patch == win7_uefi_patch
                &&& r.0.backup_dir@ == path_join(temp_dir@, "LetRecovery_DriverBackup"@)
            }),
            progress_view(r.1.progress@) == start_msgs(r.0),
            start_work(r.0, r.1.work),
    {
        let (style, disk, part) = match find_letter(&self.target.partitions, self.install.target_partition.as_str()) {
            Some(i) => {
                let p = &self.target.partitions[i];
                (p.partition_style, p.disk_number, p.partition_number)
            },
            None => (PartitionStyle::Unknown, None, None),
        };
        self.install.install_step = 1;
        self.install.progress.current_step = str_to_string("格式化分区");
        self.install.install_error = None;
        let options = copy_options(&self.install.options);
        let backup_dir = join(temp_dir, "LetRecovery_DriverBackup");
        DirectInstall::new(
            self.install.target_partition.as_str(),
            style,
            disk,
            part,
            self.install.image_path.as_str(),
            self.install.volume_index,
            options,
            win7_uefi_patch,
            backup_dir.as_str(),
        )
    }

    /// Starts preparing the installation through PE that was set up: the progress
    /// page shows step 1, and the preparation starts with the chosen PE (its file
    /// and boot entry name); without a chosen PE it ends at once.
    pub fn start_pe_install_thread(&mut self, win7_uefi_patch: bool) -> (r: (PeInstall, PeAction))
        ensures
            first_step_shown(*old(self), *final(self), "检查PE环境"@, false),
            ({
                let a = old(self).install;
                &&& r.0.target_partition@ == a.target_partition@
                &&& r.0.image_path@ == a.image_path@
                &&& r.0.volume_index == a.volume_index
                &&& same_options(r.0.options, a.options)
                &&& r.0.win7_uefi_patch == win7_uefi_patch
                &&& r.0.display_name@ == match old(self).pe_choice {
                    Some(p) => p.display_name@,
                    None => Seq::<char>::empty(),
                }
            }),
            pe_start(
                match old(self).pe_choice {
                    Some(p) => Some(p.filename@),
                    None => None,
                },
                progress_view(r.1.progress@),
                r.0,
                r.1.work,
            ),
    {
        self.install.install_step = 1;
        self.install.progress.current_step = str_to_string("检查PE环境");
        let options = copy_options(&self.install.options);
        let (file, name) = match &self.pe_choice {
            Some(p) => (Some(p.filename.as_str()), str_to_string(p.display_name.as_str())),
            None => (None, String::new()),
        };
        PeInstall::new(
            self.install.target_partition.as_str(),
            self.install.image_path.as_str(),
            self.install.volume_index,
            options,
            win7_uefi_patch,
            file,
            name.as_str(),
        )
    }
}

} // verus!
