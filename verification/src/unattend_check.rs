//! Whether the target partition or the source medium brings its own answer file,
//! and the defaults that follow from it.
use vstd::prelude::*;
use crate::app_state::{App, TargetSelection, ends_with_lit, find_installable, first_installable, installable, is_wim_path, lower_chars};
use crate::command::strings_view;
use crate::text::{contains, dec, lowercase, push_dec, push_str, str_to_string, to_chars, trim, trim_chars, chars_eq};
use crate::wim::ImageInfo;

verus! {

/// The answer files found on a partition.
pub struct UnattendCheckResult {
    pub partition_letter: String,
    pub has_unattend: bool,
    pub detected_paths: Vec<String>,
}

/// Where answer files are looked for on a partition, relative to its root.
pub open spec fn unattend_suffixes() -> Seq<Seq<char>> {
    seq![
        "\\Windows\\Panther\\unattend.xml"@,
        "\\Windows\\Panther\\Unattend.xml"@,
        "\\Windows\\Panther\\autounattend.xml"@,
        "\\Windows\\Panther\\Autounattend.xml"@,
        "\\Windows\\System32\\Sysprep\\unattend.xml"@,
        "\\Windows\\System32\\Sysprep\\Unattend.xml"@,
        "\\Windows\\System32\\Sysprep\\Panther\\unattend.xml"@,
        "\\unattend.xml"@,
        "\\Unattend.xml"@,
        "\\autounattend.xml"@,
        "\\Autounattend.xml"@,
        "\\AutoUnattend.xml"@,
    ]
}

fn push_joined(v: &mut Vec<String>, base: &str, suffix: &str)
    ensures
        strings_view(final(v)@) == strings_view(old(v)@).push(base@ + suffix@),
{
    let mut s = str_to_string(base);
    push_str(&mut s, suffix);
    v.push(s);
    assert(strings_view(v@) =~= strings_view(old(v)@).push(base@ + suffix@));
}

/// The places on `partition_letter` (such as `D:`) where an answer file is looked
/// for: after installation, for sysprep, and at the root of an install medium.
pub fn unattend_locations(partition_letter: &str) -> (r: Vec<String>)
    ensures
        strings_view(r@) == unattend_suffixes().map_values(|s: Seq<char>| partition_letter@ + s),
{
    let mut v: Vec<String> = Vec::new();
    push_joined(&mut v, partition_letter, "\\Windows\\Panther\\unattend.xml");
    push_joined(&mut v, partition_letter, "\\Windows\\Panther\\Unattend.xml");
    push_joined(&mut v, partition_letter, "\\Windows\\Panther\\autounattend.xml");
    push_joined(&mut v, partition_letter, "\\Windows\\Panther\\Autounattend.xml");
    push_joined(&mut v, partition_letter, "\\Windows\\System32\\Sysprep\\unattend.xml");
    push_joined(&mut v, partition_letter, "\\Windows\\System32\\Sysprep\\Unattend.xml");
    push_joined(&mut v, partition_letter, "\\Windows\\System32\\Sysprep\\Panther\\unattend.xml");
    push_joined(&mut v, partition_letter, "\\unattend.xml");
    push_joined(&mut v, partition_letter, "\\Unattend.xml");
    push_joined(&mut v, partition_letter, "\\autounattend.xml");
    push_joined(&mut v, partition_letter, "\\Autounattend.xml");
    push_joined(&mut v, partition_letter, "\\AutoUnattend.xml");
    assert(strings_view(v@) =~= unattend_suffixes().map_values(|s: Seq<char>| partition_letter@ + s));
    v
}

/// The locations among `locs` that exist, in order.
pub open spec fn present_of(locs: Seq<Seq<char>>, present: Seq<bool>) -> Seq<Seq<char>>
    decreases locs.len(),
{
    if locs.len() == 0 || present.len() == 0 {
        Seq::empty()
    } else {
        (if present[0] { seq![locs[0]] } else { Seq::empty() })
            + present_of(locs.drop_first(), present.drop_first())
    }
}

proof fn lemma_present_of_push(locs: Seq<Seq<char>>, present: Seq<bool>, k: int)
    requires
        0 <= k < locs.len(),
        locs.len() == present.len(),
    ensures
        present_of(locs.take(k + 1), present.take(k + 1))
            == present_of(locs.take(k), present.take(k)) + (if present[k] { seq![locs[k]] } else { Seq::<Seq<char>>::empty() }),
    decreases k,
{
    if k == 0 {
        assert(locs.take(1).drop_first() =~= Seq::<Seq<char>>::empty());
        assert(present_of(locs.take(0), present.take(0)) =~= Seq::<Seq<char>>::empty());
        assert(present_of(locs.take(1).drop_first(), present.take(1).drop_first()) =~= Seq::<Seq<char>>::empty());
    } else {
        lemma_present_of_push(locs.drop_first(), present.drop_first(), k - 1);
        assert(locs.take(k + 1).drop_first() =~= locs.drop_first().take(k));
        assert(present.take(k + 1).drop_first() =~= present.drop_first().take(k));
        assert(locs.take(k).drop_first() =~= locs.drop_first().take(k - 1));
        assert(present.take(k).drop_first() =~= present.drop_first().take(k - 1));
    }
}

impl App {
    /// The answer files of partition `partition_letter`, given which of its
    /// [`unattend_locations`] exist (`present`, in the same order).
    pub fn check_unattend_files_in_partition(partition_letter: &str, present: &Vec<bool>) -> (r: UnattendCheckResult)
        requires
            present@.len() == unattend_suffixes().len(),
        ensures
            r.partition_letter@ == partition_letter@,
            strings_view(r.detected_paths@) == present_of(
                unattend_suffixes().map_values(|s: Seq<char>| partition_letter@ + s),
                present@,
            ),
            r.has_unattend == (r.detected_paths@.len() > 0),
    {
        let locs = unattend_locations(partition_letter);
        let ghost lv = strings_view(locs@);
        assert(lv.len() == unattend_suffixes().len());
        let mut found: Vec<String> = Vec::new();
        let mut k: usize = 0;
        assert(present_of(lv.take(0), present@.take(0)) =~= Seq::<Seq<char>>::empty());
        while k < locs.len()
            invariant
                k <= locs.len(),
                locs@.len() == present@.len(),
                lv == strings_view(locs@),
                strings_view(found@) == present_of(lv.take(k as int), present@.take(k as int)),
            decreases locs.len() - k,
        {
            proof {
                lemma_present_of_push(lv, present@, k as int);
            }
            if present[k] {
                let ghost before = strings_view(found@);
                found.push(str_to_string(locs[k].as_str()));
                assert(strings_view(found@) =~= before + seq![lv[k as int]]);
            } else {
                assert(strings_view(found@) =~= strings_view(found@) + Seq::<Seq<char>>::empty());
            }
            k = k + 1;
        }
        assert(lv.take(locs.len() as int) =~= lv);
        assert(present@.take(locs.len() as int) =~= present@);
        let has = found.len() > 0;
        UnattendCheckResult { partition_letter: str_to_string(partition_letter), has_unattend: has, detected_paths: found }
    }

    /// Sets the answer-file default: generated only when neither the target nor
    /// the source brings an answer file. Only that choice changes.
    pub fn apply_unattend_default(&mut self)
        ensures
            final(self).target.unattended_install == !(old(self).target.partition_has_unattend
                || old(self).image.source_has_unattend),
            final(self).image == old(self).image,
            final(self).target.partition_has_unattend == old(self).target.partition_has_unattend,
            final(self).target.unattend_check_loading == old(self).target.unattend_check_loading,
            final(self).target.partitions == old(self).target.partitions,
            final(self).target.selected_partition == old(self).target.selected_partition,
            final(self).target.format_partition == old(self).target.format_partition,
            final(self).env == old(self).env,
            final(self).install == old(self).install,
            *final(self) == (App {
                target: TargetSelection { unattended_install: final(self).target.unattended_install, ..old(self).target },
                ..*old(self)
            }),
    {
        self.target.unattended_install = !(self.target.partition_has_unattend || self.image.source_has_unattend);
    }

    /// Takes the result of the background answer-file check, if one came. It counts
    /// only while a check is pending and only for the partition still selected; then
    /// the default is set again.
    pub fn check_unattend_status(&mut self, received: Option<UnattendCheckResult>)
        ensures
            final(self).image == old(self).image,
            final(self).env == old(self).env,
            final(self).install == old(self).install,
            final(self).target.partitions == old(self).target.partitions,
            final(self).target.selected_partition == old(self).target.selected_partition,
            final(self).target.format_partition == old(self).target.format_partition,
            match received {
                Some(res) if old(self).target.unattend_check_loading => {
                    &&& !final(self).target.unattend_check_loading
                    &&& if (old(self).selected_target() matches Some(p) && p.letter@ == res.partition_letter@) {
                        &&& final(self).target.partition_has_unattend == res.has_unattend
                        &&& final(self).target.unattended_install == !(res.has_unattend || old(self).image.source_has_unattend)
                    } else {
                        &&& final(self).target.partition_has_unattend == old(self).target.partition_has_unattend
                        &&& final(self).target.unattended_install == old(self).target.unattended_install
                    }
                },
                _ => final(self).target == old(self).target,
            },
    {
        if !self.target.unattend_check_loading {
            return;
        }
        match received {
            None => {},
            Some(res) => {
                self.target.unattend_check_loading = false;
                let same = match self.target.selected_partition {
                    Some(i) => if i < self.target.partitions.len() {
                        let a = to_chars(self.target.partitions[i].letter.as_str());
                        let b = to_chars(res.partition_letter.as_str());
                        chars_eq(a.as_slice(), b.as_slice())
                    } else {
                        false
                    },
                    None => false,
                };
                if same {
                    self.target.partition_has_unattend = res.has_unattend;
                    self.apply_unattend_default();
                }
            },
        }
    }

    /// The volume index to probe for an answer file inside the image, when the image
    /// is a WIM, ESD or SWM file: the first installable volume's, else the first
    /// volume's, else 1.
    pub fn source_unattend_probe_index(&self) -> (r: Option<u32>)
        ensures
            !is_wim_path(self.image.local_image_path@) ==> r is None,
            is_wim_path(self.image.local_image_path@) ==> r == Some(probe_index(self.image.image_volumes@)),
    {
        let l = lower_chars(self.image.local_image_path.as_str());
        if !(ends_with_lit(&l, ".wim") || ends_with_lit(&l, ".esd") || ends_with_lit(&l, ".swm")) {
            return None;
        }
        let vols = &self.image.image_volumes;
        proof {
            lemma_first_installable_bounds(vols@, 0);
        }
        match find_installable(vols) {
            Some(i) => {
                Some(vols[i].index)
            },
            None => if vols.len() > 0 { Some(vols[0].index) } else { Some(1) },
        }
    }

    /// Records whether the source brings an answer file and sets the default again.
    pub fn refresh_source_unattend(&mut self, detected: bool)
        ensures
            final(self).image.source_has_unattend == detected,
            final(self).target.unattended_install == !(old(self).target.partition_has_unattend || detected),
            final(self).image.local_image_path == old(self).image.local_image_path,
            final(self).image.image_volumes == old(self).image.image_volumes,
            final(self).image.selected_volume == old(self).image.selected_volume,
            final(self).target.partition_has_unattend == old(self).target.partition_has_unattend,
            final(self).env == old(self).env,
            final(self).install == old(self).install,
    {
        self.image.source_has_unattend = detected;
        self.apply_unattend_default();
    }

    /// Storage-controller drivers are imported by default exactly for Windows 10
    /// and later images; the default is set again only when the chosen volume
    /// changed, so that the user's own choice stays for the same volume.
    pub fn update_storage_controller_driver_default(&mut self)
        ensures
            ({
                let key = volume_key(*old(self));
                if opt_view(key) != opt_view_s(old(self).image.storage_driver_default_target) {
                    &&& opt_view_s(final(self).image.storage_driver_default_target) == opt_view(key)
                    &&& final(self).image.import_storage_controller_drivers == is_win10_or_later(*old(self))
                } else {
                    &&& final(self).image.storage_driver_default_target == old(self).image.storage_driver_default_target
                    &&& final(self).image.import_storage_controller_drivers == old(self).image.import_storage_controller_drivers
                }
            }),
            final(self).image.local_image_path == old(self).image.local_image_path,
            final(self).image.image_volumes == old(self).image.image_volumes,
            final(self).image.selected_volume == old(self).image.selected_volume,
            final(self).image.source_has_unattend == old(self).image.source_has_unattend,
            final(self).target == old(self).target,
            final(self).env == old(self).env,
            final(self).install == old(self).install,
    {
        let mut key: Option<String> = None;
        let mut win10 = false;
        if let Some(i) = self.image.selected_volume {
            if i < self.image.image_volumes.len() {
                let vol = &self.image.image_volumes[i];
                let mut k = str_to_string(self.image.local_image_path.as_str());
                push_str(&mut k, "::");
                push_dec(&mut k, vol.index as u64);
                push_str(&mut k, "::");
                push_str(&mut k, vol.name.as_str());
                key = Some(k);
                win10 = match vol.major_version {
                    Some(v) => v >= 10,
                    None => false,
                };
            }
        }
        let same = match (&key, &self.image.storage_driver_default_target) {
            (Some(a), Some(b)) => {
                let av = to_chars(a.as_str());
                let bv = to_chars(b.as_str());
                chars_eq(av.as_slice(), bv.as_slice())
            },
            (None, None) => true,
            _ => false,
        };
        if !same {
            self.image.storage_driver_default_target = key;
            self.image.import_storage_controller_drivers = win10;
        }
    }
}

/// The answer files looked for inside a WIM/ESD volume (by their paths in the image).
pub open spec fn embedded_unattend_paths_spec() -> Seq<Seq<char>> {
    seq![
        "\\Windows\\Panther\\unattend.xml"@,
        "\\Windows\\Panther\\Autounattend.xml"@,
        "\\Windows\\System32\\Sysprep\\unattend.xml"@,
        "\\unattend.xml"@,
    ]
}

/// The paths inside the image probed for an embedded answer file (see
/// [`embedded_unattend_paths_spec`]).
pub fn embedded_unattend_paths() -> (r: Vec<String>)
    ensures
        strings_view(r@) == embedded_unattend_paths_spec(),
{
    let mut v: Vec<String> = Vec::new();
    v.push(str_to_string("\\Windows\\Panther\\unattend.xml"));
    v.push(str_to_string("\\Windows\\Panther\\Autounattend.xml"));
    v.push(str_to_string("\\Windows\\System32\\Sysprep\\unattend.xml"));
    v.push(str_to_string("\\unattend.xml"));
    assert(strings_view(v@) =~= embedded_unattend_paths_spec());
    v
}

impl App {
    /// Whether the image volume brings its own answer file, from the probe of
    /// [`embedded_unattend_paths`] in it: a failed probe counts as none, so that it
    /// never stops the installation.
    pub fn wim_has_embedded_unattend(probe: Result<bool, String>) -> (r: bool)
        ensures
            r == (probe matches Ok(found) && found),
    {
        match probe {
            Ok(found) => found,
            Err(_) => false,
        }
    }
}

/// The volume index probed for an embedded answer file.
pub open spec fn probe_index(vols: Seq<ImageInfo>) -> u32 {
    match first_installable(vols, 0) {
        Some(i) => vols[i].index,
        None => if vols.len() > 0 { vols[0].index } else { 1 },
    }
}

pub proof fn lemma_first_installable_bounds(vols: Seq<ImageInfo>, i: int)
    requires
        0 <= i,
    ensures
        first_installable(vols, i) matches Some(k) ==> i <= k < vols.len() && installable(vols[k]),
    decreases vols.len() - i,
{
    if i < vols.len() && !installable(vols[i]) {
        lemma_first_installable_bounds(vols, i + 1);
    }
}

pub open spec fn opt_view(o: Option<Seq<char>>) -> Option<Seq<char>> {
    o
}

pub open spec fn opt_view_s(o: Option<String>) -> Option<Seq<char>> {
    match o {
        Some(s) => Some(s@),
        None => None,
    }
}

/// The chosen volume, as `path::index::name`.
pub open spec fn volume_key(a: App) -> Option<Seq<char>> {
    match a.image.selected_volume {
        Some(i) => if i < a.image.image_volumes@.len() {
            let v = a.image.image_volumes@[i as int];
            Some(a.image.local_image_path@ + "::"@ + dec(v.index as nat) + "::"@ + v.name@)
        } else {
            None
        },
        None => None,
    }
}

/// The chosen volume is Windows 10 or later (major version at least 10).
pub open spec fn is_win10_or_later(a: App) -> bool {
    match a.image.selected_volume {
        Some(i) => i < a.image.image_volumes@.len() && (a.image.image_volumes@[i as int].major_version matches Some(v)
            && v >= 10),
        None => false,
    }
}

/// The folder whose answer files count for an image: the drive's root for an image
/// under `\sources\` of a medium, else the image's folder (none: empty).
pub open spec fn unattend_base(image_path: Seq<char>) -> Seq<char> {
    if contains(lowercase(image_path), "\\sources\\"@) {
        match crate::text::find_from(image_path, "\\"@, 0) {
            Some(k) => image_path.take(k) + "\\"@,
            None => image_path,
        }
    } else {
        parent_of(image_path)
    }
}

/// Everything before the last `\` or `/` of a path (none: empty).
pub open spec fn parent_of(p: Seq<char>) -> Seq<char>
    decreases p.len(),
{
    if p.len() == 0 {
        p
    } else if crate::pe_install::is_separator(p.last()) {
        p.drop_last()
    } else {
        parent_of(p.drop_last())
    }
}

pub open spec fn source_unattend_names() -> Seq<Seq<char>> {
    seq!["autounattend.xml"@, "Autounattend.xml"@, "AutoUnattend.xml"@, "unattend.xml"@, "Unattend.xml"@]
}

/// The answer files whose presence means the medium or image folder brings one
/// (none for a blank path or one without a folder).
pub open spec fn source_candidates(image_path: Seq<char>) -> Seq<Seq<char>> {
    let base = unattend_base(image_path);
    if trim(image_path).len() == 0 || base.len() == 0 {
        Seq::empty()
    } else {
        source_unattend_names().map_values(|n: Seq<char>| crate::text::strip_trailing(base, '\\') + "\\"@ + n)
    }
}

proof fn lemma_parent_suffix(s: Seq<char>, i: int)
    requires
        0 <= i <= s.len(),
        forall|j: int| i <= j < s.len() ==> !crate::pe_install::is_separator(#[trigger] s[j]),
    ensures
        parent_of(s) == parent_of(s.subrange(0, i)),
    decreases s.len(),
{
    if i == s.len() {
        assert(s.subrange(0, i) =~= s);
    } else {
        let t = s.drop_last();
        assert forall|j: int| i <= j < t.len() implies !crate::pe_install::is_separator(#[trigger] t[j]) by {
            assert(t[j] == s[j]);
        }
        lemma_parent_suffix(t, i);
        assert(t.subrange(0, i) =~= s.subrange(0, i));
        assert(!crate::pe_install::is_separator(s[s.len() - 1]));
    }
}

fn parent_chars(v: &[char]) -> (r: Vec<char>)
    ensures
        r@ == parent_of(v@),
{
    let mut i: usize = v.len();
    while i > 0
        invariant
            i <= v.len(),
            forall|j: int| i <= j < v@.len() ==> !crate::pe_install::is_separator(#[trigger] v@[j]),
        ensures
            i == 0 || crate::pe_install::is_separator(v@[i - 1]),
            forall|j: int| i <= j < v@.len() ==> !crate::pe_install::is_separator(#[trigger] v@[j]),
        decreases i,
    {
        let c = v[i - 1];
        if c == '\\' || c == '/' {
            break;
        }
        i = i - 1;
    }
    proof {
        lemma_parent_suffix(v@, i as int);
    }
    if i == 0 {
        assert(v@.subrange(0, 0) =~= Seq::<char>::empty());
        Vec::new()
    } else {
        assert(v@.subrange(0, i as int).drop_last() =~= v@.subrange(0, i - 1));
        crate::text::slice_chars(v, 0, i - 1)
    }
}

fn base_chars(image_path: &str) -> (r: Vec<char>)
    ensures
        r@ == unattend_base(image_path@),
{
    let v = to_chars(image_path);
    let l = lower_chars(image_path);
    let pat = to_chars("\\sources\\");
    if crate::text::contains_chars(l.as_slice(), pat.as_slice()) {
        let sep = to_chars("\\");
        match crate::text::find_chars_from(v.as_slice(), sep.as_slice(), 0) {
            Some(k) => {
                proof {
                    crate::text::lemma_find_from(v@, sep@, 0);
                }
                let mut r = crate::text::slice_chars(v.as_slice(), 0, k);
                r.push('\\');
                proof {
                    reveal_strlit("\\");
                }
                assert(r@ =~= image_path@.take(k as int) + "\\"@);
                r
            },
            None => v,
        }
    } else {
        parent_chars(v.as_slice())
    }
}

/// The answer files whose presence means that the medium (for an image under
/// `\sources\`) or the image's folder brings its own (see [`source_candidates`]).
pub fn source_unattend_candidates(image_path: &str) -> (r: Vec<String>)
    ensures
        strings_view(r@) == source_candidates(image_path@),
{
    let v = to_chars(image_path);
    let t = trim_chars(v.as_slice());
    let base = base_chars(image_path);
    if t.len() == 0 || base.len() == 0 {
        return Vec::new();
    }
    let b = crate::text::strip_trailing_char(base.as_slice(), '\\');
    let mut root = crate::text::chars_to_string(b.as_slice());
    push_str(&mut root, "\\");
    let mut r: Vec<String> = Vec::new();
    push_joined(&mut r, root.as_str(), "autounattend.xml");
    push_joined(&mut r, root.as_str(), "Autounattend.xml");
    push_joined(&mut r, root.as_str(), "AutoUnattend.xml");
    push_joined(&mut r, root.as_str(), "unattend.xml");
    push_joined(&mut r, root.as_str(), "Unattend.xml");
    assert(strings_view(r@) =~= source_candidates(image_path@));
    r
}
} // verus!
