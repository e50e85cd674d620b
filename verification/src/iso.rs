//! Recognising a mounted ISO: which new drive letter it got, whether a drive holds
//! Windows install media, and which install source on it is used.
use vstd::prelude::*;
use crate::app_state::IsoMountResult;
use crate::command::strings_view;
use crate::text::{push_char, push_chars, push_str, str_to_string, strip_trailing, strip_trailing_char, to_chars};

verus! {

/// Mounting and recognising ISO images. Mounting itself is done by the system; these
/// functions decide from what the system reports.
pub struct IsoMounter;

/// Bit `i` (drive letter `A` + `i`) is set in `after` and not in `before`.
pub open spec fn appeared(before: u32, after: u32, i: u32) -> bool {
    (after & !before) & (1u32 << i) != 0u32
}

pub open spec fn letter_at(i: int) -> char {
    (65 + i) as char
}

/// The first drive from `D` + (`i` - 3) on that appeared and is a CD-ROM drive.
pub open spec fn first_new_cdrom(before: u32, after: u32, cdrom: Seq<bool>, i: int) -> Option<char>
    decreases 26 - i,
{
    if i < 0 || i >= 26 {
        None
    } else if appeared(before, after, i as u32) && cdrom[i] {
        Some(letter_at(i))
    } else {
        first_new_cdrom(before, after, cdrom, i + 1)
    }
}

/// `\sources\install.wim|esd|swm`, then `\I386` and `\AMD64` text-mode loaders.
pub open spec fn media_suffixes() -> Seq<Seq<char>> {
    seq![
        "\\sources\\install.wim"@,
        "\\sources\\install.esd"@,
        "\\sources\\install.swm"@,
        "\\I386\\setupldr.bin"@,
        "\\AMD64\\setupldr.bin"@,
    ]
}

pub open spec fn image_suffixes() -> Seq<Seq<char>> {
    seq!["\\sources\\install.wim"@, "\\sources\\install.esd"@, "\\sources\\install.swm"@]
}

/// The files that tell an XP/2003 source, per architecture (`AMD64` first): the
/// loader, the compressed NTFS driver, the plain NTFS driver.
pub open spec fn xp_suffixes() -> Seq<Seq<char>> {
    seq![
        "\\AMD64\\setupldr.bin"@,
        "\\AMD64\\ntfs.sy_"@,
        "\\AMD64\\ntfs.sys"@,
        "\\I386\\setupldr.bin"@,
        "\\I386\\ntfs.sy_"@,
        "\\I386\\ntfs.sys"@,
    ]
}

pub open spec fn under(drive: Seq<char>, suffixes: Seq<Seq<char>>) -> Seq<Seq<char>> {
    suffixes.map_values(|s: Seq<char>| strip_trailing(drive, '\\') + s)
}

/// The index of the first `true`, from `i` on.
pub open spec fn first_true(v: Seq<bool>, i: int) -> Option<int>
    decreases v.len() - i,
{
    if i < 0 || i >= v.len() {
        None
    } else if v[i] {
        Some(i)
    } else {
        first_true(v, i + 1)
    }
}

/// Which XP/2003 source directory is used: a complete one (loader and NTFS driver)
/// before one with the loader only, and `AMD64` before `I386` in each round (the
/// `I386` of an x64 medium is incomplete).
pub open spec fn xp_arch(present: Seq<bool>) -> Option<Seq<char>> {
    let amd64_full = present[0] && (present[1] || present[2]);
    let i386_full = present[3] && (present[4] || present[5]);
    if amd64_full {
        Some("AMD64"@)
    } else if i386_full {
        Some("I386"@)
    } else if present[0] {
        Some("AMD64"@)
    } else if present[3] {
        Some("I386"@)
    } else {
        None
    }
}

fn push_under(v: &mut Vec<String>, root: &Vec<char>, suffix: &str)
    ensures
        strings_view(final(v)@) == strings_view(old(v)@).push(root@ + suffix@),
{
    let mut s = String::new();
    push_chars(&mut s, root.as_slice());
    push_str(&mut s, suffix);
    v.push(s);
    assert(strings_view(v@) =~= strings_view(old(v)@).push(root@ + suffix@));
}

fn root_of(drive: &str) -> (r: Vec<char>)
    ensures
        r@ == strip_trailing(drive@, '\\'),
{
    let v = to_chars(drive);
    strip_trailing_char(v.as_slice(), '\\')
}

fn find_first_true(v: &Vec<bool>) -> (r: Option<usize>)
    ensures
        match r {
            Some(i) => i < v@.len() && first_true(v@, 0) == Some(i as int),
            None => first_true(v@, 0) is None,
        },
{
    let mut i: usize = 0;
    while i < v.len()
        invariant
            i <= v.len(),
            first_true(v@, 0) == first_true(v@, i as int),
        decreases v.len() - i,
    {
        if v[i] {
            return Some(i);
        }
        i = i + 1;
    }
    None
}

impl IsoMounter {
    /// The drive letter an ISO got: the first of `D`..`Z` that is set in
    /// `after_mask` but not in `before_mask` (logical-drive bit masks) and is a
    /// CD-ROM drive (`drive_is_cdrom`, indexed by letter from `A`).
    pub fn find_new_cdrom_drive(before_mask: u32, after_mask: u32, drive_is_cdrom: &Vec<bool>) -> (r: Option<char>)
        requires
            drive_is_cdrom@.len() == 26,
        ensures
            r == first_new_cdrom(before_mask, after_mask, drive_is_cdrom@, 3),
    {
        let fresh = after_mask & !before_mask;
        let mut i: u32 = 3;
        while i < 26
            invariant
                3 <= i <= 26,
                fresh == after_mask & !before_mask,
                drive_is_cdrom@.len() == 26,
                first_new_cdrom(before_mask, after_mask, drive_is_cdrom@, 3)
                    == first_new_cdrom(before_mask, after_mask, drive_is_cdrom@, i as int),
            decreases 26 - i,
        {
            let bit = 1u32 << i;
            if fresh & bit != 0 && drive_is_cdrom[i as usize] {
                return Some((65 + i) as u8 as char);
            }
            i = i + 1;
        }
        None
    }

    /// The files whose presence on `drive` marks Windows install media (see
    /// [`media_suffixes`]).
    pub fn install_media_files(drive: &str) -> (r: Vec<String>)
        ensures
            strings_view(r@) == under(drive@, media_suffixes()),
    {
        let root = root_of(drive);
        let mut v: Vec<String> = Vec::new();
        push_under(&mut v, &root, "\\sources\\install.wim");
        push_under(&mut v, &root, "\\sources\\install.esd");
        push_under(&mut v, &root, "\\sources\\install.swm");
        push_under(&mut v, &root, "\\I386\\setupldr.bin");
        push_under(&mut v, &root, "\\AMD64\\setupldr.bin");
        assert(strings_view(v@) =~= under(drive@, media_suffixes()));
        v
    }

    /// A drive is Windows install media (Vista or later, or XP/2003 text mode) when
    /// any of its [`install_media_files`](Self::install_media_files) exists
    /// (`present`, in the same order).
    pub fn is_windows_install_media(present: &Vec<bool>) -> (r: bool)
        requires
            present@.len() == media_suffixes().len(),
        ensures
            r == exists|i: int| 0 <= i < present@.len() && present@[i],
    {
        let f = find_first_true(present);
        proof {
            lemma_first_true(present@, 0);
        }
        f.is_some()
    }

    /// The files checked to recognise an XP/2003 source on `drive` (see
    /// [`xp_suffixes`]).
    pub fn xp_source_files(drive: &str) -> (r: Vec<String>)
        ensures
            strings_view(r@) == under(drive@, xp_suffixes()),
    {
        let root = root_of(drive);
        let mut v: Vec<String> = Vec::new();
        push_under(&mut v, &root, "\\AMD64\\setupldr.bin");
        push_under(&mut v, &root, "\\AMD64\\ntfs.sy_");
        push_under(&mut v, &root, "\\AMD64\\ntfs.sys");
        push_under(&mut v, &root, "\\I386\\setupldr.bin");
        push_under(&mut v, &root, "\\I386\\ntfs.sy_");
        push_under(&mut v, &root, "\\I386\\ntfs.sys");
        assert(strings_view(v@) =~= under(drive@, xp_suffixes()));
        v
    }

    /// The XP/2003 source directory on `drive`, given which of its
    /// [`xp_source_files`](Self::xp_source_files) exist (see [`xp_arch`]).
    pub fn xp_i386_dir(drive: &str, present: &Vec<bool>) -> (r: Option<String>)
        requires
            present@.len() == xp_suffixes().len(),
        ensures
            match xp_arch(present@) {
                Some(a) => r matches Some(d) && d@ == strip_trailing(drive@, '\\') + "\\"@ + a,
                None => r is None,
            },
    {
        let amd64_full = present[0] && (present[1] || present[2]);
        let i386_full = present[3] && (present[4] || present[5]);
        let arch = if amd64_full {
            "AMD64"
        } else if i386_full {
            "I386"
        } else if present[0] {
            "AMD64"
        } else if present[3] {
            "I386"
        } else {
            return None;
        };
        let root = root_of(drive);
        let mut d = String::new();
        push_chars(&mut d, root.as_slice());
        push_str(&mut d, "\\");
        push_str(&mut d, arch);
        Some(d)
    }

    /// The install images looked for on `drive`, in order of preference.
    pub fn install_image_files(drive: &str) -> (r: Vec<String>)
        ensures
            strings_view(r@) == image_suffixes().map_values(|s: Seq<char>| drive@ + s),
    {
        let mut v: Vec<String> = Vec::new();
        let mut s = str_to_string(drive);
        push_str(&mut s, "\\sources\\install.wim");
        v.push(s);
        let mut s = str_to_string(drive);
        push_str(&mut s, "\\sources\\install.esd");
        v.push(s);
        let mut s = str_to_string(drive);
        push_str(&mut s, "\\sources\\install.swm");
        v.push(s);
        assert(strings_view(v@) =~= image_suffixes().map_values(|s: Seq<char>| drive@ + s));
        v
    }

    /// The install image used on `drive`: the first of its
    /// [`install_image_files`](Self::install_image_files) that exists.
    pub fn find_install_image_in_drive(drive: &str, present: &Vec<bool>) -> (r: Option<String>)
        requires
            present@.len() == image_suffixes().len(),
        ensures
            match first_true(present@, 0) {
                Some(i) => r matches Some(p) && p@ == drive@ + image_suffixes()[i],
                None => r is None,
            },
    {
        let files = Self::install_image_files(drive);
        assert(strings_view(files@).len() == files@.len());
        assert(image_suffixes().map_values(|s: Seq<char>| drive@ + s).len() == 3);
        match find_first_true(present) {
            Some(i) => {
                assert(strings_view(files@)[i as int] == files@[i as int]@);
                Some(str_to_string(files[i].as_str()))
            },
            None => None,
        }
    }

    /// What mounting an ISO in the background reports: the drive it was mounted on
    /// (or why mounting failed), then which of that drive's
    /// [`install_image_files`](Self::install_image_files) and
    /// [`xp_source_files`](Self::xp_source_files) exist. An install image wins over an
    /// XP/2003 source; a drive with neither is refused.
    pub fn mount_outcome(mounted: Result<String, String>, image_present: &Vec<bool>, xp_present: &Vec<bool>) -> (r: IsoMountResult)
        requires
            image_present@.len() == image_suffixes().len(),
            xp_present@.len() == xp_suffixes().len(),
        ensures
            match mounted {
                Err(e) => r matches IsoMountResult::Error(m) && m@ == e@,
                Ok(drive) => match (first_true(image_present@, 0), xp_arch(xp_present@)) {
                    (Some(i), _) => r matches IsoMountResult::Success(p) && p@ == drive@ + image_suffixes()[i],
                    (None, Some(a)) => r matches IsoMountResult::XpI386(d)
                        && d@ == strip_trailing(drive@, '\\') + "\\"@ + a,
                    (None, None) => r matches IsoMountResult::Error(m) && m@ == "ISO 中未找到 install.wim/esd"@,
                },
            },
    {
        match mounted {
            Err(e) => IsoMountResult::Error(e),
            Ok(drive) => {
                if let Some(p) = Self::find_install_image_in_drive(drive.as_str(), image_present) {
                    IsoMountResult::Success(p)
                } else if let Some(d) = Self::xp_i386_dir(drive.as_str(), xp_present) {
                    IsoMountResult::XpI386(d)
                } else {
                    IsoMountResult::Error(str_to_string("ISO 中未找到 install.wim/esd"))
                }
            },
        }
    }

    /// The drive holding install media: the first of `D:`..`Z:` for which
    /// `media[letter - 'A']` says it holds Vista-or-later or XP/2003 install media.
    pub fn find_iso_drive(media: &Vec<bool>) -> (r: Option<String>)
        requires
            media@.len() == 26,
        ensures
            match first_true(media@, 3) {
                Some(i) => r matches Some(d) && d@ == seq![letter_at(i), ':'],
                None => r is None,
            },
    {
        let mut i: usize = 3;
        while i < 26
            invariant
                3 <= i <= 26,
                media@.len() == 26,
                first_true(media@, 3) == first_true(media@, i as int),
            decreases 26 - i,
        {
            if media[i] {
                let mut d = String::new();
                push_letter(&mut d, i);
                push_char(&mut d, ':');
                assert(d@ =~= seq![letter_at(i as int), ':']);
                return Some(d);
            }
            i = i + 1;
        }
        None
    }

    /// The drives ejected when every mounted ISO is unmounted: those of `D:`..`Z:`
    /// that are CD-ROM drives (`cdrom`) and hold a `\sources` directory (`sources`),
    /// in letter order.
    pub fn iso_drives_to_eject(cdrom: &Vec<bool>, sources: &Vec<bool>) -> (r: Vec<char>)
        requires
            cdrom@.len() == 26,
            sources@.len() == 26,
        ensures
            r@ == eject_from(cdrom@, sources@, 3),
    {
        let mut v: Vec<char> = Vec::new();
        let mut i: usize = 3;
        while i < 26
            invariant
                3 <= i <= 26,
                cdrom@.len() == 26,
                sources@.len() == 26,
                v@ + eject_from(cdrom@, sources@, i as int) == eject_from(cdrom@, sources@, 3),
            decreases 26 - i,
        {
            if cdrom[i] && sources[i] {
                let c = letter(i);
                assert(v@.push(c) + eject_from(cdrom@, sources@, i + 1) =~= v@ + eject_from(cdrom@, sources@, i as int));
                v.push(c);
            } else {
                assert(v@ + eject_from(cdrom@, sources@, i + 1) =~= v@ + eject_from(cdrom@, sources@, i as int));
            }
            i = i + 1;
        }
        assert(v@ + eject_from(cdrom@, sources@, 26) =~= v@);
        v
    }
}

/// The letters from `A` + `i` up to `Z` of CD-ROM drives holding `\sources`.
pub open spec fn eject_from(cdrom: Seq<bool>, sources: Seq<bool>, i: int) -> Seq<char>
    decreases 26 - i,
{
    if i < 0 || i >= 26 {
        Seq::empty()
    } else if cdrom[i] && sources[i] {
        seq![letter_at(i)] + eject_from(cdrom, sources, i + 1)
    } else {
        eject_from(cdrom, sources, i + 1)
    }
}

fn letter(i: usize) -> (c: char)
    requires
        i < 26,
    ensures
        c == letter_at(i as int),
{
    (65 + i as u8) as char
}

fn push_letter(s: &mut String, i: usize)
    requires
        i < 26,
    ensures
        final(s)@ == old(s)@.push(letter_at(i as int)),
{
    push_char(s, letter(i));
}

pub proof fn lemma_first_true(v: Seq<bool>, i: int)
    requires
        0 <= i,
    ensures
        (first_true(v, i) is Some) == (exists|j: int| i <= j < v.len() && v[j]),
    decreases v.len() - i,
{
    if i < v.len() {
        lemma_first_true(v, i + 1);
        if v[i] {
        } else {
            if exists|j: int| i <= j < v.len() && v[j] {
                let j = choose|j: int| i <= j < v.len() && v[j];
                assert(i + 1 <= j);
            }
        }
    }
}

} // verus!
