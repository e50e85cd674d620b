//! Booting into Windows PE: which file boots it, the BCD entries it needs,
//! reading GUIDs from `bcdedit` output, and the Secure Boot check on the
//! PE boot loader.
use vstd::prelude::*;
use crate::command::{command, strings_view, CommandSpec};
use crate::paths::{join, path_join};
use crate::text::{
    chars_to_string, contains, contains_chars, ends_with, ends_with_chars, find_chars_from,
    find_from, lemma_find_from, lemma_find_from_at, lines, strip_cr, lines_of, lines_view, lowercase, lowercase_chars,
    occurs_at, push_str, slice_chars, split_whitespace, starts_with, starts_with_chars,
    str_to_string, to_chars, ws_tokens,
};

verus! {

/// The kind of file a PE boots from.
#[derive(Debug, Clone, Copy, PartialEq, Eq, Structural)]
pub enum PeSource {
    Iso,
    Wim,
}

/// Why preparing the PE boot failed.
#[derive(Debug, Clone, PartialEq, Eq)]
pub enum PeError {
    UnsupportedFormat,
    /// No GUID in this `bcdedit` output.
    GuidNotFound(String),
}

pub open spec fn pe_error_message(e: PeError) -> Seq<char> {
    match e {
        PeError::UnsupportedFormat => "不支持的PE文件格式，请使用 .iso 或 .wim 文件"@,
        PeError::GuidNotFound(o) => "无法从bcdedit输出中提取GUID: "@ + o@,
    }
}

impl PeError {
    /// The message shown to the user.
    pub fn message(&self) -> (r: String)
        ensures
            r@ == pe_error_message(*self),
    {
        match self {
            PeError::UnsupportedFormat => str_to_string("不支持的PE文件格式，请使用 .iso 或 .wim 文件"),
            PeError::GuidNotFound(o) => {
                let mut s = str_to_string("无法从bcdedit输出中提取GUID: ");
                push_str(&mut s, o.as_str());
                s
            },
        }
    }
}

/// Preparation of a one-time boot into Windows PE.
pub struct PeManager {
    bcdedit_path: String,
    bcdboot_path: String,
}

pub open spec fn pe_source_spec(pe_path: Seq<char>) -> Result<PeSource, PeError> {
    if ends_with(lowercase(pe_path), ".iso"@) {
        Ok(PeSource::Iso)
    } else if ends_with(lowercase(pe_path), ".wim"@) {
        Ok(PeSource::Wim)
    } else {
        Err(PeError::UnsupportedFormat)
    }
}

impl PeManager {
    pub closed spec fn bcdedit(&self) -> Seq<char> {
        self.bcdedit_path@
    }

    pub closed spec fn bcdboot(&self) -> Seq<char> {
        self.bcdboot_path@
    }

    /// Uses the tools in `bin_dir`.
    pub fn new(bin_dir: &str) -> (r: PeManager)
        ensures
            r.bcdedit() == path_join(bin_dir@, "bcdedit.exe"@),
            r.bcdboot() == path_join(bin_dir@, "bcdboot.exe"@),
    {
        PeManager {
            bcdedit_path: join(bin_dir, "bcdedit.exe"),
            bcdboot_path: join(bin_dir, "bcdboot.exe"),
        }
    }

    /// The path of `bcdedit.exe` used.
    pub fn bcdedit_path(&self) -> (r: String)
        ensures
            r@ == self.bcdedit(),
    {
        str_to_string(self.bcdedit_path.as_str())
    }

    /// How a PE file boots: an `.iso` is mounted and its `boot.wim` used, a `.wim`
    /// is used directly (extension in any case); anything else is refused.
    pub fn boot_to_pe(&self, pe_path: &str) -> (r: Result<PeSource, PeError>)
        ensures
            r == pe_source_spec(pe_path@),
    {
        let p = to_chars(pe_path);
        let l = lowercase_chars(p.as_slice());
        let iso = to_chars(".iso");
        let wim = to_chars(".wim");
        if ends_with_chars(l.as_slice(), iso.as_slice()) {
            Ok(PeSource::Iso)
        } else if ends_with_chars(l.as_slice(), wim.as_slice()) {
            Ok(PeSource::Wim)
        } else {
            Err(PeError::UnsupportedFormat)
        }
    }

    /// `shutdown` restarting in 3 seconds into the PE.
    pub fn reboot() -> (r: CommandSpec)
        ensures
            r.program@ == "shutdown"@,
            r.args_view() == seq!["/r"@, "/t"@, "3"@, "/c"@, "LetRecovery 正在重启到 PE 环境..."@],
    {
        let c = command("shutdown", &["/r", "/t", "3", "/c", "LetRecovery 正在重启到 PE 环境..."]);
        assert(c.args_view() =~= seq!["/r"@, "/t"@, "3"@, "/c"@, "LetRecovery 正在重启到 PE 环境..."@]);
        c
    }

    /// `bcdedit /create /d "<name> RAM" /device`: the ramdisk options entry.
    pub fn ramdisk_create(&self, display_name: &str) -> (r: CommandSpec)
        ensures
            r.program@ == self.bcdedit(),
            r.args_view() == seq!["/create"@, "/d"@, display_name@ + " RAM"@, "/device"@],
    {
        let mut d = str_to_string(display_name);
        push_str(&mut d, " RAM");
        let c = command(self.bcdedit_path.as_str(), &["/create", "/d", d.as_str(), "/device"]);
        assert(c.args_view() =~= seq!["/create"@, "/d"@, display_name@ + " RAM"@, "/device"@]);
        c
    }

    /// `bcdedit /create /d "<name>" /application osloader`: the PE loader entry.
    pub fn osloader_create(&self, display_name: &str) -> (r: CommandSpec)
        ensures
            r.program@ == self.bcdedit(),
            r.args_view() == seq!["/create"@, "/d"@, display_name@, "/application"@, "osloader"@],
    {
        let c = command(
            self.bcdedit_path.as_str(),
            &["/create", "/d", display_name, "/application", "osloader"],
        );
        assert(c.args_view() =~= seq!["/create"@, "/d"@, display_name@, "/application"@, "osloader"@]);
        c
    }

    /// `bcdedit /displayorder <guid> /addfirst`.
    pub fn display_order_first(&self, loader_guid: &str) -> (r: CommandSpec)
        ensures
            r.program@ == self.bcdedit(),
            r.args_view() == seq!["/displayorder"@, loader_guid@, "/addfirst"@],
    {
        let c = command(self.bcdedit_path.as_str(), &["/displayorder", loader_guid, "/addfirst"]);
        assert(c.args_view() =~= seq!["/displayorder"@, loader_guid@, "/addfirst"@]);
        c
    }

    /// `bcdedit /bootsequence <guid>`: boot the PE once, next time.
    pub fn boot_sequence(&self, loader_guid: &str) -> (r: CommandSpec)
        ensures
            r.program@ == self.bcdedit(),
            r.args_view() == seq!["/bootsequence"@, loader_guid@],
    {
        let c = command(self.bcdedit_path.as_str(), &["/bootsequence", loader_guid]);
        assert(c.args_view() =~= seq!["/bootsequence"@, loader_guid@]);
        c
    }
}

// ---------------------------------------------------------------------------
// BCD paths and settings
// ---------------------------------------------------------------------------

/// What `str::replace(from, to)` returns for a non-empty `from`.
pub open spec fn replace_all(s: Seq<char>, from: Seq<char>, to: Seq<char>) -> Seq<char>
    decreases s.len(),
{
    if from.len() == 0 {
        s
    } else {
        match find_from(s, from, 0) {
            None => s,
            Some(i) => {
                proof {
                    lemma_find_from(s, from, 0);
                }
                s.take(i) + to + replace_all(s.skip(i + from.len()), from, to)
            },
        }
    }
}

fn replace_chars(s: &[char], from: &[char], to: &[char]) -> (r: Vec<char>)
    requires
        from@.len() > 0,
    ensures
        r@ == replace_all(s@, from@, to@),
{
    let slen = s.len();
    let mut out: Vec<char> = Vec::new();
    let mut pos: usize = 0;
    assert(s@.skip(0) =~= s@);
    while pos <= slen
        invariant
            pos <= slen,
            slen == s@.len(),
            from@.len() > 0,
            replace_all(s@, from@, to@) == out@ + replace_all(s@.skip(pos as int), from@, to@),
        decreases slen - pos,
    {
        let ghost rest = s@.skip(pos as int);
        match find_chars_from(s, from, pos) {
            None => {
                proof {
                    lemma_find_from(s@, from@, pos as int);
                    if let Some(k) = find_from(rest, from@, 0) {
                        lemma_find_from(rest, from@, 0);
                        assert(s@.subrange(pos + k, pos + k + from@.len()) =~= rest.subrange(
                            k,
                            k + from@.len(),
                        ));
                        assert(occurs_at(s@, from@, pos + k));
                    }
                }
                let tail = slice_chars(s, pos, slen);
                let ghost before = out@;
                let mut i: usize = 0;
                while i < tail.len()
                    invariant
                        i <= tail.len(),
                        out@ == before + tail@.take(i as int),
                    decreases tail.len() - i,
                {
                    out.push(tail[i]);
                    assert(tail@.take(i as int).push(tail@[i as int]) =~= tail@.take(i + 1));
                    i = i + 1;
                }
                assert(tail@.take(tail.len() as int) =~= tail@);
                assert(tail@ =~= rest);
                return out;
            },
            Some(j) => {
                proof {
                    lemma_find_from(s@, from@, pos as int);
                    let k = j - pos;
                    assert forall|m: int| 0 <= m < k implies !occurs_at(rest, from@, m) by {
                        if occurs_at(rest, from@, m) {
                            assert(s@.subrange(pos + m, pos + m + from@.len()) =~= rest.subrange(
                                m,
                                m + from@.len(),
                            ));
                            assert(occurs_at(s@, from@, pos + m));
                        }
                    }
                    assert(rest.subrange(k, k + from@.len()) =~= s@.subrange(j as int, j + from@.len()));
                    crate::text::lemma_find_from_at(rest, from@, 0, k);
                }
                let ghost before = out@;
                let mut i = pos;
                while i < j
                    invariant
                        pos <= i <= j,
                        j <= slen,
                        slen == s@.len(),
                        out@ == before + s@.subrange(pos as int, i as int),
                    decreases j - i,
                {
                    out.push(s[i]);
                    assert(s@.subrange(pos as int, i + 1) =~= s@.subrange(pos as int, i as int).push(s@[i as int]));
                    i = i + 1;
                }
                let ghost mid = out@;
                let mut t: usize = 0;
                while t < to.len()
                    invariant
                        t <= to.len(),
                        out@ == mid + to@.take(t as int),
                    decreases to.len() - t,
                {
                    out.push(to[t]);
                    assert(to@.take(t as int).push(to@[t as int]) =~= to@.take(t + 1));
                    t = t + 1;
                }
                assert(to@.take(to.len() as int) =~= to@);
                let k: Ghost<int> = Ghost(j - pos);
                assert(rest.take(k@) =~= s@.subrange(pos as int, j as int));
                assert(rest.skip(k@ + from@.len()) =~= s@.skip(j + from@.len()));
                pos = j + from.len();
            },
        }
    }
    out
}

/// The BCD form of a path on C:: every `C:` removed and every `/` turned into `\`.
pub open spec fn bcd_path_spec(p: Seq<char>) -> Seq<char> {
    replace_all(replace_all(p, "C:"@, Seq::empty()), "/"@, "\\"@)
}

proof fn lemma_lit_lens()
    ensures
        "C:"@.len() == 2,
        "/"@.len() == 1,
{
    reveal_strlit("C:");
    reveal_strlit("/");
}

/// Converts a path on C: to the form BCD stores.
pub fn bcd_path(p: &str) -> (r: String)
    ensures
        r@ == bcd_path_spec(p@),
{
    proof {
        lemma_lit_lens();
    }
    let v = to_chars(p);
    let c = to_chars("C:");
    let empty: Vec<char> = Vec::new();
    let a = replace_chars(v.as_slice(), c.as_slice(), empty.as_slice());
    assert(empty@ =~= Seq::<char>::empty());
    let slash = to_chars("/");
    let back = to_chars("\\");
    let b = replace_chars(a.as_slice(), slash.as_slice(), back.as_slice());
    chars_to_string(b.as_slice())
}

/// The boot loader of the PE inside its image.
pub open spec fn winload_path(is_uefi: bool) -> Seq<char> {
    if is_uefi {
        "\\windows\\system32\\boot\\winload.efi"@
    } else {
        "\\windows\\system32\\boot\\winload.exe"@
    }
}

/// The BCD device of the PE image: `ramdisk=[C:]<wim>,<ramdisk guid>`.
pub open spec fn ramdisk_device(wim_bcd_path: Seq<char>, ramdisk_guid: Seq<char>) -> Seq<char> {
    "ramdisk=[C:]"@ + wim_bcd_path + ","@ + ramdisk_guid
}

/// The settings of the ramdisk entry.
pub open spec fn ramdisk_settings_spec(ramdisk_guid: Seq<char>, sdi_bcd_path: Seq<char>) -> Seq<Seq<Seq<char>>> {
    seq![
        seq!["/set"@, ramdisk_guid, "ramdisksdidevice"@, "partition=C:"@],
        seq!["/set"@, ramdisk_guid, "ramdisksdipath"@, sdi_bcd_path],
    ]
}

/// The settings of the PE loader entry.
pub open spec fn loader_settings_spec(loader_guid: Seq<char>, device: Seq<char>, is_uefi: bool) -> Seq<Seq<Seq<char>>> {
    seq![
        seq!["/set"@, loader_guid, "device"@, device],
        seq!["/set"@, loader_guid, "path"@, winload_path(is_uefi)],
        seq!["/set"@, loader_guid, "osdevice"@, device],
        seq!["/set"@, loader_guid, "systemroot"@, "\\windows"@],
        seq!["/set"@, loader_guid, "detecthal"@, "yes"@],
        seq!["/set"@, loader_guid, "winpe"@, "yes"@],
        seq!["/set"@, loader_guid, "ems"@, "no"@],
    ]
}

pub open spec fn args_list_view(v: Seq<Vec<String>>) -> Seq<Seq<Seq<char>>> {
    v.map_values(|a: Vec<String>| strings_view(a@))
}

fn args4(a: &str, b: &str, c: &str, d: &str) -> (r: Vec<String>)
    ensures
        strings_view(r@) == seq![a@, b@, c@, d@],
{
    let mut r: Vec<String> = Vec::new();
    r.push(str_to_string(a));
    r.push(str_to_string(b));
    r.push(str_to_string(c));
    r.push(str_to_string(d));
    assert(strings_view(r@) =~= seq![a@, b@, c@, d@]);
    r
}

/// The `bcdedit` arguments that configure the ramdisk entry.
pub fn ramdisk_settings(ramdisk_guid: &str, sdi_bcd_path: &str) -> (r: Vec<Vec<String>>)
    ensures
        args_list_view(r@) == ramdisk_settings_spec(ramdisk_guid@, sdi_bcd_path@),
{
    let mut r: Vec<Vec<String>> = Vec::new();
    let a = args4("/set", ramdisk_guid, "ramdisksdidevice", "partition=C:");
    r.push(a);
    let b = args4("/set", ramdisk_guid, "ramdisksdipath", sdi_bcd_path);
    r.push(b);
    assert(args_list_view(r@) =~= ramdisk_settings_spec(ramdisk_guid@, sdi_bcd_path@));
    r
}

/// The `bcdedit` arguments that configure the PE loader entry.
pub fn loader_settings(loader_guid: &str, wim_bcd_path: &str, ramdisk_guid: &str, is_uefi: bool) -> (r: Vec<Vec<String>>)
    ensures
        args_list_view(r@) == loader_settings_spec(
            loader_guid@,
            ramdisk_device(wim_bcd_path@, ramdisk_guid@),
            is_uefi,
        ),
{
    let mut device = str_to_string("ramdisk=[C:]");
    push_str(&mut device, wim_bcd_path);
    push_str(&mut device, ",");
    push_str(&mut device, ramdisk_guid);
    let winload = if is_uefi {
        "\\windows\\system32\\boot\\winload.efi"
    } else {
        "\\windows\\system32\\boot\\winload.exe"
    };
    let d = device.as_str();
    let mut r: Vec<Vec<String>> = Vec::new();
    r.push(args4("/set", loader_guid, "device", d));
    r.push(args4("/set", loader_guid, "path", winload));
    r.push(args4("/set", loader_guid, "osdevice", d));
    r.push(args4("/set", loader_guid, "systemroot", "\\windows"));
    r.push(args4("/set", loader_guid, "detecthal", "yes"));
    r.push(args4("/set", loader_guid, "winpe", "yes"));
    r.push(args4("/set", loader_guid, "ems", "no"));
    assert(args_list_view(r@) =~= loader_settings_spec(
        loader_guid@,
        ramdisk_device(wim_bcd_path@, ramdisk_guid@),
        is_uefi,
    ));
    r
}

/// The content of the file remembering the two PE entries.
pub fn guid_file_content(ramdisk_guid: &str, loader_guid: &str) -> (r: String)
    ensures
        r@ == ramdisk_guid@ + "\n"@ + loader_guid@,
{
    let mut s = str_to_string(ramdisk_guid);
    push_str(&mut s, "\n");
    push_str(&mut s, loader_guid);
    s
}

/// The loader entry named in the remembered-entries file: its second line.
pub fn next_boot_guid(content: &str) -> (r: Option<String>)
    ensures
        lines_of(content@).len() >= 2 ==> (r matches Some(g) && g@ == lines_of(content@)[1]),
        lines_of(content@).len() < 2 ==> r is None,
{
    let v = to_chars(content);
    let ls = lines(v.as_slice());
    if ls.len() >= 2 {
        assert(ls[1]@ == lines_of(content@)[1]);
        Some(chars_to_string(ls[1].as_slice()))
    } else {
        None
    }
}

/// The non-empty lines, in order.
pub open spec fn nonempty_lines(ls: Seq<Seq<char>>) -> Seq<Seq<char>>
    decreases ls.len(),
{
    if ls.len() == 0 {
        Seq::empty()
    } else if ls.last().len() > 0 {
        nonempty_lines(ls.drop_last()).push(ls.last())
    } else {
        nonempty_lines(ls.drop_last())
    }
}

/// A text without line breaks is one line.
proof fn lemma_single_line(l: Seq<char>)
    requires
        l.len() > 0,
        forall|i: int| 0 <= i < l.len() ==> l[i] != '\n',
    ensures
        lines_of(l) == seq![l],
{
    lemma_find_from(l, seq!['\n'], 0);
    if find_from(l, seq!['\n'], 0) is Some {
        let k = find_from(l, seq!['\n'], 0)->0;
        assert(l.subrange(k, k + 1) == seq!['\n']);
        assert(l[k] == l.subrange(k, k + 1)[0]);
    }
}

/// The remembered-entries file reads back what was written: for entries without
/// line breaks (the ramdisk one not ending in a carriage return), its lines are the
/// ramdisk entry and then the loader entry, so the loader entry is what boots next
/// and both are what a cleanup deletes.
pub proof fn lemma_guid_file_round_trip(ramdisk_guid: Seq<char>, loader_guid: Seq<char>)
    requires
        ramdisk_guid.len() > 0,
        loader_guid.len() > 0,
        forall|i: int| 0 <= i < ramdisk_guid.len() ==> ramdisk_guid[i] != '\n',
        forall|i: int| 0 <= i < loader_guid.len() ==> loader_guid[i] != '\n',
        ramdisk_guid.last() != '\r',
    ensures
        lines_of(ramdisk_guid + "\n"@ + loader_guid) == seq![ramdisk_guid, loader_guid],
        lines_of(ramdisk_guid + "\n"@ + loader_guid)[1] == loader_guid,
        nonempty_lines(lines_of(ramdisk_guid + "\n"@ + loader_guid)) == seq![ramdisk_guid, loader_guid],
{
    reveal_strlit("\n");
    let s = ramdisk_guid + "\n"@ + loader_guid;
    let k = ramdisk_guid.len() as int;
    assert(s.subrange(k, k + 1) =~= seq!['\n']);
    assert forall|j: int| 0 <= j < k implies !occurs_at(s, seq!['\n'], j) by {
        assert(s.subrange(j, j + 1)[0] == ramdisk_guid[j]);
    }
    lemma_find_from_at(s, seq!['\n'], 0, k);
    assert(s.take(k) =~= ramdisk_guid);
    assert(s.skip(k + 1) =~= loader_guid);
    lemma_single_line(loader_guid);
    assert(strip_cr(ramdisk_guid) == ramdisk_guid);
    assert(lines_of(s) =~= seq![ramdisk_guid, loader_guid]);
    let ls = seq![ramdisk_guid, loader_guid];
    assert(ls.drop_last() =~= seq![ramdisk_guid]);
    assert(seq![ramdisk_guid].drop_last() =~= Seq::<Seq<char>>::empty());
    reveal_with_fuel(nonempty_lines, 3);
    assert(nonempty_lines(ls) =~= seq![ramdisk_guid, loader_guid]);
}

/// The entries to delete when cleaning up: every non-empty line of the file.
pub fn stale_pe_guids(content: &str) -> (r: Vec<String>)
    ensures
        strings_view(r@) == nonempty_lines(lines_of(content@)),
{
    let v = to_chars(content);
    let ls = lines(v.as_slice());
    let ghost all = lines_view(ls@);
    let mut r: Vec<String> = Vec::new();
    let mut i: usize = 0;
    while i < ls.len()
        invariant
            i <= ls.len(),
            all == lines_view(ls@),
            strings_view(r@) == nonempty_lines(all.take(i as int)),
        decreases ls.len() - i,
    {
        let ghost before = strings_view(r@);
        assert(all.take(i + 1).drop_last() =~= all.take(i as int));
        assert(all[i as int] == ls@[i as int]@);
        if ls[i].len() > 0 {
            r.push(chars_to_string(ls[i].as_slice()));
            assert(strings_view(r@) =~= before.push(ls@[i as int]@));
        } else {
            assert(strings_view(r@) =~= before);
        }
        i = i + 1;
    }
    assert(all.take(ls.len() as int) =~= all);
    assert(all == lines_of(content@));
    r
}

// ---------------------------------------------------------------------------
// GUIDs in bcdedit output
// ---------------------------------------------------------------------------

pub open spec fn is_ascii_punct(c: char) -> bool {
    ('!' <= c && c <= '/') || (':' <= c && c <= '@') || ('[' <= c && c <= '`') || ('{' <= c
        && c <= '~')
}

pub open spec fn keep_guid_char(c: char) -> bool {
    !is_ascii_punct(c) || c == '-' || c == '{' || c == '}'
}

/// The characters of `w` that may stand in a GUID.
pub open spec fn guid_chars(w: Seq<char>) -> Seq<char>
    decreases w.len(),
{
    if w.len() == 0 {
        Seq::empty()
    } else if keep_guid_char(w.last()) {
        guid_chars(w.drop_last()).push(w.last())
    } else {
        guid_chars(w.drop_last())
    }
}

/// Bytes of a character in UTF-8.
pub open spec fn utf8_width(c: char) -> nat {
    if (c as u32) < 0x80 {
        1
    } else if (c as u32) < 0x800 {
        2
    } else if (c as u32) < 0x10000 {
        3
    } else {
        4
    }
}

/// Length in bytes of the UTF-8 encoding, what `str::len` returns.
pub open spec fn utf8_len(s: Seq<char>) -> nat
    decreases s.len(),
{
    if s.len() == 0 {
        0
    } else {
        utf8_len(s.drop_last()) + utf8_width(s.last())
    }
}

/// A prefix is no longer in UTF-8 than the whole.
pub proof fn lemma_utf8_len_prefix(s: Seq<char>, i: int)
    requires
        0 <= i <= s.len(),
    ensures
        utf8_len(s.take(i)) <= utf8_len(s),
    decreases s.len() - i,
{
    if i < s.len() {
        lemma_utf8_len_prefix(s, i + 1);
        assert(s.take(i + 1).drop_last() =~= s.take(i));
    } else {
        assert(s.take(i) =~= s);
    }
}

/// A GUID written as one word: `{…}` as is, or a word starting with `{` whose GUID
/// characters end with `}` and take more than 10 bytes.
pub open spec fn word_guid(w: Seq<char>) -> Option<Seq<char>> {
    if starts_with(w, "{"@) && ends_with(w, "}"@) {
        Some(w)
    } else if starts_with(w, "{"@) && ends_with(guid_chars(w), "}"@) && utf8_len(guid_chars(w)) > 10 {
        Some(guid_chars(w))
    } else {
        None
    }
}

pub open spec fn first_word_guid(ws: Seq<Seq<char>>, i: int) -> Option<Seq<char>>
    decreases ws.len() - i,
{
    if i < 0 || i >= ws.len() {
        None
    } else if word_guid(ws[i]) is Some {
        word_guid(ws[i])
    } else {
        first_word_guid(ws, i + 1)
    }
}

/// A line's text from its first `{` to the next `}`, when longer than 10 bytes.
pub open spec fn line_brace_guid(l: Seq<char>) -> Option<Seq<char>> {
    match find_from(l, "{"@, 0) {
        None => None,
        Some(st) => match find_from(l, "}"@, st) {
            None => None,
            Some(e) => if utf8_len(l.subrange(st, e + 1)) > 10 {
                Some(l.subrange(st, e + 1))
            } else {
                None
            },
        },
    }
}

pub open spec fn first_line_guid(ls: Seq<Seq<char>>, i: int) -> Option<Seq<char>>
    decreases ls.len() - i,
{
    if i < 0 || i >= ls.len() {
        None
    } else if line_brace_guid(ls[i]) is Some {
        line_brace_guid(ls[i])
    } else {
        first_line_guid(ls, i + 1)
    }
}

pub open spec fn extract_guid_spec(out: Seq<char>) -> Option<Seq<char>> {
    match first_word_guid(ws_tokens(out), 0) {
        Some(g) => Some(g),
        None => first_line_guid(lines_of(out), 0),
    }
}

fn is_punct(c: char) -> (r: bool)
    ensures
        r == is_ascii_punct(c),
{
    ('!' <= c && c <= '/') || (':' <= c && c <= '@') || ('[' <= c && c <= '`') || ('{' <= c && c <= '~')
}

/// Whether the UTF-8 encoding of `s` takes more than ten bytes.
fn utf8_longer_than_ten(s: &[char]) -> (r: bool)
    ensures
        r == (utf8_len(s@) > 10),
{
    let mut n: usize = 0;
    let mut i: usize = 0;
    while i < s.len() && n <= 10
        invariant
            i <= s.len(),
            n as nat == utf8_len(s@.take(i as int)),
        decreases s.len() - i,
    {
        let c: u32 = s[i] as u32;
        let w: usize = if c < 0x80 {
            1
        } else if c < 0x800 {
            2
        } else if c < 0x10000 {
            3
        } else {
            4
        };
        assert(s@.take(i + 1).drop_last() =~= s@.take(i as int));
        n = n + w;
        i = i + 1;
    }
    proof {
        lemma_utf8_len_prefix(s@, i as int);
        if i == s.len() {
            assert(s@.take(i as int) =~= s@);
        }
    }
    n > 10
}

fn guid_chars_exec(w: &[char]) -> (r: Vec<char>)
    ensures
        r@ == guid_chars(w@),
{
    let mut r: Vec<char> = Vec::new();
    let mut i: usize = 0;
    while i < w.len()
        invariant
            i <= w.len(),
            r@ == guid_chars(w@.take(i as int)),
        decreases w.len() - i,
    {
        let c = w[i];
        assert(w@.take(i + 1).drop_last() =~= w@.take(i as int));
        if !is_punct(c) || c == '-' || c == '{' || c == '}' {
            r.push(c);
        }
        i = i + 1;
    }
    assert(w@.take(w.len() as int) =~= w@);
    r
}

fn word_guid_exec(w: &[char]) -> (r: Option<Vec<char>>)
    ensures
        match word_guid(w@) {
            Some(g) => r matches Some(v) && v@ == g,
            None => r is None,
        },
{
    let open = to_chars("{");
    let close = to_chars("}");
    let starts = starts_with_chars(w, open.as_slice());
    if starts && ends_with_chars(w, close.as_slice()) {
        return Some(slice_chars(w, 0, w.len()));
    }
    if starts {
        let cleaned = guid_chars_exec(w);
        if ends_with_chars(cleaned.as_slice(), close.as_slice()) && utf8_longer_than_ten(cleaned.as_slice()) {
            return Some(cleaned);
        }
    }
    None
}

fn line_brace_guid_exec(l: &[char]) -> (r: Option<Vec<char>>)
    ensures
        match line_brace_guid(l@) {
            Some(g) => r matches Some(v) && v@ == g,
            None => r is None,
        },
{
    let open = to_chars("{");
    let close = to_chars("}");
    proof {
        reveal_strlit("}");
    }
    match find_chars_from(l, open.as_slice(), 0) {
        None => None,
        Some(st) => {
            proof {
                lemma_find_from(l@, "{"@, 0);
            }
            match find_chars_from(l, close.as_slice(), st) {
                None => None,
                Some(e) => {
                    proof {
                        lemma_find_from(l@, "}"@, st as int);
                        assert(find_from(l@, "}"@, st as int) == Some(e as int));
                        assert(e + 1 <= l@.len());
                    }
                    let len = l.len();
                    assert(e < len);
                    let g = slice_chars(l, st, e + 1);
                    if utf8_longer_than_ten(g.as_slice()) {
                        Some(g)
                    } else {
                        None
                    }
                },
            }
        },
    }
}

/// The first GUID in `bcdedit` output: a word in braces, else the braced text of
/// the first line that has one.
pub fn extract_guid(output: &str) -> (r: Result<String, PeError>)
    ensures
        match extract_guid_spec(output@) {
            Some(g) => r matches Ok(s) && s@ == g,
            None => r matches Err(PeError::GuidNotFound(o)) && o@ == output@,
        },
{
    let v = to_chars(output);
    let words = split_whitespace(v.as_slice());
    let mut i: usize = 0;
    while i < words.len()
        invariant
            i <= words.len(),
            lines_view(words@) == ws_tokens(output@),
            first_word_guid(ws_tokens(output@), 0) == first_word_guid(ws_tokens(output@), i as int),
        decreases words.len() - i,
    {
        assert(words[i as int]@ == ws_tokens(output@)[i as int]);
        if let Some(g) = word_guid_exec(words[i].as_slice()) {
            return Ok(chars_to_string(g.as_slice()));
        }
        i = i + 1;
    }
    let ls = lines(v.as_slice());
    let mut k: usize = 0;
    while k < ls.len()
        invariant
            k <= ls.len(),
            lines_view(ls@) == lines_of(output@),
            first_word_guid(ws_tokens(output@), 0) is None,
            first_line_guid(lines_of(output@), 0) == first_line_guid(lines_of(output@), k as int),
        decreases ls.len() - k,
    {
        assert(ls[k as int]@ == lines_of(output@)[k as int]);
        if let Some(g) = line_brace_guid_exec(ls[k].as_slice()) {
            return Ok(chars_to_string(g.as_slice()));
        }
        k = k + 1;
    }
    Err(PeError::GuidNotFound(str_to_string(output)))
}

// ---------------------------------------------------------------------------
// Secure Boot and the PE boot loader
// ---------------------------------------------------------------------------

/// `needle` occurs in `haystack` (an empty needle never does).
pub open spec fn bytes_contain(haystack: Seq<u8>, needle: Seq<u8>) -> bool {
    needle.len() > 0 && exists|i: int|
        0 <= i && i + needle.len() <= haystack.len() && #[trigger] haystack.subrange(i, i + needle.len()) == needle
}

/// Whether `needle` occurs in `haystack`; an empty needle never matches.
pub fn bytes_contains(haystack: &[u8], needle: &[u8]) -> (r: bool)
    ensures
        r == bytes_contain(haystack@, needle@),
{
    let n = needle.len();
    let h = haystack.len();
    if n == 0 || h < n {
        return false;
    }
    let mut i: usize = 0;
    while i <= h - n
        invariant
            n == needle@.len(),
            h == haystack@.len(),
            0 < n <= h,
            i <= h - n + 1,
            forall|j: int| 0 <= j < i ==> #[trigger] haystack@.subrange(j, j + n) != needle@,
        decreases h - n + 1 - i,
    {
        let mut k: usize = 0;
        while k < n && haystack[i + k] == needle[k]
            invariant
                k <= n,
                i + n <= h,
                n == needle@.len(),
                h == haystack@.len(),
                forall|j: int| 0 <= j < k ==> haystack@[i + j] == needle@[j],
            decreases n - k,
        {
            k = k + 1;
        }
        if k == n {
            assert(haystack@.subrange(i as int, i + n) =~= needle@);
            return true;
        }
        assert(haystack@.subrange(i as int, i + n)[k as int] != needle@[k as int]);
        i = i + 1;
    }
    false
}

/// The bytes of an ASCII text (each character's low byte).
pub open spec fn ascii_bytes(s: Seq<char>) -> Seq<u8> {
    s.map_values(|c: char| (c as u32) as u8)
}

/// UTF-16LE encoding of an ASCII text.
pub open spec fn utf16le_ascii(s: Seq<char>) -> Seq<u8> {
    Seq::new(2 * s.len(), |i: int| if i % 2 == 0 { (s[i / 2] as u32) as u8 } else { 0u8 })
}

fn ascii_bytes_of(s: &str) -> (r: Vec<u8>)
    ensures
        r@ == ascii_bytes(s@),
{
    let v = to_chars(s);
    let mut r: Vec<u8> = Vec::new();
    let mut i: usize = 0;
    while i < v.len()
        invariant
            i <= v.len(),
            v@ == s@,
            r@ == ascii_bytes(s@.take(i as int)),
        decreases v.len() - i,
    {
        r.push((v[i] as u32) as u8);
        assert(ascii_bytes(s@.take(i + 1)) =~= ascii_bytes(s@.take(i as int)).push((s@[i as int] as u32) as u8));
        i = i + 1;
    }
    assert(s@.take(v.len() as int) =~= s@);
    r
}

fn utf16le_of(s: &str) -> (r: Vec<u8>)
    ensures
        r@ == utf16le_ascii(s@),
{
    let v = to_chars(s);
    let mut r: Vec<u8> = Vec::new();
    let mut i: usize = 0;
    while i < v.len()
        invariant
            i <= v.len(),
            v@ == s@,
            r@ == utf16le_ascii(s@).take(2 * i),
        decreases v.len() - i,
    {
        r.push((v[i] as u32) as u8);
        r.push(0u8);
        assert(r@ =~= utf16le_ascii(s@).take(2 * i + 2));
        i = i + 1;
    }
    assert(utf16le_ascii(s@).take(2 * v.len()) =~= utf16le_ascii(s@));
    r
}

/// Kernel family of the bundled PE; a host boot loader replaces the PE's only
/// within the same family.
pub open spec fn pe_winload_family() -> Seq<char> {
    "10.0.19041."@
}

/// Whether the host's `winload.efi` should replace the PE's: Secure Boot is on, the
/// host loader carries a 2023 certificate, and it belongs to the PE's kernel family
/// (its version text, stored in UTF-16LE).
pub open spec fn should_upgrade_spec(secure_boot: bool, winload: Seq<u8>) -> bool {
    secure_boot && (bytes_contain(winload, ascii_bytes("Windows UEFI CA 2023"@)) || bytes_contain(
        winload,
        ascii_bytes("Microsoft Windows Production PCA 2023"@),
    )) && bytes_contain(winload, utf16le_ascii(pe_winload_family()))
}

/// Decides whether to replace the PE's boot loader with the host's (see
/// [`should_upgrade_spec`]).
pub fn should_upgrade_pe_winload(secure_boot_enabled: bool, host_winload: &[u8]) -> (r: bool)
    ensures
        r == should_upgrade_spec(secure_boot_enabled, host_winload@),
{
    if !secure_boot_enabled {
        return false;
    }
    let ca = ascii_bytes_of("Windows UEFI CA 2023");
    let pca = ascii_bytes_of("Microsoft Windows Production PCA 2023");
    let has_2023 = bytes_contains(host_winload, ca.as_slice()) || bytes_contains(host_winload, pca.as_slice());
    if !has_2023 {
        return false;
    }
    let fam = utf16le_of("10.0.19041.");
    bytes_contains(host_winload, fam.as_slice())
}

/// Secure Boot is on when the registry query printed `0x1` (any case).
pub fn secure_boot_enabled_from_query(output: Option<&str>) -> (r: bool)
    ensures
        r == match output {
            Some(o) => contains(lowercase(o@), "0x1"@),
            None => false,
        },
{
    match output {
        Some(o) => {
            let v = to_chars(o);
            let l = lowercase_chars(v.as_slice());
            let k = to_chars("0x1");
            contains_chars(l.as_slice(), k.as_slice())
        },
        None => false,
    }
}

/// UEFI boot is recognised by the EFI boot folder, by `firmware_type=uefi` (any
/// case), or by `winload.efi` in the current boot entry; later checks only count
/// when the earlier ones fail.
pub fn is_uefi_boot(efi_boot_dir_exists: bool, firmware_type: Option<&str>, current_entry: Option<&str>) -> (r: bool)
    ensures
        r == (efi_boot_dir_exists || match firmware_type {
            Some(f) => lowercase(f@) == "uefi"@,
            None => false,
        } || match current_entry {
            Some(e) => contains(e@, "winload.efi"@),
            None => false,
        }),
{
    if efi_boot_dir_exists {
        return true;
    }
    let fw = match firmware_type {
        Some(f) => {
            let v = to_chars(f);
            let l = lowercase_chars(v.as_slice());
            let u = to_chars("uefi");
            crate::text::chars_eq(l.as_slice(), u.as_slice())
        },
        None => false,
    };
    if fw {
        return true;
    }
    match current_entry {
        Some(e) => {
            let v = to_chars(e);
            let k = to_chars("winload.efi");
            contains_chars(v.as_slice(), k.as_slice())
        },
        None => false,
    }
}

} // verus!
