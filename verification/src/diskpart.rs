//! Scripts handed to diskpart, and what its output is taken to say.
use vstd::prelude::*;
use crate::disk::Partition;
use crate::text::{
    ascii_lower, ascii_upper, contains, contains_chars, chars_to_string, dec, push_chars, push_dec,
    push_str, str_to_string, strip_trailing, strip_trailing_char, to_ascii_upper, to_chars, trim,
    trim_chars, lines, lines_of, lines_view, lemma_find_from, occurs_at,
};
use crate::command::strings_view;

verus! {

/// `char::to_ascii_lowercase`.
pub fn to_ascii_lower(c: char) -> (r: char)
    ensures
        r == ascii_lower(c),
{
    if 'A' <= c && c <= 'Z' {
        ((c as u32) + 32) as u8 as char
    } else {
        c
    }
}

pub open spec fn lower_seq(s: Seq<char>) -> Seq<char> {
    s.map_values(|c: char| ascii_lower(c))
}

/// `str::to_ascii_lowercase` on a character sequence.
pub fn ascii_lower_chars(v: &[char]) -> (r: Vec<char>)
    ensures
        r@ == lower_seq(v@),
{
    let mut r: Vec<char> = Vec::new();
    let mut i: usize = 0;
    while i < v.len()
        invariant
            i <= v.len(),
            r@ == lower_seq(v@.take(i as int)),
        decreases v.len() - i,
    {
        r.push(to_ascii_lower(v[i]));
        assert(lower_seq(v@.take(i + 1)) =~= lower_seq(v@.take(i as int)).push(ascii_lower(v@[i as int])));
        i = i + 1;
    }
    assert(v@.take(v.len() as int) =~= v@);
    r
}

/// `str::eq_ignore_ascii_case`.
pub open spec fn eq_ignore_case(a: Seq<char>, b: Seq<char>) -> bool {
    lower_seq(a) == lower_seq(b)
}

pub fn eq_ignore_ascii_case(a: &[char], b: &[char]) -> (r: bool)
    ensures
        r == eq_ignore_case(a@, b@),
{
    if a.len() != b.len() {
        assert(lower_seq(a@).len() != lower_seq(b@).len());
        return false;
    }
    let mut i: usize = 0;
    while i < a.len()
        invariant
            i <= a.len(),
            a.len() == b.len(),
            forall|j: int| 0 <= j < i ==> ascii_lower(#[trigger] a@[j]) == ascii_lower(b@[j]),
        decreases a.len() - i,
    {
        if to_ascii_lower(a[i]) != to_ascii_lower(b[i]) {
            assert(lower_seq(a@)[i as int] != lower_seq(b@)[i as int]);
            return false;
        }
        i = i + 1;
    }
    assert(lower_seq(a@) =~= lower_seq(b@));
    true
}

/// A drive written `X:\`, `X:` or `X`, taken as `X`.
pub open spec fn volume_name(s: Seq<char>) -> Seq<char> {
    strip_trailing(strip_trailing(s, '\\'), ':')
}

pub fn volume_letter(s: &str) -> (r: Vec<char>)
    ensures
        r@ == volume_name(s@),
{
    let v = to_chars(s);
    let a = strip_trailing_char(v.as_slice(), '\\');
    strip_trailing_char(a.as_slice(), ':')
}

// ---------------------------------------------------------------------------
// Formatting a partition
// ---------------------------------------------------------------------------

pub open spec fn format_script_text(partition: Seq<char>) -> Seq<char> {
    "select volume "@ + volume_name(partition) + "\r\nformat fs=ntfs quick override\r\nexit\r\n"@
}

/// The script that quick-formats `partition` as NTFS (forcing the volume off its
/// users, keeping its letter).
pub fn format_script(partition: &str) -> (r: String)
    ensures
        r@ == format_script_text(partition@),
{
    let l = volume_letter(partition);
    let mut s = str_to_string("select volume ");
    push_chars(&mut s, l.as_slice());
    push_str(&mut s, "\r\nformat fs=ntfs quick override\r\nexit\r\n");
    s
}

/// diskpart says it formatted the volume (it exits with 0 even on failure).
pub open spec fn format_succeeded(stdout: Seq<char>) -> bool {
    contains(stdout, "成功格式化"@) || contains(lower_seq(stdout), "successfully formatted"@)
}

/// Why formatting failed: what diskpart printed, or a fixed text when it printed
/// nothing.
pub open spec fn format_failure(stdout: Seq<char>, stderr: Seq<char>) -> Seq<char> {
    let r = trim(trim(stdout) + "\n"@ + trim(stderr));
    "格式化失败（diskpart）: "@ + if r.len() == 0 {
        "diskpart 无输出，格式化失败。请确认该分区未被占用后重试。"@
    } else {
        r
    }
}

/// Whether the format script succeeded, judged by its output.
pub fn format_outcome(stdout: &str, stderr: &str) -> (r: Result<(), String>)
    ensures
        format_succeeded(stdout@) ==> r is Ok,
        !format_succeeded(stdout@) ==> (r matches Err(m) && m@ == format_failure(stdout@, stderr@)),
{
    let out = to_chars(stdout);
    let ok1 = to_chars("成功格式化");
    let lo = ascii_lower_chars(out.as_slice());
    let ok2 = to_chars("successfully formatted");
    if contains_chars(out.as_slice(), ok1.as_slice()) || contains_chars(lo.as_slice(), ok2.as_slice()) {
        return Ok(());
    }
    let a = trim_chars(out.as_slice());
    let err = to_chars(stderr);
    let b = trim_chars(err.as_slice());
    let mut joined = chars_to_string(a.as_slice());
    push_str(&mut joined, "\n");
    push_chars(&mut joined, b.as_slice());
    let jv = to_chars(joined.as_str());
    let reason = trim_chars(jv.as_slice());
    let mut m = str_to_string("格式化失败（diskpart）: ");
    if reason.len() == 0 {
        push_str(&mut m, "diskpart 无输出，格式化失败。请确认该分区未被占用后重试。");
    } else {
        push_chars(&mut m, reason.as_slice());
    }
    Err(m)
}

// ---------------------------------------------------------------------------
// The other active partitions of a disk
// ---------------------------------------------------------------------------

pub open spec fn same_volume(a: Seq<char>, b: Seq<char>) -> bool {
    eq_ignore_case(volume_name(a), volume_name(b))
}

/// The disk of the first listed volume that is `target`, if that disk is known.
pub open spec fn target_disk_of(ps: Seq<Partition>, target: Seq<char>) -> Option<u32>
    decreases ps.len(),
{
    if ps.len() == 0 {
        None
    } else if same_volume(ps[0].letter@, target) {
        ps[0].disk_number
    } else {
        target_disk_of(ps.drop_first(), target)
    }
}

/// The lettered volumes other than `target` on disk `disk`, in list order.
pub open spec fn siblings_on(ps: Seq<Partition>, target: Seq<char>, disk: u32) -> Seq<Seq<char>>
    decreases ps.len(),
{
    if ps.len() == 0 {
        Seq::empty()
    } else {
        let rest = siblings_on(ps.drop_first(), target, disk);
        let n = volume_name(ps[0].letter@);
        if ps[0].disk_number == Some(disk) && n.len() > 0 && !eq_ignore_case(n, volume_name(target)) {
            seq![n] + rest
        } else {
            rest
        }
    }
}

/// The volumes whose active flag is cleared before `target` becomes the disk's only
/// active partition: none when `target`'s disk is unknown.
pub open spec fn sibling_spec(ps: Seq<Partition>, target: Seq<char>) -> Seq<Seq<char>> {
    match target_disk_of(ps, target) {
        None => Seq::empty(),
        Some(d) => siblings_on(ps, target, d),
    }
}

proof fn lemma_target_disk_step(ps: Seq<Partition>, target: Seq<char>, i: int)
    requires
        0 <= i <= ps.len(),
        forall|j: int| 0 <= j < i ==> !same_volume(#[trigger] ps[j].letter@, target),
    ensures
        target_disk_of(ps, target) == target_disk_of(ps.skip(i), target),
    decreases i,
{
    if i > 0 {
        assert(ps.drop_first().skip(i - 1) =~= ps.skip(i));
        assert forall|j: int| 0 <= j < i - 1 implies !same_volume(#[trigger] ps.drop_first()[j].letter@, target) by {
            assert(ps.drop_first()[j] == ps[j + 1]);
        }
        lemma_target_disk_step(ps.drop_first(), target, i - 1);
    } else {
        assert(ps.skip(0) =~= ps);
    }
}

fn find_target_disk(ps: &Vec<Partition>, target: &[char]) -> (r: Option<u32>)
    ensures
        r == target_disk_of(ps@, target@),
{
    let t = strip_trailing_char(target, '\\');
    let tn = strip_trailing_char(t.as_slice(), ':');
    let mut i: usize = 0;
    while i < ps.len()
        invariant
            i <= ps.len(),
            tn@ == volume_name(target@),
            forall|j: int| 0 <= j < i ==> !same_volume(#[trigger] ps@[j].letter@, target@),
        decreases ps.len() - i,
    {
        let n = volume_letter(ps[i].letter.as_str());
        if eq_ignore_ascii_case(n.as_slice(), tn.as_slice()) {
            proof {
                lemma_target_disk_step(ps@, target@, i as int);
            }
            return ps[i].disk_number;
        }
        i = i + 1;
    }
    proof {
        lemma_target_disk_step(ps@, target@, ps@.len() as int);
        assert(ps@.skip(ps@.len() as int) =~= Seq::<Partition>::empty());
    }
    None
}

/// The volumes on `target`'s disk whose active flag is cleared before `target` is
/// made active, so that only one partition of an MBR disk is active.
pub fn sibling_volumes(target: &str, partitions: &Vec<Partition>) -> (r: Vec<String>)
    ensures
        strings_view(r@) == sibling_spec(partitions@, target@),
{
    let tv = to_chars(target);
    let disk = match find_target_disk(partitions, tv.as_slice()) {
        None => return Vec::new(),
        Some(d) => d,
    };
    let t = strip_trailing_char(tv.as_slice(), '\\');
    let tn = strip_trailing_char(t.as_slice(), ':');
    let mut r: Vec<String> = Vec::new();
    let mut i: usize = partitions.len();
    while i > 0
        invariant
            i <= partitions.len(),
            tn@ == volume_name(target@),
            target_disk_of(partitions@, target@) == Some(disk),
            strings_view(r@) == siblings_on(partitions@.skip(i as int), target@, disk),
        decreases i,
    {
        let ghost rest = partitions@.skip(i as int);
        let p = &partitions[i - 1];
        assert(partitions@.skip(i - 1).drop_first() =~= rest);
        let n = volume_letter(p.letter.as_str());
        if p.disk_number == Some(disk) && n.len() > 0 && !eq_ignore_ascii_case(n.as_slice(), tn.as_slice()) {
            let ghost before = strings_view(r@);
            r.insert(0, chars_to_string(n.as_slice()));
            assert(strings_view(r@) =~= seq![n@] + before);
        }
        i = i - 1;
    }
    assert(partitions@.skip(0) =~= partitions@);
    r
}

/// The script that clears the active flag of `volume`.
pub fn inactive_script(volume: &str) -> (r: String)
    ensures
        r@ == "select volume "@ + volume@ + "\r\ninactive\r\nexit\r\n"@,
{
    let mut s = str_to_string("select volume ");
    push_str(&mut s, volume);
    push_str(&mut s, "\r\ninactive\r\nexit\r\n");
    s
}

// ---------------------------------------------------------------------------
// The MBR disk signature
// ---------------------------------------------------------------------------

/// The script that prints the ID (MBR signature) of disk `disk`.
pub fn signature_read_script(disk: u32) -> (r: String)
    ensures
        r@ == "select disk "@ + dec(disk as nat) + "\r\nuniqueid disk\r\nexit\r\n"@,
{
    let mut s = str_to_string("select disk ");
    push_dec(&mut s, disk as u64);
    push_str(&mut s, "\r\nuniqueid disk\r\nexit\r\n");
    s
}

pub open spec fn is_alnum(c: char) -> bool {
    ('0' <= c && c <= '9') || ('a' <= c && c <= 'z') || ('A' <= c && c <= 'Z')
}

pub open spec fn is_hex(c: char) -> bool {
    ('0' <= c && c <= '9') || ('a' <= c && c <= 'f') || ('A' <= c && c <= 'F')
}

/// Where the run of ASCII letters and digits starting at `i` ends.
pub open spec fn run_end(s: Seq<char>, i: int) -> int
    decreases s.len() - i,
{
    if i < 0 || i >= s.len() || !is_alnum(s[i]) {
        i
    } else {
        run_end(s, i + 1)
    }
}

pub proof fn lemma_run_end(s: Seq<char>, i: int)
    requires
        0 <= i <= s.len(),
    ensures
        i <= run_end(s, i) <= s.len(),
        forall|j: int| i <= j < run_end(s, i) ==> is_alnum(#[trigger] s[j]),
        run_end(s, i) < s.len() ==> !is_alnum(s[run_end(s, i)]),
    decreases s.len() - i,
{
    if i < s.len() && is_alnum(s[i]) {
        lemma_run_end(s, i + 1);
    }
}

/// The first piece of `s`, split at every character that is no ASCII letter or
/// digit, from position `i` on, that is eight hexadecimal digits.
pub open spec fn id_token_from(s: Seq<char>, i: int) -> Option<Seq<char>>
    decreases s.len() - i,
{
    if i < 0 || i >= s.len() {
        None
    } else if !is_alnum(s[i]) {
        id_token_from(s, i + 1)
    } else {
        let e = run_end(s, i);
        proof {
            lemma_run_end(s, i);
        }
        if e - i == 8 && (forall|j: int| i <= j < e ==> is_hex(#[trigger] s[j])) {
            Some(s.subrange(i, e))
        } else {
            id_token_from(s, e)
        }
    }
}

pub open spec fn upper_seq(s: Seq<char>) -> Seq<char> {
    s.map_values(|c: char| ascii_upper(c))
}

/// The disk ID in diskpart's output: in the first line that mentions `id` (in any
/// case) and holds an eight-digit hexadecimal piece, that piece in upper case.
pub open spec fn disk_id_in(ls: Seq<Seq<char>>) -> Option<Seq<char>>
    decreases ls.len(),
{
    if ls.len() == 0 {
        None
    } else if contains(lower_seq(ls[0]), "id"@) && id_token_from(ls[0], 0) is Some {
        Some(upper_seq(id_token_from(ls[0], 0)->0))
    } else {
        disk_id_in(ls.drop_first())
    }
}

pub open spec fn disk_id(stdout: Seq<char>) -> Option<Seq<char>> {
    disk_id_in(lines_of(stdout))
}

fn is_alnum_char(c: char) -> (r: bool)
    ensures
        r == is_alnum(c),
{
    ('0' <= c && c <= '9') || ('a' <= c && c <= 'z') || ('A' <= c && c <= 'Z')
}

fn is_hex_char(c: char) -> (r: bool)
    ensures
        r == is_hex(c),
{
    ('0' <= c && c <= '9') || ('a' <= c && c <= 'f') || ('A' <= c && c <= 'F')
}

fn id_token(s: &[char]) -> (r: Option<Vec<char>>)
    ensures
        match id_token_from(s@, 0) {
            None => r is None,
            Some(t) => r matches Some(v) && v@ == t,
        },
{
    let mut i: usize = 0;
    while i < s.len()
        invariant
            i <= s.len(),
            id_token_from(s@, 0) == id_token_from(s@, i as int),
        decreases s.len() - i,
    {
        if !is_alnum_char(s[i]) {
            i = i + 1;
        } else {
            let mut e: usize = i;
            proof {
                lemma_run_end(s@, i as int);
            }
            while e < s.len() && is_alnum_char(s[e])
                invariant
                    i <= e <= s.len(),
                    run_end(s@, i as int) == run_end(s@, e as int),
                    forall|j: int| i <= j < e ==> is_alnum(#[trigger] s@[j]),
                decreases s.len() - e,
            {
                e = e + 1;
            }
            assert(run_end(s@, i as int) == e);
            let mut hex = e - i == 8;
            let mut k: usize = i;
            while hex && k < e
                invariant
                    i <= k <= e <= s.len(),
                    hex ==> e - i == 8,
                    hex ==> forall|j: int| i <= j < k ==> is_hex(#[trigger] s@[j]),
                    !hex ==> !(e - i == 8 && (forall|j: int| i <= j < e ==> is_hex(#[trigger] s@[j]))),
                decreases e - k,
            {
                if !is_hex_char(s[k]) {
                    hex = false;
                }
                k = k + 1;
            }
            if hex {
                assert(id_token_from(s@, i as int) == Some(s@.subrange(i as int, e as int)));
                return Some(crate::text::slice_chars(s, i, e));
            }
            i = e;
        }
    }
    None
}

fn upper_chars(v: &[char]) -> (r: Vec<char>)
    ensures
        r@ == upper_seq(v@),
{
    let mut r: Vec<char> = Vec::new();
    let mut i: usize = 0;
    while i < v.len()
        invariant
            i <= v.len(),
            r@ == upper_seq(v@.take(i as int)),
        decreases v.len() - i,
    {
        r.push(to_ascii_upper(v[i]));
        assert(upper_seq(v@.take(i + 1)) =~= upper_seq(v@.take(i as int)).push(ascii_upper(v@[i as int])));
        i = i + 1;
    }
    assert(v@.take(v.len() as int) =~= v@);
    r
}

/// The disk ID that `uniqueid disk` printed (see [`disk_id`]).
pub fn parse_disk_id(stdout: &str) -> (r: Option<String>)
    ensures
        match disk_id(stdout@) {
            None => r is None,
            Some(t) => r matches Some(x) && x@ == t,
        },
{
    let v = to_chars(stdout);
    let ls = lines(v.as_slice());
    let id = to_chars("id");
    let mut k: usize = 0;
    assert(lines_view(ls@).skip(0) =~= lines_view(ls@));
    while k < ls.len()
        invariant
            k <= ls.len(),
            id@ == "id"@,
            disk_id(stdout@) == disk_id_in(lines_view(ls@).skip(k as int)),
        decreases ls.len() - k,
    {
        let line = &ls[k];
        let lo = ascii_lower_chars(line.as_slice());
        assert(lines_view(ls@).skip(k as int)[0] == line@);
        assert(lines_view(ls@).skip(k as int).drop_first() =~= lines_view(ls@).skip(k + 1));
        if contains_chars(lo.as_slice(), id.as_slice()) {
            match id_token(line.as_slice()) {
                Some(t) => {
                    let u = upper_chars(t.as_slice());
                    return Some(chars_to_string(u.as_slice()));
                },
                None => {},
            }
        }
        k = k + 1;
    }
    None
}

/// What reading the signature leads to.
pub enum SignatureCheck {
    /// Nothing is written; the text says why.
    Keep(String),
    /// The signature is zero: a new one is written.
    Write,
}

pub open spec fn signature_kept_message(disk: u32, sig: Seq<char>) -> Seq<char> {
    "磁盘 "@ + dec(disk as nat) + " 已有 MBR 签名 "@ + sig + "，无需处理"@
}

pub open spec fn signature_unread_message(disk: u32, stdout: Seq<char>) -> Seq<char> {
    "磁盘 "@ + dec(disk as nat) + " 未解析到 MBR 签名（可能是 GPT/输出异常），保守跳过。输出："@ + trim(stdout)
}

/// Whether disk `disk` needs a signature, from what the read script printed: only a
/// signature read as zero is replaced; an unreadable one (a GPT disk's GUID) is left.
pub fn signature_check(disk: u32, stdout: &str) -> (r: SignatureCheck)
    ensures
        match disk_id(stdout@) {
            Some(t) => if t == "00000000"@ {
                r is Write
            } else {
                r matches SignatureCheck::Keep(m) && m@ == signature_kept_message(disk, t)
            },
            None => r matches SignatureCheck::Keep(m) && m@ == signature_unread_message(disk, stdout@),
        },
{
    match parse_disk_id(stdout) {
        Some(sig) => {
            let zero = to_chars("00000000");
            let sv = to_chars(sig.as_str());
            if crate::text::chars_eq(sv.as_slice(), zero.as_slice()) {
                SignatureCheck::Write
            } else {
                let mut m = str_to_string("磁盘 ");
                push_dec(&mut m, disk as u64);
                push_str(&mut m, " 已有 MBR 签名 ");
                push_str(&mut m, sig.as_str());
                push_str(&mut m, "，无需处理");
                SignatureCheck::Keep(m)
            }
        },
        None => {
            let v = to_chars(stdout);
            let t = trim_chars(v.as_slice());
            let mut m = str_to_string("磁盘 ");
            push_dec(&mut m, disk as u64);
            push_str(&mut m, " 未解析到 MBR 签名（可能是 GPT/输出异常），保守跳过。输出：");
            push_chars(&mut m, t.as_slice());
            SignatureCheck::Keep(m)
        },
    }
}

/// A new signature from `seed` (any number, such as one taken from the clock): its
/// top hexadecimal digit is forced non-zero, so the signature is never zero.
pub fn new_signature(seed: u32) -> (r: u32)
    ensures
        r == seed | 0x1000_0000u32,
        r >= 0x1000_0000u32,
{
    let r = seed | 0x1000_0000u32;
    assert(r >= 0x1000_0000u32) by (bit_vector)
        requires
            r == seed | 0x1000_0000u32,
    ;
    r
}

pub open spec fn hex_digit(d: nat) -> char {
    if d < 10 {
        (d + 48) as char
    } else {
        (d + 55) as char
    }
}

/// `format!("{:08X}", n)`: eight upper-case hexadecimal digits, most significant first.
pub open spec fn hex8(n: nat) -> Seq<char> {
    seq![
        hex_digit(n / 0x1000_0000 % 16),
        hex_digit(n / 0x100_0000 % 16),
        hex_digit(n / 0x10_0000 % 16),
        hex_digit(n / 0x1_0000 % 16),
        hex_digit(n / 0x1000 % 16),
        hex_digit(n / 0x100 % 16),
        hex_digit(n / 0x10 % 16),
        hex_digit(n % 16),
    ]
}

fn hex_char(d: u32) -> (r: char)
    requires
        d < 16,
    ensures
        r == hex_digit(d as nat),
{
    if d < 10 {
        (d + 48) as u8 as char
    } else {
        (d + 55) as u8 as char
    }
}

pub fn hex8_upper(n: u32) -> (r: String)
    ensures
        r@ == hex8(n as nat),
{
    let mut v: Vec<char> = Vec::new();
    v.push(hex_char(n / 0x1000_0000 % 16));
    v.push(hex_char(n / 0x100_0000 % 16));
    v.push(hex_char(n / 0x10_0000 % 16));
    v.push(hex_char(n / 0x1_0000 % 16));
    v.push(hex_char(n / 0x1000 % 16));
    v.push(hex_char(n / 0x100 % 16));
    v.push(hex_char(n / 0x10 % 16));
    v.push(hex_char(n % 16));
    assert(v@ =~= hex8(n as nat));
    chars_to_string(v.as_slice())
}

proof fn lemma_hex_digit(d: nat)
    requires
        d < 16,
    ensures
        is_hex(hex_digit(d)),
        is_alnum(hex_digit(d)),
        hex_digit(d) != '\n',
        ascii_upper(hex_digit(d)) == hex_digit(d),
        d > 0 ==> hex_digit(d) != '0',
{
}

/// A signature made by [`new_signature`] and written as [`hex8_upper`] is not the
/// zero signature, and diskpart's `Disk ID: ` line for it reads back as the same
/// eight digits: checking the disk again ([`signature_check`]) keeps it.
pub proof fn lemma_written_signature_kept(seed: u32)
    ensures
        ({
            let id = hex8((seed | 0x1000_0000u32) as nat);
            &&& id != "00000000"@
            &&& disk_id("Disk ID: "@ + id) == Some(id)
        }),
{
    let sig = seed | 0x1000_0000u32;
    assert(sig >= 0x1000_0000u32) by (bit_vector)
        requires
            sig == seed | 0x1000_0000u32,
    ;
    let n = sig as nat;
    let id = hex8(n);
    reveal_strlit("00000000");
    reveal_strlit("Disk ID: ");
    reveal_strlit("id");
    assert(n / 0x1000_0000 >= 1);
    lemma_hex_digit(n / 0x1000_0000 % 16);
    lemma_hex_digit(n / 0x100_0000 % 16);
    lemma_hex_digit(n / 0x10_0000 % 16);
    lemma_hex_digit(n / 0x1_0000 % 16);
    lemma_hex_digit(n / 0x1000 % 16);
    lemma_hex_digit(n / 0x100 % 16);
    lemma_hex_digit(n / 0x10 % 16);
    lemma_hex_digit(n % 16);
    assert(id[0] != "00000000"@[0]);
    assert(id.len() == 8);
    assert forall|k: int| 0 <= k < 8 implies is_hex(#[trigger] id[k]) && is_alnum(id[k]) && id[k] != '\n'
        && ascii_upper(id[k]) == id[k] by {
    }
    let s = "Disk ID: "@ + id;
    assert(s.len() == 17);
    assert forall|j: int| 0 <= j < 17 implies s[j] != '\n' by {
        if j >= 9 {
            assert(s[j] == id[j - 9]);
        }
    }
    assert forall|j: int| 0 <= j implies !occurs_at(s, seq!['\n'], j) by {
        if occurs_at(s, seq!['\n'], j) {
            assert(s.subrange(j, j + 1)[0] == s[j]);
        }
    }
    lemma_find_from(s, seq!['\n'], 0);
    assert(lines_of(s) == seq![s]);
    let low = lower_seq(s);
    assert(low.subrange(5, 7) =~= "id"@);
    assert(occurs_at(low, "id"@, 5));
    lemma_find_from(low, "id"@, 0);
    assert(contains(low, "id"@));
    lemma_run_end(s, 0);
    assert(run_end(s, 0) == 4);
    lemma_run_end(s, 5);
    assert(run_end(s, 5) == 7);
    lemma_run_end(s, 9);
    assert forall|j: int| 9 <= j < 17 implies is_alnum(#[trigger] s[j]) by {
        assert(s[j] == id[j - 9]);
    }
    assert(run_end(s, 9) == 17);
    assert(s.subrange(9, 17) =~= id);
    assert forall|j: int| 9 <= j < 17 implies is_hex(#[trigger] s[j]) by {
        assert(s[j] == id[j - 9]);
    }
    assert(id_token_from(s, 9) == Some(id));
    assert(id_token_from(s, 8) == id_token_from(s, 9));
    assert(id_token_from(s, 7) == id_token_from(s, 8));
    assert(id_token_from(s, 5) == id_token_from(s, 7));
    assert(id_token_from(s, 4) == id_token_from(s, 5));
    assert(id_token_from(s, 0) == id_token_from(s, 4));
    assert(upper_seq(id) =~= id);
    assert(seq![s][0] == s);
    assert(disk_id_in(seq![s]) == Some(upper_seq(id)));
}

/// The script that writes signature `id` (eight hexadecimal digits) to disk `disk`.
pub fn signature_write_script(disk: u32, id: &str) -> (r: String)
    ensures
        r@ == "select disk "@ + dec(disk as nat) + "\r\nuniqueid disk id="@ + id@ + "\r\nexit\r\n"@,
{
    let mut s = str_to_string("select disk ");
    push_dec(&mut s, disk as u64);
    push_str(&mut s, "\r\nuniqueid disk id=");
    push_str(&mut s, id);
    push_str(&mut s, "\r\nexit\r\n");
    s
}

/// The report after writing signature `id`, with what diskpart printed.
pub fn signature_written_message(disk: u32, id: &str, output: &str) -> (r: String)
    ensures
        r@ == "磁盘 "@ + dec(disk as nat) + " 原 MBR 签名为 0，已写入新签名 "@ + id@ + "（diskpart: "@
            + trim(output@) + "）"@,
{
    let mut s = str_to_string("磁盘 ");
    push_dec(&mut s, disk as u64);
    push_str(&mut s, " 原 MBR 签名为 0，已写入新签名 ");
    push_str(&mut s, id);
    push_str(&mut s, "（diskpart: ");
    let v = to_chars(output);
    let t = trim_chars(v.as_slice());
    push_chars(&mut s, t.as_slice());
    push_str(&mut s, "）");
    s
}

} // verus!
