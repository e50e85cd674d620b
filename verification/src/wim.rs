//! WIM metadata: the fixed file header, the UTF-16LE XML block that follows
//! it, and the per-image descriptions inside that XML.
use vstd::prelude::*;
use crate::text::{
    chars_eq, chars_to_string, concat3, contains, contains_chars, dec, ends_with, ends_with_chars,
    find_chars_from, find_from, lemma_find_from, lowercase, lowercase_chars, occurs_at, parse_nat,
    parse_u16, parse_u32, parse_u64, push_char, push_dec, push_str, slice_chars, str_to_string,
    to_chars, trim, trim_chars,
};

verus! {

/// Kind of a system image inside a WIM file.
#[derive(Debug, Clone, Copy, PartialEq, Eq, Structural)]
pub enum WimImageType {
    /// A regular Windows installation image (Client/Server).
    StandardInstall,
    /// A full-disk backup of an installed system.
    FullBackup,
    /// A Windows PE or setup environment.
    WindowsPE,
    /// Anything else.
    Unknown,
}

/// Description of one image inside a WIM/ESD/SWM file.
#[derive(Debug, Clone)]
pub struct ImageInfo {
    pub index: u32,
    pub name: String,
    pub size_bytes: u64,
    /// e.g. "Client", "WindowsPE", "Server"
    pub installation_type: String,
    pub major_version: Option<u16>,
    pub minor_version: Option<u16>,
    pub image_type: WimImageType,
    pub verified_installable: bool,
}

/// The mathematical content of an [`ImageInfo`].
pub struct ImageModel {
    pub index: u32,
    pub name: Seq<char>,
    pub size_bytes: u64,
    pub installation_type: Seq<char>,
    pub major_version: Option<u16>,
    pub minor_version: Option<u16>,
    pub image_type: WimImageType,
    pub verified_installable: bool,
}

impl View for ImageInfo {
    type V = ImageModel;

    open spec fn view(&self) -> ImageModel {
        ImageModel {
            index: self.index,
            name: self.name@,
            size_bytes: self.size_bytes,
            installation_type: self.installation_type@,
            major_version: self.major_version,
            minor_version: self.minor_version,
            image_type: self.image_type,
            verified_installable: self.verified_installable,
        }
    }
}

pub open spec fn images_view(v: Seq<ImageInfo>) -> Seq<ImageModel> {
    v.map_values(|i: ImageInfo| i@)
}

/// Why WIM metadata could not be read.
#[derive(Debug, Clone, Copy, PartialEq, Eq, Structural)]
pub enum WimError {
    /// The XML block is shorter than one UTF-16 unit.
    TooShort,
    /// The XML block is not valid UTF-16.
    Utf16Decode,
    /// The file does not start with the WIM signature.
    NotWim,
    /// The header gives no usable position or size of the XML block.
    BadXmlLocation,
    /// The XML holds no image with an index above zero.
    NoImages,
    /// The XML holds no image with the requested index.
    IndexNotFound,
    /// The image's major version could not be read.
    VersionParse,
    /// The file is not a WIM, ESD or SWM image.
    UnsupportedFormat,
}

pub open spec fn error_message(e: WimError) -> Seq<char> {
    match e {
        WimError::TooShort => "数据太短"@,
        WimError::Utf16Decode => "UTF-16 解码失败: invalid utf-16: lone surrogate found"@,
        WimError::NotWim => "不是有效的 WIM 文件"@,
        WimError::BadXmlLocation => "XML 元数据位置无效"@,
        WimError::NoImages => "未找到有效的镜像信息"@,
        WimError::IndexNotFound => "未找到指定索引的镜像信息"@,
        WimError::VersionParse => "解析镜像版本失败"@,
        WimError::UnsupportedFormat => "仅支持 WIM/ESD/SWM 镜像"@,
    }
}

impl WimError {
    /// The message shown to the user.
    pub fn message(&self) -> (r: String)
        ensures
            r@ == error_message(*self),
    {
        match self {
            WimError::TooShort => str_to_string("数据太短"),
            WimError::Utf16Decode => str_to_string(
                "UTF-16 解码失败: invalid utf-16: lone surrogate found",
            ),
            WimError::NotWim => str_to_string("不是有效的 WIM 文件"),
            WimError::BadXmlLocation => str_to_string("XML 元数据位置无效"),
            WimError::NoImages => str_to_string("未找到有效的镜像信息"),
            WimError::IndexNotFound => str_to_string("未找到指定索引的镜像信息"),
            WimError::VersionParse => str_to_string("解析镜像版本失败"),
            WimError::UnsupportedFormat => str_to_string("仅支持 WIM/ESD/SWM 镜像"),
        }
    }
}

// ---------------------------------------------------------------------------
// Header
// ---------------------------------------------------------------------------

/// Little-endian value of a byte sequence.
pub open spec fn le_value(b: Seq<u8>) -> nat
    decreases b.len(),
{
    if b.len() == 0 {
        0
    } else {
        b[0] as nat + 256 * le_value(b.drop_first())
    }
}

pub open spec fn wim_signature() -> Seq<u8> {
    seq![0x4du8, 0x53u8, 0x57u8, 0x49u8, 0x4du8, 0u8, 0u8, 0u8]
}

/// Position and size of the XML block that a 208-byte WIM header announces.
pub open spec fn wim_header_spec(h: Seq<u8>) -> Result<(nat, nat), WimError> {
    let offset = le_value(h.subrange(48, 56));
    let size = le_value(h.subrange(56, 64));
    if h.subrange(0, 8) != wim_signature() {
        Err(WimError::NotWim)
    } else if offset == 0 || size == 0 || size > 100_000_000 {
        Err(WimError::BadXmlLocation)
    } else {
        Ok((offset, size))
    }
}

spec fn pow256(n: nat) -> nat
    decreases n,
{
    if n == 0 {
        1
    } else {
        256 * pow256((n - 1) as nat)
    }
}

proof fn lemma_le_value_bound(b: Seq<u8>)
    ensures
        le_value(b) < pow256(b.len()),
    decreases b.len(),
{
    if b.len() > 0 {
        lemma_le_value_bound(b.drop_first());
        let p = pow256((b.len() - 1) as nat);
        let r = le_value(b.drop_first());
        assert(b[0] as nat + 256 * r < 256 * p) by (nonlinear_arith)
            requires
                r < p,
                b[0] < 256,
        ;
    }
}

proof fn lemma_pow256_mono(a: nat, b: nat)
    requires
        a <= b,
    ensures
        pow256(a) <= pow256(b),
    decreases b,
{
    if a < b {
        lemma_pow256_mono(a, (b - 1) as nat);
    }
}

/// Reads an 8-byte little-endian value.
fn read_le_u64(h: &[u8], off: usize) -> (r: u64)
    requires
        off + 8 <= h@.len(),
    ensures
        r as nat == le_value(h@.subrange(off as int, off + 8)),
{
    let hlen = h.len();
    let ghost b = h@.subrange(off as int, off + 8);
    let mut acc: u64 = 0;
    let mut k: usize = 8;
    proof {
        assert(b.subrange(8, 8) =~= Seq::<u8>::empty());
    }
    while k > 0
        invariant
            k <= 8,
            off + 8 <= h@.len(),
            hlen == h@.len(),
            b == h@.subrange(off as int, off + 8),
            acc as nat == le_value(b.subrange(k as int, 8)),
        decreases k,
    {
        let ghost tail = b.subrange(k - 1, 8);
        proof {
            assert(tail.drop_first() =~= b.subrange(k as int, 8));
            lemma_le_value_bound(tail);
            assert(tail.len() <= 8);
            lemma_pow256_mono(tail.len(), 8);
            reveal_with_fuel(pow256, 9);
            assert(pow256(8) == 0x1_0000_0000_0000_0000);
        }
        let byte = h[off + k - 1];
        assert(byte == tail[0]);
        acc = (byte as u64) + 256 * acc;
        k = k - 1;
    }
    assert(b.subrange(0, 8) =~= b);
    acc
}

/// Reads the position and size of the XML metadata from a WIM header.
pub fn parse_wim_header(header: &[u8; 208]) -> (r: Result<(u64, u64), WimError>)
    ensures
        match wim_header_spec(header@) {
            Ok((o, s)) => r == Ok::<(u64, u64), WimError>((o as u64, s as u64)),
            Err(e) => r == Err::<(u64, u64), WimError>(e),
        },
{
    let sig: [u8; 8] = [0x4d, 0x53, 0x57, 0x49, 0x4d, 0, 0, 0];
    assert(sig@ =~= wim_signature());
    let mut i: usize = 0;
    while i < 8
        invariant
            i <= 8,
            sig@ == wim_signature(),
            header@.len() == 208,
            forall|j: int| 0 <= j < i ==> header@[j] == sig@[j],
        decreases 8 - i,
    {
        if header[i] != sig[i] {
            assert(header@.subrange(0, 8)[i as int] != wim_signature()[i as int]);
            return Err(WimError::NotWim);
        }
        i = i + 1;
    }
    assert(header@.subrange(0, 8) =~= wim_signature());
    let offset = read_le_u64(header, 48);
    let size = read_le_u64(header, 56);
    if offset == 0 || size == 0 || size > 100_000_000 {
        return Err(WimError::BadXmlLocation);
    }
    Ok((offset, size))
}

// ---------------------------------------------------------------------------
// UTF-16LE decoding
// ---------------------------------------------------------------------------

/// Length of the byte-order mark at the start, if any.
pub open spec fn bom_len(data: Seq<u8>) -> int {
    if data.len() >= 2 && data[0] == 0xff && data[1] == 0xfe {
        2
    } else {
        0
    }
}

/// The UTF-16 code units of little-endian byte pairs after the byte-order mark.
pub open spec fn le_units(data: Seq<u8>) -> Seq<u16> {
    let start = bom_len(data);
    Seq::new(
        ((data.len() - start) / 2) as nat,
        |i: int| (data[start + 2 * i] as int + 256 * data[start + 2 * i + 1] as int) as u16,
    )
}

/// Drops trailing zero units.
pub open spec fn strip_zero_units(u: Seq<u16>) -> Seq<u16>
    decreases u.len(),
{
    if u.len() > 0 && u.last() == 0 {
        strip_zero_units(u.drop_last())
    } else {
        u
    }
}

pub open spec fn is_surrogate(u: u16) -> bool {
    0xd800 <= u && u <= 0xdfff
}

pub open spec fn no_surrogates(units: Seq<u16>) -> bool {
    forall|i: int| 0 <= i < units.len() ==> !is_surrogate(#[trigger] units[i])
}

pub open spec fn is_high_surrogate(u: u16) -> bool {
    0xd800 <= u && u <= 0xdbff
}

pub open spec fn is_low_surrogate(u: u16) -> bool {
    0xdc00 <= u && u <= 0xdfff
}

/// The character that a high and a low surrogate stand for together.
pub open spec fn pair_char(hi: u16, lo: u16) -> char {
    (0x10000 + (hi - 0xd800) * 0x400 + (lo - 0xdc00)) as char
}

/// UTF-16 decoding: a unit outside the surrogate range is its own character, a
/// high surrogate followed by a low one is one character together, and any other
/// surrogate makes the sequence invalid (`None`).
pub open spec fn utf16_decode(units: Seq<u16>) -> Option<Seq<char>>
    decreases units.len(),
{
    if units.len() == 0 {
        Some(Seq::empty())
    } else if !is_surrogate(units[0]) {
        match utf16_decode(units.drop_first()) {
            Some(r) => Some(seq![units[0] as char] + r),
            None => None,
        }
    } else if is_high_surrogate(units[0]) && units.len() >= 2 && is_low_surrogate(units[1]) {
        match utf16_decode(units.subrange(2, units.len() as int)) {
            Some(r) => Some(seq![pair_char(units[0], units[1])] + r),
            None => None,
        }
    } else {
        None
    }
}

/// Units without surrogates decode one unit per character.
pub proof fn lemma_utf16_plain(units: Seq<u16>)
    requires
        no_surrogates(units),
    ensures
        utf16_decode(units) == Some(units.map_values(|u: u16| u as char)),
    decreases units.len(),
{
    if units.len() > 0 {
        assert(!is_surrogate(units[0]));
        let rest = units.drop_first();
        assert forall|i: int| 0 <= i < rest.len() implies !is_surrogate(#[trigger] rest[i]) by {
            assert(rest[i] == units[i + 1]);
        }
        lemma_utf16_plain(rest);
        assert(seq![units[0] as char] + rest.map_values(|u: u16| u as char) =~= units.map_values(
            |u: u16| u as char,
        ));
    }
}

/// Calls `String::from_utf16`: the units are decoded as UTF-16 (see
/// [`utf16_decode`]), and invalid data (a lone surrogate) gives `None`.
#[verifier::external_body]
fn string_from_utf16(units: &[u16]) -> (r: Option<String>)
    ensures
        match utf16_decode(units@) {
            Some(s) => r matches Some(x) && x@ == s,
            None => r is None,
        },
{
    String::from_utf16(units).ok()
}

pub open spec fn decode_utf16le_spec(data: Seq<u8>) -> Result<Seq<char>, WimError> {
    if data.len() < 2 {
        Err(WimError::TooShort)
    } else {
        match utf16_decode(strip_zero_units(le_units(data))) {
            Some(s) => Ok(s),
            None => Err(WimError::Utf16Decode),
        }
    }
}

/// Decodes UTF-16LE bytes (after an optional byte-order mark), dropping trailing NULs.
pub fn decode_utf16le(data: &[u8]) -> (r: Result<String, WimError>)
    ensures
        match decode_utf16le_spec(data@) {
            Ok(s) => r matches Ok(t) && t@ == s,
            Err(e) => r == Err::<String, WimError>(e),
        },
        data@.len() >= 2 && no_surrogates(strip_zero_units(le_units(data@))) ==> (r matches Ok(t)
            && t@ == strip_zero_units(le_units(data@)).map_values(|u: u16| u as char)),
{
    proof {
        if no_surrogates(strip_zero_units(le_units(data@))) {
            lemma_utf16_plain(strip_zero_units(le_units(data@)));
        }
    }
    if data.len() < 2 {
        return Err(WimError::TooShort);
    }
    let start: usize = if data[0] == 0xff && data[1] == 0xfe {
        2
    } else {
        0
    };
    let dlen = data.len();
    let n = (dlen - start) / 2;
    let ghost units = le_units(data@);
    let mut u: Vec<u16> = Vec::new();
    let mut i: usize = 0;
    while i < n
        invariant
            i <= n,
            start == bom_len(data@),
            dlen == data@.len(),
            start <= 2,
            n == (dlen - start) / 2,
            units == le_units(data@),
            u@ == units.take(i as int),
        decreases n - i,
    {
        let off = start + 2 * i;
        let unit = (data[off] as u16) + 256 * (data[off + 1] as u16);
        assert(units[i as int] == unit);
        u.push(unit);
        assert(units.take(i as int).push(unit) =~= units.take(i + 1));
        i = i + 1;
    }
    assert(units.take(n as int) =~= units);
    while u.len() > 0 && u[u.len() - 1] == 0
        invariant
            strip_zero_units(units) == strip_zero_units(u@),
        decreases u.len(),
    {
        assert(u@.drop_last() =~= u@.subrange(0, u@.len() - 1));
        u.pop();
    }
    match string_from_utf16(u.as_slice()) {
        Some(s) => Ok(s),
        None => Err(WimError::Utf16Decode),
    }
}

// ---------------------------------------------------------------------------
// XML
// ---------------------------------------------------------------------------

pub open spec fn open_tag(tag: Seq<char>) -> Seq<char> {
    "<"@ + tag + ">"@
}

pub open spec fn close_tag(tag: Seq<char>) -> Seq<char> {
    "</"@ + tag + ">"@
}

/// The trimmed text between the first `<tag>` and the next `</tag>`.
pub open spec fn xml_tag(xml: Seq<char>, tag: Seq<char>) -> Option<Seq<char>> {
    match find_from(xml, open_tag(tag), 0) {
        Some(start) => {
            let cs = start + open_tag(tag).len();
            match find_from(xml, close_tag(tag), cs) {
                Some(end) => Some(trim(xml.subrange(cs, end))),
                None => None,
            }
        },
        None => None,
    }
}

fn xml_tag_chars(xml: &[char], tag: &[char]) -> (r: Option<Vec<char>>)
    ensures
        match xml_tag(xml@, tag@) {
            Some(c) => r matches Some(v) && v@ == c,
            None => r is None,
        },
{
    let xlen = xml.len();
    let lt = to_chars("<");
    let gt = to_chars(">");
    let lts = to_chars("</");
    let open = concat3(lt.as_slice(), tag, gt.as_slice());
    let close = concat3(lts.as_slice(), tag, gt.as_slice());
    match find_chars_from(xml, open.as_slice(), 0) {
        Some(start) => {
            proof {
                lemma_find_from(xml@, open@, 0);
            }
            let cs = start + open.len();
            match find_chars_from(xml, close.as_slice(), cs) {
                Some(end) => {
                    proof {
                        lemma_find_from(xml@, close@, cs as int);
                    }
                    let inner = slice_chars(xml, cs, end);
                    Some(trim_chars(inner.as_slice()))
                },
                None => None,
            }
        },
        None => None,
    }
}

/// The trimmed content of the first `<tag>…</tag>` element.
pub fn extract_xml_tag(xml: &str, tag: &str) -> (r: Option<String>)
    ensures
        match xml_tag(xml@, tag@) {
            Some(c) => r matches Some(s) && s@ == c,
            None => r is None,
        },
{
    let x = to_chars(xml);
    let t = to_chars(tag);
    match xml_tag_chars(x.as_slice(), t.as_slice()) {
        Some(v) => Some(chars_to_string(v.as_slice())),
        None => None,
    }
}

pub open spec fn image_marker() -> Seq<char> {
    "<IMAGE INDEX=\""@
}

pub open spec fn image_end() -> Seq<char> {
    "</IMAGE>"@
}

/// The index written in an `<IMAGE INDEX="…">` marker (0 when unreadable).
pub open spec fn index_value(xml: Seq<char>, from: int, to: int) -> u32 {
    match parse_nat(xml.subrange(from, to), u32::MAX as nat) {
        Some(v) => v as u32,
        None => 0,
    }
}

/// The `<IMAGE …>…</IMAGE>` block with the given index, searching from `pos`.
pub open spec fn image_block_from(xml: Seq<char>, target: u32, pos: int) -> Option<Seq<char>>
    decreases xml.len() + 1 - pos,
{
    if pos < 0 {
        None
    } else {
        match find_from(xml, image_marker(), pos) {
            None => None,
            Some(abs) => {
                proof {
                    lemma_find_from(xml, image_marker(), pos);
                    lemma_marker_lens();
                }
                let index_start = abs + 14;
                match find_from(xml, "\""@, index_start) {
                    None => image_block_from(xml, target, abs + 14),
                    Some(q) => {
                        match find_from(xml, image_end(), abs) {
                            Some(e) => {
                                proof {
                                    lemma_find_from(xml, image_end(), abs);
                                }
                                if index_value(xml, index_start, q) == target {
                                    Some(xml.subrange(abs, e + 8))
                                } else {
                                    image_block_from(xml, target, e + 8)
                                }
                            },
                            None => image_block_from(xml, target, abs + 14),
                        }
                    },
                }
            },
        }
    }
}

pub proof fn lemma_marker_lens()
    ensures
        image_marker().len() == 14,
        image_end().len() == 8,
        "\""@.len() == 1,
{
    reveal_strlit("<IMAGE INDEX=\"");
    reveal_strlit("</IMAGE>");
    reveal_strlit("\"");
}

fn image_block_chars(xml: &[char], target: u32) -> (r: Option<Vec<char>>)
    ensures
        match image_block_from(xml@, target, 0) {
            Some(b) => r matches Some(v) && v@ == b,
            None => r is None,
        },
{
    let xlen = xml.len();
    let marker = to_chars("<IMAGE INDEX=\"");
    let quote = to_chars("\"");
    let end_tag = to_chars("</IMAGE>");
    proof {
        lemma_marker_lens();
    }
    let mut pos: usize = 0;
    loop
        invariant
            marker@ == image_marker(),
            quote@ == "\""@,
            end_tag@ == image_end(),
            marker@.len() == 14,
            end_tag@.len() == 8,
            pos <= xml@.len(),
            xlen == xml@.len(),
            image_block_from(xml@, target, 0) == image_block_from(xml@, target, pos as int),
        decreases xml@.len() + 1 - pos,
    {
        match find_chars_from(xml, marker.as_slice(), pos) {
            None => {
                return None;
            },
            Some(abs) => {
                proof {
                    lemma_find_from(xml@, image_marker(), pos as int);
                }
                let index_start = abs + 14;
                match find_chars_from(xml, quote.as_slice(), index_start) {
                    None => {
                        pos = abs + 14;
                    },
                    Some(q) => {
                        proof {
                            lemma_find_from(xml@, "\""@, index_start as int);
                        }
                        let idx_chars = slice_chars(xml, index_start, q);
                        let index: u32 = match parse_u32(idx_chars.as_slice()) {
                            Some(v) => v,
                            None => 0,
                        };
                        match find_chars_from(xml, end_tag.as_slice(), abs) {
                            Some(e) => {
                                proof {
                                    lemma_find_from(xml@, image_end(), abs as int);
                                }
                                if index == target {
                                    return Some(slice_chars(xml, abs, e + 8));
                                }
                                pos = e + 8;
                            },
                            None => {
                                pos = abs + 14;
                            },
                        }
                    },
                }
            },
        }
    }
}

/// The `<IMAGE INDEX="n">…</IMAGE>` block of the image with index `target_index`.
pub fn extract_image_block(xml: &str, target_index: u32) -> (r: Option<String>)
    ensures
        match image_block_from(xml@, target_index, 0) {
            Some(b) => r matches Some(s) && s@ == b,
            None => r is None,
        },
{
    let x = to_chars(xml);
    match image_block_chars(x.as_slice(), target_index) {
        Some(v) => Some(chars_to_string(v.as_slice())),
        None => None,
    }
}

/// The classification of an image from its name, installation type, version and size.
pub open spec fn image_type_spec(
    name: Seq<char>,
    installation_type: Seq<char>,
    major_version: Option<u16>,
    size_bytes: u64,
) -> WimImageType {
    let nl = lowercase(name);
    let il = lowercase(installation_type);
    if il == "windowspe"@ || contains(nl, "windows pe"@) || contains(nl, "winpe"@) || contains(
        nl,
        "windows setup"@,
    ) {
        WimImageType::WindowsPE
    } else if installation_type.len() > 0 && major_version is Some && (il == "client"@ || il
        == "server"@) {
        WimImageType::StandardInstall
    } else if installation_type.len() == 0 && size_bytes > 1_000_000_000 {
        WimImageType::FullBackup
    } else if contains(nl, "backup"@) || contains(nl, "备份"@) || contains(nl, "ghost"@)
        || contains(nl, "clone"@) {
        WimImageType::FullBackup
    } else if major_version is Some && installation_type.len() == 0 {
        WimImageType::FullBackup
    } else {
        WimImageType::Unknown
    }
}

/// An image that is not taken for Windows PE, has no installation type and holds
/// more than 1,000,000,000 bytes is a full backup (a captured partition), whatever
/// its name and version; so it can be installed.
pub proof fn lemma_large_untyped_image_is_backup(
    name: Seq<char>,
    installation_type: Seq<char>,
    major_version: Option<u16>,
    size_bytes: u64,
)
    requires
        image_type_spec(name, installation_type, major_version, size_bytes) != WimImageType::WindowsPE,
        installation_type.len() == 0,
        size_bytes > 1_000_000_000,
    ensures
        image_type_spec(name, installation_type, major_version, size_bytes) == WimImageType::FullBackup,
{
}

fn is_lit(v: &[char], lit: &str) -> (r: bool)
    ensures
        r == (v@ == lit@),
{
    let l = to_chars(lit);
    chars_eq(v, l.as_slice())
}

fn has_lit(v: &[char], lit: &str) -> (r: bool)
    ensures
        r == contains(v@, lit@),
{
    let l = to_chars(lit);
    contains_chars(v, l.as_slice())
}

fn image_type_chars(name: &[char], installation_type: &[char], major_version: Option<u16>, size_bytes: u64) -> (r: WimImageType)
    ensures
        r == image_type_spec(name@, installation_type@, major_version, size_bytes),
{
    let nl = lowercase_chars(name);
    let il = lowercase_chars(installation_type);
    let n = nl.as_slice();
    if is_lit(il.as_slice(), "windowspe") || has_lit(n, "windows pe") || has_lit(n, "winpe")
        || has_lit(n, "windows setup") {
        return WimImageType::WindowsPE;
    }
    if installation_type.len() > 0 && major_version.is_some() && (is_lit(il.as_slice(), "client")
        || is_lit(il.as_slice(), "server")) {
        return WimImageType::StandardInstall;
    }
    if installation_type.len() == 0 && size_bytes > 1_000_000_000 {
        return WimImageType::FullBackup;
    }
    if has_lit(n, "backup") || has_lit(n, "备份") || has_lit(n, "ghost") || has_lit(n, "clone") {
        return WimImageType::FullBackup;
    }
    if major_version.is_some() && installation_type.len() == 0 {
        return WimImageType::FullBackup;
    }
    WimImageType::Unknown
}

/// Classifies an image from its name, installation type, major version and size.
pub fn determine_image_type_from_info(
    name: &str,
    installation_type: &str,
    major_version: Option<u16>,
    size_bytes: u64,
) -> (r: WimImageType)
    ensures
        r == image_type_spec(name@, installation_type@, major_version, size_bytes),
{
    let n = to_chars(name);
    let i = to_chars(installation_type);
    image_type_chars(n.as_slice(), i.as_slice(), major_version, size_bytes)
}

/// A version number read first from the `<VERSION>` block, else from the image block.
pub open spec fn version_field(block: Seq<char>, field: Seq<char>) -> Option<u16> {
    let text = match xml_tag(block, "VERSION"@) {
        Some(vb) => match xml_tag(vb, field) {
            Some(t) => Some(t),
            None => xml_tag(block, field),
        },
        None => xml_tag(block, field),
    };
    match text {
        Some(t) => match parse_nat(t, u16::MAX as nat) {
            Some(v) => Some(v as u16),
            None => None,
        },
        None => None,
    }
}

/// The name of an image: its display name, or its name when there is no display name,
/// or "镜像 <index>" when that text is empty or missing.
pub open spec fn image_name(block: Seq<char>, index: u32) -> Seq<char> {
    let n = match xml_tag(block, "DISPLAYNAME"@) {
        Some(d) => Some(d),
        None => xml_tag(block, "NAME"@),
    };
    match n {
        Some(t) => if t.len() > 0 {
            t
        } else {
            "镜像 "@ + dec(index as nat)
        },
        None => "镜像 "@ + dec(index as nat),
    }
}

/// The description of the image held in `block`.
pub open spec fn image_model(block: Seq<char>, index: u32) -> ImageModel {
    let name = image_name(block, index);
    let size: u64 = match xml_tag(block, "TOTALBYTES"@) {
        Some(t) => match parse_nat(t, u64::MAX as nat) {
            Some(v) => v as u64,
            None => 0,
        },
        None => 0,
    };
    let itype = match xml_tag(block, "INSTALLATIONTYPE"@) {
        Some(t) => t,
        None => Seq::empty(),
    };
    let major = version_field(block, "MAJOR"@);
    let minor = version_field(block, "MINOR"@);
    ImageModel {
        index,
        name,
        size_bytes: size,
        installation_type: itype,
        major_version: major,
        minor_version: minor,
        image_type: image_type_spec(name, itype, major, size),
        verified_installable: false,
    }
}

/// All images with an index above zero, in order, scanning from `pos`.
pub open spec fn images_from(xml: Seq<char>, pos: int) -> Seq<ImageModel>
    decreases xml.len() + 1 - pos,
{
    if pos < 0 {
        Seq::empty()
    } else {
        match find_from(xml, image_marker(), pos) {
            None => Seq::empty(),
            Some(abs) => {
                proof {
                    lemma_find_from(xml, image_marker(), pos);
                    lemma_marker_lens();
                }
                let index_start = abs + 14;
                match find_from(xml, "\""@, index_start) {
                    None => images_from(xml, abs + 14),
                    Some(q) => {
                        match find_from(xml, image_end(), abs) {
                            Some(e) => {
                                proof {
                                    lemma_find_from(xml, image_end(), abs);
                                }
                                let index = index_value(xml, index_start, q);
                                let rest = images_from(xml, e + 8);
                                if index > 0 {
                                    seq![image_model(xml.subrange(abs, e + 8), index)] + rest
                                } else {
                                    rest
                                }
                            },
                            None => images_from(xml, abs + 14),
                        }
                    },
                }
            },
        }
    }
}

pub open spec fn parse_wim_xml_spec(xml: Seq<char>) -> Result<Seq<ImageModel>, WimError> {
    if images_from(xml, 0).len() == 0 {
        Err(WimError::NoImages)
    } else {
        Ok(images_from(xml, 0))
    }
}

fn opt_tag(block: &[char], tag: &str) -> (r: Option<Vec<char>>)
    ensures
        match xml_tag(block@, tag@) {
            Some(c) => r matches Some(v) && v@ == c,
            None => r is None,
        },
{
    let t = to_chars(tag);
    xml_tag_chars(block, t.as_slice())
}

fn version_field_chars(block: &[char], field: &str) -> (r: Option<u16>)
    ensures
        r == version_field(block@, field@),
{
    let text = match opt_tag(block, "VERSION") {
        Some(vb) => match opt_tag(vb.as_slice(), field) {
            Some(t) => Some(t),
            None => opt_tag(block, field),
        },
        None => opt_tag(block, field),
    };
    match text {
        Some(t) => parse_u16(t.as_slice()),
        None => None,
    }
}

fn image_info_from_block(block: &[char], index: u32) -> (r: ImageInfo)
    ensures
        r@ == image_model(block@, index),
{
    let n = match opt_tag(block, "DISPLAYNAME") {
        Some(d) => Some(d),
        None => opt_tag(block, "NAME"),
    };
    let name: String = match n {
        Some(t) => if t.len() > 0 {
            chars_to_string(t.as_slice())
        } else {
            let mut s = str_to_string("镜像 ");
            push_dec(&mut s, index as u64);
            s
        },
        None => {
            let mut s = str_to_string("镜像 ");
            push_dec(&mut s, index as u64);
            s
        },
    };
    let size_bytes: u64 = match opt_tag(block, "TOTALBYTES") {
        Some(t) => match parse_u64(t.as_slice()) {
            Some(v) => v,
            None => 0,
        },
        None => 0,
    };
    let itype: Vec<char> = match opt_tag(block, "INSTALLATIONTYPE") {
        Some(t) => t,
        None => Vec::new(),
    };
    let major = version_field_chars(block, "MAJOR");
    let minor = version_field_chars(block, "MINOR");
    let name_chars = to_chars(name.as_str());
    let image_type = image_type_chars(name_chars.as_slice(), itype.as_slice(), major, size_bytes);
    ImageInfo {
        index,
        name,
        size_bytes,
        installation_type: chars_to_string(itype.as_slice()),
        major_version: major,
        minor_version: minor,
        image_type,
        verified_installable: false,
    }
}

fn images_chars(xml: &[char]) -> (r: Vec<ImageInfo>)
    ensures
        images_view(r@) == images_from(xml@, 0),
{
    let xlen = xml.len();
    let marker = to_chars("<IMAGE INDEX=\"");
    let quote = to_chars("\"");
    let end_tag = to_chars("</IMAGE>");
    proof {
        lemma_marker_lens();
    }
    let mut images: Vec<ImageInfo> = Vec::new();
    let mut pos: usize = 0;
    loop
        invariant
            marker@ == image_marker(),
            quote@ == "\""@,
            end_tag@ == image_end(),
            marker@.len() == 14,
            end_tag@.len() == 8,
            pos <= xml@.len(),
            xlen == xml@.len(),
            images_from(xml@, 0) == images_view(images@) + images_from(xml@, pos as int),
        decreases xml@.len() + 1 - pos,
    {
        match find_chars_from(xml, marker.as_slice(), pos) {
            None => {
                assert(images_view(images@) + Seq::<ImageModel>::empty() =~= images_view(images@));
                return images;
            },
            Some(abs) => {
                proof {
                    lemma_find_from(xml@, image_marker(), pos as int);
                }
                let index_start = abs + 14;
                match find_chars_from(xml, quote.as_slice(), index_start) {
                    None => {
                        pos = abs + 14;
                    },
                    Some(q) => {
                        proof {
                            lemma_find_from(xml@, "\""@, index_start as int);
                        }
                        let idx_chars = slice_chars(xml, index_start, q);
                        let index: u32 = match parse_u32(idx_chars.as_slice()) {
                            Some(v) => v,
                            None => 0,
                        };
                        match find_chars_from(xml, end_tag.as_slice(), abs) {
                            Some(e) => {
                                proof {
                                    lemma_find_from(xml@, image_end(), abs as int);
                                }
                                if index > 0 {
                                    let block = slice_chars(xml, abs, e + 8);
                                    let info = image_info_from_block(block.as_slice(), index);
                                    let ghost before = images_view(images@);
                                    images.push(info);
                                    assert(images_view(images@) =~= before.push(info@));
                                    assert(before + (seq![info@] + images_from(xml@, e + 8))
                                        =~= before.push(info@) + images_from(xml@, e + 8));
                                }
                                pos = e + 8;
                            },
                            None => {
                                pos = abs + 14;
                            },
                        }
                    },
                }
            },
        }
    }
}

/// Reads the descriptions of all images (index above zero) from WIM XML metadata.
pub fn parse_wim_xml(xml: &str) -> (r: Result<Vec<ImageInfo>, WimError>)
    ensures
        match parse_wim_xml_spec(xml@) {
            Ok(m) => r matches Ok(v) && images_view(v@) == m,
            Err(e) => r matches Err(x) && x == e,
        },
{
    let x = to_chars(xml);
    let images = images_chars(x.as_slice());
    if images.len() == 0 {
        return Err(WimError::NoImages);
    }
    Ok(images)
}

/// Why the volumes of an image file could not be read.
pub open spec fn image_info_failure() -> Seq<char> {
    "无法获取镜像信息：wimlib 打开文件失败。可能原因：1.镜像文件损坏 2.libwim-15.dll 缺失或版本过旧不支持此格式（程序会自动释放内置的 libwim-15.dll 到程序目录，请确认其存在）"@
}

/// The volumes of an image file: those the imaging library read when it could, else
/// those found in the file's WIM XML metadata when there are any (the metadata of an
/// ESD file is compressed and cannot be read this way); else the file could not be
/// opened.
pub fn image_volumes_from(
    library: Result<Vec<ImageInfo>, String>,
    metadata: Result<Vec<ImageInfo>, WimError>,
) -> (r: Result<Vec<ImageInfo>, String>)
    ensures
        match library {
            Ok(v) => r matches Ok(x) && x@ == v@,
            Err(_) => match metadata {
                Ok(m) => if m@.len() > 0 {
                    r matches Ok(x) && x@ == m@
                } else {
                    r matches Err(e) && e@ == image_info_failure()
                },
                Err(_) => r matches Err(e) && e@ == image_info_failure(),
            },
        },
{
    match library {
        Ok(v) => Ok(v),
        Err(_) => match metadata {
            Ok(m) => if m.len() > 0 {
                Ok(m)
            } else {
                Err(str_to_string("无法获取镜像信息：wimlib 打开文件失败。可能原因：1.镜像文件损坏 2.libwim-15.dll 缺失或版本过旧不支持此格式（程序会自动释放内置的 libwim-15.dll 到程序目录，请确认其存在）"))
            },
            Err(_) => Err(str_to_string("无法获取镜像信息：wimlib 打开文件失败。可能原因：1.镜像文件损坏 2.libwim-15.dll 缺失或版本过旧不支持此格式（程序会自动释放内置的 libwim-15.dll 到程序目录，请确认其存在）")),
        },
    }
}

/// The major version of the image with the given index, as the metadata gives it:
/// from the `<VERSION>` block when that block is present and non-empty, else from the
/// image block itself.
pub open spec fn major_version_spec(xml: Seq<char>, index: u32) -> Result<u16, WimError> {
    match image_block_from(xml, index, 0) {
        None => Err(WimError::IndexNotFound),
        Some(block) => {
            let vb = match xml_tag(block, "VERSION"@) {
                Some(v) => v,
                None => Seq::empty(),
            };
            let major = if vb.len() > 0 {
                xml_tag(vb, "MAJOR"@)
            } else {
                xml_tag(block, "MAJOR"@)
            };
            match major {
                Some(t) => match parse_nat(t, u16::MAX as nat) {
                    Some(v) => Ok(v as u16),
                    None => Err(WimError::VersionParse),
                },
                None => Err(WimError::VersionParse),
            }
        },
    }
}

/// Reads the major Windows version of one image from WIM XML metadata.
pub fn get_image_major_version_from_xml(xml: &str, index: u32) -> (r: Result<u16, WimError>)
    ensures
        r == major_version_spec(xml@, index),
{
    let x = to_chars(xml);
    let block = match image_block_chars(x.as_slice(), index) {
        Some(b) => b,
        None => {
            return Err(WimError::IndexNotFound);
        },
    };
    let vb: Vec<char> = match opt_tag(block.as_slice(), "VERSION") {
        Some(v) => v,
        None => Vec::new(),
    };
    let major = if vb.len() > 0 {
        opt_tag(vb.as_slice(), "MAJOR")
    } else {
        opt_tag(block.as_slice(), "MAJOR")
    };
    match major {
        Some(t) => match parse_u16(t.as_slice()) {
            Some(v) => Ok(v),
            None => Err(WimError::VersionParse),
        },
        None => Err(WimError::VersionParse),
    }
}

/// Container format of an image file, by extension.
#[derive(Debug, Clone, Copy, PartialEq, Eq, Structural)]
pub enum ImageFileKind {
    Wim,
    Esd,
    Swm,
}

pub open spec fn image_file_kind_spec(path: Seq<char>) -> Result<ImageFileKind, WimError> {
    let l = lowercase(path);
    if ends_with(l, ".wim"@) {
        Ok(ImageFileKind::Wim)
    } else if ends_with(l, ".esd"@) {
        Ok(ImageFileKind::Esd)
    } else if ends_with(l, ".swm"@) {
        Ok(ImageFileKind::Swm)
    } else {
        Err(WimError::UnsupportedFormat)
    }
}

fn ends_with_lit(v: &[char], lit: &str) -> (r: bool)
    ensures
        r == ends_with(v@, lit@),
{
    let l = to_chars(lit);
    ends_with_chars(v, l.as_slice())
}

/// The container format of an image file, judged by its extension (any case).
pub fn image_file_kind(image_file: &str) -> (r: Result<ImageFileKind, WimError>)
    ensures
        r == image_file_kind_spec(image_file@),
{
    let p = to_chars(image_file);
    let l = lowercase_chars(p.as_slice());
    if ends_with_lit(l.as_slice(), ".wim") {
        Ok(ImageFileKind::Wim)
    } else if ends_with_lit(l.as_slice(), ".esd") {
        Ok(ImageFileKind::Esd)
    } else if ends_with_lit(l.as_slice(), ".swm") {
        Ok(ImageFileKind::Swm)
    } else {
        Err(WimError::UnsupportedFormat)
    }
}

pub open spec fn win10_or_11_spec(
    image_file: Seq<char>,
    ntdll_major: Option<u16>,
    xml_major: Result<u16, WimError>,
) -> Result<bool, WimError> {
    match image_file_kind_spec(image_file) {
        Err(e) => Err(e),
        Ok(kind) => if kind != ImageFileKind::Swm && ntdll_major is Some {
            Ok(ntdll_major->0 >= 10)
        } else {
            match xml_major {
                Ok(m) => Ok(m >= 10),
                Err(e) => Err(e),
            }
        },
    }
}

} // verus!
