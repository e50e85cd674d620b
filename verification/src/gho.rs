//! Password detection for Ghost image files (`.gho` / `.ghs`).
//!
//! A Ghost header keeps a password flag, a length and the password bytes
//! XOR-ed with a one-byte key. Several header layouts exist; each reader below
//! recognises one of them. All readers work on bytes that the caller has read
//! from the file.
use vstd::prelude::*;
use crate::text::{chars_eq, dec, lowercase, push_char, push_dec, push_str, str_to_string, to_chars, to_lowercase};

verus! {

/// XOR key of the usual header layout.
pub const XOR_KEY: u8 = 0xAA;

/// XOR key that some Ghost versions use instead.
pub const XOR_KEY_ALT: u8 = 0x55;

/// Password information of a Ghost image.
#[derive(Debug, Clone)]
pub struct GhoPasswordInfo {
    /// The image is protected by a password.
    pub has_password: bool,
    /// The decrypted password, when it could be recovered.
    pub password: Option<String>,
    /// Length of the stored password.
    pub password_length: usize,
    /// The file is a Ghost image.
    pub is_valid_gho: bool,
    /// Why the password or the file could not be read.
    pub error: Option<String>,
}

/// The mathematical content of a [`GhoPasswordInfo`].
pub struct GhoModel {
    pub has_password: bool,
    pub password: Option<Seq<char>>,
    pub password_length: nat,
    pub is_valid_gho: bool,
    pub error: Option<Seq<char>>,
}

pub open spec fn opt_string_view(o: Option<String>) -> Option<Seq<char>> {
    match o {
        Some(s) => Some(s@),
        None => None,
    }
}

impl View for GhoPasswordInfo {
    type V = GhoModel;

    open spec fn view(&self) -> GhoModel {
        GhoModel {
            has_password: self.has_password,
            password: opt_string_view(self.password),
            password_length: self.password_length as nat,
            is_valid_gho: self.is_valid_gho,
            error: opt_string_view(self.error),
        }
    }
}

pub open spec fn opt_info_view(o: Option<GhoPasswordInfo>) -> Option<GhoModel> {
    match o {
        Some(i) => Some(i@),
        None => None,
    }
}

// ---------------------------------------------------------------------------
// Specification of the header formats
// ---------------------------------------------------------------------------

/// XOR every byte with `key` and stop before the first zero result.
pub open spec fn xor_take(enc: Seq<u8>, key: u8) -> Seq<u8>
    decreases enc.len(),
{
    if enc.len() == 0 || enc[0] ^ key == 0 {
        seq![]
    } else {
        seq![enc[0] ^ key] + xor_take(enc.drop_first(), key)
    }
}

pub open spec fn printable_char(c: char) -> bool {
    ' ' <= c && c <= '~'
}

/// A usable password: non-empty, only printable ASCII (graphic characters and space).
pub open spec fn is_password_text(s: Seq<char>) -> bool {
    s.len() > 0 && forall|i: int| 0 <= i < s.len() ==> printable_char(#[trigger] s[i])
}

/// Bytes that decode to a usable password.
pub open spec fn printable_bytes(b: Seq<u8>) -> bool {
    b.len() > 0 && forall|i: int| 0 <= i < b.len() ==> 0x20 <= #[trigger] b[i] && b[i] <= 0x7e
}

pub open spec fn bytes_as_chars(b: Seq<u8>) -> Seq<char> {
    b.map_values(|x: u8| x as char)
}

pub open spec fn all_ascii_bytes(b: Seq<u8>) -> bool {
    forall|i: int| 0 <= i < b.len() ==> #[trigger] b[i] < 0x80
}

/// What `String::from_utf8_lossy` makes of a byte sequence.
pub uninterp spec fn utf8_lossy(bytes: Seq<u8>) -> Seq<char>;

pub open spec fn no_password() -> GhoModel {
    GhoModel {
        has_password: false,
        password: None,
        password_length: 0,
        is_valid_gho: true,
        error: None,
    }
}

pub open spec fn password_found(b: Seq<u8>, len: nat) -> GhoModel {
    GhoModel {
        has_password: true,
        password: Some(bytes_as_chars(b)),
        password_length: len,
        is_valid_gho: true,
        error: None,
    }
}

/// Layout of Ghost 8.x/9.x: flag at 0x18, length at 0x19, data at 0x1C.
pub open spec fn read_v1(h: Seq<u8>) -> Option<GhoModel> {
    let flag = h[0x18];
    let len = h[0x19] as nat;
    let enc = h.subrange(0x1c, 0x1c + len as int);
    if flag == 0 {
        Some(no_password())
    } else if flag != 1 && flag != 0xff {
        None
    } else if len == 0 || len > 32 {
        None
    } else if printable_bytes(xor_take(enc, XOR_KEY)) {
        Some(password_found(xor_take(enc, XOR_KEY), len))
    } else if printable_bytes(xor_take(enc, XOR_KEY_ALT)) {
        Some(password_found(xor_take(enc, XOR_KEY_ALT), len))
    } else {
        Some(
            GhoModel {
                has_password: true,
                password: None,
                password_length: len,
                is_valid_gho: true,
                error: Some("密码已加密，无法解密"@),
            },
        )
    }
}

/// In the Ghost 8.x/9.x layout the flag bytes 0x01 and 0xFF both mark a
/// password: a header flagged 0xFF reads exactly as the same header flagged 0x01,
/// and with a length of 1 to 32 whose `XOR_KEY` decryption is printable it gives
/// that password.
pub proof fn lemma_v1_flag_ff_is_password(h: Seq<u8>)
    requires
        h.len() == 64,
        h[0x18] == 0xff,
    ensures
        read_v1(h) == read_v1(h.update(0x18, 1u8)),
        ({
            let len = h[0x19] as nat;
            let d = xor_take(h.subrange(0x1c, 0x1c + len as int), XOR_KEY);
            1 <= len <= 32 && printable_bytes(d) ==> (read_v1(h) matches Some(m) && m.has_password
                && m.is_valid_gho && m.password == Some(bytes_as_chars(d)) && m.password_length == len
                && m.error is None)
        }),
{
    let g = h.update(0x18, 1u8);
    assert(g[0x18] == 1u8);
    assert(g[0x19] == h[0x19]);
    let len = h[0x19] as nat;
    if len <= 32 {
        assert(g.subrange(0x1c, 0x1c + len as int) =~= h.subrange(0x1c, 0x1c + len as int));
    }
}

/// Layout of Ghost 10.x/11.x: flag at 0x08, length at 0x09, data at 0x0C.
pub open spec fn read_v2(h: Seq<u8>) -> Option<GhoModel> {
    let flag = h[0x08];
    let len = h[0x09] as nat;
    let enc = h.subrange(0x0c, 0x0c + len as int);
    if flag == 0 || len == 0 || len > 32 || 0x0c + len > 64 {
        None
    } else if printable_bytes(xor_take(enc, XOR_KEY)) {
        Some(password_found(xor_take(enc, XOR_KEY), len))
    } else {
        None
    }
}

/// The keys tried, in order, for the Ghost 12.x layout.
pub open spec fn v3_keys() -> Seq<u8> {
    seq![XOR_KEY, 0x55u8, 0xffu8, 0x5au8, 0xa5u8, 0x00u8]
}

/// First key from position `k` of `v3_keys` that yields a printable password.
pub open spec fn first_printable_key(enc: Seq<u8>, k: int) -> Option<u8>
    decreases 6 - k,
{
    if k < 0 || k >= 6 {
        None
    } else if printable_bytes(xor_take(enc, v3_keys()[k])) {
        Some(v3_keys()[k])
    } else {
        first_printable_key(enc, k + 1)
    }
}

/// Layout of Ghost 12.x: flag at 0x28, length at 0x29, data at 0x2C.
pub open spec fn read_v3(h: Seq<u8>) -> Option<GhoModel> {
    let flag = h[0x28];
    let len = h[0x29] as nat;
    let enc = h.subrange(0x2c, 0x2c + len as int);
    if flag == 0 || len == 0 || len > 32 || 0x2c + len > 64 {
        None
    } else {
        match first_printable_key(enc, 0) {
            Some(key) => Some(password_found(xor_take(enc, key), len)),
            None => None,
        }
    }
}

/// The marker `GHPW` stands at position `i`.
pub open spec fn ghpw_at(b: Seq<u8>, i: int) -> bool {
    b[i] == 0x47 && b[i + 1] == 0x48 && b[i + 2] == 0x50 && b[i + 3] == 0x57
}

/// Scan of the last 128 bytes of the file for a `GHPW` record, from position `i` on.
pub open spec fn scan_tail(b: Seq<u8>, i: int) -> Option<GhoModel>
    decreases 124 - i,
{
    if i < 0 || i >= 124 {
        None
    } else {
        let len = b[i + 4] as nat;
        let enc = b.subrange(i + 5, i + 5 + len as int);
        if ghpw_at(b, i) && len > 0 && len <= 32 && i + 5 + len <= 128 && printable_bytes(
            xor_take(enc, XOR_KEY),
        ) {
            Some(password_found(xor_take(enc, XOR_KEY), len))
        } else {
            scan_tail(b, i + 1)
        }
    }
}

/// The first two bytes are one of the known Ghost signatures.
pub open spec fn valid_signature(h: Seq<u8>) -> bool {
    ||| h[0] == 0xfe && h[1] == 0xef
    ||| h[0] == 0x47 && h[1] == 0x46
    ||| h[0] == 0xeb && h[1] == 0x00
    ||| h[0] == 0xeb
    ||| h[0] == 0xe9
}

/// The first of the alternate header copies, from position `k` on, that holds a
/// recognisable version-1 header.
pub open spec fn first_alternate(alts: Seq<Seq<u8>>, k: int) -> Option<GhoModel>
    decreases alts.len() - k,
{
    if k < 0 || k >= alts.len() {
        None
    } else {
        match read_v1(alts[k]) {
            Some(m) => if m.has_password || m.is_valid_gho {
                Some(m)
            } else {
                first_alternate(alts, k + 1)
            },
            None => first_alternate(alts, k + 1),
        }
    }
}

pub open spec fn hex_digit(n: nat) -> char {
    if n < 10 {
        (n + 48) as char
    } else {
        (n + 55) as char
    }
}

/// Two upper-case hexadecimal digits, as `{:02X}` writes a byte.
pub open spec fn hex2(b: u8) -> Seq<char> {
    seq![hex_digit(b as nat / 16), hex_digit(b as nat % 16)]
}

pub open spec fn bad_signature_message(h: Seq<u8>) -> Seq<char> {
    "无效的GHO文件签名: 0x"@ + hex2(h[0]) + " 0x"@ + hex2(h[1])
}

/// What a Ghost file with header `h` tells about its password; `alts` are the
/// 64-byte blocks read at 0x200, 0x400, 0x800 and 0x1000 (those that could be
/// read), `tail` the last 128 bytes when they could be read.
pub open spec fn inspect(h: Seq<u8>, alts: Seq<Seq<u8>>, tail: Option<Seq<u8>>) -> GhoModel {
    if !valid_signature(h) {
        match first_alternate(alts, 0) {
            Some(m) => m,
            None => GhoModel {
                has_password: false,
                password: None,
                password_length: 0,
                is_valid_gho: false,
                error: Some(bad_signature_message(h)),
            },
        }
    } else if read_v1(h) is Some {
        read_v1(h)->0
    } else if read_v2(h) is Some {
        read_v2(h)->0
    } else if read_v3(h) is Some {
        read_v3(h)->0
    } else {
        match tail {
            Some(t) => match scan_tail(t, 0) {
                Some(m) => m,
                None => no_password(),
            },
            None => no_password(),
        }
    }
}

/// A Ghost header with the `FE EF` signature whose 8.x/9.x password fields (flag
/// 0x01 or 0xFF, length 1 to 32) decrypt with `XOR_KEY` to printable text is
/// reported with that password.
pub proof fn lemma_inspect_reports_v1_password(h: Seq<u8>, alts: Seq<Seq<u8>>, tail: Option<Seq<u8>>)
    requires
        h.len() == 64,
        h[0] == 0xfe && h[1] == 0xef,
        h[0x18] == 1 || h[0x18] == 0xff,
        1 <= h[0x19] <= 32,
        printable_bytes(xor_take(h.subrange(0x1c, 0x1c + h[0x19] as int), XOR_KEY)),
    ensures
        inspect(h, alts, tail).has_password,
        inspect(h, alts, tail).is_valid_gho,
        inspect(h, alts, tail).password == Some(
            bytes_as_chars(xor_take(h.subrange(0x1c, 0x1c + h[0x19] as int), XOR_KEY)),
        ),
        inspect(h, alts, tail).password_length == h[0x19] as nat,
        inspect(h, alts, tail).error is None,
{
}

// ---------------------------------------------------------------------------
// Trusted std call
// ---------------------------------------------------------------------------

/// Calls `String::from_utf8_lossy`. Claimed: the result is `utf8_lossy` of the
/// bytes; ASCII bytes come out as the same characters; and a byte of 0x80 or
/// more never comes out as an ASCII character, so some character of the result
/// is then outside ASCII. How invalid sequences are replaced is not stated.
#[verifier::external_body]
fn string_from_utf8_lossy(bytes: &[u8]) -> (s: String)
    ensures
        s@ == utf8_lossy(bytes@),
        all_ascii_bytes(bytes@) ==> s@ == bytes_as_chars(bytes@),
        !all_ascii_bytes(bytes@) ==> exists|j: int| 0 <= j < s@.len() && (#[trigger] s@[j]) as int >= 0x80,
{
    String::from_utf8_lossy(bytes).to_string()
}

// ---------------------------------------------------------------------------
// Implementation
// ---------------------------------------------------------------------------

/// XOR-decrypts `len` bytes of `buf` from `start`, stopping at the first zero.
pub fn xor_decrypt(buf: &[u8], start: usize, len: usize, key: u8) -> (r: Vec<u8>)
    requires
        start + len <= buf@.len(),
    ensures
        r@ == xor_take(buf@.subrange(start as int, start + len), key),
{
    let ghost sub = buf@.subrange(start as int, start + len);
    let mut r: Vec<u8> = Vec::new();
    let mut i: usize = 0;
    assert(sub.subrange(0, len as int) =~= sub);
    while i < len
        invariant
            i <= len,
            start + len <= buf@.len(),
            sub == buf@.subrange(start as int, start + len),
            xor_take(sub, key) == r@ + xor_take(sub.subrange(i as int, len as int), key),
        decreases len - i,
    {
        assert(start + i < buf.len());
        let idx: usize = start + i;
        let b = buf[idx] ^ key;
        let ghost rest = sub.subrange(i as int, len as int);
        assert(rest[0] == buf@[start + i]);
        if b == 0 {
            assert(xor_take(rest, key) =~= seq![]);
            assert(r@ + seq![] =~= r@);
            return r;
        }
        assert(rest.drop_first() =~= sub.subrange(i + 1, len as int));
        assert(r@ + (seq![b] + xor_take(rest.drop_first(), key)) =~= r@.push(b) + xor_take(
            rest.drop_first(),
            key,
        ));
        r.push(b);
        i = i + 1;
    }
    assert(xor_take(sub.subrange(len as int, len as int), key) =~= seq![]);
    assert(r@ + seq![] =~= r@);
    r
}

/// Whether decrypted bytes form a usable password.
pub fn is_printable_password(b: &[u8]) -> (r: bool)
    ensures
        r == printable_bytes(b@),
{
    if b.len() == 0 {
        return false;
    }
    let mut i: usize = 0;
    while i < b.len()
        invariant
            i <= b.len(),
            forall|j: int| 0 <= j < i ==> 0x20 <= #[trigger] b@[j] && b@[j] <= 0x7e,
        decreases b.len() - i,
    {
        if b[i] < 0x20 || b[i] > 0x7e {
            return false;
        }
        i = i + 1;
    }
    true
}

/// Turns ASCII bytes into a string with the same characters.
pub fn ascii_bytes_to_string(b: &[u8]) -> (s: String)
    ensures
        s@ == bytes_as_chars(b@),
{
    let mut s = String::new();
    let mut i: usize = 0;
    while i < b.len()
        invariant
            i <= b.len(),
            s@ == bytes_as_chars(b@.take(i as int)),
        decreases b.len() - i,
    {
        push_char(&mut s, b[i] as char);
        assert(bytes_as_chars(b@.take(i + 1)) =~= bytes_as_chars(b@.take(i as int)).push(
            b@[i as int] as char,
        ));
        i = i + 1;
    }
    assert(b@.take(b.len() as int) =~= b@);
    s
}

/// XOR-decrypts a password and decodes it as UTF-8 (invalid sequences replaced).
///
/// When every decrypted byte is ASCII the result is exactly those bytes as
/// characters, and the result is a valid password exactly when the decrypted bytes
/// are printable.
pub fn decrypt_password(encrypted: &[u8], key: u8) -> (r: String)
    ensures
        r@ == utf8_lossy(xor_take(encrypted@, key)),
        all_ascii_bytes(xor_take(encrypted@, key)) ==> r@ == bytes_as_chars(xor_take(encrypted@, key)),
        is_password_text(r@) == printable_bytes(xor_take(encrypted@, key)),
{
    let v = xor_decrypt(encrypted, 0, encrypted.len(), key);
    assert(encrypted@.subrange(0, encrypted@.len() as int) =~= encrypted@);
    let r = string_from_utf8_lossy(v.as_slice());
    proof {
        lemma_decrypted_password_check(encrypted@, key, r@);
    }
    r
}

/// Every byte XORed with `key`.
pub open spec fn xor_all(plain: Seq<u8>, key: u8) -> Seq<u8> {
    plain.map_values(|b: u8| b ^ key)
}

/// XOR with the same key undoes the encryption: bytes without a zero, encrypted
/// with `key`, decrypt with `key` back to themselves. For ASCII text,
/// [`decrypt_password`] therefore gives the text back.
pub proof fn lemma_xor_round_trip(plain: Seq<u8>, key: u8)
    requires
        forall|i: int| 0 <= i < plain.len() ==> #[trigger] plain[i] != 0,
    ensures
        xor_take(xor_all(plain, key), key) == plain,
    decreases plain.len(),
{
    if plain.len() > 0 {
        let e = xor_all(plain, key);
        let b = plain[0];
        assert((b ^ key) ^ key == b) by (bit_vector);
        assert(e[0] ^ key == b);
        let rest = plain.drop_first();
        assert forall|i: int| 0 <= i < rest.len() implies #[trigger] rest[i] != 0 by {
            assert(rest[i] == plain[i + 1]);
        }
        lemma_xor_round_trip(rest, key);
        assert(e.drop_first() =~= xor_all(rest, key));
        assert(seq![b] + rest =~= plain);
    }
}

/// Whether a decrypted password is usable: non-empty, and only printable
/// ASCII characters (graphic characters and space).
pub fn is_valid_password(password: &str) -> (r: bool)
    ensures
        r == is_password_text(password@),
{
    let v = to_chars(password);
    if v.len() == 0 {
        return false;
    }
    let mut i: usize = 0;
    while i < v.len()
        invariant
            i <= v.len(),
            v@ == password@,
            forall|j: int| 0 <= j < i ==> printable_char(#[trigger] v@[j]),
        decreases v.len() - i,
    {
        if v[i] < ' ' || v[i] > '~' {
            return false;
        }
        i = i + 1;
    }
    true
}

/// The check that the readers apply to decrypted bytes decides exactly what
/// `is_valid_password(&decrypt_password(..))` decides.
pub proof fn lemma_decrypted_password_check(encrypted: Seq<u8>, key: u8, s: Seq<char>)
    requires
        s == utf8_lossy(xor_take(encrypted, key)),
        all_ascii_bytes(xor_take(encrypted, key)) ==> s == bytes_as_chars(xor_take(encrypted, key)),
        !all_ascii_bytes(xor_take(encrypted, key)) ==> exists|j: int|
            0 <= j < s.len() && (#[trigger] s[j]) as int >= 0x80,
    ensures
        is_password_text(s) == printable_bytes(xor_take(encrypted, key)),
{
    let b = xor_take(encrypted, key);
    if all_ascii_bytes(b) {
        if is_password_text(s) {
            assert forall|i: int| 0 <= i < b.len() implies 0x20 <= #[trigger] b[i] && b[i] <= 0x7e by {
                assert(printable_char(s[i]));
                assert(s[i] == b[i] as char);
            }
        }
        if printable_bytes(b) {
            assert forall|i: int| 0 <= i < s.len() implies printable_char(#[trigger] s[i]) by {
                assert(s[i] == b[i] as char);
                assert(0x20 <= b[i] && b[i] <= 0x7e);
            }
        }
    } else {
        let j = choose|j: int| 0 <= j < s.len() && (#[trigger] s[j]) as int >= 0x80;
        assert(!printable_char(s[j]));
        let k = choose|k: int| 0 <= k < b.len() && !(#[trigger] b[k] < 0x80);
        assert(!(0x20 <= b[k] && b[k] <= 0x7e));
    }
}

fn found(b: Vec<u8>, len: usize) -> (r: GhoPasswordInfo)
    requires
        printable_bytes(b@),
    ensures
        r@ == password_found(b@, len as nat),
{
    GhoPasswordInfo {
        is_valid_gho: true,
        has_password: true,
        password: Some(ascii_bytes_to_string(b.as_slice())),
        password_length: len,
        error: None,
    }
}

fn none_found() -> (r: GhoPasswordInfo)
    ensures
        r@ == no_password(),
{
    GhoPasswordInfo {
        is_valid_gho: true,
        has_password: false,
        password: None,
        password_length: 0,
        error: None,
    }
}

/// Reads the Ghost 8.x/9.x header layout.
pub fn try_read_password_v1(header: &[u8; 64]) -> (r: Option<GhoPasswordInfo>)
    ensures
        opt_info_view(r) == read_v1(header@),
{
    let flag = header[0x18];
    if flag == 0 {
        return Some(none_found());
    }
    if flag != 1 && flag != 0xff {
        return None;
    }
    let len = header[0x19] as usize;
    if len == 0 || len > 32 {
        return None;
    }
    let d = xor_decrypt(header, 0x1c, len, XOR_KEY);
    if is_printable_password(d.as_slice()) {
        return Some(found(d, len));
    }
    let d2 = xor_decrypt(header, 0x1c, len, XOR_KEY_ALT);
    if is_printable_password(d2.as_slice()) {
        return Some(found(d2, len));
    }
    Some(
        GhoPasswordInfo {
            is_valid_gho: true,
            has_password: true,
            password: None,
            password_length: len,
            error: Some(str_to_string("密码已加密，无法解密")),
        },
    )
}

/// Reads the Ghost 10.x/11.x header layout.
pub fn try_read_password_v2(header: &[u8; 64]) -> (r: Option<GhoPasswordInfo>)
    ensures
        opt_info_view(r) == read_v2(header@),
{
    let flag = header[0x08];
    if flag == 0 {
        return None;
    }
    let len = header[0x09] as usize;
    if len == 0 || len > 32 {
        return None;
    }
    if 0x0c + len > 64 {
        return None;
    }
    let d = xor_decrypt(header, 0x0c, len, XOR_KEY);
    if is_printable_password(d.as_slice()) {
        return Some(found(d, len));
    }
    None
}

/// Reads the Ghost 12.x header layout, trying several keys in turn.
pub fn try_read_password_v3(header: &[u8; 64]) -> (r: Option<GhoPasswordInfo>)
    ensures
        opt_info_view(r) == read_v3(header@),
{
    let flag = header[0x28];
    if flag == 0 {
        return None;
    }
    let len = header[0x29] as usize;
    if len == 0 || len > 32 {
        return None;
    }
    if 0x2c + len > 64 {
        return None;
    }
    let ghost enc = header@.subrange(0x2c, 0x2c + len);
    let keys: [u8; 6] = [XOR_KEY, 0x55, 0xff, 0x5a, 0xa5, 0x00];
    assert(keys@ =~= v3_keys());
    let mut k: usize = 0;
    while k < 6
        invariant
            k <= 6,
            keys@ == v3_keys(),
            0x2c + len <= 64,
            0 < len <= 32,
            len as nat == header@[0x29] as nat,
            header@[0x28] != 0,
            enc == header@.subrange(0x2c, 0x2c + len),
            first_printable_key(enc, 0) == first_printable_key(enc, k as int),
        decreases 6 - k,
    {
        let d = xor_decrypt(header, 0x2c, len, keys[k]);
        if is_printable_password(d.as_slice()) {
            assert(keys@[k as int] == v3_keys()[k as int]);
            assert(first_printable_key(enc, k as int) == Some(v3_keys()[k as int]));
            assert(d@ == xor_take(enc, v3_keys()[k as int]));
            assert(header@[0x29] as nat == len as nat);
            assert(read_v3(header@) == Some(password_found(d@, len as nat)));
            return Some(found(d, len));
        }
        k = k + 1;
    }
    None
}

/// Scans the last 128 bytes of a Ghost file for a `GHPW` password record.
pub fn try_read_password_from_tail(buffer: &[u8; 128]) -> (r: Option<GhoPasswordInfo>)
    ensures
        opt_info_view(r) == scan_tail(buffer@, 0),
{
    let mut i: usize = 0;
    while i < 124
        invariant
            i <= 124,
            buffer@.len() == 128,
            scan_tail(buffer@, 0) == scan_tail(buffer@, i as int),
        decreases 124 - i,
    {
        if buffer[i] == 0x47 && buffer[i + 1] == 0x48 && buffer[i + 2] == 0x50 && buffer[i + 3]
            == 0x57 {
            let len = buffer[i + 4] as usize;
            if len > 0 && len <= 32 && i + 5 + len <= 128 {
                let d = xor_decrypt(buffer, i + 5, len, XOR_KEY);
                if is_printable_password(d.as_slice()) {
                    return Some(found(d, len));
                }
            }
        }
        i = i + 1;
    }
    None
}

pub open spec fn blocks_view(v: Seq<[u8; 64]>) -> Seq<Seq<u8>> {
    v.map_values(|b: [u8; 64]| b@)
}

/// Looks for a version-1 header in the blocks read at the alternate positions.
pub fn try_find_password_at_alternate_locations(blocks: &Vec<[u8; 64]>) -> (r: Option<
    GhoPasswordInfo,
>)
    ensures
        opt_info_view(r) == first_alternate(blocks_view(blocks@), 0),
{
    let ghost alts = blocks_view(blocks@);
    let mut k: usize = 0;
    while k < blocks.len()
        invariant
            k <= blocks.len(),
            alts == blocks_view(blocks@),
            first_alternate(alts, 0) == first_alternate(alts, k as int),
        decreases blocks.len() - k,
    {
        assert(alts[k as int] == blocks@[k as int]@);
        if let Some(info) = try_read_password_v1(&blocks[k]) {
            if info.has_password || info.is_valid_gho {
                return Some(info);
            }
        }
        k = k + 1;
    }
    None
}

fn hex_digit_char(n: u8) -> (c: char)
    requires
        n < 16,
    ensures
        c == hex_digit(n as nat),
{
    if n < 10 {
        (n + 48) as char
    } else {
        (n + 55) as char
    }
}

fn push_hex2(s: &mut String, b: u8)
    ensures
        final(s)@ == old(s)@ + hex2(b),
{
    push_char(s, hex_digit_char(b / 16));
    push_char(s, hex_digit_char(b % 16));
    assert(old(s)@.push(hex_digit(b as nat / 16)).push(hex_digit(b as nat % 16)) =~= old(s)@
        + hex2(b));
}

/// What the header (and the other blocks read from the file) tell about the
/// password of a Ghost image whose extension and size were already accepted.
pub fn inspect_gho_header(header: &[u8; 64], alternates: &Vec<[u8; 64]>, tail: Option<[u8; 128]>) -> (r: GhoPasswordInfo)
    ensures
        r@ == inspect(
            header@,
            blocks_view(alternates@),
            match tail {
                Some(t) => Some(t@),
                None => None,
            },
        ),
{
    let is_valid = (header[0] == 0xfe && header[1] == 0xef) || (header[0] == 0x47 && header[1]
        == 0x46) || (header[0] == 0xeb && header[1] == 0x00) || header[0] == 0xeb || header[0]
        == 0xe9;
    if !is_valid {
        if let Some(info) = try_find_password_at_alternate_locations(alternates) {
            return info;
        }
        let mut msg = str_to_string("无效的GHO文件签名: 0x");
        push_hex2(&mut msg, header[0]);
        push_str(&mut msg, " 0x");
        push_hex2(&mut msg, header[1]);
        return GhoPasswordInfo {
            is_valid_gho: false,
            has_password: false,
            password: None,
            password_length: 0,
            error: Some(msg),
        };
    }
    if let Some(info) = try_read_password_v1(header) {
        return info;
    }
    if let Some(info) = try_read_password_v2(header) {
        return info;
    }
    if let Some(info) = try_read_password_v3(header) {
        return info;
    }
    match tail {
        Some(t) => match try_read_password_from_tail(&t) {
            Some(info) => info,
            None => none_found(),
        },
        None => none_found(),
    }
}

/// Whether a (lower-cased or not) extension names a Ghost image.
pub fn is_gho_extension(ext: &str) -> (r: bool)
    ensures
        r == (lowercase(ext@) == "gho"@ || lowercase(ext@) == "ghs"@),
{
    let l = to_lowercase(ext);
    let v = to_chars(l.as_str());
    let g = to_chars("gho");
    let h = to_chars("ghs");
    chars_eq(v.as_slice(), g.as_slice()) || chars_eq(v.as_slice(), h.as_slice())
}

pub open spec fn format_info_spec(m: GhoModel) -> Seq<char> {
    if !m.is_valid_gho {
        match m.error {
            Some(e) => "无效的GHO文件: "@ + e + "\n"@,
            None => "无效的GHO文件\n"@,
        }
    } else if !m.has_password {
        "有效的GHO文件\n"@ + "未设置密码保护\n"@
    } else {
        "有效的GHO文件\n"@ + "已设置密码保护\n"@ + "密码长度: "@ + dec(m.password_length)
            + " 字符\n"@ + match m.password {
            Some(p) => "密码: "@ + p + "\n"@,
            None => match m.error {
                Some(e) => e + "\n"@,
                None => "无法解密密码\n"@,
            },
        }
    }
}

/// A readable report of the password information.
pub fn format_gho_password_info(info: &GhoPasswordInfo) -> (r: String)
    ensures
        r@ == format_info_spec(info@),
{
    let mut result = String::new();
    if !info.is_valid_gho {
        match &info.error {
            Some(err) => {
                push_str(&mut result, "无效的GHO文件: ");
                push_str(&mut result, err.as_str());
                push_str(&mut result, "\n");
            },
            None => {
                push_str(&mut result, "无效的GHO文件\n");
            },
        }
        return result;
    }
    push_str(&mut result, "有效的GHO文件\n");
    if !info.has_password {
        push_str(&mut result, "未设置密码保护\n");
    } else {
        push_str(&mut result, "已设置密码保护\n");
        push_str(&mut result, "密码长度: ");
        push_dec(&mut result, info.password_length as u64);
        push_str(&mut result, " 字符\n");
        match &info.password {
            Some(pwd) => {
                push_str(&mut result, "密码: ");
                push_str(&mut result, pwd.as_str());
                push_str(&mut result, "\n");
            },
            None => match &info.error {
                Some(err) => {
                    push_str(&mut result, err.as_str());
                    push_str(&mut result, "\n");
                },
                None => {
                    push_str(&mut result, "无法解密密码\n");
                },
            },
        }
    }
    result
}

// ---------------------------------------------------------------------------
// Reading the file
// ---------------------------------------------------------------------------

/// Why a file could not be inspected.
pub enum GhoReadProblem {
    /// The file does not exist (its path as shown).
    Missing(String),
    /// Its extension (as found) names no Ghost image.
    UnsupportedExtension(String),
    /// It could not be opened.
    Open(String),
    /// Its size could not be read.
    Metadata(String),
    /// It is shorter than a header.
    TooSmall,
    /// Its header could not be read.
    Header(String),
}

pub open spec fn problem_message(p: GhoReadProblem) -> Seq<char> {
    match p {
        GhoReadProblem::Missing(x) => "文件不存在: "@ + x@,
        GhoReadProblem::UnsupportedExtension(x) => "不支持的文件格式: ."@ + lowercase(x@),
        GhoReadProblem::Open(x) => "无法打开文件: "@ + x@,
        GhoReadProblem::Metadata(x) => "无法读取文件信息: "@ + x@,
        GhoReadProblem::TooSmall => "文件太小，不是有效的GHO文件"@,
        GhoReadProblem::Header(x) => "无法读取文件头: "@ + x@,
    }
}

/// The report for a file that could not be inspected: not a Ghost image, with the
/// reason.
pub fn gho_read_failure(p: &GhoReadProblem) -> (r: GhoPasswordInfo)
    ensures
        !r.is_valid_gho,
        !r.has_password,
        r.password is None,
        r.password_length == 0,
        r.error matches Some(e) && e@ == problem_message(*p),
{
    let m = match p {
        GhoReadProblem::Missing(x) => {
            let mut m = str_to_string("文件不存在: ");
            push_str(&mut m, x.as_str());
            m
        },
        GhoReadProblem::UnsupportedExtension(x) => {
            let mut m = str_to_string("不支持的文件格式: .");
            let l = to_lowercase(x.as_str());
            push_str(&mut m, l.as_str());
            m
        },
        GhoReadProblem::Open(x) => {
            let mut m = str_to_string("无法打开文件: ");
            push_str(&mut m, x.as_str());
            m
        },
        GhoReadProblem::Metadata(x) => {
            let mut m = str_to_string("无法读取文件信息: ");
            push_str(&mut m, x.as_str());
            m
        },
        GhoReadProblem::TooSmall => str_to_string("文件太小，不是有效的GHO文件"),
        GhoReadProblem::Header(x) => {
            let mut m = str_to_string("无法读取文件头: ");
            push_str(&mut m, x.as_str());
            m
        },
    };
    GhoPasswordInfo { is_valid_gho: false, has_password: false, password: None, password_length: 0, error: Some(m) }
}

/// A file shorter than the 64-byte header is no Ghost image.
pub fn gho_large_enough(size: u64) -> (r: bool)
    ensures
        r == (size >= 64),
{
    size >= 64
}

/// The offsets of the other 64-byte blocks where some images keep the header.
pub fn gho_alternate_offsets() -> (r: Vec<u64>)
    ensures
        r@ == seq![0x200u64, 0x400u64, 0x800u64, 0x1000u64],
{
    let mut v: Vec<u64> = Vec::new();
    v.push(0x200);
    v.push(0x400);
    v.push(0x800);
    v.push(0x1000);
    assert(v@ =~= seq![0x200u64, 0x400u64, 0x800u64, 0x1000u64]);
    v
}

} // verus!
