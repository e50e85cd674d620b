//! Image servicing decisions: which capture settings an operation uses,
//! where drivers are imported, and how results are reported.
use vstd::prelude::*;
use crate::wim::{image_file_kind, image_file_kind_spec, win10_or_11_spec, ImageFileKind, WimError};
use crate::text::{
    chars_to_string, concat3, ends_with, ascii_upper, is_ws, push_str, str_to_string,
    strip_trailing, strip_trailing_char, strip_trailing_seq, to_ascii_upper, to_chars, trim,
    trim_chars, is_whitespace,
};

verus! {

/// Progress of a long-running image operation.
#[derive(Debug, Clone)]
pub struct DismProgress {
    pub percentage: u8,
    pub status: String,
}

/// Compression used when capturing an image.
#[derive(Debug, Clone, Copy, PartialEq, Eq, Structural)]
pub enum Compression {
    /// LZX, the WIM default.
    Lzx,
    /// LZMS solid compression, used for ESD files.
    Lzms,
}

/// What a capture operation hands to the imaging engine.
#[derive(Debug, Clone)]
pub struct CaptureRequest {
    pub image_file: String,
    pub capture_dir: String,
    pub name: String,
    pub description: String,
    pub compression: Compression,
}

/// Where drivers are imported.
#[derive(Debug, Clone)]
pub enum DriverImportRoute {
    /// Into the running system.
    Online { driver_path: String },
    /// Into the offline system rooted at `image_path`.
    Offline { image_path: String, driver_path: String },
}

/// Why a driver operation cannot be carried out.
#[derive(Debug, Clone, Copy, PartialEq, Eq, Structural)]
pub enum DismError {
    /// Online import was asked for inside Windows PE.
    OnlineImportInPe,
    /// Export of the running system was asked for inside Windows PE.
    OnlineExportInPe,
    /// Every driver failed to import.
    AllDriversFailed,
}

pub open spec fn dism_error_message(e: DismError) -> Seq<char> {
    match e {
        DismError::OnlineImportInPe => "PE环境下无法使用在线方式添加驱动，请使用 add_drivers_offline"@,
        DismError::OnlineExportInPe => "PE环境下无法导出当前系统驱动，请使用 export_drivers_from_system 并指定目标系统分区"@,
        DismError::AllDriversFailed => "所有驱动导入失败"@,
    }
}

impl DismError {
    /// The message shown to the user.
    pub fn message(&self) -> (r: String)
        ensures
            r@ == dism_error_message(*self),
    {
        match self {
            DismError::OnlineImportInPe => str_to_string(
                "PE环境下无法使用在线方式添加驱动，请使用 add_drivers_offline",
            ),
            DismError::OnlineExportInPe => str_to_string(
                "PE环境下无法导出当前系统驱动，请使用 export_drivers_from_system 并指定目标系统分区",
            ),
            DismError::AllDriversFailed => str_to_string("所有驱动导入失败"),
        }
    }
}

/// Values read from the registry of an offline system.
#[derive(Debug, Clone)]
pub struct OfflineSystemInfo {
    pub product_name: String,
    pub display_version: String,
    pub current_build: String,
    pub edition_id: String,
    pub installation_type: String,
}

/// Image servicing in the current environment (normal Windows or Windows PE).
pub struct Dism {
    is_pe: bool,
}

pub open spec fn offline_info_text(i: OfflineSystemInfo) -> Seq<char> {
    "产品名称: "@ + i.product_name@ + "\n版本: "@ + i.display_version@ + "\n构建: "@
        + i.current_build@ + "\n版本ID: "@ + i.edition_id@ + "\n安装类型: "@
        + i.installation_type@
}

/// The first character of `s` after leading whitespace, upper-cased.
pub open spec fn drive_char(s: Seq<char>) -> Option<char> {
    if trim(s).len() > 0 {
        Some(ascii_upper(trim(s)[0]))
    } else {
        None
    }
}

fn first_upper(s: &str) -> (r: Option<char>)
    ensures
        r == drive_char(s@),
{
    let v = to_chars(s);
    let t = trim_chars(v.as_slice());
    if t.len() > 0 {
        Some(to_ascii_upper(t[0]))
    } else {
        None
    }
}

impl Dism {
    pub closed spec fn in_pe(&self) -> bool {
        self.is_pe
    }

    /// Image servicing for the environment described by `is_pe`.
    pub fn new(is_pe: bool) -> (r: Dism)
        ensures
            r.in_pe() == is_pe,
    {
        Dism { is_pe }
    }

    /// Whether this runs inside Windows PE.
    pub fn is_pe_environment(&self) -> (r: bool)
        ensures
            r == self.in_pe(),
    {
        self.is_pe
    }

    /// A capture of `capture_dir` into `image_file` with LZX compression.
    pub fn capture_image(&self, image_file: &str, capture_dir: &str, name: &str, description: &str) -> (r: CaptureRequest)
        ensures
            r.image_file@ == image_file@,
            r.capture_dir@ == capture_dir@,
            r.name@ == name@,
            r.description@ == description@,
            r.compression == Compression::Lzx,
    {
        CaptureRequest {
            image_file: str_to_string(image_file),
            capture_dir: str_to_string(capture_dir),
            name: str_to_string(name),
            description: str_to_string(description),
            compression: Compression::Lzx,
        }
    }

    /// An incremental backup: the engine appends when the file exists, so this is
    /// the same capture as [`Dism::capture_image`].
    pub fn append_image(&self, image_file: &str, capture_dir: &str, name: &str, description: &str) -> (r: CaptureRequest)
        ensures
            r.image_file@ == image_file@,
            r.capture_dir@ == capture_dir@,
            r.name@ == name@,
            r.description@ == description@,
            r.compression == Compression::Lzx,
    {
        self.capture_image(image_file, capture_dir, name, description)
    }

    /// A capture into an ESD file (LZMS solid compression).
    pub fn capture_image_esd(&self, image_file: &str, capture_dir: &str, name: &str, description: &str) -> (r: CaptureRequest)
        ensures
            r.image_file@ == image_file@,
            r.capture_dir@ == capture_dir@,
            r.name@ == name@,
            r.description@ == description@,
            r.compression == Compression::Lzms,
    {
        CaptureRequest {
            image_file: str_to_string(image_file),
            capture_dir: str_to_string(capture_dir),
            name: str_to_string(name),
            description: str_to_string(description),
            compression: Compression::Lzms,
        }
    }

    /// An incremental ESD backup: the same capture as [`Dism::capture_image_esd`].
    pub fn append_image_esd(&self, image_file: &str, capture_dir: &str, name: &str, description: &str) -> (r: CaptureRequest)
        ensures
            r.image_file@ == image_file@,
            r.capture_dir@ == capture_dir@,
            r.name@ == name@,
            r.description@ == description@,
            r.compression == Compression::Lzms,
    {
        self.capture_image_esd(image_file, capture_dir, name, description)
    }

    /// Where drivers go: offline into `target_path` inside PE, online otherwise.
    pub fn add_drivers(&self, target_path: &str, driver_path: &str) -> (r: DriverImportRoute)
        ensures
            self.in_pe() ==> (r matches DriverImportRoute::Offline { image_path, driver_path: d }
                && image_path@ == offline_image_root(target_path@) && d@ == driver_path@),
            !self.in_pe() ==> (r matches DriverImportRoute::Online { driver_path: d } && d@
                == driver_path@),
    {
        if self.is_pe {
            DriverImportRoute::Offline {
                image_path: Dism::add_drivers_offline(target_path),
                driver_path: str_to_string(driver_path),
            }
        } else {
            DriverImportRoute::Online { driver_path: str_to_string(driver_path) }
        }
    }

    /// Online import is refused inside Windows PE.
    pub fn add_drivers_online(&self) -> (r: Result<(), DismError>)
        ensures
            r == if self.in_pe() {
                Err::<(), DismError>(DismError::OnlineImportInPe)
            } else {
                Ok::<(), DismError>(())
            },
    {
        if self.is_pe {
            Err(DismError::OnlineImportInPe)
        } else {
            Ok(())
        }
    }

    /// The offline system root used for an import: trailing `\` and then trailing `/` removed.
    pub fn add_drivers_offline(image_path: &str) -> (r: String)
        ensures
            r@ == offline_image_root(image_path@),
    {
        let v = to_chars(image_path);
        let a = strip_trailing_char(v.as_slice(), '\\');
        let b = strip_trailing_char(a.as_slice(), '/');
        chars_to_string(b.as_slice())
    }

    /// The outcome of an import that reported `success` and `fail` counts: it fails only
    /// when nothing succeeded and something failed.
    pub fn driver_import_result(success: usize, fail: usize) -> (r: Result<(), DismError>)
        ensures
            r == if fail > 0 && success == 0 {
                Err::<(), DismError>(DismError::AllDriversFailed)
            } else {
                Ok::<(), DismError>(())
            },
    {
        if fail > 0 && success == 0 {
            Err(DismError::AllDriversFailed)
        } else {
            Ok(())
        }
    }

    /// The counts of an offline import that tries `dism.exe` first, given the number
    /// of `.inf` files in the driver folder and how `dism.exe` did: after a success
    /// every driver counts as imported (at least one); after a failure `None`, and the
    /// import falls back to the system's own driver installation.
    pub fn import_drivers_offline_dism_first(inf_count: usize, dism: Result<(), String>) -> (r: Option<(usize, usize)>)
        ensures
            match dism {
                Ok(()) => r == Some((if inf_count >= 1 { inf_count } else { 1usize }, 0usize)),
                Err(_) => r is None,
            },
    {
        match dism {
            Ok(()) => Some((if inf_count >= 1 { inf_count } else { 1 }, 0)),
            Err(_) => None,
        }
    }

    /// Exporting the running system's drivers is refused inside Windows PE.
    pub fn export_drivers(&self) -> (r: Result<(), DismError>)
        ensures
            r == if self.in_pe() {
                Err::<(), DismError>(DismError::OnlineExportInPe)
            } else {
                Ok::<(), DismError>(())
            },
    {
        if self.is_pe {
            Err(DismError::OnlineExportInPe)
        } else {
            Ok(())
        }
    }

    /// Whether an export from `system_partition` targets the running system: outside
    /// PE, when its drive letter equals that of `%SystemDrive%` (`system_drive`).
    pub fn export_targets_running_system(&self, system_partition: &str, system_drive: Option<&str>) -> (r: bool)
        ensures
            r == (!self.in_pe() && drive_char(system_partition@) is Some && match system_drive {
                Some(d) => drive_char(system_partition@) == drive_char(d@),
                None => false,
            }),
    {
        let target = first_upper(system_partition);
        let sys = match system_drive {
            Some(d) => first_upper(d),
            None => None,
        };
        !self.is_pe && target.is_some() && target == sys
    }

    /// A readable summary of an offline system.
    pub fn get_offline_system_info(info: &OfflineSystemInfo) -> (r: String)
        ensures
            r@ == offline_info_text(*info),
    {
        let mut s = str_to_string("产品名称: ");
        push_str(&mut s, info.product_name.as_str());
        push_str(&mut s, "\n版本: ");
        push_str(&mut s, info.display_version.as_str());
        push_str(&mut s, "\n构建: ");
        push_str(&mut s, info.current_build.as_str());
        push_str(&mut s, "\n版本ID: ");
        push_str(&mut s, info.edition_id.as_str());
        push_str(&mut s, "\n安装类型: ");
        push_str(&mut s, info.installation_type.as_str());
        s
    }

    /// The temporary WIM captured before splitting into `.swm` parts: every trailing
    /// `.swm` removed, then `.tmp.wim` appended.
    pub fn swm_temp_path(image_file: &str) -> (r: String)
        ensures
            r@ == strip_trailing_seq(image_file@, ".swm"@) + ".tmp.wim"@,
    {
        let v = to_chars(image_file);
        let suffix = to_chars(".swm");
        let stripped = strip_suffix_repeatedly(v.as_slice(), suffix.as_slice());
        let mut s = chars_to_string(stripped.as_slice());
        push_str(&mut s, ".tmp.wim");
        s
    }

    /// Progress of the capture phase of a split capture, which takes the first 80%.
    pub fn swm_capture_percentage(percentage: u8) -> (r: u8)
        ensures
            r as int == percentage as int * 80 / 100,
            percentage <= 100 ==> r <= 80,
    {
        let p = percentage as u32;
        assert(p * 80 / 100 <= 204) by (nonlinear_arith)
            requires
                p <= 255,
        ;
        assert(p <= 100 ==> p * 80 / 100 <= 80) by (nonlinear_arith);
        (p * 80 / 100) as u8
    }
}

pub open spec fn offline_image_root(p: Seq<char>) -> Seq<char> {
    strip_trailing(strip_trailing(p, '\\'), '/')
}

fn strip_suffix_repeatedly(s: &[char], p: &[char]) -> (r: Vec<char>)
    ensures
        r@ == strip_trailing_seq(s@, p@),
{
    let mut hi = s.len();
    let mut cur = crate::text::slice_chars(s, 0, hi);
    assert(s@.subrange(0, s@.len() as int) =~= s@);
    while p.len() > 0 && crate::text::ends_with_chars(cur.as_slice(), p)
        invariant
            hi == cur@.len(),
            strip_trailing_seq(s@, p@) == strip_trailing_seq(cur@, p@),
        decreases hi,
    {
        hi = hi - p.len();
        cur = crate::text::slice_chars(cur.as_slice(), 0, hi);
    }
    cur
}

/// The name under which the imaging API opens the running system.
pub const DISM_ONLINE_IMAGE: &'static str = "DISM_{53BFAE52-B167-4E2F-A258-0A37B57FF845}";

/// `s` without its trailing `\` and `/` characters, in any mix.
pub open spec fn strip_separators(s: Seq<char>) -> Seq<char>
    decreases s.len(),
{
    if s.len() > 0 && (s.last() == '\\' || s.last() == '/') {
        strip_separators(s.drop_last())
    } else {
        s
    }
}

/// The image a driver-export session is opened on: the running system
/// ([`DISM_ONLINE_IMAGE`]) when no offline root is given, else the offline root with
/// exactly one trailing `\`.
pub fn export_session_image(image_root: Option<&str>) -> (r: String)
    ensures
        match image_root {
            None => r@ == DISM_ONLINE_IMAGE@,
            Some(root) => r@ == strip_separators(root@).push('\\'),
        },
{
    match image_root {
        None => str_to_string(DISM_ONLINE_IMAGE),
        Some(root) => {
            let v = to_chars(root);
            let mut hi: usize = v.len();
            assert(v@.take(hi as int) =~= v@);
            while hi > 0 && (v[hi - 1] == '\\' || v[hi - 1] == '/')
                invariant
                    hi <= v@.len(),
                    strip_separators(v@) == strip_separators(v@.take(hi as int)),
                decreases hi,
            {
                assert(v@.take(hi as int).drop_last() =~= v@.take(hi - 1));
                hi = hi - 1;
            }
            assert(v@.take(hi as int) == root@.take(hi as int));
            let mut out = crate::text::chars_to_string(crate::text::slice_chars(v.as_slice(), 0, hi).as_slice());
            crate::text::push_char(&mut out, '\\');
            out
        },
    }
}

/// The progress reported when an export ended: the drivers exported, out of the
/// number counted beforehand, or out of the exported number when none was counted.
pub fn export_final_progress(total: u32, exported: u32) -> (r: (u32, u32))
    ensures
        r == (exported, if total == 0 { exported } else { total }),
{
    (exported, if total == 0 { exported } else { total })
}

/// What to read next to tell whether an image holds Windows 10 or later, or the
/// answer.
#[derive(Debug, Clone, Copy)]
pub enum Win10Step {
    /// Read the major file version of the image's `ntdll.dll` (`None` when it
    /// cannot be read).
    ReadNtdll,
    /// Read the major version of the image from its XML metadata.
    ReadXml,
    /// Nothing more is read: this is the answer.
    Done(Result<bool, WimError>),
}

/// The first step: a file that is no WIM, ESD or SWM is refused before anything is
/// read; a split image (SWM) has its XML read; otherwise `ntdll.dll` is read first.
pub open spec fn win10_first(image_file: Seq<char>) -> Win10Step {
    match image_file_kind_spec(image_file) {
        Err(e) => Win10Step::Done(Err(e)),
        Ok(ImageFileKind::Swm) => Win10Step::ReadXml,
        Ok(_) => Win10Step::ReadNtdll,
    }
}

/// After `ntdll.dll` was read: its major version decides; when it could not be
/// read, the XML is read.
pub open spec fn win10_after_ntdll_spec(ntdll_major: Option<u16>) -> Win10Step {
    match ntdll_major {
        Some(m) => Win10Step::Done(Ok(m >= 10)),
        None => Win10Step::ReadXml,
    }
}

/// After the XML was read: its major version decides, or its error is the answer.
pub open spec fn win10_after_xml_spec(xml_major: Result<u16, WimError>) -> Win10Step {
    match xml_major {
        Ok(m) => Win10Step::Done(Ok(m >= 10)),
        Err(e) => Win10Step::Done(Err(e)),
    }
}

/// The answer when the steps are followed and each read gives what is passed here
/// (a read that is not asked for is not used).
pub open spec fn win10_run(image_file: Seq<char>, ntdll_major: Option<u16>, xml_major: Result<u16, WimError>) -> Result<bool, WimError> {
    let xml = match win10_after_xml_spec(xml_major) {
        Win10Step::Done(r) => r,
        _ => Err(WimError::VersionParse),
    };
    match win10_first(image_file) {
        Win10Step::Done(r) => r,
        Win10Step::ReadXml => xml,
        Win10Step::ReadNtdll => match win10_after_ntdll_spec(ntdll_major) {
            Win10Step::Done(r) => r,
            _ => xml,
        },
    }
}

impl Dism {
    /// The first step of telling whether `image_file` holds Windows 10 or later
    /// (see [`win10_first`]).
    pub fn win10_check_start(image_file: &str) -> (r: Win10Step)
        ensures
            r == win10_first(image_file@),
    {
        match image_file_kind(image_file) {
            Err(e) => Win10Step::Done(Err(e)),
            Ok(ImageFileKind::Swm) => Win10Step::ReadXml,
            Ok(_) => Win10Step::ReadNtdll,
        }
    }

    /// The step after `ntdll.dll` was read (see [`win10_after_ntdll_spec`]).
    pub fn win10_after_ntdll(ntdll_major: Option<u16>) -> (r: Win10Step)
        ensures
            r == win10_after_ntdll_spec(ntdll_major),
    {
        match ntdll_major {
            Some(m) => Win10Step::Done(Ok(m >= 10)),
            None => Win10Step::ReadXml,
        }
    }

    /// The step after the XML was read (see [`win10_after_xml_spec`]).
    pub fn win10_after_xml(xml_major: Result<u16, WimError>) -> (r: Win10Step)
        ensures
            r == win10_after_xml_spec(xml_major),
    {
        match xml_major {
            Ok(m) => Win10Step::Done(Ok(m >= 10)),
            Err(e) => Win10Step::Done(Err(e)),
        }
    }

    /// Whether an image holds Windows 10 or later, following the steps
    /// [`win10_check_start`](Self::win10_check_start),
    /// [`win10_after_ntdll`](Self::win10_after_ntdll) and
    /// [`win10_after_xml`](Self::win10_after_xml) with the results of the reads
    /// passed here: for WIM and ESD files the version of the image's `ntdll.dll`
    /// decides when it could be read (`ntdll_major`); otherwise the major version in
    /// the XML metadata (`xml_major`) does. A caller that reads lazily drives the
    /// steps itself.
    pub fn is_win10_or_11_image_by_ntdll(
        image_file: &str,
        ntdll_major: Option<u16>,
        xml_major: Result<u16, WimError>,
    ) -> (r: Result<bool, WimError>)
        ensures
            r == win10_run(image_file@, ntdll_major, xml_major),
            r == win10_or_11_spec(image_file@, ntdll_major, xml_major),
    {
        let first = Self::win10_check_start(image_file);
        let second = match first {
            Win10Step::ReadNtdll => Self::win10_after_ntdll(ntdll_major),
            other => other,
        };
        let last = match second {
            Win10Step::ReadXml => Self::win10_after_xml(xml_major),
            other => other,
        };
        match last {
            Win10Step::Done(r) => r,
            _ => Err(WimError::VersionParse),
        }
    }
}

/// A step of exporting the drivers of an installed system.
pub enum ExportWork {
    /// Export with the imaging API from the running system into `destination`.
    ApiOnline { destination: String },
    /// Export with the imaging API from the offline system at `image_root`.
    ApiOffline { image_root: String, destination: String },
    /// Copy the drivers from the driver store of `system_partition` by hand.
    Manual { system_partition: String, destination: String },
    /// The export ended.
    Finish(Result<(), String>),
}

/// Why copying the drivers by hand failed.
pub enum ManualExportError {
    /// The driver manager could not be set up.
    ManagerInit(String),
    Export(String),
}

/// The first export step: with the imaging API loaded (`api_loaded`), the running
/// system is exported online when it is the target (see
/// [`Dism::export_targets_running_system`]) and offline otherwise; without the API
/// the drivers are copied by hand.
pub open spec fn export_first(
    online: bool,
    api_loaded: bool,
    system_partition: Seq<char>,
    destination: Seq<char>,
    w: ExportWork,
) -> bool {
    if !api_loaded {
        w matches ExportWork::Manual { system_partition: p, destination: d } && p@ == system_partition
            && d@ == destination
    } else if online {
        w matches ExportWork::ApiOnline { destination: d } && d@ == destination
    } else {
        w matches ExportWork::ApiOffline { image_root: p, destination: d } && p@ == system_partition
            && d@ == destination
    }
}

impl Dism {
    /// Starts exporting the drivers of the system on `system_partition` into
    /// `destination` (which the caller has created): `system_drive` is
    /// `%SystemDrive%` when set, `api_loaded` whether the imaging API could be loaded.
    pub fn export_drivers_from_system(
        &self,
        system_partition: &str,
        destination: &str,
        system_drive: Option<&str>,
        api_loaded: bool,
    ) -> (r: ExportWork)
        ensures
            export_first(
                !self.in_pe() && drive_char(system_partition@) is Some && match system_drive {
                    Some(d) => drive_char(system_partition@) == drive_char(d@),
                    None => false,
                },
                api_loaded,
                system_partition@,
                destination@,
                r,
            ),
    {
        if !api_loaded {
            return ExportWork::Manual {
                system_partition: str_to_string(system_partition),
                destination: str_to_string(destination),
            };
        }
        if self.export_targets_running_system(system_partition, system_drive) {
            ExportWork::ApiOnline { destination: str_to_string(destination) }
        } else {
            ExportWork::ApiOffline { image_root: str_to_string(system_partition), destination: str_to_string(destination) }
        }
    }

    /// After the imaging API's export: it ends when the export succeeded (with the
    /// number of drivers exported); otherwise the drivers are copied by hand.
    pub fn export_after_api(system_partition: &str, destination: &str, api: Result<usize, String>) -> (r: ExportWork)
        ensures
            match api {
                Ok(_) => r matches ExportWork::Finish(Ok(())),
                Err(_) => r matches ExportWork::Manual { system_partition: p, destination: d }
                    && p@ == system_partition@ && d@ == destination@,
            },
    {
        match api {
            Ok(_) => ExportWork::Finish(Ok(())),
            Err(_) => ExportWork::Manual {
                system_partition: str_to_string(system_partition),
                destination: str_to_string(destination),
            },
        }
    }

    /// After copying by hand: the export succeeded, or why not.
    pub fn export_after_manual(manual: Result<usize, ManualExportError>) -> (r: ExportWork)
        ensures
            match manual {
                Ok(_) => r matches ExportWork::Finish(Ok(())),
                Err(ManualExportError::ManagerInit(e)) => r matches ExportWork::Finish(Err(m))
                    && m@ == "驱动管理器初始化失败: "@ + e@,
                Err(ManualExportError::Export(e)) => r matches ExportWork::Finish(Err(m)) && m@ == e@,
            },
    {
        match manual {
            Ok(_) => ExportWork::Finish(Ok(())),
            Err(ManualExportError::ManagerInit(e)) => {
                let mut m = str_to_string("驱动管理器初始化失败: ");
                push_str(&mut m, e.as_str());
                ExportWork::Finish(Err(m))
            },
            Err(ManualExportError::Export(e)) => ExportWork::Finish(Err(e)),
        }
    }
}

} // verus!
