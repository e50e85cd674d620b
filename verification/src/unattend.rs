//! The answer file (`unattend.xml`) written onto a newly installed system when no
//! answer file is there yet: a local administrator that logs on once by itself, the
//! OOBE pages that system's version can skip, and the first-logon commands.
use vstd::prelude::*;
use crate::text::{contains, dec, lemma_find_from, occurs_at, push_dec, push_str, str_to_string, to_chars};

verus! {

/// The text of a first-logon command entry, around its order, command line and
/// description.
pub const ENTRY_HEAD: &'static str = "\n                <SynchronousCommand wcm:action=\"add\">\n                    <Order>";
pub const ENTRY_AFTER_ORDER: &'static str = "</Order>\n                    <CommandLine>";
pub const ENTRY_AFTER_COMMAND: &'static str = "</CommandLine>\n                    <Description>";
pub const ENTRY_TAIL: &'static str = "</Description>\n                </SynchronousCommand>";

pub const FIRSTLOGON_COMMAND: &'static str = "cmd /c if exist %SystemDrive%\\LetRecovery_Scripts\\firstlogon.bat call %SystemDrive%\\LetRecovery_Scripts\\firstlogon.bat";
pub const FIRSTLOGON_DESCRIPTION: &'static str = "Run first login script";
pub const REMOVE_UWP_COMMAND: &'static str = "powershell -ExecutionPolicy Bypass -File %SystemDrive%\\LetRecovery_Scripts\\remove_uwp.ps1";
pub const REMOVE_UWP_DESCRIPTION: &'static str = "Remove preinstalled UWP apps";
pub const CLEANUP_COMMAND: &'static str = "cmd /c rd /s /q %SystemDrive%\\LetRecovery_Scripts";
pub const CLEANUP_DESCRIPTION: &'static str = "Cleanup scripts directory";

/// The OOBE settings of Windows 7: no account or wireless pages to hide there.
pub const OOBE_WIN7: &'static str = "<OOBE>\n                <HideEULAPage>true</HideEULAPage>\n                <ProtectYourPC>3</ProtectYourPC>\n                <NetworkLocation>Home</NetworkLocation>\n            </OOBE>";
/// The OOBE settings of Windows 8 and 8.1.
pub const OOBE_WIN8: &'static str = "<OOBE>\n                <HideEULAPage>true</HideEULAPage>\n                <HideLocalAccountScreen>true</HideLocalAccountScreen>\n                <ProtectYourPC>3</ProtectYourPC>\n                <NetworkLocation>Home</NetworkLocation>\n            </OOBE>";
/// The OOBE settings of Windows 10 and 11.
pub const OOBE_LATER: &'static str = "<OOBE>\n                <HideEULAPage>true</HideEULAPage>\n                <HideLocalAccountScreen>true</HideLocalAccountScreen>\n                <HideOnlineAccountScreens>true</HideOnlineAccountScreens>\n                <HideWirelessSetupInOOBE>true</HideWirelessSetupInOOBE>\n                <ProtectYourPC>3</ProtectYourPC>\n            </OOBE>";

/// The answer file, around the architecture (four times), the OOBE settings, the
/// account name (three times) and the first-logon commands.
pub const XML_HEAD: &'static str = "<?xml version=\"1.0\" encoding=\"utf-8\"?>\n<unattend xmlns=\"urn:schemas-microsoft-com:unattend\" xmlns:wcm=\"http://schemas.microsoft.com/WMIConfig/2002/State\">\n    <settings pass=\"windowsPE\">\n        <component name=\"Microsoft-Windows-Setup\" processorArchitecture=\"";
pub const XML_AFTER_PE_ARCH: &'static str = "\" publicKeyToken=\"31bf3856ad364e35\" language=\"neutral\" versionScope=\"nonSxS\" xmlns:wcm=\"http://schemas.microsoft.com/WMIConfig/2002/State\" xmlns:xsi=\"http://www.w3.org/2001/XMLSchema-instance\">\n            <UserData>\n                <ProductKey>\n                    <WillShowUI>OnError</WillShowUI>\n                </ProductKey>\n                <AcceptEula>true</AcceptEula>\n            </UserData>\n        </component>\n    </settings>\n    <settings pass=\"specialize\">\n        <component name=\"Microsoft-Windows-Shell-Setup\" processorArchitecture=\"";
pub const XML_AFTER_SHELL_ARCH: &'static str = "\" publicKeyToken=\"31bf3856ad364e35\" language=\"neutral\" versionScope=\"nonSxS\" xmlns:wcm=\"http://schemas.microsoft.com/WMIConfig/2002/State\" xmlns:xsi=\"http://www.w3.org/2001/XMLSchema-instance\">\n            <ComputerName>*</ComputerName>\n        </component>\n        <component name=\"Microsoft-Windows-Deployment\" processorArchitecture=\"";
pub const XML_AFTER_DEPLOY_ARCH: &'static str = "\" publicKeyToken=\"31bf3856ad364e35\" language=\"neutral\" versionScope=\"nonSxS\" xmlns:wcm=\"http://schemas.microsoft.com/WMIConfig/2002/State\" xmlns:xsi=\"http://www.w3.org/2001/XMLSchema-instance\">\n            <RunSynchronous>\n                <RunSynchronousCommand wcm:action=\"add\">\n                    <Order>1</Order>\n                    <Path>cmd /c if exist %SystemDrive%\\LetRecovery_Scripts\\deploy.bat call %SystemDrive%\\LetRecovery_Scripts\\deploy.bat</Path>\n                    <Description>Run custom deploy script</Description>\n                </RunSynchronousCommand>\n            </RunSynchronous>\n        </component>\n    </settings>\n    <settings pass=\"oobeSystem\">\n        <component name=\"Microsoft-Windows-Shell-Setup\" processorArchitecture=\"";
pub const XML_AFTER_OOBE_ARCH: &'static str = "\" publicKeyToken=\"31bf3856ad364e35\" language=\"neutral\" versionScope=\"nonSxS\" xmlns:wcm=\"http://schemas.microsoft.com/WMIConfig/2002/State\" xmlns:xsi=\"http://www.w3.org/2001/XMLSchema-instance\">\n            ";
pub const XML_AFTER_OOBE: &'static str = "\n            <UserAccounts>\n                <LocalAccounts>\n                    <LocalAccount wcm:action=\"add\">\n                        <Password>\n                            <Value></Value>\n                            <PlainText>true</PlainText>\n                        </Password>\n                        <Description>Local User</Description>\n                        <DisplayName>";
pub const XML_AFTER_DISPLAY_NAME: &'static str = "</DisplayName>\n                        <Group>Administrators</Group>\n                        <Name>";
pub const XML_AFTER_NAME: &'static str = "</Name>\n                    </LocalAccount>\n                </LocalAccounts>\n            </UserAccounts>\n            <AutoLogon>\n                <Password>\n                    <Value></Value>\n                    <PlainText>true</PlainText>\n                </Password>\n                <Enabled>true</Enabled>\n                <LogonCount>1</LogonCount>\n                <Username>";
pub const XML_AFTER_USERNAME: &'static str = "</Username>\n            </AutoLogon>\n            <FirstLogonCommands>";
pub const XML_TAIL: &'static str = "\n            </FirstLogonCommands>\n        </component>\n    </settings>\n</unattend>";

/// The system family, as told by the version of its `ntdll.dll`.
#[derive(Debug, Clone, Copy, PartialEq, Eq, Structural)]
pub enum SystemFamily {
    /// 6.1
    Win7,
    /// 6.2 or 6.3
    Win8,
    /// Anything else, and an unreadable version.
    Later,
}

pub open spec fn family_of(version: Option<(u32, u32)>) -> SystemFamily {
    match version {
        Some((major, minor)) => if major == 6 && minor == 1 {
            SystemFamily::Win7
        } else if major == 6 && (minor == 2 || minor == 3) {
            SystemFamily::Win8
        } else {
            SystemFamily::Later
        },
        None => SystemFamily::Later,
    }
}

/// The family of a system whose `ntdll.dll` has version `major.minor` (`None`:
/// unreadable).
pub fn system_family(ntdll_version: Option<(u32, u32)>) -> (r: SystemFamily)
    ensures
        r == family_of(ntdll_version),
{
    match ntdll_version {
        Some((major, minor)) => if major == 6 && minor == 1 {
            SystemFamily::Win7
        } else if major == 6 && (minor == 2 || minor == 3) {
            SystemFamily::Win8
        } else {
            SystemFamily::Later
        },
        None => SystemFamily::Later,
    }
}

pub open spec fn logon_entry(order: nat, command: Seq<char>, description: Seq<char>) -> Seq<char> {
    ENTRY_HEAD@ + dec(order) + ENTRY_AFTER_ORDER@ + command + ENTRY_AFTER_COMMAND@ + description + ENTRY_TAIL@
}

/// The first-logon commands, numbered from 1: the user's first-logon script, the
/// removal of preinstalled apps when asked for, and last the removal of the
/// scripts folder.
pub open spec fn first_logon(remove_uwp: bool) -> Seq<char> {
    if remove_uwp {
        logon_entry(1, FIRSTLOGON_COMMAND@, FIRSTLOGON_DESCRIPTION@)
            + logon_entry(2, REMOVE_UWP_COMMAND@, REMOVE_UWP_DESCRIPTION@)
            + logon_entry(3, CLEANUP_COMMAND@, CLEANUP_DESCRIPTION@)
    } else {
        logon_entry(1, FIRSTLOGON_COMMAND@, FIRSTLOGON_DESCRIPTION@)
            + logon_entry(2, CLEANUP_COMMAND@, CLEANUP_DESCRIPTION@)
    }
}

pub open spec fn oobe_section(f: SystemFamily) -> Seq<char> {
    match f {
        SystemFamily::Win7 => OOBE_WIN7@,
        SystemFamily::Win8 => OOBE_WIN8@,
        SystemFamily::Later => OOBE_LATER@,
    }
}

/// The account's name: the user's, when a non-empty one is chosen; else `MyPc`.
pub open spec fn account_name(custom: bool, name: Seq<char>) -> Seq<char> {
    if custom && name.len() > 0 { name } else { "MyPc"@ }
}

pub open spec fn unattend_text(arch: Seq<char>, oobe: Seq<char>, user: Seq<char>, commands: Seq<char>) -> Seq<char> {
    XML_HEAD@ + arch + XML_AFTER_PE_ARCH@ + arch + XML_AFTER_SHELL_ARCH@ + arch + XML_AFTER_DEPLOY_ARCH@ + arch
        + XML_AFTER_OOBE_ARCH@ + oobe + XML_AFTER_OOBE@ + user + XML_AFTER_DISPLAY_NAME@ + user
        + XML_AFTER_NAME@ + user + XML_AFTER_USERNAME@ + commands + XML_TAIL@
}

/// The answer file for a system of architecture `arch` (as the answer file names
/// it) whose `ntdll.dll` has version `ntdll_version`. Preinstalled apps are removed
/// only on Windows 10 and 11.
pub open spec fn unattend_for(
    arch: Seq<char>,
    ntdll_version: Option<(u32, u32)>,
    remove_uwp_apps: bool,
    custom_username: bool,
    username: Seq<char>,
) -> Seq<char> {
    let f = family_of(ntdll_version);
    unattend_text(arch, oobe_section(f), account_name(custom_username, username),
        first_logon(remove_uwp_apps && f == SystemFamily::Later))
}

fn push_logon_entry(s: &mut String, order: u64, command: &str, description: &str)
    ensures
        final(s)@ == old(s)@ + logon_entry(order as nat, command@, description@),
{
    push_str(s, ENTRY_HEAD);
    push_dec(s, order);
    push_str(s, ENTRY_AFTER_ORDER);
    push_str(s, command);
    push_str(s, ENTRY_AFTER_COMMAND);
    push_str(s, description);
    push_str(s, ENTRY_TAIL);
}

/// The text of the answer file (see [`unattend_for`]).
pub fn unattend_xml(
    arch: &str,
    ntdll_version: Option<(u32, u32)>,
    remove_uwp_apps: bool,
    custom_username: bool,
    username: &str,
) -> (r: String)
    ensures
        r@ == unattend_for(arch@, ntdll_version, remove_uwp_apps, custom_username, username@),
{
    let f = system_family(ntdll_version);
    let mut commands = String::new();
    push_logon_entry(&mut commands, 1, FIRSTLOGON_COMMAND, FIRSTLOGON_DESCRIPTION);
    if remove_uwp_apps && f == SystemFamily::Later {
        push_logon_entry(&mut commands, 2, REMOVE_UWP_COMMAND, REMOVE_UWP_DESCRIPTION);
        push_logon_entry(&mut commands, 3, CLEANUP_COMMAND, CLEANUP_DESCRIPTION);
    } else {
        push_logon_entry(&mut commands, 2, CLEANUP_COMMAND, CLEANUP_DESCRIPTION);
    }
    let oobe = match f {
        SystemFamily::Win7 => OOBE_WIN7,
        SystemFamily::Win8 => OOBE_WIN8,
        SystemFamily::Later => OOBE_LATER,
    };
    let user = if custom_username && to_chars(username).len() > 0 { username } else { "MyPc" };
    let mut s = str_to_string(XML_HEAD);
    push_str(&mut s, arch);
    push_str(&mut s, XML_AFTER_PE_ARCH);
    push_str(&mut s, arch);
    push_str(&mut s, XML_AFTER_SHELL_ARCH);
    push_str(&mut s, arch);
    push_str(&mut s, XML_AFTER_DEPLOY_ARCH);
    push_str(&mut s, arch);
    push_str(&mut s, XML_AFTER_OOBE_ARCH);
    push_str(&mut s, oobe);
    push_str(&mut s, XML_AFTER_OOBE);
    push_str(&mut s, user);
    push_str(&mut s, XML_AFTER_DISPLAY_NAME);
    push_str(&mut s, user);
    push_str(&mut s, XML_AFTER_NAME);
    push_str(&mut s, user);
    push_str(&mut s, XML_AFTER_USERNAME);
    push_str(&mut s, commands.as_str());
    push_str(&mut s, XML_TAIL);
    s
}

/// Preinstalled apps are removed only on Windows 10 and later: for a system whose
/// `ntdll.dll` is 6.1, 6.2 or 6.3 (Windows 7, 8, 8.1) the answer file is the same
/// whether the removal is asked for or not; on any other version (or an unreadable
/// one) asking for it puts the removal command into the answer file.
pub proof fn lemma_uwp_removal_only_on_later(
    arch: Seq<char>,
    ntdll_version: Option<(u32, u32)>,
    custom_username: bool,
    username: Seq<char>,
)
    ensures
        (ntdll_version == Some((6u32, 1u32)) || ntdll_version == Some((6u32, 2u32)) || ntdll_version == Some(
            (6u32, 3u32),
        )) ==> unattend_for(arch, ntdll_version, true, custom_username, username) == unattend_for(
            arch,
            ntdll_version,
            false,
            custom_username,
            username,
        ),
        !(ntdll_version == Some((6u32, 1u32)) || ntdll_version == Some((6u32, 2u32)) || ntdll_version == Some(
            (6u32, 3u32),
        )) ==> contains(unattend_for(arch, ntdll_version, true, custom_username, username), REMOVE_UWP_COMMAND@),
{
    let f = family_of(ntdll_version);
    if !(ntdll_version == Some((6u32, 1u32)) || ntdll_version == Some((6u32, 2u32)) || ntdll_version == Some(
        (6u32, 3u32),
    )) {
        assert(f == SystemFamily::Later);
        let user = account_name(custom_username, username);
        let oobe = oobe_section(f);
        let cmd = REMOVE_UWP_COMMAND@;
        let pre = XML_HEAD@ + arch + XML_AFTER_PE_ARCH@ + arch + XML_AFTER_SHELL_ARCH@ + arch
            + XML_AFTER_DEPLOY_ARCH@ + arch + XML_AFTER_OOBE_ARCH@ + oobe + XML_AFTER_OOBE@ + user
            + XML_AFTER_DISPLAY_NAME@ + user + XML_AFTER_NAME@ + user + XML_AFTER_USERNAME@
            + logon_entry(1, FIRSTLOGON_COMMAND@, FIRSTLOGON_DESCRIPTION@) + ENTRY_HEAD@ + dec(2)
            + ENTRY_AFTER_ORDER@;
        let rest = ENTRY_AFTER_COMMAND@ + REMOVE_UWP_DESCRIPTION@ + ENTRY_TAIL@ + logon_entry(
            3,
            CLEANUP_COMMAND@,
            CLEANUP_DESCRIPTION@,
        ) + XML_TAIL@;
        let s = unattend_for(arch, ntdll_version, true, custom_username, username);
        assert(s =~= pre + cmd + rest);
        assert(s.subrange(pre.len() as int, (pre.len() + cmd.len()) as int) =~= cmd);
        assert(occurs_at(s, cmd, pre.len() as int));
        lemma_find_from(s, cmd, 0);
    }
}

} // verus!
