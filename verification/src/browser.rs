//! The browser that automation drives: whether one is at hand, and where
//! one is downloaded from.

use crate::json::opt_str;
use crate::launch::{find_first_true, first_true};
use crate::text::{chars_of, contains_text, has_prefix, owned, text_contains};
use vstd::prelude::*;
use vstd::string::StringExecFns;

verus! {

/// The revision of Chromium that is downloaded.
pub const CHROMIUM_REVISION: &'static str = "1200";

/// The operating systems that are told apart.
#[derive(Debug, Clone, Copy, PartialEq, Eq, Structural)]
pub enum OperatingSystem {
    MacOs,
    Windows,
    Linux,
    Other,
}

/// The processor architectures that are told apart.
#[derive(Debug, Clone, Copy, PartialEq, Eq, Structural)]
pub enum Architecture {
    Aarch64,
    X86_64,
    Other,
}

/// The servers that offer the download, in the order in which they are
/// asked.
pub open spec fn mirror_of(i: usize) -> Option<Seq<char>> {
    if i == 0 {
        Some("https://cdn.playwright.dev"@)
    } else if i == 1 {
        Some("https://playwright.download.prss.microsoft.com/dbazure/download/playwright"@)
    } else {
        None
    }
}

pub fn chromium_mirror(i: usize) -> (r: Option<&'static str>)
    ensures
        opt_str(r) == mirror_of(i),
{
    if i == 0 {
        Some("https://cdn.playwright.dev")
    } else if i == 1 {
        Some("https://playwright.download.prss.microsoft.com/dbazure/download/playwright")
    } else {
        None
    }
}

/// The archive to download for a platform and, within it, the path of the
/// browser's executable; none for a platform that no archive is built for.
pub open spec fn download_info_of(os: OperatingSystem, arch: Architecture) -> Option<
    (Seq<char>, Seq<char>),
> {
    match (os, arch) {
        (OperatingSystem::MacOs, Architecture::Aarch64) => Some(
            (
                "chromium-mac-arm64.zip"@,
                "chrome-mac-arm64/Google Chrome for Testing.app/Contents/MacOS/Google Chrome for Testing"@,
            ),
        ),
        (OperatingSystem::MacOs, Architecture::X86_64) => Some(
            (
                "chromium-mac.zip"@,
                "chrome-mac-x64/Google Chrome for Testing.app/Contents/MacOS/Google Chrome for Testing"@,
            ),
        ),
        (OperatingSystem::Windows, _) => Some(
            ("chromium-win64.zip"@, "chrome-win64/chrome.exe"@),
        ),
        (OperatingSystem::Linux, Architecture::X86_64) => Some(
            ("chromium-linux.zip"@, "chrome-linux64/chrome"@),
        ),
        (OperatingSystem::Linux, Architecture::Aarch64) => Some(
            ("chromium-linux-arm64.zip"@, "chrome-linux/chrome"@),
        ),
        _ => None,
    }
}

pub open spec fn info_view(r: Option<(&'static str, &'static str)>) -> Option<
    (Seq<char>, Seq<char>),
> {
    match r {
        Some((a, b)) => Some((a@, b@)),
        None => None,
    }
}

pub fn get_chromium_download_info(os: OperatingSystem, arch: Architecture) -> (r: Option<
    (&'static str, &'static str),
>)
    ensures
        info_view(r) == download_info_of(os, arch),
{
    match (os, arch) {
        (OperatingSystem::MacOs, Architecture::Aarch64) => Some(
            (
                "chromium-mac-arm64.zip",
                "chrome-mac-arm64/Google Chrome for Testing.app/Contents/MacOS/Google Chrome for Testing",
            ),
        ),
        (OperatingSystem::MacOs, Architecture::X86_64) => Some(
            (
                "chromium-mac.zip",
                "chrome-mac-x64/Google Chrome for Testing.app/Contents/MacOS/Google Chrome for Testing",
            ),
        ),
        (OperatingSystem::Windows, _) => Some(("chromium-win64.zip", "chrome-win64/chrome.exe")),
        (OperatingSystem::Linux, Architecture::X86_64) => Some(
            ("chromium-linux.zip", "chrome-linux64/chrome"),
        ),
        (OperatingSystem::Linux, Architecture::Aarch64) => Some(
            ("chromium-linux-arm64.zip", "chrome-linux/chrome"),
        ),
        _ => None,
    }
}

/// The address of an archive on a mirror.
pub open spec fn download_url_of(mirror: Seq<char>, archive: Seq<char>) -> Seq<char> {
    mirror + "/builds/chromium/"@ + CHROMIUM_REVISION@ + "/"@ + archive
}

pub fn chromium_download_url(mirror: &str, archive: &str) -> (r: String)
    ensures
        r@ == download_url_of(mirror@, archive@),
{
    let mut out = String::new();
    out.append(mirror);
    out.append("/builds/chromium/");
    out.append(CHROMIUM_REVISION);
    out.append("/");
    out.append(archive);
    assert(out@ =~= download_url_of(mirror@, archive@));
    out
}

/// The name of the directory that holds the downloaded browser.
pub fn chromium_dir_name() -> (r: String)
    ensures
        r@ == "chromium-"@ + CHROMIUM_REVISION@,
{
    let mut out = String::new();
    out.append("chromium-");
    out.append(CHROMIUM_REVISION);
    assert(out@ =~= "chromium-"@ + CHROMIUM_REVISION@);
    out
}

/// Whether a directory of the browsers' directory holds a full Chromium:
/// its name begins with `chromium-` and does not speak of a headless one.
pub fn is_chromium_dir(name: &str) -> (r: bool)
    ensures
        r == ("chromium-"@.is_prefix_of(name@) && !contains_text(name@, "headless"@)),
{
    let v = chars_of(name);
    has_prefix(&v, &chars_of("chromium-")) && !text_contains(name, "headless")
}

/// Where, within the directory of a downloaded Chromium, its executable may
/// lie.
pub open spec fn chromium_executable_places(os: OperatingSystem) -> Seq<Seq<char>> {
    match os {
        OperatingSystem::MacOs => seq![
            "chrome-mac-arm64/Google Chrome for Testing.app/Contents/MacOS/Google Chrome for Testing"@,
            "chrome-mac/Google Chrome for Testing.app/Contents/MacOS/Google Chrome for Testing"@,
        ],
        OperatingSystem::Windows => seq!["chrome-win/chrome.exe"@, "chrome-win64/chrome.exe"@],
        OperatingSystem::Linux => seq!["chrome-linux/chrome"@, "chrome-linux64/chrome"@],
        OperatingSystem::Other => Seq::<Seq<char>>::empty(),
    }
}

pub fn chromium_executables(os: OperatingSystem) -> (r: Vec<&'static str>)
    ensures
        places_view(r@) == chromium_executable_places(os),
{
    let mut out: Vec<&'static str> = Vec::new();
    match os {
        OperatingSystem::MacOs => {
            out.push(
                "chrome-mac-arm64/Google Chrome for Testing.app/Contents/MacOS/Google Chrome for Testing",
            );
            out.push(
                "chrome-mac/Google Chrome for Testing.app/Contents/MacOS/Google Chrome for Testing",
            );
        },
        OperatingSystem::Windows => {
            out.push("chrome-win/chrome.exe");
            out.push("chrome-win64/chrome.exe");
        },
        OperatingSystem::Linux => {
            out.push("chrome-linux/chrome");
            out.push("chrome-linux64/chrome");
        },
        OperatingSystem::Other => {},
    }
    assert(places_view(out@) =~= chromium_executable_places(os));
    out
}

/// The places at which a browser of the system is looked for.
pub open spec fn system_browser_places(os: OperatingSystem) -> Seq<Seq<char>> {
    match os {
        OperatingSystem::MacOs => seq![
            "/Applications/Google Chrome.app/Contents/MacOS/Google Chrome"@,
        ],
        OperatingSystem::Windows => seq![
            "C:\\Program Files\\Google\\Chrome\\Application\\chrome.exe"@,
            "C:\\Program Files (x86)\\Google\\Chrome\\Application\\chrome.exe"@,
            "C:\\Program Files (x86)\\Microsoft\\Edge\\Application\\msedge.exe"@,
        ],
        OperatingSystem::Linux => seq![
            "/usr/bin/google-chrome"@,
            "/usr/bin/google-chrome-stable"@,
            "/usr/bin/chromium"@,
            "/usr/bin/chromium-browser"@,
        ],
        OperatingSystem::Other => Seq::<Seq<char>>::empty(),
    }
}

pub open spec fn places_view(places: Seq<&'static str>) -> Seq<Seq<char>> {
    Seq::new(places.len(), |i: int| places[i]@)
}

pub fn system_browser_candidates(os: OperatingSystem) -> (r: Vec<&'static str>)
    ensures
        places_view(r@) == system_browser_places(os),
{
    let mut out: Vec<&'static str> = Vec::new();
    match os {
        OperatingSystem::MacOs => {
            out.push("/Applications/Google Chrome.app/Contents/MacOS/Google Chrome");
        },
        OperatingSystem::Windows => {
            out.push("C:\\Program Files\\Google\\Chrome\\Application\\chrome.exe");
            out.push("C:\\Program Files (x86)\\Google\\Chrome\\Application\\chrome.exe");
            out.push("C:\\Program Files (x86)\\Microsoft\\Edge\\Application\\msedge.exe");
        },
        OperatingSystem::Linux => {
            out.push("/usr/bin/google-chrome");
            out.push("/usr/bin/google-chrome-stable");
            out.push("/usr/bin/chromium");
            out.push("/usr/bin/chromium-browser");
        },
        OperatingSystem::Other => {},
    }
    assert(places_view(out@) =~= system_browser_places(os));
    out
}

/// The browser of the system: the first of the places at which one was
/// found, `present` telling this of each place in order.
pub open spec fn system_browser_of(os: OperatingSystem, present: Seq<bool>) -> Option<Seq<char>> {
    match first_true(present, 0) {
        Some(i) => if i < system_browser_places(os).len() {
            Some(system_browser_places(os)[i])
        } else {
            None
        },
        None => None,
    }
}

pub fn get_system_browser_path(os: OperatingSystem, present: &Vec<bool>) -> (r: Option<
    &'static str,
>)
    ensures
        opt_str(r) == system_browser_of(os, present@),
{
    let places = system_browser_candidates(os);
    match find_first_true(present) {
        Some(i) => if i < places.len() {
            assert(places_view(places@)[i as int] == places@[i as int]@);
            Some(places[i])
        } else {
            None
        },
        None => None,
    }
}

/// Whether a browser is at hand for automation.
#[derive(Debug, Clone, PartialEq, Eq)]
pub struct BrowserStatus {
    pub available: bool,
    pub browser_type: String,
    pub needs_download: bool,
}

pub ghost struct BrowserStatusView {
    pub available: bool,
    pub browser_type: Seq<char>,
    pub needs_download: bool,
}

impl View for BrowserStatus {
    type V = BrowserStatusView;

    open spec fn view(&self) -> BrowserStatusView {
        BrowserStatusView {
            available: self.available,
            browser_type: self.browser_type@,
            needs_download: self.needs_download,
        }
    }
}

/// The browser to use: that of the system, unless its absence is being
/// simulated; else the downloaded one; else none, which calls for a
/// download.
pub open spec fn browser_status_of(
    simulate_no_chrome: Option<bool>,
    system_found: bool,
    downloaded_found: bool,
) -> BrowserStatusView {
    if simulate_no_chrome != Some(true) && system_found {
        BrowserStatusView { available: true, browser_type: "system"@, needs_download: false }
    } else if downloaded_found {
        BrowserStatusView { available: true, browser_type: "downloaded"@, needs_download: false }
    } else {
        BrowserStatusView { available: false, browser_type: "none"@, needs_download: true }
    }
}

pub fn check_browser_available(
    simulate_no_chrome: Option<bool>,
    system_found: bool,
    downloaded_found: bool,
) -> (r: BrowserStatus)
    ensures
        r@ == browser_status_of(simulate_no_chrome, system_found, downloaded_found),
{
    let simulated = match simulate_no_chrome {
        Some(b) => b,
        None => false,
    };
    if !simulated && system_found {
        BrowserStatus { available: true, browser_type: owned("system"), needs_download: false }
    } else if downloaded_found {
        BrowserStatus { available: true, browser_type: owned("downloaded"), needs_download: false }
    } else {
        BrowserStatus { available: false, browser_type: owned("none"), needs_download: true }
    }
}

/// A stored browser profile, as the user interface lists it.
#[derive(Debug, Clone, PartialEq, Eq)]
pub struct BrowserSessionInfo {
    pub connector_id: String,
    pub path: String,
    pub size_bytes: u64,
    pub last_modified: String,
}

/// The date of a profile's last change: empty where it is not known, and
/// the epoch where the calendar cannot hold it.
pub open spec fn last_modified_of(modified_secs: Option<u64>) -> Seq<char> {
    match modified_secs {
        Some(secs) => match crate::clock::date_of(secs) {
            Some(date) => date,
            None => match crate::clock::date_of(0) {
                Some(epoch) => epoch,
                None => Seq::<char>::empty(),
            },
        },
        None => Seq::<char>::empty(),
    }
}

/// Describes a stored browser profile.
pub fn browser_session(
    connector_id: String,
    path: String,
    size_bytes: u64,
    modified_secs: Option<u64>,
) -> (r: BrowserSessionInfo)
    ensures
        r.connector_id@ == connector_id@,
        r.path@ == path@,
        r.size_bytes == size_bytes,
        r.last_modified@ == last_modified_of(modified_secs),
{
    let last_modified = match modified_secs {
        Some(secs) => match crate::clock::date_text(secs) {
            Some(date) => date,
            None => match crate::clock::date_text(0) {
                Some(epoch) => epoch,
                None => String::new(),
            },
        },
        None => String::new(),
    };
    BrowserSessionInfo { connector_id, path, size_bytes, last_modified }
}

} // verus!
