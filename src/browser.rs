//! The browsers that can host a window, and the choice among those found.
use vstd::prelude::*;

pub mod chromium;
pub mod firefox;

verus! {

/// The engine family of a browser: it decides the launch arguments.
#[derive(Debug, Clone, Copy, PartialEq, Eq, Structural)]
pub enum BrowserKind {
    Chromium,
    Gecko,
    WebKit,
    Unknown,
}

/// Where a browser may be installed on Windows.
#[derive(Debug, Clone)]
pub struct BrowserWindowsConfig {
    pub paths: Vec<String>,
    pub registry_keys: Vec<String>,
}

/// A browser and the places where it may be installed.
#[derive(Debug, Clone)]
pub struct Browser {
    pub name: String,
    pub kind: BrowserKind,
    /// Full paths on Windows.
    pub win: BrowserWindowsConfig,
    /// Executable names to look up on the search path elsewhere.
    pub unix: Vec<String>,
    /// Full paths on macOS.
    pub mac: Vec<String>,
}

/// The installation folders of Windows, as the environment gives them:
/// `PROGRAMFILES`, `PROGRAMFILES(X86)`, `LOCALAPPDATA` and `USERPROFILE`
/// (empty when unset).
pub struct WindowsFolders {
    pub program_files: String,
    pub program_files_x86: String,
    pub local_app_data: String,
    pub user_profile: String,
}

/// The path that `std::path::PathBuf::push` makes of `base` and `rel`.
pub uninterp spec fn joined_path(base: Seq<char>, rel: Seq<char>) -> Seq<char>;

/// Relies on `PathBuf::push`: `rel` joined onto `base` with the platform's
/// separator (or `rel` alone, when it is absolute).
#[verifier::external_body]
pub(crate) fn join_path(base: &str, rel: &str) -> (r: String)
    ensures
        r@ == joined_path(base@, rel@),
{
    let mut p = std::path::PathBuf::from(base);
    p.push(rel);
    p.to_string_lossy().into_owned()
}

/// The candidate Windows paths of a program installed at `rel`: under each
/// of the three installation folders.
pub open spec fn windows_paths_of(f: WindowsFolders, rel: Seq<char>) -> Seq<Seq<char>> {
    seq![
        joined_path(f.program_files@, rel),
        joined_path(f.program_files_x86@, rel),
        joined_path(f.local_app_data@, rel),
    ]
}

pub fn generate_windows_paths(folders: &WindowsFolders, rel: &str) -> (r: Vec<String>)
    ensures
        r@.map_values(|s: String| s@) == windows_paths_of(*folders, rel@),
{
    let mut r: Vec<String> = Vec::new();
    r.push(join_path(folders.program_files.as_str(), rel));
    r.push(join_path(folders.program_files_x86.as_str(), rel));
    r.push(join_path(folders.local_app_data.as_str(), rel));
    assert(r@.map_values(|s: String| s@) =~= windows_paths_of(*folders, rel@));
    r
}

fn owned(items: &[&str]) -> (r: Vec<String>)
    ensures
        r@.map_values(|s: String| s@) == items@.map_values(|s: &str| s@),
{
    let mut r: Vec<String> = Vec::new();
    let mut i: usize = 0;
    while i < items.len()
        invariant
            0 <= i <= items@.len(),
            r@.map_values(|s: String| s@) == items@.take(i as int).map_values(|s: &str| s@),
        decreases items.len() - i,
    {
        let s = String::from_str(items[i]);
        let ghost before = r@;
        r.push(s);
        assert(r@.map_values(|s: String| s@) =~= before.map_values(|s: String| s@).push(items@[i as int]@));
        assert(r@.map_values(|s: String| s@) =~= items@.take(i as int + 1).map_values(|s: &str| s@));
        i = i + 1;
    }
    assert(items@.take(items@.len() as int) =~= items@);
    r
}

fn entry(name: &str, kind: BrowserKind, paths: Vec<String>, unix: &[&str], mac: &[&str]) -> (r: Browser)
    ensures
        r.name@ == name@,
        r.kind == kind,
        r.win.paths == paths,
        r.win.paths@.map_values(|s: String| s@) == paths@.map_values(|s: String| s@),
{
    Browser {
        name: String::from_str(name),
        kind,
        win: BrowserWindowsConfig { paths, registry_keys: Vec::new() },
        unix: owned(unix),
        mac: owned(mac),
    }
}

fn with_scoop(mut paths: Vec<String>, user_profile: &String, rel: &str) -> (r: Vec<String>)
    ensures
        r@.map_values(|s: String| s@) == paths@.map_values(|s: String| s@).push(
            user_profile@ + rel@,
        ),
        r@.map_values(|s: String| s@).take(paths@.len() as int) == paths@.map_values(|s: String| s@),
{
    let mut p = user_profile.clone();
    p.append(rel);
    let ghost pv = p@;
    let ghost before = paths@;
    paths.push(p);
    assert(paths@.map_values(|s: String| s@) =~= before.map_values(|s: String| s@).push(pv));
    assert(paths@.map_values(|s: String| s@).take(before.len() as int) =~= before.map_values(|s: String| s@));
    paths
}

/// The names of the supported browsers, in order of preference.
pub open spec fn supported_names() -> Seq<Seq<char>> {
    seq![
        "chrome"@, "chrome_beta"@, "chrome_dev"@, "chrome_canary"@, "chromium"@, "edge"@,
        "edge_beta"@, "edge_dev"@, "edge_canary"@, "thorium"@, "brave"@, "vivaldi"@,
        "firefox"@, "firefox_developer"@, "firefox_nightly"@, "floorp"@, "librewolf"@,
        "waterfox"@,
    ]
}

/// The first twelve are Chromium browsers, the rest Gecko ones.
pub open spec fn supported_kind(i: int) -> BrowserKind {
    if i < 12 {
        BrowserKind::Chromium
    } else {
        BrowserKind::Gecko
    }
}

/// Where each supported browser installs itself under a Windows
/// installation folder.
pub open spec fn supported_windows_rel() -> Seq<Seq<char>> {
    seq![
        "Google\\Chrome\\Application\\chrome.exe"@,
        "Google\\Chrome Beta\\Application\\chrome.exe"@,
        "Google\\Chrome Dev\\Application\\chrome.exe"@,
        "Google\\Chrome SxS\\Application\\chrome.exe"@,
        "Chromium\\Application\\chrome.exe"@,
        "Microsoft\\Edge\\Application\\msedge.exe"@,
        "Microsoft\\Edge Beta\\Application\\msedge.exe"@,
        "Microsoft\\Edge Dev\\Application\\msedge.exe"@,
        "Microsoft\\Edge SxS\\Application\\msedge.exe"@,
        "Thorium\\Application\\thorium.exe"@,
        "BraveSoftware\\Brave-Browser\\Application\\brave.exe"@,
        "Vivaldi\\Application\\vivaldi.exe"@,
        "Mozilla Firefox\\firefox.exe"@,
        "Mozilla Firefox Developer Edition\\firefox.exe"@,
        "Mozilla Firefox Nightly\\firefox.exe"@,
        "Ablaze Floorp\\floorp.exe"@,
        "LibreWolf\\librewolf.exe"@,
        "Waterfox\\waterfox.exe"@,
    ]
}

/// Every supported browser, in order of preference. Each one's Windows
/// paths start with its place under the three installation folders.
pub fn get_supported_browsers(folders: &WindowsFolders) -> (r: Vec<Browser>)
    ensures
        r@.len() == supported_names().len(),
        forall|i: int|
            0 <= i < r@.len() ==> #[trigger] r@[i].name@ == supported_names()[i] && r@[i].kind
                == supported_kind(i) && r@[i].win.paths@.map_values(|s: String| s@).take(3)
                == windows_paths_of(*folders, supported_windows_rel()[i]),
{
    let mut r: Vec<Browser> = Vec::new();
    let ch = BrowserKind::Chromium;
    let ge = BrowserKind::Gecko;
    let p = generate_windows_paths(folders, "Google\\Chrome\\Application\\chrome.exe");
    let p = with_scoop(p, &folders.user_profile, "\\scoop\\apps\\googlechrome\\current\\chrome.exe");
    r.push(entry("chrome", ch, p,
        &["chrome", "google-chrome", "chrome-browser", "google-chrome-stable"],
        &["/Applications/Google Chrome.app/Contents/MacOS/Google Chrome"]));
    let p = generate_windows_paths(folders, "Google\\Chrome Beta\\Application\\chrome.exe");
    r.push(entry("chrome_beta", ch, p,
        &["chrome-beta", "google-chrome-beta", "chrome-beta-browser", "chrome-browser-beta"],
        &["/Applications/Google Chrome.app/Contents/MacOS/Google Chrome Beta"]));
    let p = generate_windows_paths(folders, "Google\\Chrome Dev\\Application\\chrome.exe");
    r.push(entry("chrome_dev", ch, p,
        &["chrome-unstable", "google-chrome-unstable", "chrome-unstable-browser", "chrome-browser-unstable"],
        &["/Applications/Google Chrome.app/Contents/MacOS/Google Chrome Dev"]));
    let p = generate_windows_paths(folders, "Google\\Chrome SxS\\Application\\chrome.exe");
    r.push(entry("chrome_canary", ch, p,
        &["chrome-canary", "google-chrome-canary", "chrome-canary-browser", "chrome-browser-canary"],
        &["/Applications/Google Chrome Canary.app/Contents/MacOS/Google Chrome Canary"]));
    let p = generate_windows_paths(folders, "Chromium\\Application\\chrome.exe");
    let p = with_scoop(p, &folders.user_profile, "\\scoop\\apps\\chromium\\current\\chrome.exe");
    r.push(entry("chromium", ch, p,
        &["chromium", "chromium-browser"],
        &["/Applications/Chromium.app/Contents/MacOS/Chromium"]));
    let p = generate_windows_paths(folders, "Microsoft\\Edge\\Application\\msedge.exe");
    r.push(entry("edge", ch, p,
        &["microsoft-edge", "microsoft-edge-stable", "microsoft-edge-browser"],
        &["/Applications/Microsoft Edge.app/Contents/MacOS/Microsoft Edge"]));
    let p = generate_windows_paths(folders, "Microsoft\\Edge Beta\\Application\\msedge.exe");
    r.push(entry("edge_beta", ch, p,
        &["microsoft-edge-beta", "microsoft-edge-browser-beta", "microsoft-edge-beta-browser"],
        &["/Applications/Microsoft Edge.app/Contents/MacOS/Microsoft Edge Beta"]));
    let p = generate_windows_paths(folders, "Microsoft\\Edge Dev\\Application\\msedge.exe");
    r.push(entry("edge_dev", ch, p,
        &["microsoft-edge-dev", "microsoft-edge-browser-dev", "microsoft-edge-dev-browser"],
        &["/Applications/Microsoft Edge.app/Contents/MacOS/Microsoft Edge Dev"]));
    let p = generate_windows_paths(folders, "Microsoft\\Edge SxS\\Application\\msedge.exe");
    r.push(entry("edge_canary", ch, p,
        &["microsoft-edge-canary", "microsoft-edge-browser-canary", "microsoft-edge-browser-canary"],
        &["/Applications/Microsoft Edge.app/Contents/MacOS/Microsoft Edge Canary"]));
    let p = generate_windows_paths(folders, "Thorium\\Application\\thorium.exe");
    r.push(entry("thorium", ch, p,
        &["thorium", "thorium-browser"],
        &["/Applications/Thorium.app/Contents/MacOS/Thorium"]));
    let p = generate_windows_paths(folders, "BraveSoftware\\Brave-Browser\\Application\\brave.exe");
    r.push(entry("brave", ch, p,
        &["brave", "brave-browser"],
        &["/Applications/Brave Browser.app/Contents/MacOS/Brave Browser"]));
    let p = generate_windows_paths(folders, "Vivaldi\\Application\\vivaldi.exe");
    r.push(entry("vivaldi", ch, p,
        &["vivaldi", "vivaldi-browser"],
        &["/Applications/Vivaldi.app/Contents/MacOS/Vivaldi"]));
    let p = generate_windows_paths(folders, "Mozilla Firefox\\firefox.exe");
    let p = with_scoop(p, &folders.user_profile, "\\scoop\\apps\\firefox\\current\\firefox.exe");
    r.push(entry("firefox", ge, p,
        &["firefox", "firefox-browser"],
        &["/Applications/Firefox.app/Contents/MacOS/firefox"]));
    let p = generate_windows_paths(folders, "Mozilla Firefox Developer Edition\\firefox.exe");
    r.push(entry("firefox_developer", ge, p, &[], &[]));
    let p = generate_windows_paths(folders, "Mozilla Firefox Nightly\\firefox.exe");
    r.push(entry("firefox_nightly", ge, p,
        &["firefox-nightly", "firefox-nightly-browser", "firefox-browser-nightly"],
        &["/Applications/Firefox Nightly.app/Contents/MacOS/firefox"]));
    let p = generate_windows_paths(folders, "Ablaze Floorp\\floorp.exe");
    r.push(entry("floorp", ge, p,
        &["floorp", "floorp-browser"],
        &["/Applications/Floorp.app/Contents/MacOS/floorp"]));
    let p = generate_windows_paths(folders, "LibreWolf\\librewolf.exe");
    r.push(entry("librewolf", ge, p,
        &["librewolf", "librewolf-browser"],
        &["/Applications/LibreWolf.app/Contents/MacOS/librewolf"]));
    let p = generate_windows_paths(folders, "Waterfox\\waterfox.exe");
    r.push(entry("waterfox", ge, p,
        &["waterfox", "waterfox-browser"],
        &["/Applications/Waterfox.app/Contents/MacOS/waterfox"]));
    assert(r@.len() == supported_names().len());
    r
}

/// Entry `i` is the first of kind `kind`, or the first of all when no kind
/// is asked for.
pub open spec fn first_of_kind(found: Seq<(Browser, String)>, kind: Option<BrowserKind>, i: int) -> bool {
    0 <= i < found.len() && match kind {
        Some(k) => found[i].0.kind == k && forall|j: int| 0 <= j < i ==> #[trigger] found[j].0.kind != k,
        None => i == 0,
    }
}

/// The installation, among those found, that a window uses: the first of
/// the requested kind, or the first of all when no kind is requested.
pub fn get_best_browser(kind: Option<BrowserKind>, found: Vec<(Browser, String)>) -> (r: Option<(Browser, String)>)
    ensures
        match r {
            Some(b) => exists|i: int| first_of_kind(found@, kind, i) && #[trigger] found@[i] == b,
            None => match kind {
                Some(k) => forall|j: int| 0 <= j < found@.len() ==> #[trigger] found@[j].0.kind != k,
                None => found@.len() == 0,
            },
        },
{
    let ghost all = found@;
    let mut rest = found;
    let mut i: usize = 0;
    while i < rest.len()
        invariant
            0 <= i <= rest@.len(),
            rest@ == all,
            all == found@,
            kind is Some ==> forall|j: int| 0 <= j < i ==> #[trigger] all[j].0.kind != kind->Some_0,
            kind is None ==> i == 0,
        decreases rest.len() - i,
    {
        let hit = match kind {
            Some(k) => rest[i].0.kind == k,
            None => true,
        };
        if hit {
            let b = rest.remove(i);
            assert(all[i as int] == b);
            assert(kind is Some ==> b.0.kind == kind->Some_0);
            assert(first_of_kind(all, kind, i as int));
            return Some(b);
        }
        i = i + 1;
    }
    None
}

} // verus!
