//! Launching a Chromium browser as a standalone app window.
use vstd::prelude::*;

use crate::browser::{join_path, joined_path};
use crate::codec::{decimal, decimal_text};
use crate::window::{views, WindowSettings};

verus! {

/// The profile folder under the window's profile directory, kept apart from
/// the folders of other engines.
pub open spec fn profile_of(dir: Seq<char>) -> Seq<char> {
    joined_path(joined_path(dir, "chrome"@), "profile"@)
}

pub fn get_profile_dir(win: &WindowSettings) -> (r: String)
    ensures
        r@ == profile_of(win.profile_directory@),
{
    let d = join_path(win.profile_directory.as_str(), "chrome");
    join_path(d.as_str(), "profile")
}

/// The options that make the browser look like a standalone app: the
/// fixed ones, the window size, the page, the profile, then the GPU switch
/// and one option per extension.
pub open spec fn options_of(win: WindowSettings) -> Seq<Seq<char>> {
    let base = seq![
        "--disable-translate"@,
        "--disable-popup-blocking"@,
        "--disable-sync"@,
        "--no-first-run"@,
        "--no-default-browser-check"@,
        "--disable-features=AutofillServerCommunication,WinRetrieveSuggestionsOnlyOnDemand,MediaSessionService,HardwareMediaKeyHandling"@,
        "--new-window"@,
        "--window-size="@ + decimal_text(win.width as nat) + ","@ + decimal_text(win.height as nat),
        "--app="@ + win.start_url(),
        "--user-data-dir="@ + profile_of(win.profile_directory@),
    ];
    let gpu = if win.disable_hardware_acceleration {
        base.push("--disable-gpu"@)
    } else {
        base
    };
    match win.chromium_config {
        Some(c) => gpu + views(c.extensions@).map_values(|e: Seq<char>| "--load-extension="@ + e),
        None => gpu,
    }
}

pub fn generate_cli_options(win: &WindowSettings) -> (r: Vec<String>)
    requires
        win.remote_url is None ==> win.webserver_port is Some,
    ensures
        views(r@) == options_of(*win),
{
    let mut r: Vec<String> = Vec::new();
    r.push(String::from_str("--disable-translate"));
    r.push(String::from_str("--disable-popup-blocking"));
    r.push(String::from_str("--disable-sync"));
    r.push(String::from_str("--no-first-run"));
    r.push(String::from_str("--no-default-browser-check"));
    r.push(String::from_str("--disable-features=AutofillServerCommunication,WinRetrieveSuggestionsOnlyOnDemand,MediaSessionService,HardwareMediaKeyHandling"));
    r.push(String::from_str("--new-window"));
    let mut size = String::from_str("--window-size=");
    size.append(decimal(win.width as u64).as_str());
    size.append(",");
    size.append(decimal(win.height as u64).as_str());
    r.push(size);
    let mut app = String::from_str("--app=");
    app.append(win.start_url_text().as_str());
    r.push(app);
    let mut profile = String::from_str("--user-data-dir=");
    profile.append(get_profile_dir(win).as_str());
    r.push(profile);
    if win.disable_hardware_acceleration {
        r.push(String::from_str("--disable-gpu"));
    }
    let ghost base = views(r@);
    match &win.chromium_config {
        Some(c) => {
            let ghost exts = views(c.extensions@).map_values(|e: Seq<char>| "--load-extension="@ + e);
            let mut i: usize = 0;
            while i < c.extensions.len()
                invariant
                    0 <= i <= c.extensions@.len(),
                    exts == views(c.extensions@).map_values(|e: Seq<char>| "--load-extension="@ + e),
                    views(r@) == base + exts.take(i as int),
                decreases c.extensions.len() - i,
            {
                let mut opt = String::from_str("--load-extension=");
                opt.append(c.extensions[i].as_str());
                let ghost before = r@;
                r.push(opt);
                assert(views(r@) =~= views(before).push(exts[i as int]));
                assert(exts.take(i as int + 1) =~= exts.take(i as int).push(exts[i as int]));
                i = i + 1;
            }
            assert(exts.take(c.extensions@.len() as int) =~= exts);
        },
        None => {
            assert(base + Seq::<Seq<char>>::empty() =~= base);
        },
    }
    assert(views(r@) =~= options_of(*win));
    r
}

} // verus!
