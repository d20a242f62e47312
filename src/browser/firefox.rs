//! Launching a Firefox browser as a standalone app window.
use vstd::prelude::*;

use crate::browser::{join_path, joined_path};
use crate::codec::{decimal, decimal_text};
use crate::commands::{bool_json, bool_text};
use crate::window::{views, WindowSettings};

verus! {

/// The profile folder under the window's profile directory, kept apart from
/// the folders of other engines.
pub open spec fn profile_of(dir: Seq<char>) -> Seq<char> {
    joined_path(joined_path(dir, "firefox"@), "profile"@)
}

pub fn get_profile_dir(win: &WindowSettings) -> (r: String)
    ensures
        r@ == profile_of(win.profile_directory@),
{
    let d = join_path(win.profile_directory.as_str(), "firefox");
    join_path(d.as_str(), "profile")
}

/// The options that open the window's page in a new window on the
/// window's own profile directory.
pub open spec fn options_of(win: WindowSettings) -> Seq<Seq<char>> {
    seq!["--new-window"@, "--url"@, win.start_url(), "--profile"@, win.profile_directory@]
}

pub fn generate_cli_options(win: &WindowSettings) -> (r: Vec<String>)
    requires
        win.remote_url is None ==> win.webserver_port is Some,
    ensures
        views(r@) == options_of(*win),
{
    let mut r: Vec<String> = Vec::new();
    r.push(String::from_str("--new-window"));
    r.push(String::from_str("--url"));
    r.push(win.start_url_text());
    r.push(String::from_str("--profile"));
    r.push(win.profile_directory.clone());
    assert(views(r@) =~= options_of(*win));
    r
}

pub const PREFS_HEAD: &'static str = r#"
user_pref("browser.startup.homepage", "about:blank");
user_pref("browser.startup.page", 0);

// Disable first run stuff
user_pref("browser.shell.checkDefaultBrowser", false);
user_pref("browser.rights.3.shown", true);
user_pref('toolkit.telemetry.reportingpolicy.firstRun', false);

// Window size
user_pref('privacy.window.maxInnerWidth', "#;

pub const PREFS_HEIGHT: &'static str = r#");
user_pref('privacy.window.maxInnerHeight', "#;

pub const PREFS_WEBRENDER: &'static str = r#");

// Hardware acceleration
user_pref('gfx.webrender.all', "#;

pub const PREFS_LAYERS: &'static str = r#");
user_pref('layers.acceleration.force-enabled', "#;

pub const PREFS_TAIL: &'static str = r#");

// For IPC, enable devtools protocol and such
user_pref('devtools.chrome.enabled', true);
user_pref('devtools.debugger.remote-enabled', true);
user_pref('devtools.debugger.prompt-connection', false);
user_pref('remote.active-protocols', 2);

// Media (ie autoplay)
user_pref('media.autoplay.blocking_policy', false);

user_pref("toolkit.legacyUserProfileCustomizations.stylesheets", true);
    "#;

pub const USER_CSS: &'static str = r#"
    /* Disable the entire URL bar */
    #urlbar-container, #nav-bar, #TabsToolbar-customization-target, .notificationbox-stack {
      visibility: collapse;
    }
    "#;

/// The `user.js` preferences of a Firefox profile: the window size, and
/// hardware acceleration unless it is disabled.
pub open spec fn prefs_of(win: WindowSettings) -> Seq<char> {
    PREFS_HEAD@ + decimal_text(win.width as nat) + PREFS_HEIGHT@ + decimal_text(win.height as nat)
        + PREFS_WEBRENDER@ + bool_text(!win.disable_hardware_acceleration) + PREFS_LAYERS@
        + bool_text(!win.disable_hardware_acceleration) + PREFS_TAIL@
}

pub fn profile_prefs(win: &WindowSettings) -> (r: String)
    ensures
        r@ == prefs_of(*win),
{
    let accel = bool_json(!win.disable_hardware_acceleration);
    let mut r = String::from_str(PREFS_HEAD);
    r.append(decimal(win.width as u64).as_str());
    r.append(PREFS_HEIGHT);
    r.append(decimal(win.height as u64).as_str());
    r.append(PREFS_WEBRENDER);
    r.append(accel);
    r.append(PREFS_LAYERS);
    r.append(accel);
    r.append(PREFS_TAIL);
    r
}

/// The `userChrome.css` of a Firefox profile: it hides the browser's
/// toolbars, then adds the custom CSS, if any.
pub open spec fn css_of(win: WindowSettings) -> Seq<char> {
    USER_CSS@ + match win.firefox_config {
        Some(c) => match c.custom_css {
            Some(css) => css@,
            None => Seq::empty(),
        },
        None => Seq::empty(),
    }
}

pub fn user_css(win: &WindowSettings) -> (r: String)
    ensures
        r@ == css_of(*win),
{
    let mut r = String::from_str(USER_CSS);
    if let Some(c) = &win.firefox_config {
        if let Some(css) = &c.custom_css {
            r.append(css.as_str());
        }
    }
    r
}

} // verus!
