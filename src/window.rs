//! The settings of a window, and what the browser is launched with.
use vstd::prelude::*;

use crate::codec::{decimal, decimal_text};
use crate::config::{ChromiumConfig, FirefoxConfig};
use crate::error::{CrowserError, ErrorV};

verus! {

/// The settings of one window. The settings that shape the launch can only
/// change before the window is created.
pub struct WindowSettings {
    pub created: bool,
    /// The page to show when the content is remote; `None` for bundled
    /// content, which is served locally on `webserver_port`.
    pub remote_url: Option<String>,
    pub webserver_port: Option<u16>,
    pub profile_directory: String,
    pub width: u32,
    pub height: u32,
    pub initialization_script: String,
    pub disable_hardware_acceleration: bool,
    pub firefox_config: Option<FirefoxConfig>,
    pub chromium_config: Option<ChromiumConfig>,
}

pub open spec fn after_create(msg: Seq<char>) -> ErrorV {
    ErrorV::DoAfterCreate(msg)
}

fn do_after_create(msg: &str) -> (r: CrowserError)
    ensures
        r@ == after_create(msg@),
{
    CrowserError::DoAfterCreate(String::from_str(msg))
}

/// The address of the locally served content.
pub open spec fn local_url(port: u16) -> Seq<char> {
    "http://localhost:"@ + decimal_text(port as nat)
}

pub open spec fn views(v: Seq<String>) -> Seq<Seq<char>> {
    v.map_values(|s: String| s@)
}

impl WindowSettings {
    /// A window of 800 by 600 that is not created yet.
    pub fn new(remote_url: Option<String>, profile_directory: String) -> (r: WindowSettings)
        ensures
            !r.created,
            r.remote_url == remote_url,
            r.webserver_port is None,
            r.profile_directory == profile_directory,
            r.width == 800 && r.height == 600,
            r.initialization_script@.len() == 0,
            !r.disable_hardware_acceleration,
            r.firefox_config is None,
            r.chromium_config is None,
    {
        WindowSettings {
            created: false,
            remote_url,
            webserver_port: None,
            profile_directory,
            width: 800,
            height: 600,
            initialization_script: String::new(),
            disable_hardware_acceleration: false,
            firefox_config: None,
            chromium_config: None,
        }
    }

    /// Points remote content at `url`; bundled content keeps its address.
    pub fn set_url(&mut self, url: &str)
        ensures
            match old(self).remote_url {
                Some(_) => final(self).remote_url is Some && final(self).remote_url->Some_0@ == url@,
                None => final(self).remote_url is None,
            },
            final(self).created == old(self).created,
    {
        if self.remote_url.is_some() {
            self.remote_url = Some(String::from_str(url));
        }
    }

    pub fn set_size(&mut self, width: u32, height: u32)
        ensures
            final(self).width == width,
            final(self).height == height,
            final(self).created == old(self).created,
    {
        self.width = width;
        self.height = height;
    }

    /// Sets the script run when the window is created or reloaded.
    pub fn set_initialization_script(&mut self, script: &str) -> (r: Result<(), CrowserError>)
        ensures
            old(self).created ==> r is Err && r->Err_0@ == after_create(
                "Initialization script will have no effect if window is already created"@,
            ) && final(self).initialization_script == old(self).initialization_script,
            !old(self).created ==> r is Ok && final(self).initialization_script@ == script@,
            final(self).created == old(self).created,
    {
        if self.created {
            return Err(
                do_after_create("Initialization script will have no effect if window is already created"),
            );
        }
        self.initialization_script = String::from_str(script);
        Ok(())
    }

    pub fn disable_hardware_acceleration(&mut self) -> (r: Result<(), CrowserError>)
        ensures
            old(self).created ==> r is Err && r->Err_0@ == after_create(
                "Changing hardware acceleration will have no effect if window is already created"@,
            ) && final(self).disable_hardware_acceleration == old(self).disable_hardware_acceleration,
            !old(self).created ==> r is Ok && final(self).disable_hardware_acceleration,
            final(self).created == old(self).created,
    {
        if self.created {
            return Err(
                do_after_create("Changing hardware acceleration will have no effect if window is already created"),
            );
        }
        self.disable_hardware_acceleration = true;
        Ok(())
    }

    pub fn set_firefox_config(&mut self, config: FirefoxConfig) -> (r: Result<(), CrowserError>)
        ensures
            old(self).created ==> r is Err && r->Err_0@ == after_create(
                "Changing Firefox-specific configuration will have no effect if window is already created"@,
            ) && final(self).firefox_config == old(self).firefox_config,
            !old(self).created ==> r is Ok && final(self).firefox_config == Some(config),
            final(self).created == old(self).created,
    {
        if self.created {
            return Err(
                do_after_create("Changing Firefox-specific configuration will have no effect if window is already created"),
            );
        }
        self.firefox_config = Some(config);
        Ok(())
    }

    pub fn set_chromium_config(&mut self, config: ChromiumConfig) -> (r: Result<(), CrowserError>)
        ensures
            old(self).created ==> r is Err && r->Err_0@ == after_create(
                "Changing Chromium-specific configuration will have no effect if window is already created"@,
            ) && final(self).chromium_config == old(self).chromium_config,
            !old(self).created ==> r is Ok && final(self).chromium_config == Some(config),
            final(self).created == old(self).created,
    {
        if self.created {
            return Err(
                do_after_create("Changing Chromium-specific configuration will have no effect if window is already created"),
            );
        }
        self.chromium_config = Some(config);
        Ok(())
    }

    /// The address the browser opens.
    pub open spec fn start_url(&self) -> Seq<char> {
        match self.remote_url {
            Some(u) => u@,
            None => local_url(self.webserver_port->Some_0),
        }
    }

    pub fn start_url_text(&self) -> (r: String)
        requires
            self.remote_url is None ==> self.webserver_port is Some,
        ensures
            r@ == self.start_url(),
    {
        match &self.remote_url {
            Some(u) => u.clone(),
            None => {
                let mut r = String::from_str("http://localhost:");
                let port = match self.webserver_port {
                    Some(p) => p,
                    None => 0,
                };
                let d = decimal(port as u64);
                r.append(d.as_str());
                r
            },
        }
    }
}

} // verus!
