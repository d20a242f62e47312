//! Settings of a window that the browser launch reads.
use vstd::prelude::*;

verus! {

/// Firefox-specific settings; they have no effect on other browsers.
#[derive(Debug, Clone)]
pub struct FirefoxConfig {
    /// CSS for the browser's own interface (not the page).
    pub custom_css: Option<String>,
}

/// Chromium-specific settings; they have no effect on other browsers.
#[derive(Debug, Clone)]
pub struct ChromiumConfig {
    /// Paths of unpacked extensions to load.
    pub extensions: Vec<String>,
}

/// A website hosted elsewhere.
#[derive(Debug, Clone)]
pub struct RemoteConfig {
    pub url: String,
}

/// Messages to the local file server.
#[derive(Debug, Clone, Copy, PartialEq, Eq, Structural)]
pub enum WebserverMessage {
    Kill,
}

/// The bundled file that a request for `url` asks for: the URL without its
/// leading `/`, and `index.html` for the root.
pub open spec fn file_path_of(url: Seq<char>) -> Seq<char> {
    let rel = if url.len() > 0 && url[0] == '/' {
        url.subrange(1, url.len() as int)
    } else {
        url
    };
    if rel.len() == 0 {
        "index.html"@
    } else {
        rel
    }
}

pub fn request_file_path(url: &str) -> (r: String)
    ensures
        r@ == file_path_of(url@),
{
    let n = url.unicode_len();
    let rel = if n > 0 && url.get_char(0) == '/' {
        url.substring_char(1, n)
    } else {
        url
    };
    if rel.unicode_len() == 0 {
        String::from_str("index.html")
    } else {
        String::from_str(rel)
    }
}

} // verus!
