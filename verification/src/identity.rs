//! The names the applet goes by on the desktop, and the links it opens.

use vstd::prelude::*;
use vstd::string::StrSliceExecFns;

verus! {

/// One name everywhere: configuration id, state directory, desktop entry.
pub const APP_ID: &'static str = "io.github.ercling.cosmic-applet-daymural";

/// Symbolic icon shown in the panel.
pub const PANEL_ICON: &'static str = "preferences-desktop-wallpaper-symbolic";

/// The package name.
pub const PACKAGE_NAME: &'static str = "daymural";

/// Home page and source repository of the project.
pub const PROJECT_URL: &'static str = "https://github.com/ercling/cosmic-applet-daymural";

/// The one-line description of the package.
pub const DESCRIPTION: &'static str =
    "Daymural: daily Microsoft Bing wallpaper applet for the COSMIC desktop";

/// Whether `text` begins with `prefix`.
pub open spec fn has_prefix(text: Seq<char>, prefix: Seq<char>) -> bool {
    prefix.len() <= text.len() && text.subrange(0, prefix.len() as int) == prefix
}

/// Whether `link` is an ordinary web address.
pub open spec fn is_web_link(link: Seq<char>) -> bool {
    has_prefix(link, "https://"@) || has_prefix(link, "http://"@)
}

/// Compares the beginning of `text` with `prefix`, character by character.
pub fn starts_with(text: &str, prefix: &str) -> (starts: bool)
    ensures
        starts == has_prefix(text@, prefix@),
{
    let wanted: usize = prefix.unicode_len();
    if text.unicode_len() < wanted {
        return false;
    }
    let mut at: usize = 0;
    while at < wanted
        invariant
            at <= wanted,
            wanted == prefix@.len(),
            wanted <= text@.len(),
            text@.subrange(0, at as int) == prefix@.subrange(0, at as int),
        decreases wanted - at,
    {
        if text.get_char(at) != prefix.get_char(at) {
            assert(text@.subrange(0, wanted as int)[at as int] != prefix@[at as int]);
            return false;
        }
        assert(text@.subrange(0, at + 1) == text@.subrange(0, at as int).push(text@[at as int]));
        assert(prefix@.subrange(0, at + 1) == prefix@.subrange(0, at as int).push(
            prefix@[at as int],
        ));
        at = at + 1;
    }
    assert(prefix@.subrange(0, wanted as int) == prefix@);
    true
}

/// `link` if it is an ordinary web URL, otherwise `None`.
///
/// The "About this image" link comes from a remote list and survives in a
/// catalogue the user can edit, and it is handed to a launcher that reads a
/// leading `-` as a flag and opens local paths. Only `http(s)://` passes.
pub fn web_url(link: &str) -> (url: Option<&str>)
    ensures
        url == (if is_web_link(link@) {
            Some(link)
        } else {
            None
        }),
{
    if starts_with(link, "https://") || starts_with(link, "http://") {
        Some(link)
    } else {
        None
    }
}

} // verus!
