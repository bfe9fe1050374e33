//! Small helpers shared by the surrounding application: the configuration
//! file path and the icon glyphs of the launcher's font.

use vstd::prelude::*;

verus! {

/// The configuration file's path inside the application-data directory.
pub fn config_path(appdata_dir: &str) -> (r: String)
    ensures
        r@ == appdata_dir@ + "/config.toml"@,
{
    let mut path = appdata_dir.to_owned();
    path.append("/config.toml");
    path
}

/// An icon of the launcher's symbol font.
#[derive(Clone, Copy, Debug, PartialEq, Eq, Structural)]
pub enum Icon {
    Location,
    Settings,
    Close,
    Info,
}

/// The symbol font's code point for an icon.
pub open spec fn spec_icon_glyph(icon: Icon) -> Seq<char> {
    match icon {
        Icon::Location => "\u{e81d}"@,
        Icon::Settings => "\u{e713}"@,
        Icon::Close => "\u{e8bb}"@,
        Icon::Info => "\u{e946}"@,
    }
}

impl Icon {
    /// The one-character string holding the icon's glyph.
    pub fn as_str(self) -> (r: &'static str)
        ensures
            r@ == spec_icon_glyph(self),
    {
        match self {
            Icon::Location => "\u{e81d}",
            Icon::Settings => "\u{e713}",
            Icon::Close => "\u{e8bb}",
            Icon::Info => "\u{e946}",
        }
    }
}

} // verus!
