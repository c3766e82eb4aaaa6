//! `GET /api/properties`: the application properties document.

use vstd::prelude::*;

verus! {

/// Where the properties document is read from.
pub const PROPERTIES_PATH: &'static str = "/etc/lemoncuc/properties.json";

/// The full properties document.
#[derive(Debug)]
pub struct Properties {
    pub apps: Vec<AppEntry>,
    pub cursor: CursorConfig,
    pub display: DisplayConfig,
}

/// An application offered to the user. `command` holds the document's `exec`
/// field, a word that Verus reserves.
#[derive(Debug)]
pub struct AppEntry {
    pub name: String,
    pub command: String,
    pub icon: Option<String>,
}

#[derive(Debug)]
pub struct CursorConfig {
    pub theme: String,
    pub size: u32,
}

/// The cursor theme used when a `cursor` object names none.
pub fn default_cursor_theme() -> (s: String)
    ensures
        s@ == "Adwaita"@,
{
    String::from_str("Adwaita")
}

/// The cursor size used when a `cursor` object names none.
pub fn default_cursor_size() -> (n: u32)
    ensures
        n == 48,
{
    48
}

#[derive(Debug)]
pub struct DisplayConfig {
    pub resolution: String,
}

/// The resolution used when a `display` object names none.
pub fn default_resolution() -> (s: String)
    ensures
        s@ == "1280x800x24"@,
{
    String::from_str("1280x800x24")
}

impl Default for CursorConfig {
    /// The cursor section used when the document has none: empty theme, size zero.
    fn default() -> (c: CursorConfig)
        ensures
            c.theme@ == Seq::<char>::empty(),
            c.size == 0,
    {
        CursorConfig { theme: String::new(), size: 0 }
    }
}

impl Default for DisplayConfig {
    /// The display section used when the document has none: empty resolution.
    fn default() -> (d: DisplayConfig)
        ensures
            d.resolution@ == Seq::<char>::empty(),
    {
        DisplayConfig { resolution: String::new() }
    }
}

/// The document is the one answered when none can be read: no applications,
/// and the cursor and display sections of [`CursorConfig::default`] and
/// [`DisplayConfig::default`].
pub open spec fn is_fallback(p: Properties) -> bool {
    &&& p.apps@.len() == 0
    &&& p.cursor.theme@ == Seq::<char>::empty()
    &&& p.cursor.size == 0
    &&& p.display.resolution@ == Seq::<char>::empty()
}

/// The document answered when the file cannot be read or parsed.
pub fn fallback_properties() -> (p: Properties)
    ensures
        is_fallback(p),
{
    Properties { apps: Vec::new(), cursor: CursorConfig::default(), display: DisplayConfig::default() }
}

/// The answer: the parsed document, or the fallback when reading or parsing
/// the file failed.
pub fn properties_or_fallback(parsed: Option<Properties>) -> (p: Properties)
    ensures
        match parsed {
            Some(q) => p == q,
            None => is_fallback(p),
        },
{
    match parsed {
        Some(q) => q,
        None => fallback_properties(),
    }
}

} // verus!
