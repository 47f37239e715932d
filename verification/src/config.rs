//! Styling configuration: the record read from the config file, its
//! built-in defaults, the fallback policy, and the translation into
//! presentation parameters.
use vstd::prelude::*;

use crate::color::{spec_parse_color, Color};
use crate::decimal::{parse_i32, spec_parse_i32};

verus! {

/// The six styling fields, all carried as strings as they appear on disk.
#[derive(Debug)]
pub struct Config {
    pub editor_font_family: String,
    pub editor_font_size: String,
    pub editor_font_weight: String,
    pub editor_font_color: String,
    pub editor_line_num_color: String,
    pub background_color: String,
}

/// Whether `c` carries exactly the built-in default styling values.
pub open spec fn is_default_config(c: Config) -> bool {
    c.editor_font_family@ == "JetBrains Mono"@ && c.editor_font_size@ == "18px"@
        && c.editor_font_weight@ == "300"@ && c.editor_font_color@ == "#e9e9e9"@
        && c.editor_line_num_color@ == "#525252"@ && c.background_color@ == "#1e1e1ecd"@
}

impl Clone for Config {
    fn clone(&self) -> (r: Self)
        ensures
            r.editor_font_family@ == self.editor_font_family@,
            r.editor_font_size@ == self.editor_font_size@,
            r.editor_font_weight@ == self.editor_font_weight@,
            r.editor_font_color@ == self.editor_font_color@,
            r.editor_line_num_color@ == self.editor_line_num_color@,
            r.background_color@ == self.background_color@,
    {
        Config {
            editor_font_family: self.editor_font_family.clone(),
            editor_font_size: self.editor_font_size.clone(),
            editor_font_weight: self.editor_font_weight.clone(),
            editor_font_color: self.editor_font_color.clone(),
            editor_line_num_color: self.editor_line_num_color.clone(),
            background_color: self.background_color.clone(),
        }
    }
}

impl Default for Config {
    /// The built-in styling defaults.
    fn default() -> (c: Self)
        ensures
            is_default_config(c),
    {
        Config {
            editor_font_family: String::from_str("JetBrains Mono"),
            editor_font_size: String::from_str("18px"),
            editor_font_weight: String::from_str("300"),
            editor_font_color: String::from_str("#e9e9e9"),
            editor_line_num_color: String::from_str("#525252"),
            background_color: String::from_str("#1e1e1ecd"),
        }
    }
}

/// What the attempt to load the config file from storage produced, as the
/// I/O boundary reports it: the file could not be opened or read at all,
/// it was readable but not a well-formed record, or it parsed.
pub enum ConfigSource {
    Unreadable,
    Malformed,
    Loaded(Config),
}

/// The config file could not be opened or read; startup must not proceed.
#[derive(Clone, Copy, PartialEq, Eq, Structural, Debug)]
pub enum ConfigError {
    Unreadable,
}

/// The fallback policy of configuration loading, deliberately asymmetric:
/// a file that cannot be opened or read is a fatal error, while a readable
/// file with malformed content silently degrades to the defaults as a
/// whole.  A parsed record is taken as is.
pub fn resolve(source: ConfigSource) -> (r: Result<Config, ConfigError>)
    ensures
        r is Err <==> source is Unreadable,
        source is Malformed ==> (r matches Ok(c) && is_default_config(c)),
        source matches ConfigSource::Loaded(c) ==> (r matches Ok(rc) && rc == c),
{
    match source {
        ConfigSource::Unreadable => Err(ConfigError::Unreadable),
        ConfigSource::Malformed => Ok(Config::default()),
        ConfigSource::Loaded(c) => Ok(c),
    }
}

/// Presentation parameters derived from a configuration.  A field that
/// does not parse is `None` and is simply not applied, independently of
/// the others; the font size stays textual for the presentation boundary
/// to interpret.
pub struct ResolvedStyle {
    pub font_family: String,
    pub font_size_text: String,
    pub font_weight: Option<i32>,
    pub font_color: Option<Color>,
    pub line_num_color: Option<Color>,
    pub background_color: Option<Color>,
}

/// The color a configuration field yields, if it parses.
pub open spec fn spec_color_of(s: Seq<char>) -> Option<Color> {
    match spec_parse_color(s) {
        Ok(c) => Some(c),
        Err(_) => None,
    }
}

fn color_of(token: &str) -> (r: Option<Color>)
    ensures
        r == spec_color_of(token@),
{
    match crate::color::hex_to_color(token) {
        Ok(c) => Some(c),
        Err(_) => None,
    }
}

/// Translates a configuration into presentation parameters, tolerating
/// each malformed numeric or color field on its own: a failing field is
/// withheld while every other field still applies.
pub fn resolve_style(config: &Config) -> (r: ResolvedStyle)
    ensures
        r.font_family@ == config.editor_font_family@,
        r.font_size_text@ == config.editor_font_size@,
        r.font_weight == spec_parse_i32(config.editor_font_weight@),
        r.font_color == spec_color_of(config.editor_font_color@),
        r.line_num_color == spec_color_of(config.editor_line_num_color@),
        r.background_color == spec_color_of(config.background_color@),
{
    ResolvedStyle {
        font_family: config.editor_font_family.clone(),
        font_size_text: config.editor_font_size.clone(),
        font_weight: parse_i32(config.editor_font_weight.as_str()),
        font_color: color_of(config.editor_font_color.as_str()),
        line_num_color: color_of(config.editor_line_num_color.as_str()),
        background_color: color_of(config.background_color.as_str()),
    }
}

} // verus!
