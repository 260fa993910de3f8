//! Skin and theme records, their defaults, and colour validation.

use vstd::prelude::*;
use vstd::string::StrSliceExecFns;
use vstd::string::StringSliceAdditionalSpecFns;
use vstd::string::StringExecFns;

verus! {

/// Metadata about a skin.
#[derive(Clone, Debug)]
pub struct Metadata {
    pub name: String,
    pub author: String,
    pub version: String,
    pub description: String,
}

impl Default for Metadata {
    fn default() -> (r: Metadata)
        ensures
            r.name@ == "Default"@,
            r.author@ == "OneAmp"@,
            r.version@ == "1.0"@,
            r.description@ == "Default skin"@,
    {
        Metadata {
            name: String::from_str("Default"),
            author: String::from_str("OneAmp"),
            version: String::from_str("1.0"),
            description: String::from_str("Default skin"),
        }
    }
}

/// Colour palette of the application, each colour a hex string
/// ("#RGB", "#RRGGBB" or "#RRGGBBAA").
#[derive(Clone, Debug)]
pub struct Colors {
    pub dark_mode: bool,
    pub background: String,
    pub text: String,
    pub window_fill: String,
    pub window_stroke: String,
    pub panel_fill: String,
    pub widget_bg: String,
    pub widget_stroke: String,
    pub hovered_widget_bg: String,
    pub active_widget_bg: String,
    pub inactive_widget_bg: String,
    pub accent: String,
    pub error: String,
    pub warning: String,
    pub playlist_current_track: String,
    pub playlist_selected_bg: String,
}

impl Default for Colors {
    /// The dark palette.
    fn default() -> (r: Colors)
        ensures
            r.dark_mode,
            r.background@ == "#0a0a0a"@,
            r.text@ == "#ffffff"@,
            r.window_fill@ == "#1a1a1a"@,
            r.window_stroke@ == "#404040"@,
            r.panel_fill@ == "#0f0f0f"@,
            r.widget_bg@ == "#2a2a2a"@,
            r.widget_stroke@ == "#404040"@,
            r.hovered_widget_bg@ == "#3a3a3a"@,
            r.active_widget_bg@ == "#4a4a4a"@,
            r.inactive_widget_bg@ == "#1a1a1a"@,
            r.accent@ == "#00d4ff"@,
            r.error@ == "#ff4444"@,
            r.warning@ == "#ffbb33"@,
            r.playlist_current_track@ == "#00d4ff"@,
            r.playlist_selected_bg@ == "#404040"@,
    {
        Colors {
            dark_mode: true,
            background: String::from_str("#0a0a0a"),
            text: String::from_str("#ffffff"),
            window_fill: String::from_str("#1a1a1a"),
            window_stroke: String::from_str("#404040"),
            panel_fill: String::from_str("#0f0f0f"),
            widget_bg: String::from_str("#2a2a2a"),
            widget_stroke: String::from_str("#404040"),
            hovered_widget_bg: String::from_str("#3a3a3a"),
            active_widget_bg: String::from_str("#4a4a4a"),
            inactive_widget_bg: String::from_str("#1a1a1a"),
            accent: String::from_str("#00d4ff"),
            error: String::from_str("#ff4444"),
            warning: String::from_str("#ffbb33"),
            playlist_current_track: String::from_str("#00d4ff"),
            playlist_selected_bg: String::from_str("#404040"),
        }
    }
}

/// Font configuration: system font names, and an optional font file for
/// the timer, relative to the skin's directory.
#[derive(Clone, Debug)]
pub struct Fonts {
    pub proportional: String,
    pub monospace: String,
    pub timer_font: Option<String>,
}

impl Default for Fonts {
    fn default() -> (r: Fonts)
        ensures
            r.proportional@ == "Arial"@,
            r.monospace@ == "Courier New"@,
            r.timer_font is None,
    {
        Fonts {
            proportional: String::from_str("Arial"),
            monospace: String::from_str("Courier New"),
            timer_font: None,
        }
    }
}

/// Theme colours as RGB triples.
#[derive(Clone, Copy, Debug, PartialEq, Eq)]
pub struct ColorScheme {
    pub window_bg: [u8; 3],
    pub panel_bg: [u8; 3],
    pub border: [u8; 3],
    pub display_bg: [u8; 3],
    pub display_text: [u8; 3],
    pub display_accent: [u8; 3],
    pub button_normal: [u8; 3],
    pub button_hovered: [u8; 3],
    pub button_active: [u8; 3],
    pub progress_bg: [u8; 3],
    pub progress_fill: [u8; 3],
    pub playlist_bg: [u8; 3],
    pub playlist_text: [u8; 3],
    pub playlist_selected: [u8; 3],
    pub playlist_playing: [u8; 3],
    pub eq_slider: [u8; 3],
    pub eq_fill: [u8; 3],
}

/// Why a colour string is not a hex colour.
#[derive(Clone, Copy, Debug, PartialEq, Eq, Structural)]
pub enum ColorError {
    /// It does not start with '#'.
    MissingHash,
    /// The part after '#' is not 3, 6 or 8 bytes long.
    BadLength,
    /// The part after '#' holds a character that is not a hex digit.
    BadDigit,
}

pub open spec fn is_hex_digit(c: char) -> bool {
    ('0' <= c && c <= '9') || ('a' <= c && c <= 'f') || ('A' <= c && c <= 'F')
}

/// The verdict on a colour string: '#' first, then 3, 6 or 8 bytes of hex
/// digits.
pub open spec fn hex_color_check(color: &str) -> Result<(), ColorError> {
    let digits = color.spec_bytes().len() - 1;
    if !(color@.len() > 0 && color@[0] == '#') {
        Err(ColorError::MissingHash)
    } else if !(digits == 3 || digits == 6 || digits == 8) {
        Err(ColorError::BadLength)
    } else if !(forall|i: int| 1 <= i < color@.len() ==> is_hex_digit(#[trigger] color@[i])) {
        Err(ColorError::BadDigit)
    } else {
        Ok(())
    }
}

fn hex_digit(c: char) -> (r: bool)
    ensures
        r == is_hex_digit(c),
{
    ('0' <= c && c <= '9') || ('a' <= c && c <= 'f') || ('A' <= c && c <= 'F')
}

/// Checks that a string is a hex colour: "#RGB", "#RRGGBB" or "#RRGGBBAA".
pub fn validate_hex_color(color: &str) -> (r: Result<(), ColorError>)
    ensures
        r == hex_color_check(color),
{
    let n = color.unicode_len();
    if !(n > 0 && color.get_char(0) == '#') {
        return Err(ColorError::MissingHash);
    }
    let bytes = color.as_bytes().len();
    if !(bytes == 4 || bytes == 7 || bytes == 9) {
        return Err(ColorError::BadLength);
    }
    let mut i: usize = 1;
    while i < n
        invariant
            n == color@.len(),
            color@[0] == '#',
            bytes == color.spec_bytes().len(),
            bytes == 4 || bytes == 7 || bytes == 9,
            1 <= i <= n,
            forall|k: int| 1 <= k < i ==> is_hex_digit(#[trigger] color@[k]),
        decreases n - i,
    {
        if !hex_digit(color.get_char(i)) {
            assert(!is_hex_digit(color@[i as int]));
            return Err(ColorError::BadDigit);
        }
        i = i + 1;
    }
    Ok(())
}

/// The skin chosen when the configuration names none.
pub fn default_active_skin() -> (r: String)
    ensures
        r@ == "OneAmp Dark"@,
{
    String::from_str("OneAmp Dark")
}

/// A configuration without the first-run flag counts as a first run.
pub fn default_first_run() -> (r: bool)
    ensures
        r,
{
    true
}

} // verus!
