//! Plain records and enums shared with the user interface.

use vstd::prelude::*;
use vstd::string::StrSliceExecFns;
use vstd::string::StringExecFns;
use vstd::string::StringSliceAdditionalSpecFns;

verus! {

/// Icons of the media control buttons.
#[derive(Clone, Copy, Debug, PartialEq, Eq, Structural)]
pub enum ButtonIcon {
    Play,
    Pause,
    Stop,
    Previous,
    Next,
}

/// Actions triggered by the control buttons.
#[derive(Clone, Copy, Debug, PartialEq, Eq, Structural)]
pub enum ControlAction {
    /// No button was pressed.
    NoAction,
    Play,
    Pause,
    Stop,
    Previous,
    Next,
}

/// Which playback buttons were clicked during a frame.
#[derive(Clone, Copy, Debug, PartialEq, Eq, Structural)]
pub struct ControlButtons {
    pub previous: bool,
    pub play_pause: bool,
    pub stop: bool,
    pub next: bool,
}

/// Playlist rows activated during a frame.
#[derive(Clone, Copy, Debug, PartialEq, Eq, Structural)]
pub struct PlaylistActions {
    pub play_track: Option<usize>,
    pub select_track: Option<usize>,
}

/// Namespace of the drawing helpers.
pub struct VisualEffects;

/// Namespace of the easing curves.
pub struct Easing;

/// Actions triggered by the window chrome.
#[derive(Clone, Copy, Debug, PartialEq, Eq, Structural)]
pub enum WindowAction {
    /// Nothing was clicked.
    NoAction,
    Close,
    Minimize,
    ToggleMaximize,
    StartDrag,
}

/// Custom title bar of a frameless window.
#[derive(Clone, Copy, Debug, PartialEq, Eq, Structural)]
pub struct WindowChrome {
    dragging: bool,
}

impl WindowChrome {
    pub closed spec fn spec_dragging(self) -> bool {
        self.dragging
    }

    /// A title bar that is not being dragged.
    pub fn new() -> (r: Self)
        ensures
            !r.spec_dragging(),
    {
        WindowChrome { dragging: false }
    }

    pub fn is_dragging(&self) -> (r: bool)
        ensures
            r == self.spec_dragging(),
    {
        self.dragging
    }
}

impl Default for WindowChrome {
    fn default() -> (r: Self)
        ensures
            !r.spec_dragging(),
    {
        Self::new()
    }
}

/// Kind of visualisation.
#[derive(Clone, Copy, Debug, PartialEq, Eq, Structural)]
pub enum VisualizationType {
    Oscilloscope,
    Spectrum,
}

impl VisualizationType {
    /// Switches to the other kind.
    pub fn toggle(&mut self)
        ensures
            *final(self) == match *old(self) {
                VisualizationType::Oscilloscope => VisualizationType::Spectrum,
                VisualizationType::Spectrum => VisualizationType::Oscilloscope,
            },
    {
        *self = match *self {
            VisualizationType::Oscilloscope => VisualizationType::Spectrum,
            VisualizationType::Spectrum => VisualizationType::Oscilloscope,
        };
    }

    pub fn name(&self) -> (r: &'static str)
        ensures
            r@ == match *self {
                VisualizationType::Oscilloscope => "Oscilloscope"@,
                VisualizationType::Spectrum => "Spectrum"@,
            },
    {
        match self {
            VisualizationType::Oscilloscope => "Oscilloscope",
            VisualizationType::Spectrum => "Spectrum",
        }
    }
}

/// Relies on `String::push`: appends one character.
#[verifier::external_body]
fn push_char(s: &mut String, c: char)
    ensures
        final(s)@ == old(s)@.push(c),
{
    s.push(c);
}

/// The window of a scrolling title: text that fits in `max_width` bytes is
/// shown whole; longer text, followed by three spaces, is read as a circle
/// of `len` positions (its length in bytes plus three) from `offset` on,
/// `max_width` characters long, positions past the last character reading
/// as spaces.
pub open spec fn scroll_window(text: &str, max_width: usize, offset: usize) -> Seq<char> {
    let bytes = text.spec_bytes().len();
    if bytes <= max_width {
        text@
    } else {
        let padded = text@ + "   "@;
        let len: int = bytes as int + 3;
        Seq::new(
            max_width as nat,
            |i: int|
                {
                    let idx = (offset as int % len + i) % len;
                    if idx < padded.len() {
                        padded[idx]
                    } else {
                        ' '
                    }
                },
        )
    }
}

/// Display helpers for track information.
pub struct TrackDisplay;

impl TrackDisplay {
    /// A scrolling window on a long title; see `scroll_window`.
    pub fn scroll_text(text: &str, max_width: usize, offset: usize) -> (r: String)
        ensures
            r@ == scroll_window(text, max_width, offset),
    {
        let bytes = text.as_bytes().len();
        if bytes <= max_width {
            return String::from_str(text);
        }
        let padded = String::from_str(text).concat("   ");
        let chars = padded.as_str().unicode_len();
        let len: u128 = bytes as u128 + 3;
        let start: u128 = offset as u128 % len;
        let ghost expected = scroll_window(text, max_width, offset);
        let mut result = String::new();
        let mut idx: u128 = start;
        let mut i: usize = 0;
        proof {
            vstd::arithmetic::div_mod::lemma_small_mod(start as nat, len as nat);
        }
        while i < max_width
            invariant
                len == bytes + 3,
                bytes == text.spec_bytes().len(),
                bytes > max_width,
                start == offset as int % len as int,
                chars == padded@.len(),
                padded@ == text@ + "   "@,
                i <= max_width,
                idx < len,
                idx == (start + i) % (len as int),
                expected == scroll_window(text, max_width, offset),
                result@ == expected.subrange(0, i as int),
            decreases max_width - i,
        {
            let c = if idx < chars as u128 {
                padded.as_str().get_char(idx as usize)
            } else {
                ' '
            };
            push_char(&mut result, c);
            proof {
                assert(result@ =~= expected.subrange(0, i + 1));
                let s = start as int + i as int;
                assert((s + 1) % (len as int) == if idx + 1 == len { 0 } else { idx + 1 }) by (nonlinear_arith)
                    requires
                        idx == s % (len as int),
                        len > 0,
                        s >= 0,
                ;
            }
            idx = if idx + 1 == len {
                0
            } else {
                idx + 1
            };
            i = i + 1;
        }
        assert(result@ =~= expected);
        result
    }
}

} // verus!
