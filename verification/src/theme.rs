//! App-wide palette.
//!
//! Each colour is an `[r, g, b]` triple. [`ThemeColor`] names the entries
//! so that drawing steps can refer to them.

use vstd::prelude::*;

verus! {

// ── Backgrounds ─────────────────────────────────────────────────────────

/// Primary window background.
pub const BG_PRIMARY: [u8; 3] = [30, 30, 30];
/// Secondary panels (sidebar, scroll areas).
pub const BG_SECONDARY: [u8; 3] = [40, 40, 40];
/// Tertiary element background (buttons, inactive controls).
pub const BG_TERTIARY: [u8; 3] = [50, 50, 50];

// ── Text ────────────────────────────────────────────────────────────────

/// Primary text (headings, labels).
pub const TEXT_PRIMARY: [u8; 3] = [220, 220, 220];
/// Secondary text (field labels, descriptions).
pub const TEXT_SECONDARY: [u8; 3] = [180, 180, 180];
/// Muted text (hints, inactive items).
pub const TEXT_MUTED: [u8; 3] = [120, 120, 135];
/// Monospace stat readout text.
pub const MONO_TEXT: [u8; 3] = [140, 200, 140];

// ── Accents & status ────────────────────────────────────────────────────

/// Primary interactive accent (buttons, selection highlights, sliders).
pub const ACCENT: [u8; 3] = [88, 101, 242];
/// Positive status / normal level (green).
pub const SUCCESS: [u8; 3] = [67, 181, 129];
/// Caution: level approaching limit (amber).
pub const WARNING: [u8; 3] = [250, 166, 26];
/// Error / clipping / destructive action (red).
pub const DANGER: [u8; 3] = [237, 66, 69];
/// Secondary accent, distinct from [`SUCCESS`] green (cyan).
pub const CYAN: [u8; 3] = [56, 189, 248];

// ── Surfaces ────────────────────────────────────────────────────────────

/// Background for custom-drawn widgets (meters, inputs).
pub const SURFACE: [u8; 3] = [18, 18, 22];
/// Hairline border around custom-drawn widgets.
pub const BORDER: [u8; 3] = [16, 16, 20];
/// Dim fill for inactive bars and separators.
pub const SUBTLE: [u8; 3] = [44, 44, 52];

/// Label colour on accent buttons.
pub const BUTTON_TEXT: [u8; 3] = [255, 255, 255];

/// A named entry of the palette.
#[derive(Clone, Copy, PartialEq, Eq, Structural, Debug)]
pub enum ThemeColor {
    BgPrimary,
    BgSecondary,
    BgTertiary,
    TextPrimary,
    TextSecondary,
    TextMuted,
    MonoText,
    Accent,
    Success,
    Warning,
    Danger,
    Cyan,
    Surface,
    Border,
    Subtle,
    ButtonText,
}

impl ThemeColor {
    /// The palette constant that the entry names.
    pub open spec fn palette_rgb(self) -> [u8; 3] {
        match self {
            ThemeColor::BgPrimary => BG_PRIMARY,
            ThemeColor::BgSecondary => BG_SECONDARY,
            ThemeColor::BgTertiary => BG_TERTIARY,
            ThemeColor::TextPrimary => TEXT_PRIMARY,
            ThemeColor::TextSecondary => TEXT_SECONDARY,
            ThemeColor::TextMuted => TEXT_MUTED,
            ThemeColor::MonoText => MONO_TEXT,
            ThemeColor::Accent => ACCENT,
            ThemeColor::Success => SUCCESS,
            ThemeColor::Warning => WARNING,
            ThemeColor::Danger => DANGER,
            ThemeColor::Cyan => CYAN,
            ThemeColor::Surface => SURFACE,
            ThemeColor::Border => BORDER,
            ThemeColor::Subtle => SUBTLE,
            ThemeColor::ButtonText => BUTTON_TEXT,
        }
    }

    /// The `[r, g, b]` triple of this palette entry.
    pub fn rgb(self) -> (v: [u8; 3])
        ensures
            v == self.palette_rgb(),
    {
        match self {
            ThemeColor::BgPrimary => BG_PRIMARY,
            ThemeColor::BgSecondary => BG_SECONDARY,
            ThemeColor::BgTertiary => BG_TERTIARY,
            ThemeColor::TextPrimary => TEXT_PRIMARY,
            ThemeColor::TextSecondary => TEXT_SECONDARY,
            ThemeColor::TextMuted => TEXT_MUTED,
            ThemeColor::MonoText => MONO_TEXT,
            ThemeColor::Accent => ACCENT,
            ThemeColor::Success => SUCCESS,
            ThemeColor::Warning => WARNING,
            ThemeColor::Danger => DANGER,
            ThemeColor::Cyan => CYAN,
            ThemeColor::Surface => SURFACE,
            ThemeColor::Border => BORDER,
            ThemeColor::Subtle => SUBTLE,
            ThemeColor::ButtonText => BUTTON_TEXT,
        }
    }
}

} // verus!
