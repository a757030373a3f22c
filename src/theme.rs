//! The colour scheme, as plain values: a colour is `0xRRGGBB`, and a style is
//! a foreground, an optional background and two text modifiers.

use vstd::prelude::*;

verus! {

/// How a piece of text is drawn.
#[derive(Debug, Clone, Copy, PartialEq, Eq, Structural)]
pub struct ThemeStyle {
    /// Foreground colour, `0xRRGGBB`.
    pub fg: u32,
    /// Background colour, `0xRRGGBB`, if any.
    pub bg: Option<u32>,
    pub bold: bool,
    pub reversed: bool,
}

/// The application's colours and text styles.
pub struct Theme;

impl Theme {
    /// Cyan.
    pub const PRIMARY: u32 = 0x00D9FF;
    /// Purple.
    pub const SECONDARY: u32 = 0xA855F7;
    /// Green.
    pub const ACCENT: u32 = 0x10B981;
    /// Dark background.
    pub const BACKGROUND: u32 = 0x1E1E2E;
    /// Light grey text.
    pub const TEXT: u32 = 0xCDD6F4;
    /// Bright cyan for the selected item.
    pub const SELECTED: u32 = 0x00FFFF;
    /// Red.
    pub const ERROR: u32 = 0xF38BA8;
    /// Light green.
    pub const SUCCESS: u32 = 0xA6E3A1;
    /// Border grey.
    pub const BORDER: u32 = 0x6C7086;
    /// Dimmed grey.
    pub const DIM: u32 = 0x7F849C;
    /// Background of an input field.
    pub const INPUT_BG: u32 = 0x28283C;
    /// Background of the focused input field.
    pub const INPUT_FOCUSED_BG: u32 = 0x323250;

    /// Plain text.
    pub fn text() -> (r: ThemeStyle)
        ensures
            r == (ThemeStyle { fg: Self::TEXT, bg: None, bold: false, reversed: false }),
    {
        ThemeStyle { fg: Self::TEXT, bg: None, bold: false, reversed: false }
    }

    /// The banner.
    pub fn logo() -> (r: ThemeStyle)
        ensures
            r == (ThemeStyle { fg: Self::PRIMARY, bg: None, bold: true, reversed: false }),
    {
        ThemeStyle { fg: Self::PRIMARY, bg: None, bold: true, reversed: false }
    }

    /// A menu item.
    pub fn menu_item() -> (r: ThemeStyle)
        ensures
            r == (ThemeStyle { fg: Self::TEXT, bg: None, bold: false, reversed: false }),
    {
        ThemeStyle { fg: Self::TEXT, bg: None, bold: false, reversed: false }
    }

    /// The selected menu item.
    pub fn menu_item_selected() -> (r: ThemeStyle)
        ensures
            r == (ThemeStyle { fg: Self::SELECTED, bg: None, bold: true, reversed: true }),
    {
        ThemeStyle { fg: Self::SELECTED, bg: None, bold: true, reversed: true }
    }

    /// A menu item that leads to a working feature.
    pub fn menu_item_active() -> (r: ThemeStyle)
        ensures
            r == (ThemeStyle { fg: Self::ACCENT, bg: None, bold: false, reversed: false }),
    {
        ThemeStyle { fg: Self::ACCENT, bg: None, bold: false, reversed: false }
    }

    /// A menu item that is only planned.
    pub fn menu_item_placeholder() -> (r: ThemeStyle)
        ensures
            r == (ThemeStyle { fg: Self::DIM, bg: None, bold: false, reversed: false }),
    {
        ThemeStyle { fg: Self::DIM, bg: None, bold: false, reversed: false }
    }

    /// Borders.
    pub fn border() -> (r: ThemeStyle)
        ensures
            r == (ThemeStyle { fg: Self::BORDER, bg: None, bold: false, reversed: false }),
    {
        ThemeStyle { fg: Self::BORDER, bg: None, bold: false, reversed: false }
    }

    /// Titles.
    pub fn title() -> (r: ThemeStyle)
        ensures
            r == (ThemeStyle { fg: Self::SECONDARY, bg: None, bold: true, reversed: false }),
    {
        ThemeStyle { fg: Self::SECONDARY, bg: None, bold: true, reversed: false }
    }

    /// Key help.
    pub fn help() -> (r: ThemeStyle)
        ensures
            r == (ThemeStyle { fg: Self::DIM, bg: None, bold: false, reversed: false }),
    {
        ThemeStyle { fg: Self::DIM, bg: None, bold: false, reversed: false }
    }

    /// Error messages.
    pub fn error() -> (r: ThemeStyle)
        ensures
            r == (ThemeStyle { fg: Self::ERROR, bg: None, bold: true, reversed: false }),
    {
        ThemeStyle { fg: Self::ERROR, bg: None, bold: true, reversed: false }
    }

    /// Success messages.
    pub fn success() -> (r: ThemeStyle)
        ensures
            r == (ThemeStyle { fg: Self::SUCCESS, bg: None, bold: true, reversed: false }),
    {
        ThemeStyle { fg: Self::SUCCESS, bg: None, bold: true, reversed: false }
    }

    /// An input field.
    pub fn input() -> (r: ThemeStyle)
        ensures
            r == (ThemeStyle {
                fg: Self::TEXT,
                bg: Some(Self::INPUT_BG),
                bold: false,
                reversed: false,
            }),
    {
        ThemeStyle { fg: Self::TEXT, bg: Some(Self::INPUT_BG), bold: false, reversed: false }
    }

    /// The focused input field.
    pub fn input_focused() -> (r: ThemeStyle)
        ensures
            r == (ThemeStyle {
                fg: Self::TEXT,
                bg: Some(Self::INPUT_FOCUSED_BG),
                bold: true,
                reversed: false,
            }),
    {
        ThemeStyle { fg: Self::TEXT, bg: Some(Self::INPUT_FOCUSED_BG), bold: true, reversed: false }
    }

    /// The text cursor.
    pub fn cursor() -> (r: ThemeStyle)
        ensures
            r == (ThemeStyle {
                fg: Self::BACKGROUND,
                bg: Some(Self::PRIMARY),
                bold: false,
                reversed: false,
            }),
    {
        ThemeStyle { fg: Self::BACKGROUND, bg: Some(Self::PRIMARY), bold: false, reversed: false }
    }

    /// Dimmed text.
    pub fn dim() -> (r: ThemeStyle)
        ensures
            r == (ThemeStyle { fg: Self::DIM, bg: None, bold: false, reversed: false }),
    {
        ThemeStyle { fg: Self::DIM, bg: None, bold: false, reversed: false }
    }

    /// Secondary text.
    pub fn secondary() -> (r: ThemeStyle)
        ensures
            r == (ThemeStyle { fg: Self::SECONDARY, bg: None, bold: false, reversed: false }),
    {
        ThemeStyle { fg: Self::SECONDARY, bg: None, bold: false, reversed: false }
    }

    /// Accented text.
    pub fn accent() -> (r: ThemeStyle)
        ensures
            r == (ThemeStyle { fg: Self::ACCENT, bg: None, bold: false, reversed: false }),
    {
        ThemeStyle { fg: Self::ACCENT, bg: None, bold: false, reversed: false }
    }
}

} // verus!
