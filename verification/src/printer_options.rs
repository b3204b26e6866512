//! Printer options and the style state composite builders restore.

use vstd::prelude::*;

use crate::character::{Font, PageCode, UnderlineMode};
use crate::types::{DebugMode, JustifyMode};

verus! {

/// Page code, debug mode and line width of a printer.
#[derive(Debug, Clone)]
pub struct PrinterOptions {
    page_code: Option<PageCode>,
    debug_mode: Option<DebugMode>,
    characters_per_line: u8,
}

impl Default for PrinterOptions {
    fn default() -> (r: Self)
        ensures
            r.spec_page_code() is None,
            r.spec_debug_mode() is None,
            r.spec_characters_per_line() == 42,
    {
        PrinterOptions { page_code: Option::None, debug_mode: Option::None, characters_per_line: 42 }
    }
}

impl PrinterOptions {
    /// The selected page code of the options.
    pub closed spec fn spec_page_code(&self) -> Option<PageCode> {
        self.page_code
    }

    /// The debug mode of the options.
    pub closed spec fn spec_debug_mode(&self) -> Option<DebugMode> {
        self.debug_mode
    }

    /// The number of characters per line of the options.
    pub closed spec fn spec_characters_per_line(&self) -> u8 {
        self.characters_per_line
    }

    /// Create a new printer options instance.
    pub fn new(
        page_code: Option<PageCode>,
        debug_mode: Option<DebugMode>,
        characters_per_line: u8,
    ) -> (r: Self)
        ensures
            r.spec_page_code() == page_code,
            r.spec_debug_mode() == debug_mode,
            r.spec_characters_per_line() == characters_per_line,
    {
        PrinterOptions { page_code, characters_per_line, debug_mode }
    }

    /// Get the page code.
    pub fn get_page_code(&self) -> (r: Option<PageCode>)
        ensures
            r == self.spec_page_code(),
    {
        self.page_code
    }

    /// Set the page code.
    pub fn page_code(&mut self, page_code: Option<PageCode>)
        ensures
            final(self).spec_page_code() == page_code,
            final(self).spec_debug_mode() == old(self).spec_debug_mode(),
            final(self).spec_characters_per_line() == old(self).spec_characters_per_line(),
    {
        self.page_code = page_code;
    }

    /// Get the number of characters per line.
    pub fn get_characters_per_line(&self) -> (r: u8)
        ensures
            r == self.spec_characters_per_line(),
    {
        self.characters_per_line
    }

    /// Set the number of characters per line.
    pub fn characters_per_line(&mut self, characters_per_line: u8)
        ensures
            final(self).spec_characters_per_line() == characters_per_line,
            final(self).spec_page_code() == old(self).spec_page_code(),
            final(self).spec_debug_mode() == old(self).spec_debug_mode(),
    {
        self.characters_per_line = characters_per_line;
    }

    /// Get the debug mode.
    pub fn get_debug_mode(&self) -> (r: Option<DebugMode>)
        ensures
            r == self.spec_debug_mode(),
    {
        self.debug_mode
    }

    /// Set the debug mode.
    pub fn debug_mode(&mut self, debug_mode: Option<DebugMode>)
        ensures
            final(self).spec_debug_mode() == debug_mode,
            final(self).spec_page_code() == old(self).spec_page_code(),
            final(self).spec_characters_per_line() == old(self).spec_characters_per_line(),
    {
        self.debug_mode = debug_mode;
    }
}

/// The style state a printer carries between commands, consumed by
/// composite builders to restore styles after temporary overrides.
#[derive(Debug, Clone, Copy)]
pub struct PrinterStyleState {
    pub text_size: (u8, u8),
    pub justify_mode: JustifyMode,
    pub font: Font,
    pub underline_mode: UnderlineMode,
    pub bold: bool,
    pub double_strike: bool,
    pub reverse: bool,
    pub flip: bool,
}

impl Default for PrinterStyleState {
    fn default() -> (r: Self)
        ensures
            r.text_size == (1u8, 1u8),
            r.justify_mode == JustifyMode::LEFT,
            r.font == Font::A,
            r.underline_mode == UnderlineMode::Off,
            !r.bold,
            !r.double_strike,
            !r.reverse,
            !r.flip,
    {
        PrinterStyleState {
            text_size: (1, 1),
            justify_mode: JustifyMode::LEFT,
            font: Font::A,
            underline_mode: UnderlineMode::Off,
            bold: false,
            double_strike: false,
            reverse: false,
            flip: false,
        }
    }
}

} // verus!
