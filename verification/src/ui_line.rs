//! Line component: a horizontal rule drawn from a repeated pattern,
//! with optional style overrides that are restored afterwards.

use vstd::prelude::*;
use vstd::string::StringSliceAdditionalSpecFns;
use vstd::string::StringExecFns;
use vstd::utf8::encode_utf8;

use crate::character::Font;
use crate::codec::chars_number;
use crate::errors::PrinterError;
use crate::printer_options::{PrinterOptions, PrinterStyleState};
use crate::protocol::Protocol;
use crate::types::{Command, JustifyMode, TextSize};

verus! {

/// Line style: the pattern the rule repeats.
#[derive(Debug, Clone, Copy)]
pub enum LineStyle<'a> {
    /// Simple line with a `-` pattern.
    Simple,
    /// Double line with a `=` pattern.
    Double,
    /// Dotted line with a `.` pattern.
    Dotted,
    /// Dashed line with a `- ` pattern.
    Dashed,
    /// Custom line with a given pattern.
    Custom(&'a str),
}

/// The pattern characters of a style.
pub open spec fn line_style_pattern(style: LineStyle) -> Seq<char> {
    match style {
        LineStyle::Simple => "-"@,
        LineStyle::Double => "="@,
        LineStyle::Dotted => "."@,
        LineStyle::Dashed => "- "@,
        LineStyle::Custom(p) => p@,
    }
}

/// `s` repeated `n` times.
pub open spec fn repeat_chars(s: Seq<char>, n: int) -> Seq<char>
    decreases n,
{
    if n <= 0 {
        Seq::empty()
    } else {
        s + repeat_chars(s, n - 1)
    }
}

/// Line builder; the default style is `Simple` with no overrides.
#[derive(Debug, Clone, Copy)]
pub struct LineBuilder<'a> {
    pub font: Option<Font>,
    pub size: Option<TextSize>,
    pub justify: Option<JustifyMode>,
    pub style: LineStyle<'a>,
    pub width: Option<u8>,
    pub offset: u8,
}

impl<'a> LineBuilder<'a> {
    /// Initialize a new `LineBuilder`.
    pub fn new() -> (r: Self)
        ensures
            r.font is None,
            r.size is None,
            r.justify is None,
            r.style == LineStyle::<'a>::Simple,
            r.width is None,
            r.offset == 0,
    {
        LineBuilder {
            font: Option::None,
            size: Option::None,
            justify: Option::None,
            style: LineStyle::Simple,
            width: Option::None,
            offset: 0,
        }
    }

    /// Set font.
    pub fn font(self, font: Font) -> (r: Self)
        ensures
            r == (LineBuilder { font: Some(font), ..self }),
    {
        LineBuilder { font: Some(font), ..self }
    }

    /// Set size.
    pub fn size(self, size: TextSize) -> (r: Self)
        ensures
            r == (LineBuilder { size: Some(size), ..self }),
    {
        LineBuilder { size: Some(size), ..self }
    }

    /// Set horizontal alignment.
    pub fn justify(self, align: JustifyMode) -> (r: Self)
        ensures
            r == (LineBuilder { justify: Some(align), ..self }),
    {
        LineBuilder { justify: Some(align), ..self }
    }

    /// Set line width.
    pub fn width(self, width: u8) -> (r: Self)
        ensures
            r == (LineBuilder { width: Some(width), ..self }),
    {
        LineBuilder { width: Some(width), ..self }
    }

    /// Set line offset.
    pub fn offset(self, offset: u8) -> (r: Self)
        ensures
            r == (LineBuilder { offset, ..self }),
    {
        LineBuilder { offset, ..self }
    }

    /// Set style.
    pub fn style(self, style: LineStyle<'a>) -> (r: Self)
        ensures
            r == (LineBuilder { style, ..self }),
    {
        LineBuilder { style, ..self }
    }

    /// Build a `Line`.
    pub fn build(self) -> (r: Line<'a>)
        ensures
            r.spec_font() == self.font,
            r.spec_size() == self.size,
            r.spec_justify() == self.justify,
            r.spec_style() == self.style,
            r.spec_width() == self.width,
            r.spec_offset() == self.offset,
    {
        Line {
            font: self.font,
            size: self.size,
            justify: self.justify,
            style: self.style,
            width: self.width,
            offset: self.offset,
        }
    }
}

/// A horizontal rule with optional font, size and justification
/// overrides, a pattern, a width and an offset.
#[derive(Debug, Clone, Copy)]
pub struct Line<'a> {
    font: Option<Font>,
    size: Option<TextSize>,
    justify: Option<JustifyMode>,
    style: LineStyle<'a>,
    width: Option<u8>,
    offset: u8,
}

/// The characters the line draws before byte truncation: the pattern
/// repeated once per column, padded by the offset on the side the
/// justification leaves free.
pub open spec fn line_chars(
    style: LineStyle,
    width: Option<u8>,
    offset: u8,
    justify: JustifyMode,
    line_max: int,
) -> Seq<char> {
    let target = match width {
        Some(w) => w as int,
        Option::None => line_max,
    };
    let lw = if target <= line_max - offset {
        target
    } else {
        line_max - offset
    };
    let body = repeat_chars(line_style_pattern(style), lw);
    if offset > 0 {
        if justify == JustifyMode::LEFT {
            repeat_chars(" "@, offset as int) + body
        } else {
            body + repeat_chars(" "@, offset as int)
        }
    } else {
        body
    }
}

/// The byte payload of the line: its characters' UTF-8 bytes, cut to
/// the line's column budget.
pub open spec fn line_payload(
    style: LineStyle,
    width: Option<u8>,
    offset: u8,
    justify: JustifyMode,
    line_max: int,
) -> Seq<u8> {
    let b = encode_utf8(line_chars(style, width, offset, justify, line_max));
    if b.len() > line_max {
        b.take(line_max)
    } else {
        b
    }
}

fn append_repeated(s: &mut String, pat: &str, n: u8)
    ensures
        final(s)@ == old(s)@ + repeat_chars(pat@, n as int),
{
    let mut i: u8 = 0;
    proof {
        assert(old(s)@ + repeat_chars(pat@, 0) =~= old(s)@);
    }
    while i < n
        invariant
            i <= n,
            s@ == old(s)@ + repeat_chars(pat@, i as int),
        decreases n - i,
    {
        s.append(pat);
        proof {
            lemma_repeat_chars_snoc(pat@, i + 1);
            assert(s@ =~= old(s)@ + repeat_chars(pat@, i + 1));
        }
        i += 1;
    }
}

proof fn lemma_repeat_chars_snoc(s: Seq<char>, n: int)
    requires
        n >= 1,
    ensures
        repeat_chars(s, n) == repeat_chars(s, n - 1) + s,
    decreases n,
{
    if n == 1 {
        assert(repeat_chars(s, 0) =~= Seq::empty());
        assert(repeat_chars(s, 1) =~= s + Seq::empty());
        assert(repeat_chars(s, 0) + s =~= s + Seq::empty());
    } else {
        lemma_repeat_chars_snoc(s, n - 1);
        assert(repeat_chars(s, n) =~= s + (repeat_chars(s, n - 2) + s));
        assert(repeat_chars(s, n - 1) + s =~= s + (repeat_chars(s, n - 2) + s));
    }
}

impl<'a> Line<'a> {
    /// The font override.
    pub closed spec fn spec_font(&self) -> Option<Font> {
        self.font
    }

    /// The size override.
    pub closed spec fn spec_size(&self) -> Option<TextSize> {
        self.size
    }

    /// The justification override.
    pub closed spec fn spec_justify(&self) -> Option<JustifyMode> {
        self.justify
    }

    /// The pattern style.
    pub closed spec fn spec_style(&self) -> LineStyle<'a> {
        self.style
    }

    /// The width override.
    pub closed spec fn spec_width(&self) -> Option<u8> {
        self.width
    }

    /// The offset.
    pub closed spec fn spec_offset(&self) -> u8 {
        self.offset
    }

    /// Get the size override.
    pub fn get_size(&self) -> (r: Option<TextSize>)
        ensures
            r == self.spec_size(),
    {
        self.size
    }

    /// Get the offset.
    pub fn get_offset(&self) -> (r: u8)
        ensures
            r == self.spec_offset(),
    {
        self.offset
    }

    /// Push the line's style override commands, recording the size and
    /// justification now in force.
    pub fn set_style(
        &self,
        protocol: Protocol,
        text_size: &mut TextSize,
        justify_mode: &mut JustifyMode,
        commands: &mut Vec<Command>,
    ) -> (r: Result<(), PrinterError>)
        ensures
            r is Ok <==> (match self.spec_size() {
                Some(sz) => 1 <= sz.0 <= 8 && 1 <= sz.1 <= 8,
                Option::None => true,
            }),
            *final(text_size) == (match self.spec_size() {
                Some(sz) => sz,
                Option::None => *old(text_size),
            }),
            r is Ok ==> *final(justify_mode) == (match self.spec_justify() {
                Some(j) => j,
                Option::None => *old(justify_mode),
            }),
            r is Ok ==> final(commands)@.len() == old(commands)@.len() + (
            if self.spec_font() is Some {
                1int
            } else {
                0
            }) + (if self.spec_size() is Some {
                1int
            } else {
                0
            }) + (if self.spec_justify() is Some {
                1int
            } else {
                0
            }),
            r is Ok ==> (self.spec_font() matches Some(f) ==> final(commands)@[old(
                commands,
            )@.len() as int]@ == seq![
                0x1Bu8,
                0x4Du8,
                match f {
                    Font::A => 0u8,
                    Font::B => 1u8,
                    Font::C => 2u8,
                },
            ]),
            r is Ok ==> (self.spec_size() matches Some(sz) ==> final(commands)@[old(
                commands,
            )@.len() + (if self.spec_font() is Some {
                1int
            } else {
                0
            })]@ == seq![0x1Du8, 0x21u8, (((sz.0 - 1) as u8) << 4) | ((sz.1 - 1) as u8)]),
            r is Ok ==> (self.spec_justify() matches Some(j) ==> final(commands)@[old(
                commands,
            )@.len() + (if self.spec_font() is Some {
                1int
            } else {
                0
            }) + (if self.spec_size() is Some {
                1int
            } else {
                0
            })]@ == seq![
                0x1Bu8,
                0x61u8,
                match j {
                    JustifyMode::LEFT => 0u8,
                    JustifyMode::CENTER => 1u8,
                    JustifyMode::RIGHT => 2u8,
                },
            ]),
            forall|i: int|
                0 <= i < old(commands)@.len() ==> final(commands)@[i] == old(commands)@[i],
            r matches Err(e) ==> e is Input,
    {
        if let Some(font) = self.font {
            commands.push(protocol.font(font));
        }
        if let Some(size) = self.size {
            *text_size = size;
            let cmd = protocol.text_size(size.0, size.1)?;
            commands.push(cmd);
        }
        if let Some(justify) = self.justify {
            *justify_mode = justify;
            commands.push(protocol.justify(justify));
        }
        Ok(())
    }

    /// Draw the line: a text command holding the payload and one line
    /// feed, unless the payload is empty.  The contract is exact for
    /// the UTF-8 encoder.
    pub fn draw(
        &self,
        protocol: Protocol,
        chars_per_line: u8,
        text_size: u8,
        justify_mode: JustifyMode,
        commands: &mut Vec<Command>,
    ) -> (r: Result<(), PrinterError>)
        requires
            1 <= text_size <= 8 ==> self.spec_offset() <= chars_per_line / text_size,
        ensures
            r is Ok ==> 1 <= text_size <= 8,
            !(1 <= text_size <= 8) ==> (r matches Err(e) && e is Input),
            r matches Err(e) ==> (e is Input || e is Io),
            protocol.spec_is_utf8() && r is Ok ==> ({
                let payload = line_payload(
                    self.spec_style(),
                    self.spec_width(),
                    self.spec_offset(),
                    justify_mode,
                    (chars_per_line / text_size) as int,
                );
                let fc = final(commands)@;
                let oc = old(commands)@;
                if payload.len() == 0 {
                    fc == oc
                } else {
                    let n = fc.len() as int;
                    n == oc.len() + 2 && fc[n - 2]@ == payload && fc[n - 1]@ == seq![
                        0x1Bu8,
                        0x64u8,
                        1u8,
                    ] && (forall|i: int| 0 <= i < oc.len() ==> fc[i] == oc[i])
                }
            }),
    {
        let line_max = chars_number(chars_per_line, text_size)?;
        let target = match self.width {
            Some(w) => w,
            Option::None => line_max,
        };
        let avail = line_max - self.offset;
        let lw = if target <= avail {
            target
        } else {
            avail
        };
        let pat: &str = match self.style {
            LineStyle::Simple => "-",
            LineStyle::Double => "=",
            LineStyle::Dotted => ".",
            LineStyle::Dashed => "- ",
            LineStyle::Custom(pattern) => pattern,
        };
        let mut line = String::new();
        if self.offset > 0 && matches!(justify_mode, JustifyMode::LEFT) {
            append_repeated(&mut line, " ", self.offset);
        }
        append_repeated(&mut line, pat, lw);
        if self.offset > 0 && !matches!(justify_mode, JustifyMode::LEFT) {
            append_repeated(&mut line, " ", self.offset);
        }
        proof {
            assert(line@ =~= line_chars(
                self.spec_style(),
                self.spec_width(),
                self.spec_offset(),
                justify_mode,
                line_max as int,
            ));
        }
        let line_bytes = line.as_str().as_bytes();
        let blen = line_bytes.len();
        let cut: String;
        if blen > line_max as usize {
            if line.as_str().is_char_boundary(line_max as usize) {
                let (head, _) = line.as_str().split_at(line_max as usize);
                cut = head.to_owned();
            } else {
                return Err(PrinterError::Io("line does not cut at a character".to_owned()));
            }
        } else {
            cut = line;
        }
        if !cut.as_str().is_empty() {
            let cmd = protocol.text(cut.as_str(), Option::None, Option::None)?;
            commands.push(cmd);
            commands.push(protocol.feed(1));
        }
        Ok(())
    }

    /// Push the commands that restore the style state the overrides
    /// replaced.
    pub fn restore_style(
        &self,
        protocol: Protocol,
        style_state: PrinterStyleState,
        commands: &mut Vec<Command>,
    ) -> (r: Result<(), PrinterError>)
        ensures
            r is Ok <==> (self.spec_size() is Some ==> (1 <= style_state.text_size.0 <= 8 && 1
                <= style_state.text_size.1 <= 8)),
            r is Ok ==> final(commands)@.len() == old(commands)@.len() + (
            if self.spec_font() is Some {
                1int
            } else {
                0
            }) + (if self.spec_size() is Some {
                1int
            } else {
                0
            }) + (if self.spec_justify() is Some {
                1int
            } else {
                0
            }),
            r is Ok ==> (self.spec_font() is Some ==> final(commands)@[old(
                commands,
            )@.len() as int]@ == seq![
                0x1Bu8,
                0x4Du8,
                match style_state.font {
                    Font::A => 0u8,
                    Font::B => 1u8,
                    Font::C => 2u8,
                },
            ]),
            r is Ok ==> (self.spec_size() is Some ==> final(commands)@[old(commands)@.len() + (
            if self.spec_font() is Some {
                1int
            } else {
                0
            })]@ == seq![
                0x1Du8,
                0x21u8,
                (((style_state.text_size.0 - 1) as u8) << 4) | ((style_state.text_size.1
                    - 1) as u8),
            ]),
            r is Ok ==> (self.spec_justify() is Some ==> final(commands)@[old(commands)@.len() + (
            if self.spec_font() is Some {
                1int
            } else {
                0
            }) + (if self.spec_size() is Some {
                1int
            } else {
                0
            })]@ == seq![
                0x1Bu8,
                0x61u8,
                match style_state.justify_mode {
                    JustifyMode::LEFT => 0u8,
                    JustifyMode::CENTER => 1u8,
                    JustifyMode::RIGHT => 2u8,
                },
            ]),
            forall|i: int|
                0 <= i < old(commands)@.len() ==> final(commands)@[i] == old(commands)@[i],
            r matches Err(e) ==> e is Input,
    {
        if self.font.is_some() {
            commands.push(protocol.font(style_state.font));
        }
        if self.size.is_some() {
            let cmd = protocol.text_size(style_state.text_size.0, style_state.text_size.1)?;
            commands.push(cmd);
        }
        if self.justify.is_some() {
            commands.push(protocol.justify(style_state.justify_mode));
        }
        Ok(())
    }

    /// Render the line: style overrides, the drawn rule, then the
    /// commands that restore the previous style state, in that order.
    pub fn render(
        &self,
        protocol: Protocol,
        options: PrinterOptions,
        style_state: PrinterStyleState,
    ) -> (r: Result<Vec<Command>, PrinterError>)
        requires
            ({
                let ts = match self.spec_size() {
                    Some(sz) => sz.0,
                    Option::None => style_state.text_size.0,
                };
                1 <= ts <= 8 ==> self.spec_offset() <= options.spec_characters_per_line() / ts
            }),
        ensures
            r matches Err(e) ==> (e is Input || e is Io),
            protocol.spec_is_utf8() ==> (r matches Ok(c) ==> ({
                let sc = (if self.spec_font() is Some {
                    1int
                } else {
                    0
                }) + (if self.spec_size() is Some {
                    1int
                } else {
                    0
                }) + (if self.spec_justify() is Some {
                    1int
                } else {
                    0
                });
                let ts = match self.spec_size() {
                    Some(sz) => sz.0,
                    Option::None => style_state.text_size.0,
                };
                let jm = match self.spec_justify() {
                    Some(j) => j,
                    Option::None => style_state.justify_mode,
                };
                let payload = line_payload(
                    self.spec_style(),
                    self.spec_width(),
                    self.spec_offset(),
                    jm,
                    (options.spec_characters_per_line() / ts) as int,
                );
                if payload.len() == 0 {
                    c@.len() == 2 * sc
                } else {
                    c@.len() == 2 * sc + 2 && c@[sc]@ == payload && c@[sc + 1]@ == seq![
                        0x1Bu8,
                        0x64u8,
                        1u8,
                    ]
                }
            })),
    {
        let chars_per_line = options.get_characters_per_line();
        let mut commands: Vec<Command> = Vec::new();
        let mut text_size: TextSize = style_state.text_size;
        let mut justify_mode: JustifyMode = style_state.justify_mode;
        self.set_style(protocol.clone(), &mut text_size, &mut justify_mode, &mut commands)?;
        self.draw(protocol.clone(), chars_per_line, text_size.0, justify_mode, &mut commands)?;
        self.restore_style(protocol, style_state, &mut commands)?;
        Ok(commands)
    }
}

} // verus!
