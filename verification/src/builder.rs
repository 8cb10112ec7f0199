//! The command builder: one long-lived object that owns the protocol state
//! and the append-only command stream of a print session.
//!
//! Every operation appends protocol-conformant bytes and, where relevant,
//! updates the state. Operations apply in call order; a style change
//! affects all text written after it until changed or reset. Each operation
//! is atomic with respect to the stream: on failure zero bytes are appended
//! and the state is unchanged.

use vstd::prelude::*;
use vstd::utf8::encode_utf8;
use crate::barcode::{barcode_commands, barcode_payload, content_valid, Barcode};
use crate::encoder::{char_encodable, encode, encode_str, page_base, page_chars, str_encodable};
use crate::errors::Error;
use crate::image::{image_commands, BitImage};
use crate::page_code::PageCode;
use crate::page_codes::page_supported;
use crate::qrcode::{qr_commands, QrCode};

verus! {

/// Text underline thickness.
#[derive(Debug, Clone, Copy, PartialEq, Eq, Structural)]
pub enum UnderlineMode {
    Off,
    Single,
    Double,
}

impl UnderlineMode {
    /// The parameter byte of the underline command.
    pub open spec fn code_spec(self) -> u8 {
        match self {
            UnderlineMode::Off => 0,
            UnderlineMode::Single => 1,
            UnderlineMode::Double => 2,
        }
    }

    /// The parameter byte of the underline command.
    pub fn code(&self) -> (n: u8)
        ensures
            n == self.code_spec(),
    {
        match self {
            UnderlineMode::Off => 0,
            UnderlineMode::Single => 1,
            UnderlineMode::Double => 2,
        }
    }
}

/// The device's built-in character font.
#[derive(Debug, Clone, Copy, PartialEq, Eq, Structural)]
pub enum Font {
    A,
    B,
    C,
}

impl Font {
    /// The parameter byte of the font command.
    pub open spec fn code_spec(self) -> u8 {
        match self {
            Font::A => 0,
            Font::B => 1,
            Font::C => 2,
        }
    }

    /// The parameter byte of the font command.
    pub fn code(&self) -> (n: u8)
        ensures
            n == self.code_spec(),
    {
        match self {
            Font::A => 0,
            Font::B => 1,
            Font::C => 2,
        }
    }
}

/// Line justification.
#[derive(Debug, Clone, Copy, PartialEq, Eq, Structural)]
pub enum JustifyMode {
    Left,
    Center,
    Right,
}

impl JustifyMode {
    /// The parameter byte of the justification command.
    pub open spec fn code_spec(self) -> u8 {
        match self {
            JustifyMode::Left => 0,
            JustifyMode::Center => 1,
            JustifyMode::Right => 2,
        }
    }

    /// The parameter byte of the justification command.
    pub fn code(&self) -> (n: u8)
        ensures
            n == self.code_spec(),
    {
        match self {
            JustifyMode::Left => 0,
            JustifyMode::Center => 1,
            JustifyMode::Right => 2,
        }
    }
}

/// The current style of a session: every flag a styling operation can set,
/// read by the text encoder (the active page) and reset only by explicit
/// reset operations.
#[derive(Debug, Clone, Copy, PartialEq, Eq)]
pub struct ProtocolState {
    pub bold: bool,
    pub underline: UnderlineMode,
    pub double_strike: bool,
    pub font: Font,
    pub justify: JustifyMode,
    pub reverse: bool,
    pub upside_down: bool,
    pub flip: bool,
    /// Character width multiplier, 1 through 8.
    pub width_mult: u8,
    /// Character height multiplier, 1 through 8.
    pub height_mult: u8,
    /// The explicitly set line spacing, or the device default.
    pub line_spacing: Option<u8>,
    /// The active code page.
    pub page: PageCode,
}

/// The state a session starts in and returns to on reset: every style off,
/// font A, left justification, unit size, default spacing, page PC437.
pub open spec fn default_state() -> ProtocolState {
    ProtocolState {
        bold: false,
        underline: UnderlineMode::Off,
        double_strike: false,
        font: Font::A,
        justify: JustifyMode::Left,
        reverse: false,
        upside_down: false,
        flip: false,
        width_mult: 1,
        height_mult: 1,
        line_spacing: None,
        page: PageCode::PC437,
    }
}

impl Default for ProtocolState {
    /// The state a session starts in.
    fn default() -> (s: ProtocolState)
        ensures
            s == default_state(),
    {
        ProtocolState {
            bold: false,
            underline: UnderlineMode::Off,
            double_strike: false,
            font: Font::A,
            justify: JustifyMode::Left,
            reverse: false,
            upside_down: false,
            flip: false,
            width_mult: 1,
            height_mult: 1,
            line_spacing: None,
            page: PageCode::PC437,
        }
    }
}

/// The parameter byte switching a two-state mode on or off.
pub open spec fn bool_byte(on: bool) -> u8 {
    if on {
        1
    } else {
        0
    }
}

/// Initialize printer.
pub open spec fn init_bytes() -> Seq<u8> {
    seq![0x1bu8, 0x40]
}

/// Hardware reset.
pub open spec fn reset_bytes() -> Seq<u8> {
    seq![0x1bu8, 0x3f, 0x0a, 0x00]
}

/// Paper cut, full or partial.
pub open spec fn cut_bytes(partial: bool) -> Seq<u8> {
    seq![0x1du8, 0x56, 0x41, bool_byte(partial)]
}

/// Bold on or off.
pub open spec fn bold_bytes(on: bool) -> Seq<u8> {
    seq![0x1bu8, 0x45, bool_byte(on)]
}

/// Underline mode.
pub open spec fn underline_bytes(mode: UnderlineMode) -> Seq<u8> {
    seq![0x1bu8, 0x2d, mode.code_spec()]
}

/// Double strike on or off.
pub open spec fn double_strike_bytes(on: bool) -> Seq<u8> {
    seq![0x1bu8, 0x47, bool_byte(on)]
}

/// Font select.
pub open spec fn font_bytes(font: Font) -> Seq<u8> {
    seq![0x1bu8, 0x4d, font.code_spec()]
}

/// Clockwise 90-degree rotation on or off.
pub open spec fn flip_bytes(on: bool) -> Seq<u8> {
    seq![0x1bu8, 0x56, bool_byte(on)]
}

/// Justification select.
pub open spec fn justify_bytes(mode: JustifyMode) -> Seq<u8> {
    seq![0x1bu8, 0x61, mode.code_spec()]
}

/// Reverse video on or off.
pub open spec fn reverse_bytes(on: bool) -> Seq<u8> {
    seq![0x1du8, 0x42, bool_byte(on)]
}

/// Character size: width and height multipliers packed in one byte.
pub open spec fn size_bytes(width_mult: u8, height_mult: u8) -> Seq<u8>
    recommends
        1 <= width_mult <= 8,
        1 <= height_mult <= 8,
{
    seq![0x1du8, 0x21, (16 * (width_mult - 1) + (height_mult - 1)) as u8]
}

/// Feed `n` lines.
pub open spec fn feed_bytes(n: u8) -> Seq<u8> {
    seq![0x1bu8, 0x64, n]
}

/// Line spacing in motion units.
pub open spec fn line_spacing_bytes(n: u8) -> Seq<u8> {
    seq![0x1bu8, 0x33, n]
}

/// Line spacing back to the device default.
pub open spec fn reset_line_spacing_bytes() -> Seq<u8> {
    seq![0x1bu8, 0x32]
}

/// Upside-down printing on or off.
pub open spec fn upside_down_bytes(on: bool) -> Seq<u8> {
    seq![0x1bu8, 0x7b, bool_byte(on)]
}

/// Code page select.
pub open spec fn page_code_bytes(page: PageCode) -> Seq<u8> {
    seq![0x1bu8, 0x74, page.code_spec()]
}

/// A print session: the protocol state and the append-only command stream,
/// exclusively owned for the life of the session and handed to the output
/// sink on demand.
#[derive(Debug, Clone, PartialEq, Eq)]
pub struct CommandBuilder {
    /// The command stream built so far.
    pub stream: Vec<u8>,
    /// The current style state.
    pub state: ProtocolState,
}

impl CommandBuilder {
    /// Opens a session: an empty stream and the default state. A builder
    /// with zero operations produces an empty stream.
    pub fn new() -> (b: CommandBuilder)
        ensures
            b.stream@ == Seq::<u8>::empty(),
            b.state == default_state(),
    {
        CommandBuilder { stream: Vec::new(), state: ProtocolState::default() }
    }

    /// The command stream built so far.
    pub fn commands(&self) -> (r: &Vec<u8>)
        ensures
            r@ == self.stream@,
    {
        &self.stream
    }

    /// Initializes the printer and restores the default state without
    /// altering previously emitted bytes.
    pub fn init(&mut self)
        ensures
            final(self).stream@ == old(self).stream@ + init_bytes(),
            final(self).state == default_state(),
    {
        self.stream.push(0x1b);
        self.stream.push(0x40);
        self.state = ProtocolState::default();
        proof {
            assert(self.stream@ =~= old(self).stream@ + init_bytes());
        }
    }

    /// Requests a hardware reset and restores the default state without
    /// altering previously emitted bytes.
    pub fn reset(&mut self)
        ensures
            final(self).stream@ == old(self).stream@ + reset_bytes(),
            final(self).state == default_state(),
    {
        self.stream.push(0x1b);
        self.stream.push(0x3f);
        self.stream.push(0x0a);
        self.stream.push(0x00);
        self.state = ProtocolState::default();
        proof {
            assert(self.stream@ =~= old(self).stream@ + reset_bytes());
        }
    }

    /// Cuts the paper.
    pub fn cut(&mut self)
        ensures
            final(self).stream@ == old(self).stream@ + cut_bytes(false),
            final(self).state == old(self).state,
    {
        self.stream.push(0x1d);
        self.stream.push(0x56);
        self.stream.push(0x41);
        self.stream.push(0x00);
        proof {
            assert(self.stream@ =~= old(self).stream@ + cut_bytes(false));
        }
    }

    /// Cuts the paper partially.
    pub fn partial_cut(&mut self)
        ensures
            final(self).stream@ == old(self).stream@ + cut_bytes(true),
            final(self).state == old(self).state,
    {
        self.stream.push(0x1d);
        self.stream.push(0x56);
        self.stream.push(0x41);
        self.stream.push(0x01);
        proof {
            assert(self.stream@ =~= old(self).stream@ + cut_bytes(true));
        }
    }

    /// Switches bold text on or off.
    pub fn bold(&mut self, enabled: bool)
        ensures
            final(self).stream@ == old(self).stream@ + bold_bytes(enabled),
            final(self).state == (ProtocolState { bold: enabled, ..old(self).state }),
    {
        self.stream.push(0x1b);
        self.stream.push(0x45);
        self.stream.push(if enabled { 1 } else { 0 });
        self.state.bold = enabled;
        proof {
            assert(self.stream@ =~= old(self).stream@ + bold_bytes(enabled));
        }
    }

    /// Sets the underline mode.
    pub fn underline(&mut self, mode: UnderlineMode)
        ensures
            final(self).stream@ == old(self).stream@ + underline_bytes(mode),
            final(self).state == (ProtocolState { underline: mode, ..old(self).state }),
    {
        self.stream.push(0x1b);
        self.stream.push(0x2d);
        self.stream.push(mode.code());
        self.state.underline = mode;
        proof {
            assert(self.stream@ =~= old(self).stream@ + underline_bytes(mode));
        }
    }

    /// Switches double-strike text on or off.
    pub fn double_strike(&mut self, enabled: bool)
        ensures
            final(self).stream@ == old(self).stream@ + double_strike_bytes(enabled),
            final(self).state == (ProtocolState { double_strike: enabled, ..old(self).state }),
    {
        self.stream.push(0x1b);
        self.stream.push(0x47);
        self.stream.push(if enabled { 1 } else { 0 });
        self.state.double_strike = enabled;
        proof {
            assert(self.stream@ =~= old(self).stream@ + double_strike_bytes(enabled));
        }
    }

    /// Selects the character font.
    pub fn font(&mut self, font: Font)
        ensures
            final(self).stream@ == old(self).stream@ + font_bytes(font),
            final(self).state == (ProtocolState { font, ..old(self).state }),
    {
        self.stream.push(0x1b);
        self.stream.push(0x4d);
        self.stream.push(font.code());
        self.state.font = font;
        proof {
            assert(self.stream@ =~= old(self).stream@ + font_bytes(font));
        }
    }

    /// Switches rotated (flipped) text on or off.
    pub fn flip(&mut self, enabled: bool)
        ensures
            final(self).stream@ == old(self).stream@ + flip_bytes(enabled),
            final(self).state == (ProtocolState { flip: enabled, ..old(self).state }),
    {
        self.stream.push(0x1b);
        self.stream.push(0x56);
        self.stream.push(if enabled { 1 } else { 0 });
        self.state.flip = enabled;
        proof {
            assert(self.stream@ =~= old(self).stream@ + flip_bytes(enabled));
        }
    }

    /// Sets line justification.
    pub fn justify(&mut self, mode: JustifyMode)
        ensures
            final(self).stream@ == old(self).stream@ + justify_bytes(mode),
            final(self).state == (ProtocolState { justify: mode, ..old(self).state }),
    {
        self.stream.push(0x1b);
        self.stream.push(0x61);
        self.stream.push(mode.code());
        self.state.justify = mode;
        proof {
            assert(self.stream@ =~= old(self).stream@ + justify_bytes(mode));
        }
    }

    /// Switches reverse (white-on-black) video on or off.
    pub fn reverse(&mut self, enabled: bool)
        ensures
            final(self).stream@ == old(self).stream@ + reverse_bytes(enabled),
            final(self).state == (ProtocolState { reverse: enabled, ..old(self).state }),
    {
        self.stream.push(0x1d);
        self.stream.push(0x42);
        self.stream.push(if enabled { 1 } else { 0 });
        self.state.reverse = enabled;
        proof {
            assert(self.stream@ =~= old(self).stream@ + reverse_bytes(enabled));
        }
    }

    /// Switches upside-down printing on or off.
    pub fn upside_down(&mut self, enabled: bool)
        ensures
            final(self).stream@ == old(self).stream@ + upside_down_bytes(enabled),
            final(self).state == (ProtocolState { upside_down: enabled, ..old(self).state }),
    {
        self.stream.push(0x1b);
        self.stream.push(0x7b);
        self.stream.push(if enabled { 1 } else { 0 });
        self.state.upside_down = enabled;
        proof {
            assert(self.stream@ =~= old(self).stream@ + upside_down_bytes(enabled));
        }
    }

    /// Sets the character width and height multipliers, each 1 through 8.
    /// A multiplier outside that range is a validation error.
    pub fn size(&mut self, width_mult: u8, height_mult: u8) -> (r: Result<(), Error>)
        ensures
            r is Ok <==> (1 <= width_mult <= 8 && 1 <= height_mult <= 8),
            r is Ok ==> final(self).stream@ == old(self).stream@ + size_bytes(
                width_mult,
                height_mult,
            ) && final(self).state == (ProtocolState {
                width_mult,
                height_mult,
                ..old(self).state
            }),
            r is Err ==> *final(self) == *old(self) && r == Err::<(), Error>(Error::Validation),
    {
        if !(1 <= width_mult && width_mult <= 8 && 1 <= height_mult && height_mult <= 8) {
            return Err(Error::Validation);
        }
        self.stream.push(0x1d);
        self.stream.push(0x21);
        self.stream.push(16 * (width_mult - 1) + (height_mult - 1));
        self.state.width_mult = width_mult;
        self.state.height_mult = height_mult;
        proof {
            assert(self.stream@ =~= old(self).stream@ + size_bytes(width_mult, height_mult));
        }
        Ok(())
    }

    /// Sets the character size back to the unit multipliers.
    pub fn reset_size(&mut self)
        ensures
            final(self).stream@ == old(self).stream@ + size_bytes(1, 1),
            final(self).state == (ProtocolState {
                width_mult: 1,
                height_mult: 1,
                ..old(self).state
            }),
    {
        self.stream.push(0x1d);
        self.stream.push(0x21);
        self.stream.push(0x00);
        self.state.width_mult = 1;
        self.state.height_mult = 1;
        proof {
            assert(self.stream@ =~= old(self).stream@ + size_bytes(1, 1));
        }
    }

    /// Feeds one line.
    pub fn feed(&mut self)
        ensures
            final(self).stream@ == old(self).stream@ + feed_bytes(1),
            final(self).state == old(self).state,
    {
        self.stream.push(0x1b);
        self.stream.push(0x64);
        self.stream.push(0x01);
        proof {
            assert(self.stream@ =~= old(self).stream@ + feed_bytes(1));
        }
    }

    /// Feeds `lines` lines.
    pub fn feeds(&mut self, lines: u8)
        ensures
            final(self).stream@ == old(self).stream@ + feed_bytes(lines),
            final(self).state == old(self).state,
    {
        self.stream.push(0x1b);
        self.stream.push(0x64);
        self.stream.push(lines);
        proof {
            assert(self.stream@ =~= old(self).stream@ + feed_bytes(lines));
        }
    }

    /// Sets the line spacing in motion units.
    pub fn line_spacing(&mut self, units: u8)
        ensures
            final(self).stream@ == old(self).stream@ + line_spacing_bytes(units),
            final(self).state == (ProtocolState {
                line_spacing: Some(units),
                ..old(self).state
            }),
    {
        self.stream.push(0x1b);
        self.stream.push(0x33);
        self.stream.push(units);
        self.state.line_spacing = Some(units);
        proof {
            assert(self.stream@ =~= old(self).stream@ + line_spacing_bytes(units));
        }
    }

    /// Sets the line spacing back to the device default.
    pub fn reset_line_spacing(&mut self)
        ensures
            final(self).stream@ == old(self).stream@ + reset_line_spacing_bytes(),
            final(self).state == (ProtocolState { line_spacing: None, ..old(self).state }),
    {
        self.stream.push(0x1b);
        self.stream.push(0x32);
        self.state.line_spacing = None;
        proof {
            assert(self.stream@ =~= old(self).stream@ + reset_line_spacing_bytes());
        }
    }

    /// Selects the active code page. Requesting a page outside the
    /// supported closed set is a configuration error, and the stream and
    /// state are unchanged.
    pub fn page_code(&mut self, page: PageCode) -> (r: Result<(), Error>)
        ensures
            r is Ok <==> page_supported(page),
            r is Ok ==> final(self).stream@ == old(self).stream@ + page_code_bytes(page),
            r is Ok ==> final(self).state == (ProtocolState { page, ..old(self).state }),
            r is Err ==> *final(self) == *old(self) && r == Err::<(), Error>(
                Error::Configuration(page),
            ),
    {
        if crate::page_codes::PageCodeTable::try_from(page).is_err() {
            return Err(Error::Configuration(page));
        }
        self.stream.push(0x1b);
        self.stream.push(0x74);
        self.stream.push(page.code());
        self.state.page = page;
        proof {
            assert(self.stream@ =~= old(self).stream@ + page_code_bytes(page));
        }
        Ok(())
    }

    /// Writes `text` under the active code page: appends one byte per
    /// character, with no opcode framing.
    ///
    /// An unsupported active page is a configuration error; a character
    /// neither ASCII nor in the page's table is an encoding error naming
    /// the first such character. Either way nothing is appended.
    pub fn write(&mut self, text: &str) -> (r: Result<(), Error>)
        ensures
            r is Ok <==> page_supported(old(self).state.page) && str_encodable(
                page_chars(old(self).state.page),
                page_base(old(self).state.page),
                text@,
            ),
            r is Ok ==> final(self).stream@ == old(self).stream@ + encode_str(
                page_chars(old(self).state.page),
                page_base(old(self).state.page),
                text@,
            ) && final(self).state == old(self).state,
            r is Err ==> *final(self) == *old(self),
            r is Err && !page_supported(old(self).state.page) ==> r == Err::<(), Error>(
                Error::Configuration(old(self).state.page),
            ),
            r is Err && page_supported(old(self).state.page) ==> exists|i: int|
                {
                    &&& 0 <= i < text@.len()
                    &&& !char_encodable(
                        page_chars(old(self).state.page),
                        page_base(old(self).state.page),
                        text@[i],
                    )
                    &&& r == Err::<(), Error>(Error::Encoding(text@[i], old(self).state.page))
                    &&& forall|j: int| 0 <= j < i ==> char_encodable(
                        page_chars(old(self).state.page),
                        page_base(old(self).state.page),
                        text@[j],
                    )
                },
    {
        match encode(text, self.state.page) {
            Ok(mut bytes) => {
                self.stream.append(&mut bytes);
                Ok(())
            },
            Err(e) => Err(e),
        }
    }

    /// Writes `text` and feeds to the next line: the encoded bytes
    /// followed by a line feed. Fails exactly as `write` does, appending
    /// nothing.
    pub fn writeln(&mut self, text: &str) -> (r: Result<(), Error>)
        ensures
            r is Ok <==> page_supported(old(self).state.page) && str_encodable(
                page_chars(old(self).state.page),
                page_base(old(self).state.page),
                text@,
            ),
            r is Ok ==> final(self).stream@ == old(self).stream@ + encode_str(
                page_chars(old(self).state.page),
                page_base(old(self).state.page),
                text@,
            ) + seq![0x0au8] && final(self).state == old(self).state,
            r is Err ==> *final(self) == *old(self),
            r is Err && !page_supported(old(self).state.page) ==> r == Err::<(), Error>(
                Error::Configuration(old(self).state.page),
            ),
            r is Err && page_supported(old(self).state.page) ==> exists|i: int|
                {
                    &&& 0 <= i < text@.len()
                    &&& !char_encodable(
                        page_chars(old(self).state.page),
                        page_base(old(self).state.page),
                        text@[i],
                    )
                    &&& r == Err::<(), Error>(Error::Encoding(text@[i], old(self).state.page))
                    &&& forall|j: int| 0 <= j < i ==> char_encodable(
                        page_chars(old(self).state.page),
                        page_base(old(self).state.page),
                        text@[j],
                    )
                },
    {
        match encode(text, self.state.page) {
            Ok(mut bytes) => {
                self.stream.append(&mut bytes);
                self.stream.push(0x0a);
                proof {
                    assert(self.stream@ =~= old(self).stream@ + encode_str(
                        page_chars(old(self).state.page),
                        page_base(old(self).state.page),
                        text@,
                    ) + seq![0x0au8]);
                }
                Ok(())
            },
            Err(e) => Err(e),
        }
    }

    /// Prints a barcode: validates the content and configuration, then
    /// appends the rendering configuration commands and the print command
    /// with the validated payload, check digit included where the
    /// symbology mandates one.
    ///
    /// Invalid content or configuration is a validation error, and
    /// nothing is appended.
    pub fn barcode(&mut self, barcode: &Barcode) -> (r: Result<(), Error>)
        ensures
            r is Ok <==> barcode.option.valid() && content_valid(
                barcode.system,
                barcode.content@,
            ),
            r is Ok ==> final(self).stream@ == old(self).stream@ + barcode_commands(
                barcode.system,
                barcode.option,
                barcode.content@,
            ) && final(self).state == old(self).state,
            r is Err ==> *final(self) == *old(self) && r == Err::<(), Error>(Error::Validation),
    {
        if !barcode.option.is_valid() {
            return Err(Error::Validation);
        }
        let mut payload = match barcode_payload(barcode.system, barcode.content.as_str()) {
            Ok(p) => p,
            Err(e) => {
                return Err(e);
            },
        };
        proof {
            crate::barcode::lemma_payload_len(barcode.system, barcode.content@);
        }
        let len = payload.len() as u8;
        self.stream.push(0x1d);
        self.stream.push(0x68);
        self.stream.push(barcode.option.height);
        self.stream.push(0x1d);
        self.stream.push(0x77);
        self.stream.push(barcode.option.width);
        self.stream.push(0x1d);
        self.stream.push(0x48);
        self.stream.push(barcode.option.position.code());
        self.stream.push(0x1d);
        self.stream.push(0x66);
        self.stream.push(barcode.option.font.code());
        self.stream.push(0x1d);
        self.stream.push(0x6b);
        self.stream.push(barcode.system.code());
        self.stream.push(len);
        self.stream.append(&mut payload);
        proof {
            assert(self.stream@ =~= old(self).stream@ + barcode_commands(
                barcode.system,
                barcode.option,
                barcode.content@,
            ));
        }
        Ok(())
    }

    /// Prints a QR symbol: validates it, then appends the model, size and
    /// correction selection commands, the store-data command with its
    /// length-prefixed content, and the print command.
    ///
    /// An invalid symbol is a validation error, and nothing is appended.
    pub fn qrcode(&mut self, qr: &QrCode) -> (r: Result<(), Error>)
        ensures
            r is Ok <==> qr.valid(),
            r is Ok ==> final(self).stream@ == old(self).stream@ + qr_commands(
                encode_utf8(qr.content@),
                qr.model,
                qr.size,
                qr.level,
            ) && final(self).state == old(self).state,
            r is Err ==> *final(self) == *old(self) && r == Err::<(), Error>(Error::Validation),
    {
        let mut bytes = match qr.commands() {
            Ok(b) => b,
            Err(e) => {
                return Err(e);
            },
        };
        self.stream.append(&mut bytes);
        Ok(())
    }

    /// Prints a raster bit image: validates the buffer geometry, then
    /// appends the raster-mode header and the packed rows.
    ///
    /// An invalid image is a validation error, and nothing is appended.
    pub fn bit_image(&mut self, image: &BitImage) -> (r: Result<(), Error>)
        ensures
            r is Ok <==> image.valid(),
            r is Ok ==> final(self).stream@ == old(self).stream@ + image_commands(
                image.pixels@,
                image.width as int,
                image.size,
            ) && final(self).state == old(self).state,
            r is Err ==> *final(self) == *old(self) && r == Err::<(), Error>(Error::Validation),
    {
        let mut bytes = match image.commands() {
            Ok(b) => b,
            Err(e) => {
                return Err(e);
            },
        };
        self.stream.append(&mut bytes);
        Ok(())
    }
}

} // verus!
