//! The command builder: exact bytes per operation, state tracking, and
//! atomicity on failure.

use escpos::builder::{
    CommandBuilder, Font, JustifyMode, ProtocolState, UnderlineMode,
};
use escpos::errors::Error;
use escpos::page_code::PageCode;

fn default_state() -> ProtocolState {
    CommandBuilder::new().state
}

#[test]
fn zero_operations_produce_an_empty_stream() {
    let b = CommandBuilder::new();
    assert!(b.commands().is_empty());
    assert_eq!(b.state, default_state());
}

#[test]
fn reset_restores_default_state_without_altering_emitted_bytes() {
    let mut b = CommandBuilder::new();
    b.bold(true);
    b.underline(UnderlineMode::Double);
    assert_eq!(b.size(4, 2), Ok(()));
    b.line_spacing(40);
    assert_eq!(b.page_code(PageCode::PC866), Ok(()));
    assert_ne!(b.state, default_state());
    let before = b.commands().clone();

    b.reset();
    assert_eq!(b.state, default_state());
    let mut expected = before;
    expected.extend_from_slice(&[0x1B, 0x3F, 0x0A, 0x00]);
    assert_eq!(b.commands(), &expected);
}

#[test]
fn init_emits_its_opcode_and_restores_default_state() {
    let mut b = CommandBuilder::new();
    b.bold(true);
    let before = b.commands().clone();
    b.init();
    assert_eq!(b.state, default_state());
    let mut expected = before;
    expected.extend_from_slice(&[0x1B, 0x40]);
    assert_eq!(b.commands(), &expected);
}

#[test]
fn style_operations_emit_their_opcodes() {
    let mut b = CommandBuilder::new();
    b.bold(true);
    b.bold(false);
    b.underline(UnderlineMode::Single);
    b.underline(UnderlineMode::Off);
    b.double_strike(true);
    b.font(Font::C);
    b.flip(true);
    b.justify(JustifyMode::Center);
    b.reverse(true);
    b.upside_down(true);
    assert_eq!(
        b.commands().as_slice(),
        &[
            0x1B, 0x45, 1, //
            0x1B, 0x45, 0, //
            0x1B, 0x2D, 1, //
            0x1B, 0x2D, 0, //
            0x1B, 0x47, 1, //
            0x1B, 0x4D, 2, //
            0x1B, 0x56, 1, //
            0x1B, 0x61, 1, //
            0x1D, 0x42, 1, //
            0x1B, 0x7B, 1,
        ]
    );
    assert!(b.state.double_strike);
    assert_eq!(b.state.font, Font::C);
    assert_eq!(b.state.justify, JustifyMode::Center);
    assert!(b.state.reverse && b.state.upside_down && b.state.flip);
    assert!(!b.state.bold);
    assert_eq!(b.state.underline, UnderlineMode::Off);
}

#[test]
fn cuts_feeds_and_spacing_emit_their_opcodes() {
    let mut b = CommandBuilder::new();
    b.cut();
    b.partial_cut();
    b.feed();
    b.feeds(5);
    b.line_spacing(32);
    b.reset_line_spacing();
    assert_eq!(
        b.commands().as_slice(),
        &[
            0x1D, 0x56, 0x41, 0, //
            0x1D, 0x56, 0x41, 1, //
            0x1B, 0x64, 1, //
            0x1B, 0x64, 5, //
            0x1B, 0x33, 32, //
            0x1B, 0x32,
        ]
    );
    assert_eq!(b.state.line_spacing, None);
}

#[test]
fn size_packs_both_multipliers_into_one_byte() {
    let mut b = CommandBuilder::new();
    assert_eq!(b.size(2, 3), Ok(()));
    assert_eq!(b.commands().as_slice(), &[0x1D, 0x21, 0x12]);
    assert_eq!((b.state.width_mult, b.state.height_mult), (2, 3));
    b.reset_size();
    assert_eq!(b.commands().as_slice(), &[0x1D, 0x21, 0x12, 0x1D, 0x21, 0x00]);
    assert_eq!((b.state.width_mult, b.state.height_mult), (1, 1));
}

#[test]
fn size_out_of_range_is_a_validation_error() {
    let mut b = CommandBuilder::new();
    assert_eq!(b.size(0, 3), Err(Error::Validation));
    assert_eq!(b.size(3, 9), Err(Error::Validation));
    assert!(b.commands().is_empty());
    assert_eq!(b.state, default_state());
    assert_eq!(b.size(8, 8), Ok(()));
    assert_eq!(b.commands().as_slice(), &[0x1D, 0x21, 0x77]);
}

#[test]
fn unsupported_page_leaves_the_stream_unchanged() {
    // Requesting an unsupported code page returns a configuration error
    // and leaves the stream length unchanged.
    let mut b = CommandBuilder::new();
    b.bold(true);
    let len_before = b.commands().len();
    let state_before = b.state;
    assert_eq!(b.page_code(PageCode::Hiragana), Err(Error::Configuration(PageCode::Hiragana)));
    assert_eq!(b.commands().len(), len_before);
    assert_eq!(b.state, state_before);
}

#[test]
fn page_code_emits_the_table_number_and_sticks() {
    let mut b = CommandBuilder::new();
    assert_eq!(b.page_code(PageCode::PC858), Ok(()));
    assert_eq!(b.commands().as_slice(), &[0x1B, 0x74, 19]);
    assert_eq!(b.state.page, PageCode::PC858);
    // Writing now encodes under PC858: the euro sign has a recorded byte.
    assert_eq!(b.write("\u{20AC}"), Ok(()));
    assert_eq!(b.commands().as_slice(), &[0x1B, 0x74, 19, 0xD5]);
}

#[test]
fn write_appends_encoded_bytes_only() {
    let mut b = CommandBuilder::new();
    assert_eq!(b.write("Hi"), Ok(()));
    assert_eq!(b.writeln("caf\u{00E9}"), Ok(()));
    assert_eq!(
        b.commands().as_slice(),
        &[0x48, 0x69, 0x63, 0x61, 0x66, 0x82, 0x0A]
    );
    assert_eq!(b.state, default_state());
}

#[test]
fn failed_write_appends_nothing() {
    let mut b = CommandBuilder::new();
    assert_eq!(b.write("ok"), Ok(()));
    let before = b.commands().clone();
    let state_before = b.state;
    assert_eq!(
        b.write("a\u{3042}b"),
        Err(Error::Encoding('\u{3042}', PageCode::PC437))
    );
    assert_eq!(
        b.writeln("a\u{3042}b"),
        Err(Error::Encoding('\u{3042}', PageCode::PC437))
    );
    assert_eq!(b.commands(), &before);
    assert_eq!(b.state, state_before);
    // The session continues after a failed operation.
    assert_eq!(b.writeln("!"), Ok(()));
    assert_eq!(b.commands().as_slice(), &[0x6F, 0x6B, 0x21, 0x0A]);
}

#[test]
fn operations_apply_in_call_order() {
    let mut b = CommandBuilder::new();
    b.init();
    b.bold(true);
    assert_eq!(b.write("B"), Ok(()));
    b.bold(false);
    b.justify(JustifyMode::Right);
    assert_eq!(b.writeln("r"), Ok(()));
    b.feed();
    b.cut();
    assert_eq!(
        b.commands().as_slice(),
        &[
            0x1B, 0x40, // init
            0x1B, 0x45, 1, // bold on
            0x42, // "B"
            0x1B, 0x45, 0, // bold off
            0x1B, 0x61, 2, // justify right
            0x72, 0x0A, // "r" + line feed
            0x1B, 0x64, 1, // feed
            0x1D, 0x56, 0x41, 0, // cut
        ]
    );
}
