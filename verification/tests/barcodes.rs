//! Barcode validation, check digits, and the emitted command bytes.

use escpos::barcode::{
    barcode_payload, Barcode, BarcodeOption, BarcodeSystem, HriFont, HriPosition,
};
use escpos::builder::CommandBuilder;
use escpos::errors::Error;

fn option() -> BarcodeOption {
    BarcodeOption { height: 80, width: 3, position: HriPosition::Below, font: HriFont::A }
}

#[test]
fn ean13_appends_check_digit() {
    // Encoding EAN13 digits "123456789026" must append check digit "5".
    assert_eq!(
        barcode_payload(BarcodeSystem::Ean13, "123456789026"),
        Ok(b"1234567890265".to_vec())
    );
}

#[test]
fn ean8_appends_check_digit() {
    assert_eq!(barcode_payload(BarcodeSystem::Ean8, "9638507"), Ok(b"96385074".to_vec()));
}

#[test]
fn upca_appends_check_digit() {
    assert_eq!(
        barcode_payload(BarcodeSystem::UpcA, "03600029145"),
        Ok(b"036000291452".to_vec())
    );
}

#[test]
fn check_digit_closing_a_multiple_of_ten_is_zero() {
    // Weighted sum 1*0 + 3*0 + ... of all zeros is 0; the check digit is 0,
    // not 10.
    assert_eq!(
        barcode_payload(BarcodeSystem::Ean13, "000000000000"),
        Ok(b"0000000000000".to_vec())
    );
}

#[test]
fn pass_through_symbologies_keep_content() {
    assert_eq!(barcode_payload(BarcodeSystem::Code39, "ABC-123 $%"), Ok(b"ABC-123 $%".to_vec()));
    assert_eq!(barcode_payload(BarcodeSystem::Codabar, "A40156B"), Ok(b"A40156B".to_vec()));
    assert_eq!(barcode_payload(BarcodeSystem::Itf, "123456"), Ok(b"123456".to_vec()));
    assert_eq!(barcode_payload(BarcodeSystem::UpcE, "0425261"), Ok(b"0425261".to_vec()));
}

#[test]
fn wrong_length_is_a_validation_error() {
    assert_eq!(barcode_payload(BarcodeSystem::Ean13, "12345678902"), Err(Error::Validation));
    assert_eq!(barcode_payload(BarcodeSystem::Ean13, "1234567890265"), Err(Error::Validation));
    assert_eq!(barcode_payload(BarcodeSystem::Ean8, "123456"), Err(Error::Validation));
    assert_eq!(barcode_payload(BarcodeSystem::UpcA, "123456789012"), Err(Error::Validation));
    assert_eq!(barcode_payload(BarcodeSystem::Code39, ""), Err(Error::Validation));
    assert_eq!(barcode_payload(BarcodeSystem::Itf, "12345"), Err(Error::Validation));
    assert_eq!(barcode_payload(BarcodeSystem::Codabar, "A"), Err(Error::Validation));
}

#[test]
fn foreign_alphabet_is_a_validation_error() {
    assert_eq!(barcode_payload(BarcodeSystem::Ean13, "12345678902X"), Err(Error::Validation));
    assert_eq!(barcode_payload(BarcodeSystem::Code39, "abc"), Err(Error::Validation));
    assert_eq!(barcode_payload(BarcodeSystem::Codabar, "140156B"), Err(Error::Validation));
    assert_eq!(barcode_payload(BarcodeSystem::Codabar, "A401E6B"), Err(Error::Validation));
    assert_eq!(barcode_payload(BarcodeSystem::Itf, "12E456"), Err(Error::Validation));
}

#[test]
fn barcode_operation_emits_configuration_then_print() {
    let mut b = CommandBuilder::new();
    let barcode = Barcode {
        system: BarcodeSystem::Ean8,
        content: "9638507".to_string(),
        option: option(),
    };
    assert_eq!(b.barcode(&barcode), Ok(()));
    let mut expected = vec![
        0x1D, 0x68, 80, // bar height
        0x1D, 0x77, 3, // module width
        0x1D, 0x48, 2, // HRI below
        0x1D, 0x66, 0, // HRI font A
        0x1D, 0x6B, 68, 8, // print EAN8, 8 payload bytes
    ];
    expected.extend_from_slice(b"96385074");
    assert_eq!(b.commands().as_slice(), expected.as_slice());
}

#[test]
fn invalid_option_appends_nothing() {
    let mut b = CommandBuilder::new();
    b.feed();
    let before = b.commands().clone();
    let state = b.state;
    let barcode = Barcode {
        system: BarcodeSystem::Ean13,
        content: "123456789026".to_string(),
        option: BarcodeOption { height: 0, ..option() },
    };
    assert_eq!(b.barcode(&barcode), Err(Error::Validation));
    assert_eq!(b.commands(), &before);
    assert_eq!(b.state, state);

    let barcode = Barcode {
        system: BarcodeSystem::Ean13,
        content: "123456789026".to_string(),
        option: BarcodeOption { width: 7, ..option() },
    };
    assert_eq!(b.barcode(&barcode), Err(Error::Validation));
    assert_eq!(b.commands(), &before);
}

#[test]
fn invalid_content_appends_nothing() {
    let mut b = CommandBuilder::new();
    let barcode = Barcode {
        system: BarcodeSystem::Ean13,
        content: "not digits!!".to_string(),
        option: option(),
    };
    assert_eq!(b.barcode(&barcode), Err(Error::Validation));
    assert!(b.commands().is_empty());
}
