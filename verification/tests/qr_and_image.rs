//! QR command packaging and raster bit-image packing.

use escpos::builder::CommandBuilder;
use escpos::errors::Error;
use escpos::image::{BitImage, BitImageSize};
use escpos::qrcode::{QrCode, QrCorrectionLevel, QrModel};

fn qr(content: &str, model: QrModel, size: u8, level: QrCorrectionLevel) -> QrCode {
    QrCode { content: content.to_string(), model, size, level }
}

#[test]
fn qr_test_content_exact_bytes() {
    // Content "TEST", model 1, size 6, correction M: model select, size
    // select, correction select, store data with little-endian length
    // prefix 4, the literal bytes, then print stored symbol.
    let q = qr("TEST", QrModel::Model1, 6, QrCorrectionLevel::M);
    let bytes = q.commands().unwrap();
    let mut expected = vec![
        0x1D, 0x28, 0x6B, 0x04, 0x00, 0x31, 0x41, 49, 0x00, // model 1
        0x1D, 0x28, 0x6B, 0x03, 0x00, 0x31, 0x43, 6, // module size 6
        0x1D, 0x28, 0x6B, 0x03, 0x00, 0x31, 0x45, 49, // correction M
        0x1D, 0x28, 0x6B, 4, 0, 0x31, 0x50, 0x30, // store, length 4
    ];
    expected.extend_from_slice(b"TEST");
    expected.extend_from_slice(&[0x1D, 0x28, 0x6B, 0x03, 0x00, 0x31, 0x51, 0x30]); // print
    assert_eq!(bytes, expected);

    let mut b = CommandBuilder::new();
    assert_eq!(b.qrcode(&q), Ok(()));
    assert_eq!(b.commands(), &expected);
}

#[test]
fn qr_length_prefix_is_little_endian() {
    let content = "x".repeat(300);
    let q = qr(&content, QrModel::Model2, 4, QrCorrectionLevel::L);
    let bytes = q.commands().unwrap();
    // The store-data command sits right after the three 9- and 8-byte
    // selection commands; 300 = 0x012C.
    let store = &bytes[25..33];
    assert_eq!(store, &[0x1D, 0x28, 0x6B, 0x2C, 0x01, 0x31, 0x50, 0x30]);
}

#[test]
fn qr_model_and_level_bytes() {
    let q = qr("abc", QrModel::Micro, 1, QrCorrectionLevel::H);
    let bytes = q.commands().unwrap();
    assert_eq!(bytes[7], 51); // micro model
    assert_eq!(bytes[16], 1); // size 1
    assert_eq!(bytes[24], 51); // correction H
}

#[test]
fn qr_out_of_range_is_a_validation_error() {
    for bad in [
        qr("TEST", QrModel::Model1, 0, QrCorrectionLevel::M),
        qr("TEST", QrModel::Model1, 17, QrCorrectionLevel::M),
        qr("", QrModel::Model1, 6, QrCorrectionLevel::M),
        qr(&"x".repeat(7090), QrModel::Model1, 6, QrCorrectionLevel::M),
    ] {
        assert_eq!(bad.commands(), Err(Error::Validation));
        let mut b = CommandBuilder::new();
        assert_eq!(b.qrcode(&bad), Err(Error::Validation));
        assert!(b.commands().is_empty());
    }
}

#[test]
fn one_row_packs_msb_first() {
    // An 8x1 monochrome row with bit pattern 10101010 packs into the
    // single byte 0xAA behind a header declaring one byte per row and one
    // row.
    let img = BitImage {
        pixels: vec![0, 255, 0, 255, 0, 255, 0, 255],
        width: 8,
        size: BitImageSize::Normal,
    };
    assert_eq!(
        img.commands(),
        Ok(vec![0x1D, 0x76, 0x30, 0x00, 1, 0, 1, 0, 0xAA])
    );
}

#[test]
fn narrow_row_pads_with_white() {
    // Four black pixels in a row of width 4: the high nibble carries the
    // row, the padding bits stay white.
    let img = BitImage { pixels: vec![0, 0, 0, 0], width: 4, size: BitImageSize::Normal };
    assert_eq!(
        img.commands(),
        Ok(vec![0x1D, 0x76, 0x30, 0x00, 1, 0, 1, 0, 0xF0])
    );
}

#[test]
fn threshold_splits_black_from_white() {
    // 127 prints black, 128 prints white.
    let img = BitImage { pixels: vec![127, 128, 127, 128], width: 4, size: BitImageSize::Normal };
    assert_eq!(
        img.commands(),
        Ok(vec![0x1D, 0x76, 0x30, 0x00, 1, 0, 1, 0, 0xA0])
    );
}

#[test]
fn rows_pack_in_row_major_order() {
    let mut pixels = vec![255; 18];
    pixels[0] = 0; // row 0, column 0
    pixels[10] = 0; // row 1, column 1
    let img = BitImage { pixels, width: 9, size: BitImageSize::DoubleWidth };
    assert_eq!(
        img.commands(),
        Ok(vec![0x1D, 0x76, 0x30, 0x01, 2, 0, 2, 0, 0x80, 0x00, 0x40, 0x00])
    );
}

#[test]
fn bad_geometry_is_a_validation_error() {
    let flat = |pixels: Vec<u8>, width| BitImage { pixels, width, size: BitImageSize::Normal };
    assert_eq!(flat(vec![0; 8], 0).commands(), Err(Error::Validation));
    assert_eq!(flat(vec![], 8).commands(), Err(Error::Validation));
    assert_eq!(flat(vec![0; 7], 8).commands(), Err(Error::Validation));
    assert_eq!(flat(vec![0; 2041], 2041).commands(), Err(Error::Validation));
    let mut b = CommandBuilder::new();
    assert_eq!(b.bit_image(&flat(vec![0; 7], 8)), Err(Error::Validation));
    assert!(b.commands().is_empty());
}

#[test]
fn widest_allowed_image_packs() {
    let img = BitImage { pixels: vec![0; 2040], width: 2040, size: BitImageSize::Normal };
    let bytes = img.commands().unwrap();
    // 2040 dots are 255 bytes per row.
    assert_eq!(&bytes[..8], &[0x1D, 0x76, 0x30, 0x00, 255, 0, 1, 0]);
    assert_eq!(bytes.len(), 8 + 255);
    assert!(bytes[8..].iter().all(|&b| b == 0xFF));
}
