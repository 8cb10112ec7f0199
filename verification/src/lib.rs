//! Byte-exact command stream generation for ESC/POS thermal receipt printers.
//!
//! The crate has two coupled halves. One is character-set transliteration:
//! an immutable registry of code-page tables maps Unicode characters to the
//! single-byte codes a printer understands. The other is a stateful command
//! builder that serializes style changes, encoded text, barcodes, QR code
//! payloads and raster bit images into one append-only protocol byte stream.
//!
//! Every operation is atomic with respect to the stream: on failure nothing
//! is appended and the builder's state is unchanged.

pub mod errors;
pub mod page_code;
pub mod code_table;
pub mod page_codes;
pub mod encoder;
pub mod barcode;
pub mod qrcode;
pub mod image;
pub mod builder;
