//! The QR code payload encoder: command packaging around caller content.
//!
//! Matrix generation happens on the device; this layer emits, in fixed
//! order, the model-select, module-size-select and correction-level-select
//! commands, a store-data command whose payload is prefixed with a
//! little-endian two-byte length equal to the content's byte length, and the
//! print-stored-symbol command.

use vstd::prelude::*;
use vstd::utf8::encode_utf8;
use crate::errors::Error;

verus! {

/// The device's QR symbol storage limit, in content bytes.
pub const QR_MAX_CONTENT: usize = 7089;

/// The QR model the device is asked to render.
#[derive(Debug, Clone, Copy, PartialEq, Eq, Structural)]
pub enum QrModel {
    Model1,
    Model2,
    Micro,
}

impl QrModel {
    /// The parameter byte of the model-select command.
    pub open spec fn code_spec(self) -> u8 {
        match self {
            QrModel::Model1 => 49,
            QrModel::Model2 => 50,
            QrModel::Micro => 51,
        }
    }

    /// The parameter byte of the model-select command.
    pub fn code(&self) -> (n: u8)
        ensures
            n == self.code_spec(),
    {
        match self {
            QrModel::Model1 => 49,
            QrModel::Model2 => 50,
            QrModel::Micro => 51,
        }
    }
}

/// The error-correction level the device is asked to use.
#[derive(Debug, Clone, Copy, PartialEq, Eq, Structural)]
pub enum QrCorrectionLevel {
    L,
    M,
    Q,
    H,
}

impl QrCorrectionLevel {
    /// The parameter byte of the correction-level-select command.
    pub open spec fn code_spec(self) -> u8 {
        match self {
            QrCorrectionLevel::L => 48,
            QrCorrectionLevel::M => 49,
            QrCorrectionLevel::Q => 50,
            QrCorrectionLevel::H => 51,
        }
    }

    /// The parameter byte of the correction-level-select command.
    pub fn code(&self) -> (n: u8)
        ensures
            n == self.code_spec(),
    {
        match self {
            QrCorrectionLevel::L => 48,
            QrCorrectionLevel::M => 49,
            QrCorrectionLevel::Q => 50,
            QrCorrectionLevel::H => 51,
        }
    }
}

/// A caller-supplied QR symbol: the content to store and the model, module
/// size and correction level to select before printing.
#[derive(Debug, Clone, PartialEq, Eq)]
pub struct QrCode {
    pub content: String,
    pub model: QrModel,
    /// Module size in dots, 1 through 16.
    pub size: u8,
    pub level: QrCorrectionLevel,
}

/// Whether a QR symbol with the given content byte length and module size
/// lies in the device's allowed ranges.
pub open spec fn qr_valid(content_len: int, size: u8) -> bool {
    &&& 1 <= size <= 16
    &&& 1 <= content_len <= QR_MAX_CONTENT
}

/// The full command sequence printing one QR symbol holding the bytes
/// `content`: model select, size select, correction select, store data with
/// its little-endian length prefix, print stored symbol.
pub open spec fn qr_commands(
    content: Seq<u8>,
    model: QrModel,
    size: u8,
    level: QrCorrectionLevel,
) -> Seq<u8> {
    seq![0x1du8, 0x28, 0x6b, 0x04, 0x00, 0x31, 0x41, model.code_spec(), 0x00] + seq![
        0x1du8,
        0x28,
        0x6b,
        0x03,
        0x00,
        0x31,
        0x43,
        size,
    ] + seq![0x1du8, 0x28, 0x6b, 0x03, 0x00, 0x31, 0x45, level.code_spec()] + seq![
        0x1du8,
        0x28,
        0x6b,
        (content.len() % 256) as u8,
        (content.len() / 256) as u8,
        0x31,
        0x50,
        0x30,
    ] + content + seq![0x1du8, 0x28, 0x6b, 0x03, 0x00, 0x31, 0x51, 0x30]
}

impl QrCode {
    /// Whether this symbol lies in the device's allowed ranges.
    pub open spec fn valid(self) -> bool {
        qr_valid(encode_utf8(self.content@).len() as int, self.size)
    }

    /// Validates this symbol and builds its full command sequence.
    ///
    /// A module size of zero or above 16, an empty content, or content
    /// longer than the device's symbol storage is a validation error.
    pub fn commands(&self) -> (r: Result<Vec<u8>, Error>)
        ensures
            r is Ok <==> self.valid(),
            r is Ok ==> r.unwrap()@ == qr_commands(
                encode_utf8(self.content@),
                self.model,
                self.size,
                self.level,
            ),
            r is Err ==> r == Err::<Vec<u8>, Error>(Error::Validation),
    {
        let mut data = self.content.as_str().as_bytes_vec();
        let len = data.len();
        if !(1 <= self.size && self.size <= 16 && 1 <= len && len <= QR_MAX_CONTENT) {
            return Err(Error::Validation);
        }
        let lo = (len % 256) as u8;
        let hi = (len / 256) as u8;
        let mut out: Vec<u8> = Vec::new();
        out.push(0x1d);
        out.push(0x28);
        out.push(0x6b);
        out.push(0x04);
        out.push(0x00);
        out.push(0x31);
        out.push(0x41);
        out.push(self.model.code());
        out.push(0x00);
        out.push(0x1d);
        out.push(0x28);
        out.push(0x6b);
        out.push(0x03);
        out.push(0x00);
        out.push(0x31);
        out.push(0x43);
        out.push(self.size);
        out.push(0x1d);
        out.push(0x28);
        out.push(0x6b);
        out.push(0x03);
        out.push(0x00);
        out.push(0x31);
        out.push(0x45);
        out.push(self.level.code());
        out.push(0x1d);
        out.push(0x28);
        out.push(0x6b);
        out.push(lo);
        out.push(hi);
        out.push(0x31);
        out.push(0x50);
        out.push(0x30);
        out.append(&mut data);
        out.push(0x1d);
        out.push(0x28);
        out.push(0x6b);
        out.push(0x03);
        out.push(0x00);
        out.push(0x31);
        out.push(0x51);
        out.push(0x30);
        proof {
            assert(out@ =~= qr_commands(
                encode_utf8(self.content@),
                self.model,
                self.size,
                self.level,
            ));
        }
        Ok(out)
    }
}

} // verus!
