//! Error taxonomy of the command encoding engine.

use vstd::prelude::*;
use crate::page_code::PageCode;

verus! {

/// Every failure a library operation can report.
///
/// A failed operation returns its error to the immediate caller and leaves
/// the command stream and protocol state untouched; nothing is retried or
/// recovered inside the engine.
#[derive(Debug, Clone, Copy, PartialEq, Eq)]
pub enum Error {
    /// A code page outside the supported closed set was requested.
    Configuration(PageCode),
    /// A character could not be represented: it is not ASCII and the active
    /// code-page table has no entry for it. Carries the offending character
    /// and the page that was active.
    Encoding(char, PageCode),
    /// A barcode, QR code or bit-image description is out of its allowed
    /// range: wrong digit count, foreign alphabet, content too long, or an
    /// image too wide for the device.
    Validation,
    /// An output sink failure, passed through unchanged by callers that hand
    /// the finished stream to a transport. The engine itself never raises it.
    Transport,
}

} // verus!
