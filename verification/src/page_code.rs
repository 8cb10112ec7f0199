//! Identifiers of the vendor-defined single-byte code pages.

use vstd::prelude::*;

verus! {

/// A code page: one vendor-defined assignment of printable characters to
/// single-byte codes, drawn from a closed set.
///
/// Each variant carries the protocol's character-code-table number, returned
/// by [`PageCode::code`]; the page-select command sends that number. A
/// transliteration table exists only for a subset of these pages: see
/// `PageCodeTable`.
#[derive(Debug, Clone, Copy, PartialEq, Eq, Structural)]
pub enum PageCode {
    PC437,
    Katakana,
    PC850,
    PC860,
    PC863,
    PC865,
    Hiragana,
    PC851,
    PC853,
    PC857,
    PC737,
    ISO8859_7,
    WPC1252,
    PC866,
    PC852,
    PC858,
    PC720,
    WPC775,
    PC855,
    PC861,
    PC862,
    PC864,
    PC869,
    ISO8859_2,
    ISO8859_15,
    PC1118,
    PC1119,
    PC1125,
    WPC1250,
    WPC1251,
    WPC1253,
    WPC1254,
    WPC1255,
    WPC1256,
    WPC1257,
    WPC1258,
    KZ1048,
}

impl PageCode {
    /// The protocol's character-code-table number for this page.
    pub open spec fn code_spec(self) -> u8 {
        match self {
            PageCode::PC437 => 0,
            PageCode::Katakana => 1,
            PageCode::PC850 => 2,
            PageCode::PC860 => 3,
            PageCode::PC863 => 4,
            PageCode::PC865 => 5,
            PageCode::Hiragana => 6,
            PageCode::PC851 => 11,
            PageCode::PC853 => 12,
            PageCode::PC857 => 13,
            PageCode::PC737 => 14,
            PageCode::ISO8859_7 => 15,
            PageCode::WPC1252 => 16,
            PageCode::PC866 => 17,
            PageCode::PC852 => 18,
            PageCode::PC858 => 19,
            PageCode::PC720 => 32,
            PageCode::WPC775 => 33,
            PageCode::PC855 => 34,
            PageCode::PC861 => 35,
            PageCode::PC862 => 36,
            PageCode::PC864 => 37,
            PageCode::PC869 => 38,
            PageCode::ISO8859_2 => 39,
            PageCode::ISO8859_15 => 40,
            PageCode::PC1118 => 42,
            PageCode::PC1119 => 43,
            PageCode::PC1125 => 44,
            PageCode::WPC1250 => 45,
            PageCode::WPC1251 => 46,
            PageCode::WPC1253 => 47,
            PageCode::WPC1254 => 48,
            PageCode::WPC1255 => 49,
            PageCode::WPC1256 => 50,
            PageCode::WPC1257 => 51,
            PageCode::WPC1258 => 52,
            PageCode::KZ1048 => 53,
        }
    }

    /// The protocol's character-code-table number for this page.
    pub fn code(&self) -> (n: u8)
        ensures
            n == self.code_spec(),
    {
        match self {
            PageCode::PC437 => 0,
            PageCode::Katakana => 1,
            PageCode::PC850 => 2,
            PageCode::PC860 => 3,
            PageCode::PC863 => 4,
            PageCode::PC865 => 5,
            PageCode::Hiragana => 6,
            PageCode::PC851 => 11,
            PageCode::PC853 => 12,
            PageCode::PC857 => 13,
            PageCode::PC737 => 14,
            PageCode::ISO8859_7 => 15,
            PageCode::WPC1252 => 16,
            PageCode::PC866 => 17,
            PageCode::PC852 => 18,
            PageCode::PC858 => 19,
            PageCode::PC720 => 32,
            PageCode::WPC775 => 33,
            PageCode::PC855 => 34,
            PageCode::PC861 => 35,
            PageCode::PC862 => 36,
            PageCode::PC864 => 37,
            PageCode::PC869 => 38,
            PageCode::ISO8859_2 => 39,
            PageCode::ISO8859_15 => 40,
            PageCode::PC1118 => 42,
            PageCode::PC1119 => 43,
            PageCode::PC1125 => 44,
            PageCode::WPC1250 => 45,
            PageCode::WPC1251 => 46,
            PageCode::WPC1253 => 47,
            PageCode::WPC1254 => 48,
            PageCode::WPC1255 => 49,
            PageCode::WPC1256 => 50,
            PageCode::WPC1257 => 51,
            PageCode::WPC1258 => 52,
            PageCode::KZ1048 => 53,
        }
    }
}

} // verus!
