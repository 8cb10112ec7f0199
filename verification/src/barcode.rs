//! The barcode payload encoder: per-symbology validation and mandatory
//! check digits.
//!
//! The device renders the bars itself; this layer only supplies validated
//! digits or text. The EAN and UPC-A symbologies carry a mandatory modulo-10
//! check digit, which is computed here and appended to the caller's digits.
//! The remaining symbologies have no check digit mandated by the protocol;
//! their content passes through after alphabet and length validation.

use vstd::prelude::*;
use crate::errors::Error;

verus! {

/// A barcode symbology the protocol can print.
#[derive(Debug, Clone, Copy, PartialEq, Eq, Structural)]
pub enum BarcodeSystem {
    UpcA,
    UpcE,
    Ean13,
    Ean8,
    Code39,
    Itf,
    Codabar,
}

impl BarcodeSystem {
    /// The protocol's symbology number in the print-barcode command.
    pub open spec fn code_spec(self) -> u8 {
        match self {
            BarcodeSystem::UpcA => 65,
            BarcodeSystem::UpcE => 66,
            BarcodeSystem::Ean13 => 67,
            BarcodeSystem::Ean8 => 68,
            BarcodeSystem::Code39 => 69,
            BarcodeSystem::Itf => 70,
            BarcodeSystem::Codabar => 71,
        }
    }

    /// The protocol's symbology number in the print-barcode command.
    pub fn code(&self) -> (n: u8)
        ensures
            n == self.code_spec(),
    {
        match self {
            BarcodeSystem::UpcA => 65,
            BarcodeSystem::UpcE => 66,
            BarcodeSystem::Ean13 => 67,
            BarcodeSystem::Ean8 => 68,
            BarcodeSystem::Code39 => 69,
            BarcodeSystem::Itf => 70,
            BarcodeSystem::Codabar => 71,
        }
    }
}

/// Where the human-readable interpretation line is printed.
#[derive(Debug, Clone, Copy, PartialEq, Eq, Structural)]
pub enum HriPosition {
    NotPrinted,
    Above,
    Below,
    Both,
}

impl HriPosition {
    /// The parameter byte of the select-HRI-position command.
    pub open spec fn code_spec(self) -> u8 {
        match self {
            HriPosition::NotPrinted => 0,
            HriPosition::Above => 1,
            HriPosition::Below => 2,
            HriPosition::Both => 3,
        }
    }

    /// The parameter byte of the select-HRI-position command.
    pub fn code(&self) -> (n: u8)
        ensures
            n == self.code_spec(),
    {
        match self {
            HriPosition::NotPrinted => 0,
            HriPosition::Above => 1,
            HriPosition::Below => 2,
            HriPosition::Both => 3,
        }
    }
}

/// The font of the human-readable interpretation line.
#[derive(Debug, Clone, Copy, PartialEq, Eq, Structural)]
pub enum HriFont {
    A,
    B,
}

impl HriFont {
    /// The parameter byte of the select-HRI-font command.
    pub open spec fn code_spec(self) -> u8 {
        match self {
            HriFont::A => 0,
            HriFont::B => 1,
        }
    }

    /// The parameter byte of the select-HRI-font command.
    pub fn code(&self) -> (n: u8)
        ensures
            n == self.code_spec(),
    {
        match self {
            HriFont::A => 0,
            HriFont::B => 1,
        }
    }
}

/// Rendering configuration of one barcode: bar height and module width in
/// device dots, and the human-readable line's position and font.
#[derive(Debug, Clone, Copy, PartialEq, Eq, Structural)]
pub struct BarcodeOption {
    /// Bar height in dots; at least 1.
    pub height: u8,
    /// Module width in dots; 2 through 6.
    pub width: u8,
    /// Where the human-readable line is printed.
    pub position: HriPosition,
    /// Font of the human-readable line.
    pub font: HriFont,
}

impl BarcodeOption {
    /// Whether the configuration lies in the device's allowed ranges.
    pub open spec fn valid(self) -> bool {
        &&& self.height >= 1
        &&& 2 <= self.width <= 6
    }

    /// Whether the configuration lies in the device's allowed ranges.
    pub fn is_valid(&self) -> (r: bool)
        ensures
            r == self.valid(),
    {
        self.height >= 1 && 2 <= self.width && self.width <= 6
    }
}

/// A caller-supplied barcode: the symbology, the content to validate and
/// encode, and the rendering configuration.
#[derive(Debug, Clone, PartialEq, Eq)]
pub struct Barcode {
    pub system: BarcodeSystem,
    pub content: String,
    pub option: BarcodeOption,
}

/// Whether `c` is an ASCII decimal digit.
pub open spec fn digit_char(c: char) -> bool {
    48 <= (c as u32) <= 57
}

/// The numeric value of an ASCII decimal digit.
pub open spec fn digit_val(c: char) -> int {
    (c as u32) - 48
}

/// Whether `c` lies in the CODE39 alphabet.
pub open spec fn code39_char(c: char) -> bool {
    ||| digit_char(c)
    ||| 65 <= (c as u32) <= 90
    ||| c == ' '
    ||| c == '-'
    ||| c == '.'
    ||| c == '$'
    ||| c == '/'
    ||| c == '+'
    ||| c == '%'
}

/// Whether `c` may start or stop a CODABAR symbol.
pub open spec fn codabar_stop_char(c: char) -> bool {
    65 <= (c as u32) <= 68
}

/// Whether `c` may stand between a CODABAR symbol's stop characters.
pub open spec fn codabar_inner_char(c: char) -> bool {
    ||| digit_char(c)
    ||| c == '-'
    ||| c == '$'
    ||| c == ':'
    ||| c == '/'
    ||| c == '.'
    ||| c == '+'
}

/// Whether character `i` of a content of length `n` is allowed under
/// `system`.
pub open spec fn content_char_ok(system: BarcodeSystem, n: int, i: int, c: char) -> bool {
    match system {
        BarcodeSystem::Code39 => code39_char(c),
        BarcodeSystem::Codabar => if i == 0 || i == n - 1 {
            codabar_stop_char(c)
        } else {
            codabar_inner_char(c)
        },
        _ => digit_char(c),
    }
}

/// The length a content must have under `system`: the EAN and UPC
/// symbologies take a fixed digit count without their check digit, ITF takes
/// digit pairs, and the free-alphabet symbologies any length that fits the
/// command's one-byte length field.
pub open spec fn content_len_ok(system: BarcodeSystem, n: int) -> bool {
    match system {
        BarcodeSystem::UpcA => n == 11,
        BarcodeSystem::UpcE => 6 <= n <= 8,
        BarcodeSystem::Ean13 => n == 12,
        BarcodeSystem::Ean8 => n == 7,
        BarcodeSystem::Code39 => 1 <= n <= 254,
        BarcodeSystem::Itf => 2 <= n <= 254 && n % 2 == 0,
        BarcodeSystem::Codabar => 2 <= n <= 255,
    }
}

/// Whether `s` is a valid content for `system`: the right length and every
/// character in the symbology's alphabet.
pub open spec fn content_valid(system: BarcodeSystem, s: Seq<char>) -> bool {
    &&& content_len_ok(system, s.len() as int)
    &&& forall|i: int| 0 <= i < s.len() ==> content_char_ok(system, s.len() as int, i, s[i])
}

/// The ASCII bytes of an all-ASCII character sequence.
pub open spec fn ascii_bytes(s: Seq<char>) -> Seq<u8> {
    Seq::new(s.len(), |i: int| (s[i] as u32) as u8)
}

/// The modulo-10 sum of a digit sequence, weighting even positions
/// (0-based, from the left) by `even_w` and odd positions by `odd_w`.
pub open spec fn weighted_sum(s: Seq<char>, even_w: int, odd_w: int) -> int
    decreases s.len(),
{
    if s.len() == 0 {
        0
    } else {
        let last = s.len() - 1;
        (if last % 2 == 0 {
            even_w
        } else {
            odd_w
        }) * digit_val(s[last]) + weighted_sum(s.drop_last(), even_w, odd_w)
    }
}

/// The check digit closing a weighted sum to a multiple of 10.
pub open spec fn check_digit(sum: int) -> int {
    (10 - sum % 10) % 10
}

/// The check digit of 12 EAN13 digits: positions weighted 1, 3, 1, 3, ...
/// from the left.
pub open spec fn ean13_check(s: Seq<char>) -> int {
    check_digit(weighted_sum(s, 1, 3))
}

/// The check digit of 7 EAN8 or 11 UPC-A digits: positions weighted
/// 3, 1, 3, 1, ... from the left.
pub open spec fn ean8_upca_check(s: Seq<char>) -> int {
    check_digit(weighted_sum(s, 3, 1))
}

/// The payload bytes printed for content `s` under `system`: the content's
/// ASCII bytes, with the computed check digit appended where the symbology
/// mandates one.
pub open spec fn payload_spec(system: BarcodeSystem, s: Seq<char>) -> Seq<u8> {
    match system {
        BarcodeSystem::Ean13 => ascii_bytes(s).push((48 + ean13_check(s)) as u8),
        BarcodeSystem::Ean8 => ascii_bytes(s).push((48 + ean8_upca_check(s)) as u8),
        BarcodeSystem::UpcA => ascii_bytes(s).push((48 + ean8_upca_check(s)) as u8),
        _ => ascii_bytes(s),
    }
}

/// The full command sequence printing one barcode: bar height, module
/// width, HRI position, HRI font, then the print command carrying the
/// symbology number, the payload's length byte and the payload itself.
pub open spec fn barcode_commands(system: BarcodeSystem, opt: BarcodeOption, s: Seq<char>) -> Seq<
    u8,
> {
    seq![0x1du8, 0x68, opt.height] + seq![0x1du8, 0x77, opt.width] + seq![
        0x1du8,
        0x48,
        opt.position.code_spec(),
    ] + seq![0x1du8, 0x66, opt.font.code_spec()] + seq![
        0x1du8,
        0x6b,
        system.code_spec(),
        payload_spec(system, s).len() as u8,
    ] + payload_spec(system, s)
}

/// A valid content's payload always fits the print command's one-byte
/// length field.
pub proof fn lemma_payload_len(system: BarcodeSystem, s: Seq<char>)
    requires
        content_valid(system, s),
    ensures
        payload_spec(system, s).len() <= 255,
{
}

fn is_digit_char(c: char) -> (r: bool)
    ensures
        r == digit_char(c),
{
    let u = c as u32;
    48 <= u && u <= 57
}

fn is_content_char_ok(system: BarcodeSystem, n: usize, i: usize, c: char) -> (r: bool)
    requires
        i < n,
    ensures
        r == content_char_ok(system, n as int, i as int, c),
{
    let u = c as u32;
    match system {
        BarcodeSystem::Code39 => {
            is_digit_char(c) || (65 <= u && u <= 90) || c == ' ' || c == '-' || c == '.' || c == '$'
                || c == '/' || c == '+' || c == '%'
        },
        BarcodeSystem::Codabar => {
            if i == 0 || i == n - 1 {
                65 <= u && u <= 68
            } else {
                is_digit_char(c) || c == '-' || c == '$' || c == ':' || c == '/' || c == '.'
                    || c == '+'
            }
        },
        _ => is_digit_char(c),
    }
}

fn is_content_len_ok(system: BarcodeSystem, n: usize) -> (r: bool)
    ensures
        r == content_len_ok(system, n as int),
{
    match system {
        BarcodeSystem::UpcA => n == 11,
        BarcodeSystem::UpcE => 6 <= n && n <= 8,
        BarcodeSystem::Ean13 => n == 12,
        BarcodeSystem::Ean8 => n == 7,
        BarcodeSystem::Code39 => 1 <= n && n <= 254,
        BarcodeSystem::Itf => 2 <= n && n <= 254 && n % 2 == 0,
        BarcodeSystem::Codabar => 2 <= n && n <= 255,
    }
}

/// The weighted modulo-10 checksum of an all-digit content.
fn weighted_checksum(content: &str, even_w: u32, odd_w: u32) -> (sum: u32)
    requires
        content@.len() <= 16,
        even_w <= 3,
        odd_w <= 3,
        forall|i: int| 0 <= i < content@.len() ==> digit_char(content@[i]),
    ensures
        sum == weighted_sum(content@, even_w as int, odd_w as int),
{
    let n = content.unicode_len();
    let mut sum: u32 = 0;
    let mut i: usize = 0;
    proof {
        assert(content@.take(0) =~= Seq::<char>::empty());
    }
    while i < n
        invariant
            i <= n,
            n == content@.len(),
            n <= 16,
            even_w <= 3,
            odd_w <= 3,
            forall|k: int| 0 <= k < content@.len() ==> digit_char(content@[k]),
            sum <= 27 * i,
            sum == weighted_sum(content@.take(i as int), even_w as int, odd_w as int),
        decreases n - i,
    {
        let c = content.get_char(i);
        let w = if i % 2 == 0 {
            even_w
        } else {
            odd_w
        };
        proof {
            assert(digit_char(content@[i as int]));
        }
        let d = (c as u32) - 48;
        proof {
            assert(w * d <= 27) by (nonlinear_arith)
                requires
                    w <= 3,
                    d <= 9,
            ;
            let s1 = content@.take(i + 1);
            assert(s1.drop_last() =~= content@.take(i as int));
            assert(s1[i as int] == content@[i as int]);
        }
        sum = sum + w * d;
        i = i + 1;
    }
    proof {
        assert(content@.take(n as int) =~= content@);
    }
    sum
}

/// Validates `content` for `system` and builds the printed payload bytes:
/// the content's ASCII bytes, plus the mandatory check digit where the
/// symbology defines one.
///
/// Content of the wrong length, or holding a character outside the
/// symbology's alphabet, is a validation error.
pub fn barcode_payload(system: BarcodeSystem, content: &str) -> (r: Result<Vec<u8>, Error>)
    ensures
        r is Ok <==> content_valid(system, content@),
        r is Ok ==> r.unwrap()@ == payload_spec(system, content@),
        r is Err ==> r == Err::<Vec<u8>, Error>(Error::Validation),
{
    let n = content.unicode_len();
    if !is_content_len_ok(system, n) {
        return Err(Error::Validation);
    }
    let mut out: Vec<u8> = Vec::new();
    let mut i: usize = 0;
    while i < n
        invariant
            i <= n,
            n == content@.len(),
            out@.len() == i,
            forall|k: int| 0 <= k < i ==> content_char_ok(system, n as int, k, content@[k]),
            forall|k: int| 0 <= k < i ==> out@[k] == (content@[k] as u32) as u8,
        decreases n - i,
    {
        let c = content.get_char(i);
        if !is_content_char_ok(system, n, i, c) {
            return Err(Error::Validation);
        }
        out.push((c as u32) as u8);
        i = i + 1;
    }
    proof {
        assert(out@ =~= ascii_bytes(content@));
    }
    match system {
        BarcodeSystem::Ean13 => {
            proof {
                lemma_digits_all(system, content@);
            }
            let sum = weighted_checksum(content, 1, 3);
            let cd = (10 - sum % 10) % 10;
            out.push((48 + cd) as u8);
        },
        BarcodeSystem::Ean8 => {
            proof {
                lemma_digits_all(system, content@);
            }
            let sum = weighted_checksum(content, 3, 1);
            let cd = (10 - sum % 10) % 10;
            out.push((48 + cd) as u8);
        },
        BarcodeSystem::UpcA => {
            proof {
                lemma_digits_all(system, content@);
            }
            let sum = weighted_checksum(content, 3, 1);
            let cd = (10 - sum % 10) % 10;
            out.push((48 + cd) as u8);
        },
        _ => {},
    }
    Ok(out)
}

/// Under the digit-only symbologies a valid content is all digits.
proof fn lemma_digits_all(system: BarcodeSystem, s: Seq<char>)
    requires
        system == BarcodeSystem::Ean13 || system == BarcodeSystem::Ean8 || system
            == BarcodeSystem::UpcA,
        forall|i: int| 0 <= i < s.len() ==> content_char_ok(system, s.len() as int, i, s[i]),
    ensures
        forall|i: int| 0 <= i < s.len() ==> digit_char(s[i]),
{
}

} // verus!
