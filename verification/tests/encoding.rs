//! The text encoder: ASCII passthrough, table round trips, and the error
//! cases.

use std::collections::HashMap;

use escpos::encoder::encode;
use escpos::errors::Error;
use escpos::page_code::PageCode;
use escpos::page_codes::PageCodeTable;

fn supported_pages() -> Vec<(PageCode, PageCodeTable)> {
    vec![
        (PageCode::PC437, PageCodeTable::PC437),
        (PageCode::Katakana, PageCodeTable::Katakana),
        (PageCode::PC850, PageCodeTable::PC850),
        (PageCode::PC852, PageCodeTable::PC852),
        (PageCode::PC858, PageCodeTable::PC858),
        (PageCode::PC860, PageCodeTable::PC860),
        (PageCode::PC863, PageCodeTable::PC863),
        (PageCode::PC865, PageCodeTable::PC865),
        (PageCode::PC851, PageCodeTable::PC851),
        (PageCode::PC853, PageCodeTable::PC853),
        (PageCode::PC857, PageCodeTable::PC857),
        (PageCode::PC737, PageCodeTable::PC737),
        (PageCode::ISO8859_2, PageCodeTable::ISO8859_2),
        (PageCode::ISO8859_7, PageCodeTable::ISO8859_7),
        (PageCode::ISO8859_15, PageCodeTable::ISO8859_15),
        (PageCode::WPC1252, PageCodeTable::WPC1252),
        (PageCode::PC866, PageCodeTable::PC866),
        (PageCode::WPC775, PageCodeTable::WPC775),
        (PageCode::PC855, PageCodeTable::PC855),
        (PageCode::PC861, PageCodeTable::PC861),
        (PageCode::PC862, PageCodeTable::PC862),
        (PageCode::PC869, PageCodeTable::PC869),
        (PageCode::PC1118, PageCodeTable::PC1118),
        (PageCode::PC1119, PageCodeTable::PC1119),
        (PageCode::PC1125, PageCodeTable::PC1125),
        (PageCode::WPC1250, PageCodeTable::WPC1250),
        (PageCode::WPC1251, PageCodeTable::WPC1251),
        (PageCode::WPC1253, PageCodeTable::WPC1253),
        (PageCode::WPC1254, PageCodeTable::WPC1254),
        (PageCode::WPC1257, PageCodeTable::WPC1257),
        (PageCode::KZ1048, PageCodeTable::KZ1048),
    ]
}

#[test]
fn ascii_passthrough_under_every_page() {
    for (page, _) in supported_pages() {
        for code in 0u8..128 {
            let c = code as char;
            let text = c.to_string();
            assert_eq!(
                encode(&text, page),
                Ok(vec![code]),
                "{page:?}: ASCII {code:#x} must pass through unchanged"
            );
        }
    }
}

#[test]
fn round_trip_every_recorded_character() {
    // Encoding any non-ASCII character present in a page's table yields
    // exactly the table's recorded byte.
    for (page, pc) in supported_pages() {
        let table = pc.get_table();
        let base = table.base as usize;
        let mut recorded: HashMap<char, u8> = HashMap::new();
        for (i, c) in table.slots.chars().enumerate() {
            if c != '\0' {
                recorded.insert(c, (base + i) as u8);
            }
        }
        for (c, b) in recorded {
            if (c as u32) >= 128 {
                let text = c.to_string();
                assert_eq!(
                    encode(&text, page),
                    Ok(vec![b]),
                    "{page:?}: {c:?} must encode to its recorded byte {b:#x}"
                );
            }
        }
    }
}

#[test]
fn encodes_mixed_text() {
    assert_eq!(
        encode("Caf\u{00E9} 20\u{00A3}", PageCode::PC437),
        Ok(vec![0x43, 0x61, 0x66, 0x82, 0x20, 0x32, 0x30, 0x9C])
    );
    assert_eq!(encode("", PageCode::PC437), Ok(vec![]));
}

#[test]
fn unmappable_character_is_an_encoding_error() {
    // PC437 has no entry for an unmapped character; the error names the
    // first offending character and the active page.
    assert_eq!(
        encode("ab\u{0641}c", PageCode::PC437),
        Err(Error::Encoding('\u{0641}', PageCode::PC437))
    );
    // The first unencodable character is the one reported.
    assert_eq!(
        encode("\u{30A2}\u{0641}", PageCode::Katakana),
        Err(Error::Encoding('\u{30A2}', PageCode::Katakana))
    );
    // An ASCII-only text never fails on a supported page.
    assert_eq!(
        encode("plain", PageCode::Katakana),
        Ok(vec![0x70, 0x6C, 0x61, 0x69, 0x6E])
    );
}

#[test]
fn unsupported_page_is_a_configuration_error() {
    for page in [
        PageCode::Hiragana,
        PageCode::PC720,
        PageCode::PC864,
        PageCode::WPC1255,
        PageCode::WPC1256,
        PageCode::WPC1258,
    ] {
        assert_eq!(encode("x", page), Err(Error::Configuration(page)));
        assert!(PageCodeTable::try_from(page).is_err());
    }
}

#[test]
fn cyrillic_and_greek_pages() {
    assert_eq!(encode("\u{0411}", PageCode::PC866), Ok(vec![0x81]));
    assert_eq!(encode("\u{03A9}", PageCode::PC737), Ok(vec![0x97]));
    assert_eq!(encode("\u{20AC}", PageCode::PC858), Ok(vec![0xD5]));
}
