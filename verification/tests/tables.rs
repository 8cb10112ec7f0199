//! Construction-time invariants of every code-page table: the recorded
//! mapping is injective and every byte lies in the page's valid sub-range.

use std::collections::HashMap;

use escpos::page_code::PageCode;
use escpos::page_codes::{table_for, PageCodeTable};

fn all_tables() -> Vec<PageCodeTable> {
    vec![
        PageCodeTable::PC437,
        PageCodeTable::Katakana,
        PageCodeTable::PC850,
        PageCodeTable::PC852,
        PageCodeTable::PC858,
        PageCodeTable::PC860,
        PageCodeTable::PC863,
        PageCodeTable::PC865,
        PageCodeTable::PC851,
        PageCodeTable::PC853,
        PageCodeTable::PC857,
        PageCodeTable::PC737,
        PageCodeTable::ISO8859_2,
        PageCodeTable::ISO8859_7,
        PageCodeTable::ISO8859_15,
        PageCodeTable::WPC1252,
        PageCodeTable::PC866,
        PageCodeTable::WPC775,
        PageCodeTable::PC855,
        PageCodeTable::PC861,
        PageCodeTable::PC862,
        PageCodeTable::PC869,
        PageCodeTable::PC1118,
        PageCodeTable::PC1119,
        PageCodeTable::PC1125,
        PageCodeTable::WPC1250,
        PageCodeTable::WPC1251,
        PageCodeTable::WPC1253,
        PageCodeTable::WPC1254,
        PageCodeTable::WPC1257,
        PageCodeTable::KZ1048,
    ]
}

/// The recorded mapping of a table: slot `i` maps its character to
/// `base + i`, holes excluded, the highest slot of a repeated character
/// winning.
fn recorded_mapping(table: &escpos::code_table::CodeTable) -> HashMap<char, u8> {
    let base = table.base as usize;
    let mut map: HashMap<char, u8> = HashMap::new();
    for (i, c) in table.slots.chars().enumerate() {
        if c != '\0' {
            map.insert(c, (base + i) as u8);
        }
    }
    map
}

#[test]
fn every_table_in_range() {
    for pc in all_tables() {
        let table = pc.get_table();
        let base = table.base as usize;
        let len = table.slots.chars().count();
        assert!(base >= 0x80, "{pc:?}: base {base:#x} below 0x80");
        assert!(base + len <= 0x100, "{pc:?}: slots overrun the byte range");
        for (c, b) in recorded_mapping(&table) {
            assert!(
                (b as usize) >= base && (b as usize) < base + len,
                "{pc:?}: {c:?} maps to {b:#x} outside {base:#x}..{:#x}",
                base + len
            );
        }
    }
}

#[test]
fn every_table_injective() {
    for pc in all_tables() {
        let mut reverse: HashMap<u8, char> = HashMap::new();
        for (c, b) in recorded_mapping(&pc.get_table()) {
            if let Some(other) = reverse.insert(b, c) {
                panic!("{pc:?}: {c:?} and {other:?} both map to {b:#x}");
            }
        }
    }
}

#[test]
fn lookup_agrees_with_recorded_mapping() {
    for pc in all_tables() {
        let table = pc.get_table();
        for (c, b) in recorded_mapping(&table) {
            assert_eq!(table.lookup(c), Some(b), "{pc:?}: lookup of {c:?}");
        }
        assert_eq!(table.lookup('\0'), None);
        assert_eq!(table.lookup('\u{10FFFF}'), None);
    }
}

#[test]
fn table_for_agrees_with_the_registry() {
    let t = table_for(PageCode::PC437).unwrap();
    assert_eq!(t.base, 0x80);
    assert_eq!(t.lookup('é'), Some(0x82));
    let k = table_for(PageCode::Katakana).unwrap();
    assert_eq!(k.base, 0xA1);
    assert!(table_for(PageCode::Hiragana).is_err());
    assert!(table_for(PageCode::WPC1256).is_err());
}

#[test]
fn page_numbers_follow_the_protocol() {
    assert_eq!(PageCode::PC437.code(), 0);
    assert_eq!(PageCode::Katakana.code(), 1);
    assert_eq!(PageCode::PC858.code(), 19);
    assert_eq!(PageCode::WPC775.code(), 33);
    assert_eq!(PageCode::ISO8859_15.code(), 40);
    assert_eq!(PageCode::KZ1048.code(), 53);
}

#[test]
fn sample_recorded_bytes() {
    let pc437 = PageCodeTable::PC437.get_table();
    assert_eq!(pc437.lookup('Ç'), Some(0x80));
    assert_eq!(pc437.lookup('é'), Some(0x82));
    assert_eq!(pc437.lookup('Ω'), Some(0xEA));
    assert_eq!(pc437.lookup('\u{00A0}'), Some(0xFF));

    let katakana = PageCodeTable::Katakana.get_table();
    assert_eq!(katakana.base, 0xA1);
    assert_eq!(katakana.lookup('｡'), Some(0xA1));
    assert_eq!(katakana.lookup('ﾟ'), Some(0xDF));

    let pc869 = PageCodeTable::PC869.get_table();
    assert_eq!(pc869.base, 0x86);
    assert_eq!(pc869.lookup('Ά'), Some(0x86));

    // A hole: PC851 leaves 0x91 unassigned, so no character reaches it.
    let pc851 = PageCodeTable::PC851.get_table();
    for (_, b) in recorded_mapping(&pc851) {
        assert_ne!(b, 0x91);
    }

    // A repeated slot character: PC858 holds 'Ô' twice; the higher slot
    // is the recorded byte.
    let pc858 = PageCodeTable::PC858.get_table();
    assert_eq!(pc858.lookup('Ô'), Some(0xE3));
}
