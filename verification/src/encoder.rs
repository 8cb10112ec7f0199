//! The text encoder: Unicode text to single-byte, code-page-specific bytes.

use vstd::prelude::*;
use crate::code_table::table_lookup;
use crate::errors::Error;
use crate::page_code::PageCode;
use crate::page_codes::{PageCodeTable, base_of, chars_of, page_supported, page_table};

verus! {

/// The slot characters of the table active under `page`.
pub open spec fn page_chars(page: PageCode) -> Seq<char>
    recommends
        page_supported(page),
{
    chars_of(page_table(page).unwrap())
}

/// The base offset of the table active under `page`.
pub open spec fn page_base(page: PageCode) -> u8
    recommends
        page_supported(page),
{
    base_of(page_table(page).unwrap())
}

/// Whether `c` can be encoded against a table with the given slots and
/// base: ASCII passes through unchanged, any other character must have a
/// table entry.
pub open spec fn char_encodable(slots: Seq<char>, base: u8, c: char) -> bool {
    (c as u32) < 128 || table_lookup(slots, base, c) is Some
}

/// The byte `c` encodes to: itself below 128, the table's recorded byte
/// otherwise.
pub open spec fn encode_char(slots: Seq<char>, base: u8, c: char) -> u8
    recommends
        char_encodable(slots, base, c),
{
    if (c as u32) < 128 {
        (c as u32) as u8
    } else {
        table_lookup(slots, base, c).unwrap()
    }
}

/// Whether every character of `s` is encodable.
pub open spec fn str_encodable(slots: Seq<char>, base: u8, s: Seq<char>) -> bool {
    forall|i: int| 0 <= i < s.len() ==> char_encodable(slots, base, s[i])
}

/// The encoding of `s`, character by character.
pub open spec fn encode_str(slots: Seq<char>, base: u8, s: Seq<char>) -> Seq<u8> {
    Seq::new(s.len(), |i: int| encode_char(slots, base, s[i]))
}

/// Encodes `text` for the code page `page`, deterministically, one byte per
/// character.
///
/// Characters below 128 pass through unchanged; every other character is
/// looked up in the page's table. An unsupported page is a configuration
/// error; a character absent from the table is an encoding error naming the
/// first such character and the page — never a silent substitution.
pub fn encode(text: &str, page: PageCode) -> (r: Result<Vec<u8>, Error>)
    ensures
        !page_supported(page) ==> r == Err::<Vec<u8>, Error>(Error::Configuration(page)),
        page_supported(page) ==> {
            let slots = page_chars(page);
            let base = page_base(page);
            &&& (r is Ok <==> str_encodable(slots, base, text@))
            &&& (r is Ok ==> r.unwrap()@ == encode_str(slots, base, text@))
            &&& (r is Err ==> exists|i: int|
                {
                    &&& 0 <= i < text@.len()
                    &&& !char_encodable(slots, base, text@[i])
                    &&& r == Err::<Vec<u8>, Error>(Error::Encoding(text@[i], page))
                    &&& forall|j: int| 0 <= j < i ==> char_encodable(slots, base, text@[j])
                })
        },
{
    let pt = match PageCodeTable::try_from(page) {
        Ok(pt) => pt,
        Err(e) => {
            return Err(e);
        },
    };
    let table = pt.get_table();
    let ghost slots = page_chars(page);
    let ghost base = page_base(page);
    let n = text.unicode_len();
    let mut out: Vec<u8> = Vec::new();
    let mut i: usize = 0;
    while i < n
        invariant
            i <= n,
            n == text@.len(),
            page_supported(page),
            slots == page_chars(page),
            base == page_base(page),
            table.wf(),
            table.slots_spec() == slots,
            table.base_spec() == base,
            out@.len() == i,
            forall|k: int| 0 <= k < i ==> char_encodable(slots, base, text@[k]),
            forall|k: int| 0 <= k < i ==> out@[k] == encode_char(slots, base, text@[k]),
        decreases n - i,
    {
        let c = text.get_char(i);
        let cu = c as u32;
        let b: u8 = if cu < 128 {
            cu as u8
        } else {
            match table.lookup(c) {
                Some(b) => b,
                None => {
                    proof {
                        let gi = i as int;
                        assert(text@[gi] == c);
                        assert(!char_encodable(slots, base, text@[gi]));
                    }
                    return Err(Error::Encoding(c, page));
                },
            }
        };
        out.push(b);
        i = i + 1;
    }
    proof {
        assert(out@ =~= encode_str(slots, base, text@));
    }
    Ok(out)
}

/// Round trip with the registry: under any supported page, encoding a
/// non-ASCII character present in the page's table yields exactly the
/// table's recorded byte.
pub proof fn lemma_page_round_trip(page: PageCode, c: char)
    requires
        page_supported(page),
        (c as u32) >= 128,
        table_lookup(page_chars(page), page_base(page), c) is Some,
    ensures
        char_encodable(page_chars(page), page_base(page), c),
        encode_char(page_chars(page), page_base(page), c) == table_lookup(
            page_chars(page),
            page_base(page),
            c,
        ).unwrap(),
{
}

/// ASCII passthrough: any character below 128 encodes to its own code
/// point, whatever the code page's table holds.
pub proof fn lemma_encode_ascii(slots: Seq<char>, base: u8, c: char)
    requires
        (c as u32) < 128,
    ensures
        char_encodable(slots, base, c),
        encode_char(slots, base, c) == c as u32,
{
}

} // verus!
