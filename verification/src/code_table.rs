//! The shape shared by every code-page table: an ordered list of character
//! slots over a base offset, read strictly as an immutable mapping.

use vstd::prelude::*;

verus! {

/// The slot character that marks an unassigned byte. A table never maps any
/// character to the byte of a hole, and looking the hole marker up fails.
pub open spec fn hole() -> char {
    '\u{0}'
}

/// One code-page transliteration table.
///
/// Slot `i` of `slots` is the character encoded as byte `base + i`; a slot
/// holding the hole marker leaves that byte unassigned. When one character
/// occupies several slots the highest-indexed slot is its recorded byte,
/// matching a mapping built by inserting the slots in order.
pub struct CodeTable {
    /// The character slots, one per byte of the table's sub-range.
    pub slots: &'static str,
    /// The base offset: the byte slot 0 maps to.
    pub base: u8,
}

/// The highest index at which `slots` holds `c`, or `-1` when it never does.
pub open spec fn find_last(slots: Seq<char>, c: char) -> int
    decreases slots.len(),
{
    if slots.len() == 0 {
        -1
    } else if slots[slots.len() - 1] == c {
        slots.len() - 1
    } else {
        find_last(slots.drop_last(), c)
    }
}

/// The byte a table with the given slots and base records for `c`:
/// `base + i` for the highest slot `i` holding `c`, and nothing for the
/// hole marker or for a character in no slot.
pub open spec fn table_lookup(slots: Seq<char>, base: u8, c: char) -> Option<u8> {
    if c == hole() {
        None
    } else {
        let i = find_last(slots, c);
        if i >= 0 {
            Some((base + i) as u8)
        } else {
            None
        }
    }
}

/// What `find_last` returns: a hit names the last slot holding `c`, and a
/// miss means no slot holds `c`.
pub proof fn lemma_find_last(slots: Seq<char>, c: char)
    ensures
        find_last(slots, c) == -1 ==> (forall|j: int| 0 <= j < slots.len() ==> slots[j] != c),
        find_last(slots, c) != -1 ==> {
            let i = find_last(slots, c);
            &&& 0 <= i < slots.len()
            &&& slots[i] == c
            &&& forall|j: int| i < j < slots.len() ==> slots[j] != c
        },
    decreases slots.len(),
{
    if slots.len() > 0 && slots[slots.len() - 1] != c {
        lemma_find_last(slots.drop_last(), c);
        assert(forall|j: int| 0 <= j < slots.len() - 1 ==> slots.drop_last()[j] == slots[j]);
    }
}

impl CodeTable {
    /// The character slots, as a sequence.
    pub open spec fn slots_spec(self) -> Seq<char> {
        self.slots@
    }

    /// The base offset: the byte slot 0 maps to.
    pub open spec fn base_spec(self) -> u8 {
        self.base
    }

    /// Well-formedness: the base offset starts the high half of the byte
    /// range and every slot's byte fits in one byte.
    pub open spec fn wf(self) -> bool {
        &&& self.base >= 0x80
        &&& self.base + self.slots@.len() <= 0x100
    }

    /// The byte this table records for `c`, if any.
    pub open spec fn lookup_spec(self, c: char) -> Option<u8> {
        table_lookup(self.slots@, self.base, c)
    }

    /// Looks `c` up: the table's recorded byte for `c`, or `None` where the
    /// table leaves `c` unrepresented.
    pub fn lookup(&self, c: char) -> (r: Option<u8>)
        requires
            self.wf(),
        ensures
            r == self.lookup_spec(c),
    {
        let ghost slots = self.slots@;
        let n = self.slots.unicode_len();
        let mut i = n;
        while i > 0
            invariant
                i <= n,
                n == slots.len(),
                self.wf(),
                slots == self.slots@,
                forall|j: int| i <= j < n ==> slots[j] != c,
            decreases i,
        {
            i = i - 1;
            let ch = self.slots.get_char(i);
            if ch == c {
                if !is_hole(c) {
                    proof {
                        lemma_find_last_prefix(slots, c, i as int);
                    }
                    return Some(self.base + (i as u8));
                } else {
                    return None;
                }
            }
        }
        proof {
            lemma_find_last(slots, c);
        }
        None
    }
}

/// Whether `c` is the hole marker.
fn is_hole(c: char) -> (r: bool)
    ensures
        r == (c == hole()),
{
    c == '\u{0}'
}

/// When every slot from `i + 1` on misses `c` and slot `i` holds it, the
/// last slot holding `c` is `i`.
proof fn lemma_find_last_prefix(slots: Seq<char>, c: char, i: int)
    requires
        0 <= i < slots.len(),
        slots[i] == c,
        forall|j: int| i < j < slots.len() ==> slots[j] != c,
    ensures
        find_last(slots, c) == i,
    decreases slots.len(),
{
    if i == slots.len() - 1 {
    } else {
        lemma_find_last_prefix(slots.drop_last(), c, i);
    }
}

/// No two distinct characters of one table whose slots fit the byte range
/// collide on a byte: the recorded mapping is injective.
pub proof fn lemma_table_injective(slots: Seq<char>, base: u8, c1: char, c2: char)
    requires
        base + slots.len() <= 0x100,
        c1 != c2,
        table_lookup(slots, base, c1) is Some,
        table_lookup(slots, base, c2) is Some,
    ensures
        table_lookup(slots, base, c1) != table_lookup(slots, base, c2),
{
    lemma_find_last(slots, c1);
    lemma_find_last(slots, c2);
}

/// Every byte a table records lies in the table's valid sub-range
/// `base .. base + slot count`.
pub proof fn lemma_table_range(slots: Seq<char>, base: u8, c: char)
    requires
        base + slots.len() <= 0x100,
        table_lookup(slots, base, c) is Some,
    ensures
        base <= table_lookup(slots, base, c).unwrap(),
        table_lookup(slots, base, c).unwrap() < base + slots.len(),
{
    lemma_find_last(slots, c);
}

} // verus!
