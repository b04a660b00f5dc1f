//! The font metrics table and the text measurer.
//!
//! The table maps inclusive codepoint ranges to the advance width of the
//! glyph, in tenths of a font unit.  It is sorted and non-overlapping, so a
//! binary search on the lower bound of each range finds the entry for a
//! codepoint.  Codepoints absent from the table fall back to the width of
//! the lowercase letter `m`, so every string has a finite, deterministic
//! width.

use vstd::prelude::*;
use vstd::string::StrSliceExecFns;

verus! {

/// Advance width used for codepoints the table does not cover: the width of
/// the lowercase letter `m`, a conservative average-width substitute.
pub const FALLBACK_ADVANCE: u32 = 107;

/// No entry of the table is wider than this; it bounds the measured width
/// of a text by a multiple of its length.
pub const MAX_ADVANCE: u32 = 128;

/// Longest text, in characters, that the measurer accepts; it keeps every
/// width and every coordinate derived from one comfortably inside 64 bits.
pub const MAX_TEXT_LEN: usize = 0x4000_0000;

/// Control characters take no horizontal space at all.
pub open spec fn is_control_char_spec(c: u32) -> bool {
    c <= 31 || c == 127
}

/// Whether the codepoint is a control character (below space, or delete).
pub fn is_control_char(c: u32) -> (r: bool)
    ensures
        r == is_control_char_spec(c),
{
    c <= 31 || c == 127
}

/// Whether the codepoint `c` falls in the inclusive range of table entry `e`.
pub open spec fn entry_contains(e: (u32, u32, u32), c: u32) -> bool {
    e.0 <= c <= e.1
}

/// A well-formed metrics table: each range is ordered, each width is
/// bounded, and the ranges are sorted and pairwise disjoint.
pub open spec fn table_wf(t: Seq<(u32, u32, u32)>) -> bool {
    &&& forall|i: int|
        0 <= i < t.len() ==> (#[trigger] t[i]).0 <= t[i].1 && t[i].2 <= MAX_ADVANCE
    &&& forall|i: int, j: int|
        0 <= i < j < t.len() ==> (#[trigger] t[i]).1 < (#[trigger] t[j]).0
}

/// The width of the first entry at or after index `i` whose range holds `c`,
/// if any.
pub open spec fn lookup_from(t: Seq<(u32, u32, u32)>, c: u32, i: int) -> Option<u32>
    decreases t.len() - i,
{
    if i < 0 || i >= t.len() {
        None
    } else if entry_contains(t[i], c) {
        Some(t[i].2)
    } else {
        lookup_from(t, c, i + 1)
    }
}

/// The width the table assigns to codepoint `c`, if any entry covers it.
pub open spec fn table_lookup(t: Seq<(u32, u32, u32)>, c: u32) -> Option<u32> {
    lookup_from(t, c, 0)
}

/// The width of codepoint `c`: exactly zero for control characters, and
/// otherwise whatever the table assigns, if anything.
pub open spec fn char_width_spec(t: Seq<(u32, u32, u32)>, c: u32) -> Option<u32> {
    if is_control_char_spec(c) {
        Some(0)
    } else {
        table_lookup(t, c)
    }
}

/// The advance width of one character under the metrics table, with the
/// fallback width for unmapped codepoints, in tenths of a unit.
pub open spec fn advance_width(c: char) -> int {
    match char_width_spec(font_table_spec(), c as u32) {
        Some(w) => w as int,
        None => FALLBACK_ADVANCE as int,
    }
}

/// The measured width of a text: the sum of the advance widths of its
/// characters, in tenths of a unit.
pub open spec fn measure_spec(s: Seq<char>) -> int
    decreases s.len(),
{
    if s.len() == 0 {
        0
    } else {
        measure_spec(s.drop_last()) + advance_width(s.last())
    }
}

/// The metrics table itself: sorted, non-overlapping inclusive codepoint
/// ranges with their advance widths in tenths of a unit.
#[verifier::opaque]
pub open spec fn font_table_spec() -> Seq<(u32, u32, u32)> {
    Seq::<(u32, u32, u32)>::empty().push(
        (32, 32, 35),
    ).push(
        (33, 33, 40),
    ).push(
        (34, 34, 46),
    ).push(
        (35, 35, 82),
    ).push(
        (36, 36, 64),
    ).push(
        (37, 37, 107),
    ).push(
        (38, 38, 73),
    ).push(
        (39, 39, 27),
    ).push(
        (40, 41, 45),
    ).push(
        (42, 42, 64),
    ).push(
        (43, 43, 82),
    ).push(
        (44, 44, 36),
    ).push(
        (45, 45, 45),
    ).push(
        (46, 46, 36),
    ).push(
        (47, 47, 45),
    ).push(
        (48, 57, 64),
    ).push(
        (58, 59, 45),
    ).push(
        (60, 62, 82),
    ).push(
        (63, 63, 55),
    ).push(
        (64, 64, 100),
    ).push(
        (65, 65, 68),
    ).push(
        (66, 66, 69),
    ).push(
        (67, 67, 70),
    ).push(
        (68, 68, 77),
    ).push(
        (69, 69, 63),
    ).push(
        (70, 70, 57),
    ).push(
        (71, 71, 78),
    ).push(
        (72, 72, 75),
    ).push(
        (73, 73, 42),
    ).push(
        (74, 74, 45),
    ).push(
        (75, 75, 69),
    ).push(
        (76, 76, 56),
    ).push(
        (77, 77, 84),
    ).push(
        (78, 78, 75),
    ).push(
        (79, 79, 79),
    ).push(
        (80, 80, 60),
    ).push(
        (81, 81, 79),
    ).push(
        (82, 82, 70),
    ).push(
        (83, 83, 68),
    ).push(
        (84, 84, 62),
    ).push(
        (85, 85, 73),
    ).push(
        (86, 86, 68),
    ).push(
        (87, 87, 99),
    ).push(
        (88, 88, 69),
    ).push(
        (89, 89, 62),
    ).push(
        (90, 90, 69),
    ).push(
        (91, 93, 45),
    ).push(
        (94, 94, 82),
    ).push(
        (95, 96, 64),
    ).push(
        (97, 97, 60),
    ).push(
        (98, 98, 62),
    ).push(
        (99, 99, 52),
    ).push(
        (100, 100, 62),
    ).push(
        (101, 101, 60),
    ).push(
        (102, 102, 35),
    ).push(
        (103, 103, 62),
    ).push(
        (104, 104, 63),
    ).push(
        (105, 105, 27),
    ).push(
        (106, 106, 34),
    ).push(
        (107, 107, 59),
    ).push(
        (108, 108, 27),
    ).push(
        (109, 109, 107),
    ).push(
        (110, 110, 63),
    ).push(
        (111, 111, 61),
    ).push(
        (112, 113, 62),
    ).push(
        (114, 114, 43),
    ).push(
        (115, 115, 52),
    ).push(
        (116, 116, 39),
    ).push(
        (117, 117, 63),
    ).push(
        (118, 118, 59),
    ).push(
        (119, 119, 82),
    ).push(
        (120, 121, 59),
    ).push(
        (122, 122, 52),
    ).push(
        (123, 123, 63),
    ).push(
        (124, 124, 45),
    ).push(
        (125, 125, 63),
    ).push(
        (126, 126, 82),
    ).push(
        (160, 160, 35),
    ).push(
        (161, 191, 55),
    ).push(
        (192, 214, 70),
    ).push(
        (215, 215, 82),
    ).push(
        (216, 246, 62),
    ).push(
        (247, 247, 82),
    ).push(
        (248, 255, 62),
    ).push(
        (256, 383, 65),
    )
}

/// Appends one entry to a table under construction, keeping it well formed.
fn push_entry(t: &mut Vec<(u32, u32, u32)>, lo: u32, hi: u32, w: u32)
    requires
        table_wf(old(t)@),
        lo <= hi,
        w <= MAX_ADVANCE,
        old(t)@.len() > 0 ==> old(t)@.last().1 < lo,
    ensures
        final(t)@ == old(t)@.push((lo, hi, w)),
        table_wf(final(t)@),
{
    t.push((lo, hi, w));
    proof {
        let s = t@;
        let n = s.len() - 1;
        assert forall|i: int, j: int| 0 <= i < j < s.len() implies (#[trigger] s[i]).1 < (
        #[trigger] s[j]).0 by {
            if j < n {
                assert(old(t)@[i].1 < old(t)@[j].0);
            } else {
                if i < n - 1 {
                    assert(old(t)@[i].1 < old(t)@[n - 1].0);
                }
            }
        }
    }
}

/// Builds the executable form of the metrics table.
fn font_table() -> (t: Vec<(u32, u32, u32)>)
    ensures
        t@ == font_table_spec(),
        table_wf(t@),
{
    let mut t: Vec<(u32, u32, u32)> = Vec::new();
    push_entry(&mut t, 32, 32, 35);
    push_entry(&mut t, 33, 33, 40);
    push_entry(&mut t, 34, 34, 46);
    push_entry(&mut t, 35, 35, 82);
    push_entry(&mut t, 36, 36, 64);
    push_entry(&mut t, 37, 37, 107);
    push_entry(&mut t, 38, 38, 73);
    push_entry(&mut t, 39, 39, 27);
    push_entry(&mut t, 40, 41, 45);
    push_entry(&mut t, 42, 42, 64);
    push_entry(&mut t, 43, 43, 82);
    push_entry(&mut t, 44, 44, 36);
    push_entry(&mut t, 45, 45, 45);
    push_entry(&mut t, 46, 46, 36);
    push_entry(&mut t, 47, 47, 45);
    push_entry(&mut t, 48, 57, 64);
    push_entry(&mut t, 58, 59, 45);
    push_entry(&mut t, 60, 62, 82);
    push_entry(&mut t, 63, 63, 55);
    push_entry(&mut t, 64, 64, 100);
    push_entry(&mut t, 65, 65, 68);
    push_entry(&mut t, 66, 66, 69);
    push_entry(&mut t, 67, 67, 70);
    push_entry(&mut t, 68, 68, 77);
    push_entry(&mut t, 69, 69, 63);
    push_entry(&mut t, 70, 70, 57);
    push_entry(&mut t, 71, 71, 78);
    push_entry(&mut t, 72, 72, 75);
    push_entry(&mut t, 73, 73, 42);
    push_entry(&mut t, 74, 74, 45);
    push_entry(&mut t, 75, 75, 69);
    push_entry(&mut t, 76, 76, 56);
    push_entry(&mut t, 77, 77, 84);
    push_entry(&mut t, 78, 78, 75);
    push_entry(&mut t, 79, 79, 79);
    push_entry(&mut t, 80, 80, 60);
    push_entry(&mut t, 81, 81, 79);
    push_entry(&mut t, 82, 82, 70);
    push_entry(&mut t, 83, 83, 68);
    push_entry(&mut t, 84, 84, 62);
    push_entry(&mut t, 85, 85, 73);
    push_entry(&mut t, 86, 86, 68);
    push_entry(&mut t, 87, 87, 99);
    push_entry(&mut t, 88, 88, 69);
    push_entry(&mut t, 89, 89, 62);
    push_entry(&mut t, 90, 90, 69);
    push_entry(&mut t, 91, 93, 45);
    push_entry(&mut t, 94, 94, 82);
    push_entry(&mut t, 95, 96, 64);
    push_entry(&mut t, 97, 97, 60);
    push_entry(&mut t, 98, 98, 62);
    push_entry(&mut t, 99, 99, 52);
    push_entry(&mut t, 100, 100, 62);
    push_entry(&mut t, 101, 101, 60);
    push_entry(&mut t, 102, 102, 35);
    push_entry(&mut t, 103, 103, 62);
    push_entry(&mut t, 104, 104, 63);
    push_entry(&mut t, 105, 105, 27);
    push_entry(&mut t, 106, 106, 34);
    push_entry(&mut t, 107, 107, 59);
    push_entry(&mut t, 108, 108, 27);
    push_entry(&mut t, 109, 109, 107);
    push_entry(&mut t, 110, 110, 63);
    push_entry(&mut t, 111, 111, 61);
    push_entry(&mut t, 112, 113, 62);
    push_entry(&mut t, 114, 114, 43);
    push_entry(&mut t, 115, 115, 52);
    push_entry(&mut t, 116, 116, 39);
    push_entry(&mut t, 117, 117, 63);
    push_entry(&mut t, 118, 118, 59);
    push_entry(&mut t, 119, 119, 82);
    push_entry(&mut t, 120, 121, 59);
    push_entry(&mut t, 122, 122, 52);
    push_entry(&mut t, 123, 123, 63);
    push_entry(&mut t, 124, 124, 45);
    push_entry(&mut t, 125, 125, 63);
    push_entry(&mut t, 126, 126, 82);
    push_entry(&mut t, 160, 160, 35);
    push_entry(&mut t, 161, 191, 55);
    push_entry(&mut t, 192, 214, 70);
    push_entry(&mut t, 215, 215, 82);
    push_entry(&mut t, 216, 246, 62);
    push_entry(&mut t, 247, 247, 82);
    push_entry(&mut t, 248, 255, 62);
    push_entry(&mut t, 256, 383, 65);
    proof {
        reveal(font_table_spec);
        assert(t@ =~= font_table_spec());
    }
    t
}

/// If some entry at or after `i` holds `c` and no earlier one from `i` on
/// does, the lookup finds exactly that entry.
proof fn lemma_lookup_from_finds(t: Seq<(u32, u32, u32)>, c: u32, i: int, j: int)
    requires
        0 <= i <= j < t.len(),
        entry_contains(t[j], c),
        forall|k: int| i <= k < j ==> !entry_contains(#[trigger] t[k], c),
    ensures
        lookup_from(t, c, i) == Some(t[j].2),
    decreases j - i,
{
    if i < j {
        lemma_lookup_from_finds(t, c, i + 1, j);
    }
}

/// If no entry at or after `i` holds `c`, the lookup finds nothing.
proof fn lemma_lookup_from_none(t: Seq<(u32, u32, u32)>, c: u32, i: int)
    requires
        forall|k: int| i <= k < t.len() ==> !entry_contains(#[trigger] t[k], c),
    ensures
        lookup_from(t, c, i) == None::<u32>,
    decreases t.len() - i,
{
    if 0 <= i < t.len() {
        lemma_lookup_from_none(t, c, i + 1);
    }
}

/// In a well-formed table every width the lookup can return is bounded.
proof fn lemma_lookup_from_bound(t: Seq<(u32, u32, u32)>, c: u32, i: int)
    requires
        table_wf(t),
    ensures
        lookup_from(t, c, i) matches Some(w) ==> w <= MAX_ADVANCE,
    decreases t.len() - i,
{
    if 0 <= i < t.len() && !entry_contains(t[i], c) {
        lemma_lookup_from_bound(t, c, i + 1);
    }
}

/// The width the table assigns to the codepoint, found by binary search on
/// the lower bounds of the sorted ranges; `None` for unmapped codepoints.
fn width_of_char_code(table: &Vec<(u32, u32, u32)>, char_code: u32) -> (r: Option<u32>)
    requires
        table_wf(table@),
    ensures
        r == char_width_spec(table@, char_code),
        r matches Some(w) ==> w <= MAX_ADVANCE,
{
    if is_control_char(char_code) {
        return Some(0);
    }
    let ghost t = table@;
    let mut lo: usize = 0;
    let mut hi: usize = table.len();
    while lo < hi
        invariant
            lo <= hi <= t.len(),
            t == table@,
            forall|k: int| 0 <= k < lo ==> (#[trigger] t[k]).0 <= char_code,
            forall|k: int| hi <= k < t.len() ==> char_code < (#[trigger] t[k]).0,
            table_wf(t),
        decreases hi - lo,
    {
        let mid = lo + (hi - lo) / 2;
        if table[mid].0 <= char_code {
            lo = mid + 1;
        } else {
            proof {
                assert forall|k: int| mid <= k < t.len() implies char_code < (#[trigger] t[k]).0 by {
                    if k > mid {
                        assert(t[mid as int].1 < t[k].0);
                    }
                }
            }
            hi = mid;
        }
    }
    if lo == 0 {
        proof {
            lemma_lookup_from_none(t, char_code, 0);
        }
        None
    } else {
        let e = table[lo - 1];
        if char_code <= e.1 {
            proof {
                assert forall|k: int| 0 <= k < lo - 1 implies !entry_contains(
                    #[trigger] t[k],
                    char_code,
                ) by {
                    assert(t[k].1 < t[lo - 1].0);
                }
                lemma_lookup_from_finds(t, char_code, 0, lo - 1);
                lemma_lookup_from_bound(t, char_code, 0);
            }
            Some(e.2)
        } else {
            proof {
                assert forall|k: int| 0 <= k < t.len() implies !entry_contains(
                    #[trigger] t[k],
                    char_code,
                ) by {
                    if k < lo - 1 {
                        assert(t[k].1 < t[lo - 1].0);
                    }
                }
                lemma_lookup_from_none(t, char_code, 0);
            }
            None
        }
    }
}

/// The measured width of two texts laid end to end is the sum of their
/// widths: measuring is a character-wise sum, so it is additive under
/// concatenation without any boundary effect.
pub proof fn lemma_measure_additive(a: Seq<char>, b: Seq<char>)
    ensures
        measure_spec(a + b) == measure_spec(a) + measure_spec(b),
    decreases b.len(),
{
    if b.len() == 0 {
        assert(a + b =~= a);
    } else {
        assert((a + b).drop_last() =~= a + b.drop_last());
        lemma_measure_additive(a, b.drop_last());
    }
}

/// A control character contributes exactly nothing to a measured width,
/// whatever the table holds.
pub proof fn lemma_control_char_zero(c: char)
    requires
        is_control_char_spec(c as u32),
    ensures
        advance_width(c) == 0,
{
}

/// A measured width is non-negative and at most [`MAX_ADVANCE`] per
/// character.
pub proof fn lemma_measure_bound(s: Seq<char>)
    requires
        table_wf(font_table_spec()),
    ensures
        0 <= measure_spec(s) <= MAX_ADVANCE * s.len(),
    decreases s.len(),
{
    if s.len() > 0 {
        lemma_measure_bound(s.drop_last());
        lemma_lookup_from_bound(font_table_spec(), s.last() as u32, 0);
    }
}

/// Measures a text: the sum of the advance widths of its characters under
/// the metrics table, in tenths of a unit.
pub fn measure(text: &str) -> (width: u64)
    requires
        text@.len() <= MAX_TEXT_LEN,
    ensures
        width as int == measure_spec(text@),
        table_wf(font_table_spec()),
{
    let table = font_table();
    let n = text.unicode_len();
    let mut width: u64 = 0;
    let mut i: usize = 0;
    while i < n
        invariant
            n == text@.len() <= MAX_TEXT_LEN,
            i <= n,
            table@ == font_table_spec(),
            table_wf(table@),
            width as int == measure_spec(text@.take(i as int)),
            width <= 128 * i,
        decreases n - i,
    {
        let c = text.get_char(i);
        let w = match width_of_char_code(&table, c as u32) {
            Some(w) => w,
            None => FALLBACK_ADVANCE,
        };
        proof {
            assert(text@.take(i + 1).drop_last() =~= text@.take(i as int));
            assert(text@.take(i + 1).last() == text@[i as int]);
        }
        proof {
            assert(w <= 128);
        }
        width = width + w as u64;
        i = i + 1;
    }
    proof {
        assert(text@.take(n as int) =~= text@);
    }
    width
}


/// A control character anywhere in a text contributes exactly nothing to
/// its measured width, whatever the table holds.
pub proof fn lemma_control_char_contributes_nothing(a: Seq<char>, b: Seq<char>, c: char)
    requires
        is_control_char_spec(c as u32),
    ensures
        measure_spec(a + seq![c] + b) == measure_spec(a + b),
{
    reveal_with_fuel(measure_spec, 2);
    lemma_control_char_zero(c);
    assert(seq![c].drop_last() =~= Seq::<char>::empty());
    assert(measure_spec(seq![c]) == 0);
    lemma_measure_additive(a, seq![c]);
    lemma_measure_additive(a + seq![c], b);
    lemma_measure_additive(a, b);
}


} // verus!
