//! The table of precomposed single-character fractions and the binary
//! search over it.
use vstd::prelude::*;

verus! {

/// Lexicographic order on `(numerator, denominator)` keys: the order the
/// table is sorted by and the binary search compares with.
pub open spec fn key_lt(a: (i64, i64), b: (i64, i64)) -> bool {
    a.0 < b.0 || (a.0 == b.0 && a.1 < b.1)
}

/// The precomposed fractions, each `((numerator, denominator), glyph)`,
/// strictly sorted by key.
pub open spec fn spec_single_character_fractions() -> Seq<((i64, i64), char)> {
    seq![
        ((0, 3), '\u{2189}'),
        ((1, 2), '\u{00BD}'),
        ((1, 3), '\u{2153}'),
        ((1, 4), '\u{00BC}'),
        ((1, 5), '\u{2155}'),
        ((1, 6), '\u{2159}'),
        ((1, 7), '\u{2150}'),
        ((1, 8), '\u{215B}'),
        ((1, 9), '\u{2151}'),
        ((1, 10), '\u{2152}'),
        ((2, 3), '\u{2154}'),
        ((2, 5), '\u{2156}'),
        ((3, 4), '\u{00BE}'),
        ((3, 5), '\u{2157}'),
        ((3, 8), '\u{215C}'),
        ((4, 5), '\u{2158}'),
        ((5, 6), '\u{215A}'),
        ((5, 8), '\u{215D}'),
        ((7, 8), '\u{215E}'),
    ]
}

/// The glyph the table holds for a key: the glyph of the first entry whose
/// key matches, or `None` when no entry matches.
pub open spec fn spec_lookup_in(entries: Seq<((i64, i64), char)>, numerator: i64, denominator: i64) -> Option<char>
    decreases entries.len(),
{
    if entries.len() == 0 {
        None
    } else if entries.first().0 == (numerator, denominator) {
        Some(entries.first().1)
    } else {
        spec_lookup_in(entries.drop_first(), numerator, denominator)
    }
}

/// The glyph of the single-character fraction for a pair, if the table has
/// one.
pub open spec fn spec_lookup(numerator: i64, denominator: i64) -> Option<char> {
    spec_lookup_in(spec_single_character_fractions(), numerator, denominator)
}

/// The table is strictly sorted by `(numerator, denominator)`, so the keys
/// are pairwise distinct and binary search finds exactly the matching entry.
pub proof fn lemma_table_sorted()
    ensures
        forall|i: int, j: int|
            0 <= i < j < spec_single_character_fractions().len() ==> key_lt(
                #[trigger] spec_single_character_fractions()[i].0,
                #[trigger] spec_single_character_fractions()[j].0,
            ),
{
    let t = spec_single_character_fractions();
    assert forall|i: int, j: int| 0 <= i < j < t.len() implies key_lt(
        #[trigger] t[i].0,
        #[trigger] t[j].0,
    ) by {
        lemma_adjacent_sorted_implies_sorted(t, i, j);
    }
}

/// In a sequence whose adjacent keys are in order, every earlier key is
/// below every later one.
proof fn lemma_adjacent_sorted_implies_sorted(entries: Seq<((i64, i64), char)>, i: int, j: int)
    requires
        0 <= i < j < entries.len(),
        forall|k: int|
            0 <= k < entries.len() - 1 ==> key_lt(
                #[trigger] entries[k].0,
                entries[k + 1].0,
            ),
    ensures
        key_lt(entries[i].0, entries[j].0),
    decreases j - i,
{
    if j > i + 1 {
        lemma_adjacent_sorted_implies_sorted(entries, i, j - 1);
        assert(key_lt(entries[j - 1].0, entries[j].0));
    }
}

/// A sequence without the key returns `None`.
proof fn lemma_lookup_in_none(entries: Seq<((i64, i64), char)>, numerator: i64, denominator: i64)
    requires
        forall|i: int| 0 <= i < entries.len() ==> (#[trigger] entries[i].0) != (numerator, denominator),
    ensures
        spec_lookup_in(entries, numerator, denominator) is None,
    decreases entries.len(),
{
    if entries.len() > 0 {
        assert(entries[0].0 != (numerator, denominator));
        lemma_lookup_in_none(entries.drop_first(), numerator, denominator);
    }
}

/// In a strictly sorted sequence, a matching entry is what the lookup
/// returns.
proof fn lemma_lookup_in_found(
    entries: Seq<((i64, i64), char)>,
    numerator: i64,
    denominator: i64,
    i: int,
)
    requires
        0 <= i < entries.len(),
        entries[i].0 == (numerator, denominator),
        forall|p: int, q: int|
            0 <= p < q < entries.len() ==> key_lt(
                #[trigger] entries[p].0,
                #[trigger] entries[q].0,
            ),
    ensures
        spec_lookup_in(entries, numerator, denominator) == Some(entries[i].1),
    decreases entries.len(),
{
    if i > 0 {
        assert(key_lt(entries[0].0, entries[i].0));
        lemma_lookup_in_found(entries.drop_first(), numerator, denominator, i - 1);
    }
}

/// A pair that is the key of entry `i` of the table looks up to that
/// entry's glyph.
pub proof fn lemma_lookup_found(numerator: i64, denominator: i64, i: int)
    requires
        0 <= i < spec_single_character_fractions().len(),
        spec_single_character_fractions()[i].0 == (numerator, denominator),
    ensures
        spec_lookup(numerator, denominator) == Some(spec_single_character_fractions()[i].1),
{
    lemma_table_sorted();
    lemma_lookup_in_found(spec_single_character_fractions(), numerator, denominator, i);
}

/// A pair that is the key of no entry of the table looks up to nothing.
pub proof fn lemma_lookup_none(numerator: i64, denominator: i64)
    requires
        forall|i: int|
            0 <= i < spec_single_character_fractions().len()
                ==> (#[trigger] spec_single_character_fractions()[i].0) != (
            numerator,
            denominator,
            ),
    ensures
        spec_lookup(numerator, denominator) is None,
{
    lemma_lookup_in_none(spec_single_character_fractions(), numerator, denominator);
}

/// The table as executable data, in the order the specification gives it.
pub fn single_character_fractions() -> (entries: Vec<((i64, i64), char)>)
    ensures
        entries@ == spec_single_character_fractions(),
{
    let mut entries: Vec<((i64, i64), char)> = Vec::new();
    entries.push(((0, 3), '\u{2189}'));
    entries.push(((1, 2), '\u{00BD}'));
    entries.push(((1, 3), '\u{2153}'));
    entries.push(((1, 4), '\u{00BC}'));
    entries.push(((1, 5), '\u{2155}'));
    entries.push(((1, 6), '\u{2159}'));
    entries.push(((1, 7), '\u{2150}'));
    entries.push(((1, 8), '\u{215B}'));
    entries.push(((1, 9), '\u{2151}'));
    entries.push(((1, 10), '\u{2152}'));
    entries.push(((2, 3), '\u{2154}'));
    entries.push(((2, 5), '\u{2156}'));
    entries.push(((3, 4), '\u{00BE}'));
    entries.push(((3, 5), '\u{2157}'));
    entries.push(((3, 8), '\u{215C}'));
    entries.push(((4, 5), '\u{2158}'));
    entries.push(((5, 6), '\u{215A}'));
    entries.push(((5, 8), '\u{215D}'));
    entries.push(((7, 8), '\u{215E}'));
    assert(entries@ =~= spec_single_character_fractions());
    entries
}

/// Binary search over the sorted table for an exact
/// `(numerator, denominator)` match. Only exact key matches count: a pair
/// equal in value to an entry but not in representation (such as two
/// quarters against one half) finds nothing.
pub fn find_single_character_fraction(numerator: i64, denominator: i64) -> (glyph: Option<char>)
    ensures
        glyph == spec_lookup(numerator, denominator),
{
    proof {
        lemma_table_sorted();
    }
    let entries = single_character_fractions();
    let ghost t = spec_single_character_fractions();
    let mut low: usize = 0;
    let mut high: usize = entries.len();
    while low < high
        invariant
            low <= high <= entries@.len(),
            entries@ == t,
            t == spec_single_character_fractions(),
            forall|k: int| 0 <= k < low ==> key_lt(#[trigger] t[k].0, (numerator, denominator)),
            forall|k: int|
                high <= k < t.len() ==> key_lt((numerator, denominator), #[trigger] t[k].0),
            forall|p: int, q: int|
                0 <= p < q < t.len() ==> key_lt(#[trigger] t[p].0, #[trigger] t[q].0),
        decreases high - low,
    {
        let mid = low + (high - low) / 2;
        let ((entry_numerator, entry_denominator), entry_glyph) = entries[mid];
        if entry_numerator < numerator
            || (entry_numerator == numerator && entry_denominator < denominator) {
            proof {
                assert forall|k: int| 0 <= k < mid + 1 implies key_lt(
                    #[trigger] t[k].0,
                    (numerator, denominator),
                ) by {
                    if k < mid {
                        assert(key_lt(t[k].0, t[mid as int].0));
                    }
                }
            }
            low = mid + 1;
        } else if numerator < entry_numerator
            || (numerator == entry_numerator && denominator < entry_denominator) {
            proof {
                assert forall|k: int| mid <= k < t.len() implies key_lt(
                    (numerator, denominator),
                    #[trigger] t[k].0,
                ) by {
                    if k > mid {
                        assert(key_lt(t[mid as int].0, t[k].0));
                    }
                }
            }
            high = mid;
        } else {
            proof {
                lemma_lookup_in_found(t, numerator, denominator, mid as int);
            }
            return Some(entry_glyph);
        }
    }
    proof {
        assert forall|k: int| 0 <= k < t.len() implies (#[trigger] t[k].0) != (
            numerator,
            denominator,
        ) by {
            if k < low {
                assert(key_lt(t[k].0, (numerator, denominator)));
            } else {
                assert(key_lt((numerator, denominator), t[k].0));
            }
        }
        lemma_lookup_in_none(t, numerator, denominator);
    }
    None
}

} // verus!
