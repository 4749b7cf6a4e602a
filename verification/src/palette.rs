//! The canvas palette: sixteen fixed colours, each known by its index.

use vstd::prelude::*;

verus! {

/// Number of colours that the canvas accepts.
pub const PALETTE_SIZE: u8 = 16;

/// The colour table, index by index, as (red, green, blue).
pub open spec fn palette_entry(i: int) -> (u8, u8, u8) {
    if i == 0 {
        (255u8, 255u8, 255u8)
    } else if i == 1 {
        (228u8, 228u8, 228u8)
    } else if i == 2 {
        (136u8, 136u8, 136u8)
    } else if i == 3 {
        (34u8, 34u8, 34u8)
    } else if i == 4 {
        (255u8, 167u8, 209u8)
    } else if i == 5 {
        (229u8, 0u8, 0u8)
    } else if i == 6 {
        (229u8, 149u8, 0u8)
    } else if i == 7 {
        (160u8, 106u8, 66u8)
    } else if i == 8 {
        (229u8, 217u8, 0u8)
    } else if i == 9 {
        (148u8, 224u8, 68u8)
    } else if i == 10 {
        (2u8, 190u8, 1u8)
    } else if i == 11 {
        (0u8, 211u8, 221u8)
    } else if i == 12 {
        (0u8, 131u8, 199u8)
    } else if i == 13 {
        (0u8, 0u8, 234u8)
    } else if i == 14 {
        (207u8, 110u8, 228u8)
    } else {
        (130u8, 0u8, 128u8)
    }
}

/// Whether some palette entry is exactly this colour.
pub open spec fn in_palette(r: u8, g: u8, b: u8) -> bool {
    exists|i: int| 0 <= i < 16 && palette_entry(i) == (r, g, b)
}

/// The palette index that stands for a colour: the index of the entry equal
/// to it, and 0 for a colour that the palette does not hold.
pub open spec fn palette_index(r: u8, g: u8, b: u8) -> u8 {
    if in_palette(r, g, b) {
        (choose|i: int| 0 <= i < 16 && palette_entry(i) == (r, g, b)) as u8
    } else {
        0u8
    }
}

/// The colour of palette entry `i`.
pub fn palette_color(i: u8) -> (c: (u8, u8, u8))
    requires
        i < PALETTE_SIZE,
    ensures
        c == palette_entry(i as int),
{
    if i == 0 {
        (255, 255, 255)
    } else if i == 1 {
        (228, 228, 228)
    } else if i == 2 {
        (136, 136, 136)
    } else if i == 3 {
        (34, 34, 34)
    } else if i == 4 {
        (255, 167, 209)
    } else if i == 5 {
        (229, 0, 0)
    } else if i == 6 {
        (229, 149, 0)
    } else if i == 7 {
        (160, 106, 66)
    } else if i == 8 {
        (229, 217, 0)
    } else if i == 9 {
        (148, 224, 68)
    } else if i == 10 {
        (2, 190, 1)
    } else if i == 11 {
        (0, 211, 221)
    } else if i == 12 {
        (0, 131, 199)
    } else if i == 13 {
        (0, 0, 234)
    } else if i == 14 {
        (207, 110, 228)
    } else {
        (130, 0, 128)
    }
}

/// No two palette entries hold the same colour.
pub proof fn palette_entries_distinct(i: int, j: int)
    requires
        0 <= i < 16,
        0 <= j < 16,
        palette_entry(i) == palette_entry(j),
    ensures
        i == j,
{
}

/// A colour taken from the palette is found again under its own index.
pub proof fn palette_index_of_entry(i: int)
    requires
        0 <= i < 16,
    ensures
        palette_index(palette_entry(i).0, palette_entry(i).1, palette_entry(i).2) == i,
{
    let c = palette_entry(i);
    assert(palette_entry(i) == (c.0, c.1, c.2));
    let k = choose|k: int| 0 <= k < 16 && palette_entry(k) == (c.0, c.1, c.2);
    palette_entries_distinct(k, i);
}

/// A colour that the palette does not hold falls back to index 0.
pub proof fn palette_index_of_stranger(r: u8, g: u8, b: u8)
    requires
        forall|i: int| 0 <= i < 16 ==> palette_entry(i) != (r, g, b),
    ensures
        palette_index(r, g, b) == 0,
{
}

/// Finds the palette index of a colour. `matched` tells whether the palette
/// holds the colour; where it does not, the index is 0.
pub fn quantize(r: u8, g: u8, b: u8) -> (found: (u8, bool))
    ensures
        found.0 == palette_index(r, g, b),
        found.1 == in_palette(r, g, b),
        found.0 < PALETTE_SIZE,
{
    let mut i: u8 = 0;
    while i < PALETTE_SIZE
        invariant
            i <= PALETTE_SIZE,
            forall|k: int| 0 <= k < i ==> palette_entry(k) != (r, g, b),
        decreases PALETTE_SIZE - i,
    {
        let c = palette_color(i);
        if c.0 == r && c.1 == g && c.2 == b {
            proof {
                assert(palette_entry(i as int) == (r, g, b));
                let k = choose|k: int| 0 <= k < 16 && palette_entry(k) == (r, g, b);
                palette_entries_distinct(k, i as int);
            }
            return (i, true);
        }
        i = i + 1;
    }
    (0, false)
}

} // verus!
