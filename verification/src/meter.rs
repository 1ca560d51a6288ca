//! The segmented level meters (IN and OUT): which segments are lit for a
//! given level and in which colour.
use vstd::prelude::*;
use crate::palette::{rgb, Rgba};

verus! {

/// Number of segments in one level meter, counted from the bottom.
pub const METER_SEGMENTS: usize = 24;

/// The appearance of one meter segment.
#[derive(Clone, Copy, Debug, PartialEq, Eq, Structural)]
pub enum SegmentColor {
    /// Lit, in the safe range (the lowest sixteen segments).
    Green,
    /// Lit, in the upper normal range (segments 16 to 18).
    Cyan,
    /// Lit, in the hot range (segments 19 to 21).
    Orange,
    /// Lit, in the clipping range (the top two segments).
    Red,
    /// Not lit.
    Unlit,
}

/// Colour of the segment at `index` (0 is the bottom one) when the lowest
/// `lit` segments are lit.
pub open spec fn segment_color_spec(index: int, lit: int) -> SegmentColor {
    if index >= lit {
        SegmentColor::Unlit
    } else if index < 16 {
        SegmentColor::Green
    } else if index < 19 {
        SegmentColor::Cyan
    } else if index < 22 {
        SegmentColor::Orange
    } else {
        SegmentColor::Red
    }
}

/// All segments of a meter, from the bottom, when the lowest `lit` are lit.
pub open spec fn meter_spec(lit: int) -> Seq<SegmentColor> {
    Seq::new(METER_SEGMENTS as nat, |i: int| segment_color_spec(i, lit))
}

/// Number of lit segments in `s`.
pub open spec fn lit_count(s: Seq<SegmentColor>) -> nat
    decreases s.len(),
{
    if s.len() == 0 {
        0
    } else {
        lit_count(s.drop_last()) + if s.last() is Unlit { 0nat } else { 1nat }
    }
}

/// Colour of the segment at `index` when the lowest `lit_limit` segments
/// are lit: unlit above the limit; below it green, cyan, orange or red by
/// height.
pub fn segment_color(index: usize, lit_limit: usize) -> (c: SegmentColor)
    ensures
        c == segment_color_spec(index as int, lit_limit as int),
{
    if index < lit_limit {
        if index < 16 {
            SegmentColor::Green
        } else if index < 19 {
            SegmentColor::Cyan
        } else if index < 22 {
            SegmentColor::Orange
        } else {
            SegmentColor::Red
        }
    } else {
        SegmentColor::Unlit
    }
}

/// The segments of a meter, from the bottom, when the lowest `lit_limit`
/// are lit.
pub fn meter_segments(lit_limit: usize) -> (v: Vec<SegmentColor>)
    ensures
        v@ == meter_spec(lit_limit as int),
{
    let mut v: Vec<SegmentColor> = Vec::new();
    let mut i: usize = 0;
    while i < METER_SEGMENTS
        invariant
            i <= METER_SEGMENTS,
            v@.len() == i,
            forall|j: int| 0 <= j < i ==> v@[j] == segment_color_spec(j, lit_limit as int),
        decreases METER_SEGMENTS - i,
    {
        v.push(segment_color(i, lit_limit));
        i = i + 1;
    }
    assert(v@ =~= meter_spec(lit_limit as int));
    v
}

/// The colour that paints a segment.
pub open spec fn segment_rgba_spec(c: SegmentColor) -> Rgba {
    match c {
        SegmentColor::Green => rgb(82, 236, 135),
        SegmentColor::Cyan => rgb(76, 223, 242),
        SegmentColor::Orange => rgb(252, 163, 61),
        SegmentColor::Red => rgb(255, 94, 94),
        SegmentColor::Unlit => rgb(203, 213, 220),
    }
}

/// The colour that paints a segment.
pub fn segment_rgba(c: SegmentColor) -> (r: Rgba)
    ensures
        r == segment_rgba_spec(c),
{
    match c {
        SegmentColor::Green => Rgba::opaque(82, 236, 135),
        SegmentColor::Cyan => Rgba::opaque(76, 223, 242),
        SegmentColor::Orange => Rgba::opaque(252, 163, 61),
        SegmentColor::Red => Rgba::opaque(255, 94, 94),
        SegmentColor::Unlit => Rgba::opaque(203, 213, 220),
    }
}

proof fn lit_count_of_threshold(s: Seq<SegmentColor>, lit: int)
    requires
        lit >= 0,
        forall|i: int| 0 <= i < s.len() ==> (s[i] is Unlit <==> i >= lit),
    ensures
        lit_count(s) == if lit < s.len() { lit as nat } else { s.len() },
    decreases s.len(),
{
    if s.len() > 0 {
        let t = s.drop_last();
        assert forall|i: int| 0 <= i < t.len() implies (t[i] is Unlit <==> i >= lit) by {
            assert(t[i] == s[i]);
        }
        lit_count_of_threshold(t, lit);
    }
}

/// A meter lights exactly `min(lit, 24)` segments, and the lit ones are
/// the lowest: a segment is lit if and only if every segment below it is.
pub proof fn meter_lights_a_prefix(lit: nat)
    ensures
        lit_count(meter_spec(lit as int)) == if lit < METER_SEGMENTS { lit } else {
            METER_SEGMENTS as nat
        },
        forall|i: int, j: int|
            0 <= i <= j < METER_SEGMENTS && !(#[trigger] meter_spec(lit as int)[j] is Unlit) ==> !(
            #[trigger] meter_spec(lit as int)[i] is Unlit),
{
    lit_count_of_threshold(meter_spec(lit as int), lit as int);
}

/// Colour bands go up the meter in the order green, cyan, orange, red:
/// a lit segment is never in a lower band than a lit segment below it.
pub proof fn meter_bands_rise(lit: int, i: int, j: int)
    requires
        0 <= i <= j < lit,
    ensures
        segment_color_spec(j, lit) is Green ==> segment_color_spec(i, lit) is Green,
        segment_color_spec(j, lit) is Cyan ==> segment_color_spec(i, lit) is Green
            || segment_color_spec(i, lit) is Cyan,
        segment_color_spec(i, lit) is Red ==> segment_color_spec(j, lit) is Red,
        segment_color_spec(i, lit) is Orange ==> segment_color_spec(j, lit) is Orange
            || segment_color_spec(j, lit) is Red,
{
}

} // verus!

verus! {

/// A lit segment's colour depends on its height alone, not on how many
/// segments are lit: the lowest sixteen are green, the next three cyan,
/// the next three orange and the top two red. Segments at or above the
/// limit are unlit.
pub proof fn segment_colour_by_height(index: int, lit: int)
    requires
        0 <= index,
    ensures
        index < lit && index < METER_SEGMENTS ==> segment_color_spec(index, lit)
            == segment_color_spec(index, METER_SEGMENTS as int),
        index < lit && index < 16 ==> segment_color_spec(index, lit) == SegmentColor::Green,
        index < lit && 16 <= index < 19 ==> segment_color_spec(index, lit) == SegmentColor::Cyan,
        index < lit && 19 <= index < 22 ==> segment_color_spec(index, lit) == SegmentColor::Orange,
        index < lit && 22 <= index ==> segment_color_spec(index, lit) == SegmentColor::Red,
        index >= lit ==> segment_color_spec(index, lit) == SegmentColor::Unlit,
{
}

/// The meter has 24 segments, and segment `i` is unlit at or above the
/// limit and otherwise green, cyan, orange or red by its height.
pub proof fn meter_segments_by_height(lit: int)
    ensures
        meter_spec(lit).len() == METER_SEGMENTS,
        forall|i: int|
            0 <= i < METER_SEGMENTS ==> {
                &&& (#[trigger] meter_spec(lit)[i] == SegmentColor::Unlit <==> i >= lit)
                &&& (i < lit && i < 16 ==> meter_spec(lit)[i] == SegmentColor::Green)
                &&& (i < lit && 16 <= i < 19 ==> meter_spec(lit)[i] == SegmentColor::Cyan)
                &&& (i < lit && 19 <= i < 22 ==> meter_spec(lit)[i] == SegmentColor::Orange)
                &&& (i < lit && 22 <= i ==> meter_spec(lit)[i] == SegmentColor::Red)
            },
{
}

} // verus!

verus! {

/// The five segment colours are paint colours that differ from one
/// another, all opaque: green (82, 236, 135), cyan (76, 223, 242), orange
/// (252, 163, 61), red (255, 94, 94), unlit grey (203, 213, 220).
pub proof fn segment_paint_values(c: SegmentColor)
    ensures
        segment_rgba_spec(c).a == 255,
        c is Green ==> segment_rgba_spec(c) == (Rgba { r: 82, g: 236, b: 135, a: 255 }),
        c is Cyan ==> segment_rgba_spec(c) == (Rgba { r: 76, g: 223, b: 242, a: 255 }),
        c is Orange ==> segment_rgba_spec(c) == (Rgba { r: 252, g: 163, b: 61, a: 255 }),
        c is Red ==> segment_rgba_spec(c) == (Rgba { r: 255, g: 94, b: 94, a: 255 }),
        c is Unlit ==> segment_rgba_spec(c) == (Rgba { r: 203, g: 213, b: 220, a: 255 }),
        forall|d: SegmentColor| d != c ==> segment_rgba_spec(d) != segment_rgba_spec(c),
{
}

} // verus!
