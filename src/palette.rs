use vstd::prelude::*;

verus! {

/// The colors offered as swatches, in display order.
pub open spec fn palette_colors() -> Seq<Seq<char>> {
    seq!["black"@, "red"@, "green"@, "blue"@, "#abd2e4"@]
}

/// The stroke widths offered as swatches, in display order.
pub open spec fn width_presets() -> Seq<u32> {
    seq![2u32, 6u32, 10u32, 25u32]
}

/// The color swatches, in display order.
pub fn palette() -> (r: Vec<String>)
    ensures
        r@.map_values(|c: String| c@) == palette_colors(),
{
    let r = vec![
        String::from_str("black"),
        String::from_str("red"),
        String::from_str("green"),
        String::from_str("blue"),
        String::from_str("#abd2e4"),
    ];
    assert(r@.map_values(|c: String| c@) =~= palette_colors());
    r
}

/// The width swatches, in display order.
pub fn size_presets() -> (r: Vec<u32>)
    ensures
        r@ == width_presets(),
{
    let r = vec![2u32, 6u32, 10u32, 25u32];
    assert(r@ =~= width_presets());
    r
}

} // verus!
