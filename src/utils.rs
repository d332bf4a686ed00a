use vstd::prelude::*;

verus! {

/// A rectangle by its four edges. Edges are not normalized: a rectangle
/// whose right edge lies left of its left edge is kept as it is.
#[derive(Clone, Copy, Debug, PartialEq, Eq, Structural)]
pub struct Rect {
    pub left: i64,
    pub top: i64,
    pub right: i64,
    pub bottom: i64,
}

/// The packed color value of a red, green and blue byte: red in the lowest
/// byte, then green, then blue.
pub open spec fn packed_rgb(r: u8, g: u8, b: u8) -> int {
    r as int + 256 * (g as int) + 65536 * (b as int)
}

/// Packs a color as the platform's `RGB` helper does.
pub fn rgb_to_colorref(r: u8, g: u8, b: u8) -> (c: u32)
    ensures
        c as int == packed_rgb(r, g, b),
        c < 0x0100_0000,
{
    r as u32 + 256 * (g as u32) + 65536 * (b as u32)
}

/// A rectangle from an origin and extents: right is `x + w`, bottom is `y + h`.
pub fn create_rect(x: i32, y: i32, w: i32, h: i32) -> (r: Rect)
    ensures
        r.left == x,
        r.top == y,
        r.right == x + w,
        r.bottom == y + h,
{
    Rect { left: x as i64, top: y as i64, right: x as i64 + w as i64, bottom: y as i64 + h as i64 }
}

/// The UTF-16 code units of a string, as the standard library encodes it.
pub uninterp spec fn utf16_of(s: Seq<char>) -> Seq<u16>;

/// Relies on `str::encode_utf16`: the code units depend on the characters
/// alone, and an empty string has none.
#[verifier::external_body]
fn encode_utf16(s: &str) -> (r: Vec<u16>)
    ensures
        r@ == utf16_of(s@),
        s@.len() == 0 ==> r@.len() == 0,
{
    s.encode_utf16().collect()
}

/// Appends the terminating zero unit that wide-string APIs expect.
pub fn nul_terminated(units: Vec<u16>) -> (r: Vec<u16>)
    ensures
        r@ == units@.push(0u16),
{
    let mut v = units;
    v.push(0);
    v
}

/// A zero-terminated UTF-16 copy of `input`.
pub fn to_utf16(input: &str) -> (r: Vec<u16>)
    ensures
        r@ == utf16_of(input@).push(0u16),
{
    nul_terminated(encode_utf16(input))
}

/// Relies on `random_number::random_exclusively`: it samples
/// `rand::distributions::Uniform::new(lo, hi)`, which yields a value in
/// `[lo, hi)` and panics unless `lo < hi`.
#[verifier::external_body]
fn random_below(lo: i64, hi: i64) -> (r: i64)
    requires
        lo < hi,
    ensures
        lo <= r < hi,
{
    random_number::random_exclusively::<i64, i64, i64>(lo, hi)
}

/// Whether `v` is a value that a draw from the half-open range `[lo, hi)`
/// may give: a value of the range, or zero where the range is empty.
pub open spec fn fits(lo: int, hi: int, v: int) -> bool {
    if lo < hi {
        lo <= v < hi
    } else {
        v == 0
    }
}

/// A uniform draw from `[lo, hi)`; an empty range gives zero.
pub fn draw(lo: i64, hi: i64) -> (r: i64)
    ensures
        fits(lo as int, hi as int, r as int),
{
    if lo < hi {
        random_below(lo, hi)
    } else {
        0
    }
}

/// A random color: each of its three bytes drawn uniformly from `[0, 256)`.
pub fn random_color() -> (c: u32)
    ensures
        exists|r: u8, g: u8, b: u8| c as int == packed_rgb(r, g, b),
{
    let r = draw(0, 256);
    let g = draw(0, 256);
    let b = draw(0, 256);
    rgb_to_colorref(r as u8, g as u8, b as u8)
}

} // verus!
