//! Colours as the painter takes them: red, green and blue with the opacity
//! multiplied in, and the opacity.
use vstd::prelude::*;

verus! {

/// A colour as it is painted.
#[derive(Clone, Copy, Debug, PartialEq, Eq, Structural)]
pub struct Rgba {
    pub r: u8,
    pub g: u8,
    pub b: u8,
    pub a: u8,
}

/// A channel with the opacity multiplied in: their product over 255, rounded. No
/// such product lies halfway between two numbers.
pub open spec fn premultiplied(value: u8, alpha: u8) -> u8 {
    ((2 * (value * alpha) + 255) / 510) as u8
}

/// Calls `egui::Color32::from_rgb`: the three channels as they are, and full
/// opacity.
#[verifier::external_body]
fn color32_from_rgb(r: u8, g: u8, b: u8) -> (c: [u8; 4])
    ensures
        c@ == seq![r, g, b, 255u8],
{
    egui::Color32::from_rgb(r, g, b).to_array()
}

/// Calls `egui::Color32::from_rgba_unmultiplied`: each channel becomes its product
/// with the opacity over 255, rounded, and the opacity stays as it is.
#[verifier::external_body]
fn color32_from_rgba_unmultiplied(r: u8, g: u8, b: u8, a: u8) -> (c: [u8; 4])
    ensures
        c@ == seq![premultiplied(r, a), premultiplied(g, a), premultiplied(b, a), a],
{
    egui::Color32::from_rgba_unmultiplied(r, g, b, a).to_array()
}

/// A colour that hides what is behind it.
pub open spec fn solid(r: u8, g: u8, b: u8) -> Rgba {
    Rgba { r, g, b, a: 255 }
}

/// A colour of the given opacity.
pub open spec fn shade(r: u8, g: u8, b: u8, a: u8) -> Rgba {
    Rgba { r: premultiplied(r, a), g: premultiplied(g, a), b: premultiplied(b, a), a }
}

/// Makes a colour that hides what is behind it.
pub fn opaque(r: u8, g: u8, b: u8) -> (c: Rgba)
    ensures
        c == solid(r, g, b),
{
    let channels = color32_from_rgb(r, g, b);
    Rgba { r: channels[0], g: channels[1], b: channels[2], a: channels[3] }
}

/// Full opacity leaves a channel as it is, and none clears it.
proof fn whole_or_nothing(value: u8)
    ensures
        premultiplied(value, 255) == value,
        premultiplied(value, 0) == 0,
{
    assert((2 * (value * 255) + 255) / 510 == value) by (nonlinear_arith)
        requires
            0 <= value <= 255,
    ;
}

/// Makes a colour of the given opacity.
pub fn translucent(r: u8, g: u8, b: u8, a: u8) -> (c: Rgba)
    ensures
        c == shade(r, g, b, a),
        a == 255 ==> c == solid(r, g, b),
        a == 0 ==> c == (Rgba { r: 0, g: 0, b: 0, a: 0 }),
{
    proof {
        whole_or_nothing(r);
        whole_or_nothing(g);
        whole_or_nothing(b);
    }
    let channels = color32_from_rgba_unmultiplied(r, g, b, a);
    Rgba { r: channels[0], g: channels[1], b: channels[2], a: channels[3] }
}

/// A channel with the opacity multiplied in is the nearest to its share of it, full
/// opacity leaves it as it is, and none clears it.
pub proof fn premultiplied_is_the_nearest(value: u8, alpha: u8)
    ensures
        -255 <= 2 * (255 * premultiplied(value, alpha) - value * alpha) <= 255,
        premultiplied(value, alpha) <= value,
        premultiplied(value, alpha) <= alpha,
        premultiplied(value, 255) == value,
        premultiplied(value, 0) == 0,
{
    let product = value * alpha;
    assert(0 <= product <= 255 * value && product <= 255 * alpha) by (nonlinear_arith)
        requires
            product == value * alpha,
            0 <= value <= 255,
            0 <= alpha <= 255,
    ;
    let p = (2 * product + 255) / 510;
    assert(510 * p <= 2 * product + 255 < 510 * p + 510);
    whole_or_nothing(value);
}

/// A solid colour keeps its channels and hides what is behind it; a colour of the given
/// opacity has each channel weighed by it in its own place.
pub proof fn colours_keep_their_channels(r: u8, g: u8, b: u8, a: u8)
    ensures
        solid(r, g, b).r == r && solid(r, g, b).g == g && solid(r, g, b).b == b,
        solid(r, g, b).a == 255,
        shade(r, g, b, a).r == premultiplied(r, a),
        shade(r, g, b, a).g == premultiplied(g, a),
        shade(r, g, b, a).b == premultiplied(b, a),
        shade(r, g, b, a).a == a,
{
}

} // verus!
