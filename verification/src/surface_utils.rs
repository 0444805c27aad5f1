//! Pixels with four 8-bit channels, and the arithmetic on them that
//! compositing needs.
//!
//! Every operation is exact integer arithmetic. A pixel does not record whether
//! its colour channels are premultiplied by its alpha: the caller keeps track.

use vstd::prelude::*;

verus! {

/// How the value of a pixel outside an image is found.
#[derive(Debug, Clone, Copy, PartialEq, Eq, Structural)]
pub enum EdgeMode {
    /// The nearest pixel inside the image.
    Duplicate,
    /// The image repeats in both directions.
    Wrap,
    /// All four channels are zero.
    Transparent,
}

/// A pixel of red, green, blue and alpha.
#[derive(Debug, Clone, Copy, PartialEq, Eq, Structural)]
pub struct Pixel {
    pub r: u8,
    pub g: u8,
    pub b: u8,
    pub a: u8,
}

/// `x * a / 255`, rounded to the nearest integer, halves upwards.
pub open spec fn premultiplied(x: u8, a: u8) -> int {
    (2 * x * a + 255) / 510
}

/// `x * 255 / a`, rounded to the nearest integer, halves upwards, and no more
/// than 255.
pub open spec fn unpremultiplied(x: u8, a: u8) -> int
    recommends
        a != 0,
{
    let q = (510 * x + a) / (2 * a);
    if q > 255 {
        255
    } else {
        q
    }
}

/// The luminance of linear red, green and blue, scaled by an opacity, as an
/// alpha value. The weights are 0.2126, 0.7152 and 0.0722 times 2^32 / 255^2,
/// so that white at full opacity gives 255.
pub open spec fn luminance(r: u8, g: u8, b: u8, opacity: u8) -> int {
    ((r * 14042 + g * 47240 + b * 4769) * opacity) / 0x100_0000
}

/// The distance between two channel values.
pub open spec fn distance(x: u8, y: u8) -> int {
    if x >= y {
        x - y
    } else {
        y - x
    }
}

impl Pixel {
    pub open spec fn spec_premultiply(self) -> Pixel {
        Pixel {
            r: premultiplied(self.r, self.a) as u8,
            g: premultiplied(self.g, self.a) as u8,
            b: premultiplied(self.b, self.a) as u8,
            a: self.a,
        }
    }

    pub open spec fn spec_unpremultiply(self) -> Pixel {
        if self.a == 0 {
            self
        } else {
            Pixel {
                r: unpremultiplied(self.r, self.a) as u8,
                g: unpremultiplied(self.g, self.a) as u8,
                b: unpremultiplied(self.b, self.a) as u8,
                a: self.a,
            }
        }
    }

    pub open spec fn spec_to_mask(self, opacity: u8) -> Pixel {
        Pixel { r: 0, g: 0, b: 0, a: luminance(self.r, self.g, self.b, opacity) as u8 }
    }

    pub open spec fn spec_diff(self, other: Pixel) -> Pixel {
        Pixel {
            r: distance(self.r, other.r) as u8,
            g: distance(self.g, other.g) as u8,
            b: distance(self.b, other.b) as u8,
            a: distance(self.a, other.a) as u8,
        }
    }

    /// The pixel as one number: alpha in the highest byte, then red, green and
    /// blue.
    pub open spec fn spec_to_u32(self) -> int {
        self.a * 0x100_0000 + self.r * 0x1_0000 + self.g * 0x100 + self.b
    }

    pub open spec fn spec_from_u32(x: u32) -> Pixel {
        Pixel {
            r: ((x / 0x1_0000) % 0x100) as u8,
            g: ((x / 0x100) % 0x100) as u8,
            b: (x % 0x100) as u8,
            a: (x / 0x100_0000) as u8,
        }
    }

    pub fn new(r: u8, g: u8, b: u8, a: u8) -> (p: Pixel)
        ensures
            p == (Pixel { r, g, b, a }),
    {
        Pixel { r, g, b, a }
    }
}

impl Default for Pixel {
    fn default() -> (p: Pixel)
        ensures
            p == (Pixel { r: 0, g: 0, b: 0, a: 0 }),
    {
        Pixel { r: 0, g: 0, b: 0, a: 0 }
    }
}

proof fn lemma_product_bound(x: u8, a: u8)
    ensures
        0 <= x * a <= 65025,
{
    assert(0 <= x * a <= 65025) by (nonlinear_arith)
        requires
            0 <= x <= 255,
            0 <= a <= 255,
    ;
}

proof fn lemma_premultiplied_bounds(x: u8, a: u8)
    ensures
        0 <= premultiplied(x, a) <= 255,
        premultiplied(x, a) <= a,
{
    lemma_product_bound(x, a);
    assert(2 * x * a == 2 * (x * a)) by (nonlinear_arith);
    assert(x * a <= 255 * a) by (nonlinear_arith)
        requires
            0 <= x <= 255,
            0 <= a,
    ;
}

proof fn lemma_luminance_bounds(r: u8, g: u8, b: u8, opacity: u8)
    ensures
        0 <= (r * 14042 + g * 47240 + b * 4769) * opacity <= 0xffff_fc03,
        0 <= luminance(r, g, b, opacity) <= 255,
{
    let s = r * 14042 + g * 47240 + b * 4769;
    assert(0 <= s <= 16843005);
    assert(0 <= s * opacity <= 16843005 * 255) by (nonlinear_arith)
        requires
            0 <= s <= 16843005,
            0 <= opacity <= 255,
    ;
}

proof fn lemma_pack(a: u32, r: u32, g: u32, b: u32, x: u32)
    requires
        a < 256,
        r < 256,
        g < 256,
        b < 256,
        x == (a << 24) | (r << 16) | (g << 8) | b,
    ensures
        x == a * 0x100_0000 + r * 0x1_0000 + g * 0x100 + b,
        x / 0x100_0000 == a,
        (x / 0x1_0000) % 0x100 == r,
        (x / 0x100) % 0x100 == g,
        x % 0x100 == b,
{
    assert(x == a * 0x100_0000 + r * 0x1_0000 + g * 0x100 + b && x
        / 0x100_0000 == a && (x / 0x1_0000) % 0x100 == r && (x / 0x100) % 0x100 == g && x % 0x100
        == b) by (bit_vector)
        requires
            a < 256,
            r < 256,
            g < 256,
            b < 256,
            x == (a << 24) | (r << 16) | (g << 8) | b,
    ;
}

proof fn lemma_unpack(x: u32, a: u32, r: u32, g: u32, b: u32)
    requires
        r == (x >> 16) & 0xFF,
        g == (x >> 8) & 0xFF,
        b == x & 0xFF,
        a == (x >> 24) & 0xFF,
    ensures
        a < 256,
        r < 256,
        g < 256,
        b < 256,
        a == x / 0x100_0000,
        r == (x / 0x1_0000) % 0x100,
        g == (x / 0x100) % 0x100,
        b == x % 0x100,
        x == a * 0x100_0000 + r * 0x1_0000 + g * 0x100 + b,
{
    assert(a < 256 && r < 256 && g < 256 && b < 256 && a == x / 0x100_0000 && r == (x / 0x1_0000)
        % 0x100 && g == (x / 0x100) % 0x100 && b == x % 0x100 && x == (a << 24) | (r << 16) | (g
        << 8) | b) by (bit_vector)
        requires
            r == (x >> 16) & 0xFF,
            g == (x >> 8) & 0xFF,
            b == x & 0xFF,
            a == (x >> 24) & 0xFF,
    ;
    lemma_pack(a, r, g, b, x);
}

fn premultiply_channel(x: u8, a: u8) -> (y: u8)
    ensures
        y == premultiplied(x, a),
{
    proof {
        lemma_premultiplied_bounds(x, a);
        lemma_product_bound(x, a);
        assert(2 * x * a == 2 * (x * a)) by (nonlinear_arith);
    }
    let xa: u32 = (x as u32) * (a as u32);
    ((2 * xa + 255) / 510) as u8
}

fn unpremultiply_channel(x: u8, a: u8) -> (y: u8)
    requires
        a != 0,
    ensures
        y == unpremultiplied(x, a),
{
    let q: u32 = (510 * (x as u32) + (a as u32)) / (2 * (a as u32));
    if q > 255 {
        255
    } else {
        q as u8
    }
}

fn channel_distance(x: u8, y: u8) -> (d: u8)
    ensures
        d == distance(x, y),
{
    if x >= y {
        x - y
    } else {
        y - x
    }
}

/// The operations on a pixel.
pub trait PixelOps: Sized {
    /// Scales red, green and blue by alpha / 255.
    fn premultiply(self) -> Self;

    /// Divides red, green and blue by alpha / 255.
    fn unpremultiply(self) -> Self;

    /// The pixel's luminance as a pixel with nothing but alpha.
    fn to_mask(self, opacity: u8) -> Self;

    /// The distance to another pixel, channel by channel.
    fn diff(self, other: &Self) -> Self;

    /// Packs the pixel into one word.
    fn to_u32(self) -> u32;

    /// Unpacks a word into a pixel.
    fn from_u32(x: u32) -> Self;
}

impl PixelOps for Pixel {
    /// Each of red, green and blue becomes itself times alpha / 255, rounded to
    /// the nearest integer, halves upwards. Alpha stays.
    fn premultiply(self) -> (out: Pixel)
        ensures
            out == self.spec_premultiply(),
    {
        Pixel {
            r: premultiply_channel(self.r, self.a),
            g: premultiply_channel(self.g, self.a),
            b: premultiply_channel(self.b, self.a),
            a: self.a,
        }
    }

    /// Each of red, green and blue becomes itself times 255 / alpha, rounded to
    /// the nearest integer, halves upwards, and at most 255. Alpha stays. A
    /// pixel whose alpha is zero is returned as it is.
    fn unpremultiply(self) -> (out: Pixel)
        ensures
            out == self.spec_unpremultiply(),
            self.a == 0 ==> out == self,
    {
        if self.a == 0 {
            self
        } else {
            Pixel {
                r: unpremultiply_channel(self.r, self.a),
                g: unpremultiply_channel(self.g, self.a),
                b: unpremultiply_channel(self.b, self.a),
                a: self.a,
            }
        }
    }

    /// Red, green and blue are taken as linear light. The result's alpha is
    /// `((r * 14042 + g * 47240 + b * 4769) * opacity) >> 24`, its other
    /// channels are zero.
    fn to_mask(self, opacity: u8) -> (out: Pixel)
        ensures
            out == self.spec_to_mask(opacity),
    {
        let r: u32 = self.r as u32;
        let g: u32 = self.g as u32;
        let b: u32 = self.b as u32;
        let o: u32 = opacity as u32;
        proof {
            lemma_luminance_bounds(self.r, self.g, self.b, opacity);
        }
        let weighted: u32 = (r * 14042 + g * 47240 + b * 4769) * o;
        let alpha: u32 = weighted >> 24;
        assert(alpha == weighted / 0x100_0000) by (bit_vector)
            requires
                alpha == weighted >> 24,
        ;
        Pixel { r: 0, g: 0, b: 0, a: alpha as u8 }
    }

    fn diff(self, other: &Pixel) -> (out: Pixel)
        ensures
            out == self.spec_diff(*other),
    {
        Pixel {
            r: channel_distance(self.r, other.r),
            g: channel_distance(self.g, other.g),
            b: channel_distance(self.b, other.b),
            a: channel_distance(self.a, other.a),
        }
    }

    /// Alpha goes to the highest byte, then red, green and blue.
    fn to_u32(self) -> (x: u32)
        ensures
            x == self.spec_to_u32(),
            Pixel::spec_from_u32(x) == self,
    {
        let a: u32 = self.a as u32;
        let r: u32 = self.r as u32;
        let g: u32 = self.g as u32;
        let b: u32 = self.b as u32;
        let x: u32 = (a << 24) | (r << 16) | (g << 8) | b;
        proof {
            lemma_pack(a, r, g, b, x);
        }
        x
    }

    /// The inverse of `to_u32`.
    fn from_u32(x: u32) -> (out: Pixel)
        ensures
            out == Pixel::spec_from_u32(x),
            out.spec_to_u32() == x,
    {
        let r: u32 = (x >> 16) & 0xFF;
        let g: u32 = (x >> 8) & 0xFF;
        let b: u32 = x & 0xFF;
        let a: u32 = (x >> 24) & 0xFF;
        proof {
            lemma_unpack(x, a, r, g, b);
        }
        Pixel { r: r as u8, g: g as u8, b: b as u8, a: a as u8 }
    }
}

proof fn lemma_channel_round_trip(x: u8, a: u8)
    requires
        a != 0,
        x <= a,
    ensures
        0 <= unpremultiplied(x, a) <= 255,
        premultiplied(unpremultiplied(x, a) as u8, a) == x,
{
    let q = (510 * x + a) / (2 * a);
    assert(2 * a * q <= 510 * x + a < 2 * a * q + 2 * a && 0 <= q <= 255) by (nonlinear_arith)
        requires
            q == (510 * x + a) / (2 * a),
            0 < a <= 255,
            0 <= x <= a,
    ;
    assert(unpremultiplied(x, a) == q);
    let u = q as u8;
    assert(2 * u * a == 2 * a * q) by (nonlinear_arith)
        requires
            u == q,
    ;
    if a == 255 {
        assert(2 * a * q == 510 * q) by (nonlinear_arith)
            requires
                a == 255,
        ;
        assert(q == x);
    }
    assert(510 * x <= 2 * u * a + 255 < 510 * x + 510);
}

/// Premultiplying undoes unpremultiplying: for a pixel whose alpha is not zero
/// and whose red, green and blue are no larger than its alpha, as they are in
/// every premultiplied pixel, unpremultiplying and then premultiplying gives
/// the pixel back.
pub proof fn premultiply_undoes_unpremultiply(p: Pixel)
    requires
        p.a != 0,
        p.r <= p.a,
        p.g <= p.a,
        p.b <= p.a,
    ensures
        p.spec_unpremultiply().spec_premultiply() == p,
{
    lemma_channel_round_trip(p.r, p.a);
    lemma_channel_round_trip(p.g, p.a);
    lemma_channel_round_trip(p.b, p.a);
}

/// No other pixel comes back: premultiplying never leaves a channel above
/// alpha, so a pixel that survives the round trip has red, green and blue no
/// larger than its alpha.
pub proof fn round_trip_keeps_only_premultiplied(p: Pixel)
    requires
        p.spec_unpremultiply().spec_premultiply() == p,
    ensures
        p.r <= p.a,
        p.g <= p.a,
        p.b <= p.a,
{
    let u = p.spec_unpremultiply();
    lemma_premultiplied_bounds(u.r, u.a);
    lemma_premultiplied_bounds(u.g, u.a);
    lemma_premultiplied_bounds(u.b, u.a);
}

/// Unpremultiplying leaves a pixel whose alpha is zero as it is.
pub proof fn unpremultiply_keeps_transparent(p: Pixel)
    requires
        p.a == 0,
    ensures
        p.spec_unpremultiply() == p,
{
}

/// A mask's alpha does not fall when red, green, blue or the opacity rises.
pub proof fn to_mask_is_monotonic(p: Pixel, q: Pixel, opacity_p: u8, opacity_q: u8)
    requires
        p.r <= q.r,
        p.g <= q.g,
        p.b <= q.b,
        opacity_p <= opacity_q,
    ensures
        p.spec_to_mask(opacity_p).a <= q.spec_to_mask(opacity_q).a,
{
    lemma_luminance_bounds(p.r, p.g, p.b, opacity_p);
    lemma_luminance_bounds(q.r, q.g, q.b, opacity_q);
    let sp = p.r * 14042 + p.g * 47240 + p.b * 4769;
    let sq = q.r * 14042 + q.g * 47240 + q.b * 4769;
    assert(sp * opacity_p <= sq * opacity_q) by (nonlinear_arith)
        requires
            0 <= sp <= sq,
            0 <= opacity_p <= opacity_q,
    ;
    assert((sp * opacity_p) / 0x100_0000 <= (sq * opacity_q) / 0x100_0000);
}

/// The distance between two pixels is the same in both directions.
pub proof fn diff_is_symmetric(p: Pixel, q: Pixel)
    ensures
        p.spec_diff(q) == q.spec_diff(p),
{
}

/// Packing and unpacking undo each other.
pub proof fn pack_round_trip(p: Pixel, x: u32)
    ensures
        0 <= p.spec_to_u32() <= u32::MAX,
        Pixel::spec_from_u32(p.spec_to_u32() as u32) == p,
        Pixel::spec_from_u32(x).spec_to_u32() == x,
{
    let a: u32 = p.a as u32;
    let r: u32 = p.r as u32;
    let g: u32 = p.g as u32;
    let b: u32 = p.b as u32;
    lemma_pack(a, r, g, b, (a << 24) | (r << 16) | (g << 8) | b);
    lemma_unpack(x, (x >> 24) & 0xFF, (x >> 16) & 0xFF, (x >> 8) & 0xFF, x & 0xFF);
}

} // verus!
