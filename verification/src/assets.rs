//! Textures made by rule, for when no picture is at hand.
//!
//! A texture is a square of [`TEXTURE_SIDE`] by [`TEXTURE_SIDE`] pixels,
//! written row by row from the top, four bytes to the pixel: red, green,
//! blue, opacity.

use vstd::prelude::*;

verus! {

/// Side of a texture in pixels.
pub const TEXTURE_SIDE: usize = 32;

/// Bytes in a texture.
pub const TEXTURE_BYTES: usize = 4096;

/// The textures that can be made by rule.
#[derive(Clone, Copy, Debug, PartialEq, Eq, Structural)]
pub enum Texture {
    /// Floor planks: upright stripes in two browns.
    Plank,
    /// Wall planks that lie: level stripes.
    WallHorizontal,
    /// Wall planks that stand: upright stripes.
    WallVertical,
    /// Where two walls meet: standing planks on the left half, lying
    /// planks on the right, and a dark joint down the diagonal.
    Corner,
    /// A wall of logs: a lighter line every eighth column, shaded along the
    /// diagonals.
    Log,
}

/// One pixel.
#[derive(Clone, Copy, Debug, PartialEq, Eq, Structural)]
pub struct Rgba {
    pub r: u8,
    pub g: u8,
    pub b: u8,
    pub a: u8,
}

/// The lighter or the darker of two shades, in stripes four pixels wide
/// that start with the lighter.
pub open spec fn stripe(along: int, light: u8, dark: u8) -> u8 {
    if along % 8 < 4 {
        light
    } else {
        dark
    }
}

/// The value `v` kept within the range of a byte.
pub open spec fn to_byte(v: int) -> u8 {
    if v < 0 {
        0u8
    } else if v > 255 {
        255u8
    } else {
        v as u8
    }
}

/// The pixel of a texture at column `x` and row `y`.
pub open spec fn texel_of(kind: Texture, x: int, y: int) -> Rgba {
    match kind {
        Texture::Plank => Rgba { r: stripe(x, 180, 160), g: 120, b: 60, a: 255 },
        Texture::WallHorizontal => Rgba { r: stripe(y, 120, 100), g: 80, b: 40, a: 255 },
        Texture::WallVertical => Rgba { r: stripe(x, 120, 100), g: 80, b: 40, a: 255 },
        Texture::Corner => if -2 < y - x < 2 {
            Rgba { r: 40, g: 30, b: 20, a: 255 }
        } else if x < TEXTURE_SIDE / 2 {
            Rgba { r: stripe(x, 120, 100), g: 80, b: 40, a: 255 }
        } else {
            Rgba { r: stripe(y, 120, 100), g: 80, b: 40, a: 255 }
        },
        Texture::Log => {
            let lift: int = if x % 8 == 0 {
                10
            } else {
                0
            };
            let shade = (x + y) % 6 - 3;
            Rgba {
                r: to_byte(120 + 3 * lift + 3 * shade),
                g: to_byte(70 + 2 * lift + 2 * shade),
                b: to_byte(30 + lift + shade),
                a: 255,
            }
        },
    }
}

/// Channel `c` of a pixel: 0 is red, 1 green, 2 blue, 3 opacity.
pub open spec fn channel(p: Rgba, c: int) -> u8 {
    if c == 0 {
        p.r
    } else if c == 1 {
        p.g
    } else if c == 2 {
        p.b
    } else {
        p.a
    }
}

/// The bytes of a texture.
pub open spec fn texture_bytes(kind: Texture) -> Seq<u8> {
    Seq::new(
        TEXTURE_BYTES as nat,
        |i: int|
            channel(
                texel_of(kind, (i / 4) % (TEXTURE_SIDE as int), i / 4 / (TEXTURE_SIDE as int)),
                i % 4,
            ),
    )
}

/// Computes [`stripe`].
fn stripe_at(along: usize, light: u8, dark: u8) -> (s: u8)
    ensures
        s == stripe(along as int, light, dark),
{
    if along % 8 < 4 {
        light
    } else {
        dark
    }
}

/// Computes [`to_byte`].
fn byte_of(v: i32) -> (b: u8)
    ensures
        b == to_byte(v as int),
{
    if v < 0 {
        0
    } else if v > 255 {
        255
    } else {
        v as u8
    }
}

/// Computes [`texel_of`].
pub fn texel(kind: Texture, x: usize, y: usize) -> (p: Rgba)
    requires
        x < TEXTURE_SIDE,
        y < TEXTURE_SIDE,
    ensures
        p == texel_of(kind, x as int, y as int),
{
    match kind {
        Texture::Plank => Rgba { r: stripe_at(x, 180, 160), g: 120, b: 60, a: 255 },
        Texture::WallHorizontal => Rgba { r: stripe_at(y, 120, 100), g: 80, b: 40, a: 255 },
        Texture::WallVertical => Rgba { r: stripe_at(x, 120, 100), g: 80, b: 40, a: 255 },
        Texture::Corner => {
            if (y <= x && x - y < 2) || (x < y && y - x < 2) {
                Rgba { r: 40, g: 30, b: 20, a: 255 }
            } else if x < TEXTURE_SIDE / 2 {
                Rgba { r: stripe_at(x, 120, 100), g: 80, b: 40, a: 255 }
            } else {
                Rgba { r: stripe_at(y, 120, 100), g: 80, b: 40, a: 255 }
            }
        },
        Texture::Log => {
            let lift: i32 = if x % 8 == 0 {
                10
            } else {
                0
            };
            let shade: i32 = ((x + y) % 6) as i32 - 3;
            Rgba {
                r: byte_of(120 + 3 * lift + 3 * shade),
                g: byte_of(70 + 2 * lift + 2 * shade),
                b: byte_of(30 + lift + shade),
                a: 255,
            }
        },
    }
}

/// The bytes of a texture, ready to be made into a picture.
pub fn generate(kind: Texture) -> (pixels: Vec<u8>)
    ensures
        pixels@ == texture_bytes(kind),
{
    let mut pixels: Vec<u8> = Vec::new();
    let mut y: usize = 0;
    while y < TEXTURE_SIDE
        invariant
            y <= TEXTURE_SIDE,
            pixels@.len() == y * TEXTURE_SIDE * 4,
            forall|i: int| 0 <= i < pixels@.len() ==> pixels@[i] == texture_bytes(kind)[i],
        decreases TEXTURE_SIDE - y,
    {
        let mut x: usize = 0;
        while x < TEXTURE_SIDE
            invariant
                y < TEXTURE_SIDE,
                x <= TEXTURE_SIDE,
                pixels@.len() == (y * TEXTURE_SIDE + x) * 4,
                forall|i: int| 0 <= i < pixels@.len() ==> pixels@[i] == texture_bytes(kind)[i],
            decreases TEXTURE_SIDE - x,
        {
            let p: Rgba = texel(kind, x, y);
            pixels.push(p.r);
            pixels.push(p.g);
            pixels.push(p.b);
            pixels.push(p.a);
            x += 1;
        }
        y += 1;
    }
    assert(pixels@ =~= texture_bytes(kind));
    pixels
}

/// The floor planks.
pub fn generate_plank_tile() -> (pixels: Vec<u8>)
    ensures
        pixels@ == texture_bytes(Texture::Plank),
{
    generate(Texture::Plank)
}

/// The lying wall planks.
pub fn generate_wall_horizontal() -> (pixels: Vec<u8>)
    ensures
        pixels@ == texture_bytes(Texture::WallHorizontal),
{
    generate(Texture::WallHorizontal)
}

/// The standing wall planks.
pub fn generate_wall_vertical() -> (pixels: Vec<u8>)
    ensures
        pixels@ == texture_bytes(Texture::WallVertical),
{
    generate(Texture::WallVertical)
}

/// The corner of two walls.
pub fn generate_corner_tile() -> (pixels: Vec<u8>)
    ensures
        pixels@ == texture_bytes(Texture::Corner),
{
    generate(Texture::Corner)
}

/// The wall of logs.
pub fn generate_log_wall() -> (pixels: Vec<u8>)
    ensures
        pixels@ == texture_bytes(Texture::Log),
{
    generate(Texture::Log)
}

} // verus!
