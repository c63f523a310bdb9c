use tale_rpg::assets::generate;
use tale_rpg::assets::generate_corner_tile;
use tale_rpg::assets::generate_log_wall;
use tale_rpg::assets::generate_plank_tile;
use tale_rpg::assets::generate_wall_horizontal;
use tale_rpg::assets::generate_wall_vertical;
use tale_rpg::assets::texel;
use tale_rpg::assets::Rgba;
use tale_rpg::assets::Texture;
use tale_rpg::assets::TEXTURE_BYTES;
use tale_rpg::assets::TEXTURE_SIDE;

fn pixel(bytes: &[u8], x: usize, y: usize) -> [u8; 4] {
    let base = (y * TEXTURE_SIDE + x) * 4;
    [bytes[base], bytes[base + 1], bytes[base + 2], bytes[base + 3]]
}

#[test]
fn textures_have_four_bytes_to_the_pixel() {
    assert_eq!(TEXTURE_SIDE, 32);
    assert_eq!(TEXTURE_BYTES, 32 * 32 * 4);
    let kinds = [
        Texture::Plank,
        Texture::WallHorizontal,
        Texture::WallVertical,
        Texture::Corner,
        Texture::Log,
    ];
    for kind in kinds {
        let bytes = generate(kind);
        assert_eq!(bytes.len(), 4096);
        for y in 0..32 {
            for x in 0..32 {
                let p = texel(kind, x, y);
                assert_eq!(pixel(&bytes, x, y), [p.r, p.g, p.b, p.a]);
                assert_eq!(p.a, 255);
            }
        }
    }
}

#[test]
fn plank_has_upright_stripes() {
    let bytes = generate_plank_tile();
    assert_eq!(bytes, generate(Texture::Plank));
    for y in [0, 5, 31] {
        assert_eq!(pixel(&bytes, 0, y), [180, 120, 60, 255]);
        assert_eq!(pixel(&bytes, 3, y), [180, 120, 60, 255]);
        assert_eq!(pixel(&bytes, 4, y), [160, 120, 60, 255]);
        assert_eq!(pixel(&bytes, 7, y), [160, 120, 60, 255]);
        assert_eq!(pixel(&bytes, 8, y), [180, 120, 60, 255]);
        assert_eq!(pixel(&bytes, 31, y), [160, 120, 60, 255]);
    }
}

#[test]
fn wall_stripes_follow_the_planks() {
    let lying = generate_wall_horizontal();
    let standing = generate_wall_vertical();
    assert_eq!(lying, generate(Texture::WallHorizontal));
    assert_eq!(standing, generate(Texture::WallVertical));
    for along in 0..32 {
        assert_eq!(pixel(&lying, along, 0), [120, 80, 40, 255]);
        assert_eq!(pixel(&lying, along, 4), [100, 80, 40, 255]);
        assert_eq!(pixel(&lying, along, 11), [120, 80, 40, 255]);
        assert_eq!(pixel(&standing, 0, along), [120, 80, 40, 255]);
        assert_eq!(pixel(&standing, 4, along), [100, 80, 40, 255]);
        assert_eq!(pixel(&standing, 11, along), [120, 80, 40, 255]);
    }
}

#[test]
fn corner_has_a_dark_diagonal() {
    let bytes = generate_corner_tile();
    assert_eq!(bytes, generate(Texture::Corner));
    for i in 0..32 {
        assert_eq!(pixel(&bytes, i, i), [40, 30, 20, 255]);
    }
    assert_eq!(pixel(&bytes, 1, 0), [40, 30, 20, 255]);
    assert_eq!(pixel(&bytes, 0, 1), [40, 30, 20, 255]);
    // left half: standing planks
    assert_eq!(pixel(&bytes, 0, 2), [120, 80, 40, 255]);
    assert_eq!(pixel(&bytes, 4, 20), [100, 80, 40, 255]);
    assert_eq!(pixel(&bytes, 15, 0), [100, 80, 40, 255]);
    // right half: lying planks
    assert_eq!(pixel(&bytes, 16, 0), [120, 80, 40, 255]);
    assert_eq!(pixel(&bytes, 31, 4), [100, 80, 40, 255]);
    assert_eq!(pixel(&bytes, 20, 9), [120, 80, 40, 255]);
}

#[test]
fn log_wall_is_shaded_along_the_diagonals() {
    let bytes = generate_log_wall();
    assert_eq!(bytes, generate(Texture::Log));
    // x + y = 0: shade -3, on a lighter line
    assert_eq!(pixel(&bytes, 0, 0), [141, 84, 37, 255]);
    // x + y = 3: shade 0
    assert_eq!(pixel(&bytes, 3, 0), [120, 70, 30, 255]);
    assert_eq!(pixel(&bytes, 0, 3), [150, 90, 40, 255]);
    // x + y = 5: shade 2
    assert_eq!(pixel(&bytes, 5, 0), [126, 74, 32, 255]);
    assert_eq!(pixel(&bytes, 8, 3), [156, 94, 42, 255]);
    assert_eq!(pixel(&bytes, 31, 31), [117, 68, 29, 255]);
    assert_eq!(texel(Texture::Log, 1, 0), Rgba { r: 114, g: 66, b: 28, a: 255 });
}
