//! The textures of the solar-system scene: two gas giants and the sky.

use vstd::prelude::*;
use crate::surface::BandColor;

verus! {

/// Equirectangular size of both gas-giant textures.
pub const GAS_GIANT_WIDTH: u32 = 2048;
pub const GAS_GIANT_HEIGHT: u32 = 1024;

/// Seed and jitter width (in ten-thousandths) of the amber titan.
pub const AMBER_TITAN_SEED: u64 = 12345;
pub const AMBER_TITAN_JITTER_SPAN: u16 = 400;

/// Seed and jitter width (in ten-thousandths) of the azure colossus.
pub const AZURE_COLOSSUS_SEED: u64 = 54321;
pub const AZURE_COLOSSUS_JITTER_SPAN: u16 = 300;

/// Seed and face size of the starfield skybox.
pub const SKYBOX_SEED: u64 = 42;
pub const SKYBOX_FACE_SIZE: u32 = 2048;

pub open spec fn band(r: u16, g: u16, b: u16) -> BandColor {
    BandColor { r, g, b }
}

/// Cream, light brown, pale yellow, medium brown, tan, dark tan, golden, brown.
pub open spec fn amber_titan_palette_spec() -> Seq<BandColor> {
    seq![
        band(9500, 8200, 5500),
        band(8200, 6500, 3800),
        band(9800, 8800, 6200),
        band(7500, 5800, 3200),
        band(8800, 7200, 4500),
        band(6800, 5200, 2800),
        band(9200, 7800, 5000),
        band(7200, 5500, 3000),
    ]
}

/// Pale blue, medium blue, very light blue, deep blue, sky blue, ocean blue.
pub open spec fn azure_colossus_palette_spec() -> Seq<BandColor> {
    seq![
        band(7800, 8800, 9800),
        band(4500, 6800, 9200),
        band(8500, 9200, 10000),
        band(3500, 5800, 8800),
        band(6500, 8000, 9600),
        band(5500, 7200, 9000),
    ]
}

/// The band colours of the cream and tan gas giant.
pub fn amber_titan_palette() -> (r: Vec<BandColor>)
    ensures
        r@ == amber_titan_palette_spec(),
{
    let r = vec![
        BandColor { r: 9500, g: 8200, b: 5500 },
        BandColor { r: 8200, g: 6500, b: 3800 },
        BandColor { r: 9800, g: 8800, b: 6200 },
        BandColor { r: 7500, g: 5800, b: 3200 },
        BandColor { r: 8800, g: 7200, b: 4500 },
        BandColor { r: 6800, g: 5200, b: 2800 },
        BandColor { r: 9200, g: 7800, b: 5000 },
        BandColor { r: 7200, g: 5500, b: 3000 },
    ];
    assert(r@ =~= amber_titan_palette_spec());
    r
}

/// The band colours of the blue ice giant.
pub fn azure_colossus_palette() -> (r: Vec<BandColor>)
    ensures
        r@ == azure_colossus_palette_spec(),
{
    let r = vec![
        BandColor { r: 7800, g: 8800, b: 9800 },
        BandColor { r: 4500, g: 6800, b: 9200 },
        BandColor { r: 8500, g: 9200, b: 10000 },
        BandColor { r: 3500, g: 5800, b: 8800 },
        BandColor { r: 6500, g: 8000, b: 9600 },
        BandColor { r: 5500, g: 7200, b: 9000 },
    ];
    assert(r@ =~= azure_colossus_palette_spec());
    r
}

} // verus!
