use solar_textures::buffer::{Rgba, TextureError};
use solar_textures::presets::{
    amber_titan_palette, azure_colossus_palette, AMBER_TITAN_JITTER_SPAN, AMBER_TITAN_SEED,
    GAS_GIANT_HEIGHT, GAS_GIANT_WIDTH,
};
use solar_textures::surface::{
    band_index, compose_banded_surface, generate_banded_surface, jitter_from_draw,
    quantize_channel, BandColor, COLOR_ONE,
};

fn grey(level: u16) -> BandColor {
    BandColor { r: level, g: level, b: level }
}

/// Banding phase of each row of the amber titan, as the scene computes it.
fn amber_phases(height: u32) -> Vec<usize> {
    (0..height)
        .map(|y| {
            let v = y as f32 / height as f32;
            let p = v * 16.0 + (v * 25.0).sin() * 0.3 + (v * 50.0).sin() * 0.15;
            p as usize
        })
        .collect()
}

/// Turbulence and storm term of each pixel of the amber titan, in ten-thousandths.
fn amber_turbulence(width: u32, height: u32) -> Vec<i32> {
    let mut out = Vec::with_capacity((width * height) as usize);
    for y in 0..height {
        let v = y as f32 / height as f32;
        for x in 0..width {
            let u = x as f32 / width as f32;
            let t1 = (u * 120.0 + v * 80.0).sin() * (u * 60.0 - v * 90.0).cos() * 0.06;
            let t2 = (u * 200.0 + v * 150.0).sin() * (u * 180.0).cos() * 0.03;
            let t3 = (u * 350.0 - v * 280.0).sin() * 0.015;
            let sx = (u * 8.0).sin() * 0.5 + 0.5;
            let sy = (v * 12.0).cos() * 0.5 + 0.5;
            let dist = ((u - sx).powi(2) + (v - sy).powi(2)).sqrt();
            let storm = if dist < 0.08 { -0.12 } else { 0.0 };
            out.push(((t1 + t2 + t3 + storm) * 10000.0) as i32);
        }
    }
    out
}

#[test]
fn band_index_cycles_through_palette() {
    assert_eq!(band_index(0, 8), 0);
    assert_eq!(band_index(7, 8), 7);
    assert_eq!(band_index(8, 8), 0);
    assert_eq!(band_index(17, 6), 5);
}

#[test]
fn quantize_channel_exact_values() {
    assert_eq!(quantize_channel(9500, 0), 242);
    assert_eq!(quantize_channel(5000, 0), 127);
    assert_eq!(quantize_channel(5000, 1000), 153);
    assert_eq!(quantize_channel(COLOR_ONE, 0), 255);
    assert_eq!(quantize_channel(9500, 600), 255);
    assert_eq!(quantize_channel(100, -200), 0);
    assert_eq!(quantize_channel(0, i64::MIN), 0);
    assert_eq!(quantize_channel(0, i64::MAX), 255);
}

#[test]
fn jitter_spans_draw_range() {
    assert_eq!(jitter_from_draw(0, 400), -200);
    assert_eq!(jitter_from_draw(0x8000_0000, 400), 0);
    assert_eq!(jitter_from_draw(u32::MAX, 400), 199);
    assert_eq!(jitter_from_draw(0xff, 400), -200);
    assert_eq!(jitter_from_draw(u32::MAX, 300), 149);
}

#[test]
fn compose_exact_pixels() {
    let palette = vec![grey(5000), grey(9500)];
    let img = compose_banded_surface(
        2,
        2,
        &palette,
        400,
        &vec![0, 3],
        &vec![0, 1000, 0, 600],
        &vec![0x8000_0000, 0x8000_0000, 0x8000_0000, 0],
    )
    .unwrap();
    assert_eq!(img.width(), 2);
    assert_eq!(img.height(), 2);
    assert_eq!(img.channels(), 4);
    assert_eq!(img.pixel(0, 0), Rgba { r: 127, g: 127, b: 127, a: 255 });
    assert_eq!(img.pixel(1, 0), Rgba { r: 153, g: 153, b: 153, a: 255 });
    // row 1 has phase 3, which cycles to entry 1
    assert_eq!(img.pixel(0, 1), Rgba { r: 242, g: 242, b: 242, a: 255 });
    // 9500 + 600 - 200 = 9900
    assert_eq!(img.pixel(1, 1), Rgba { r: 252, g: 252, b: 252, a: 255 });
    assert_eq!(
        img.bytes().clone(),
        vec![127, 127, 127, 255, 153, 153, 153, 255, 242, 242, 242, 255, 252, 252, 252, 255]
    );
}

#[test]
fn compose_rejects_invalid_parameters() {
    let palette = vec![grey(5000)];
    let empty: Vec<BandColor> = Vec::new();
    let one = vec![0usize];
    let field = vec![0i32];
    let draws = vec![0u32];
    let cases = [
        compose_banded_surface(0, 1, &palette, 400, &one, &field, &draws),
        compose_banded_surface(1, 0, &palette, 400, &one, &field, &draws),
        compose_banded_surface(1, 1, &empty, 400, &one, &field, &draws),
        compose_banded_surface(1, 1, &palette, 400, &vec![0, 0], &field, &draws),
        compose_banded_surface(1, 1, &palette, 400, &one, &vec![0, 0], &draws),
        compose_banded_surface(1, 1, &palette, 400, &one, &field, &vec![]),
    ];
    for r in cases {
        assert_eq!(r.err(), Some(TextureError::InvalidParameter));
    }
}

#[test]
fn single_pixel_surface() {
    let img =
        generate_banded_surface(7, 1, 1, &vec![grey(5000)], 400, &vec![0], &vec![0]).unwrap();
    assert_eq!(img.bytes().len(), 4);
    let px = img.pixel(0, 0);
    assert_eq!(px.a, 255);
    // the jitter moves the grey by at most 0.02
    assert!(px.r >= 122 && px.r <= 132);
    assert_eq!(px.r, px.g);
    assert_eq!(px.g, px.b);
}

#[test]
fn generation_is_deterministic() {
    let palette = azure_colossus_palette();
    let phases: Vec<usize> = (0..16).collect();
    let field = vec![0i32; 32 * 16];
    let a = generate_banded_surface(54321, 32, 16, &palette, 300, &phases, &field).unwrap();
    let b = generate_banded_surface(54321, 32, 16, &palette, 300, &phases, &field).unwrap();
    assert_eq!(a.bytes(), b.bytes());
}

#[test]
fn seed_changes_the_jitter() {
    let palette = vec![grey(5000)];
    let phases = vec![0usize; 8];
    let field = vec![0i32; 64];
    let a = generate_banded_surface(1, 8, 8, &palette, 400, &phases, &field).unwrap();
    let b = generate_banded_surface(2, 8, 8, &palette, 400, &phases, &field).unwrap();
    assert_ne!(a.bytes(), b.bytes());
    // the jitter is not constant either: the draws differ pixel to pixel
    let first = a.pixel(0, 0);
    assert!((0..8).any(|x| a.pixel(x, 3) != first) || (0..8).any(|y| a.pixel(5, y) != first));
}

#[test]
fn shape_and_alpha_hold_everywhere() {
    let palette = amber_titan_palette();
    let phases = amber_phases(40);
    let field = amber_turbulence(60, 40);
    let img = generate_banded_surface(3, 60, 40, &palette, 400, &phases, &field).unwrap();
    let bytes = img.into_bytes();
    assert_eq!(bytes.len(), 60 * 40 * 4);
    assert!(bytes.chunks(4).all(|p| p[3] == 255));
}

#[test]
fn recolouring_a_used_entry_changes_pixels() {
    let palette = vec![grey(3000), grey(6000), grey(9000)];
    let phases = vec![0usize, 1, 2, 4];
    let field = vec![0i32; 4 * 4];
    let draws = vec![0x8000_0000u32; 16];
    let base = compose_banded_surface(4, 4, &palette, 400, &phases, &field, &draws).unwrap();
    let mut changed = palette.clone();
    changed[1] = BandColor { r: 6000, g: 6000, b: 6500 };
    let other = compose_banded_surface(4, 4, &changed, 400, &phases, &field, &draws).unwrap();
    // rows 1 and 3 use entry 1
    assert_ne!(base.pixel(0, 1), other.pixel(0, 1));
    assert_ne!(base.pixel(2, 3), other.pixel(2, 3));
    assert_eq!(base.pixel(0, 0), other.pixel(0, 0));
    assert_eq!(base.pixel(0, 2), other.pixel(0, 2));
}

#[test]
fn amber_titan_full_size() {
    let palette = amber_titan_palette();
    assert_eq!(palette.len(), 8);
    let w = GAS_GIANT_WIDTH;
    let h = GAS_GIANT_HEIGHT;
    let phases = amber_phases(h);
    let field = amber_turbulence(w, h);
    let img =
        generate_banded_surface(AMBER_TITAN_SEED, w, h, &palette, AMBER_TITAN_JITTER_SPAN, &phases, &field)
            .unwrap();
    assert_eq!(img.bytes().len(), 2048 * 1024 * 4);
    assert_eq!(band_index(phases[0], palette.len()), 0);
    let mean: u64 = (0..w).map(|x| img.pixel(x, 0).r as u64).sum::<u64>() / w as u64;
    // cream: 0.95 of full red
    assert!(mean >= 234 && mean <= 250, "mean red of row 0 is {}", mean);

    let empty: Vec<BandColor> = Vec::new();
    let r = generate_banded_surface(AMBER_TITAN_SEED, w, h, &empty, AMBER_TITAN_JITTER_SPAN, &phases, &field);
    assert_eq!(r.err(), Some(TextureError::InvalidParameter));
}

#[test]
fn palettes_hold_the_scene_colours() {
    let amber = amber_titan_palette();
    assert_eq!(amber[0], BandColor { r: 9500, g: 8200, b: 5500 });
    assert_eq!(amber[7], BandColor { r: 7200, g: 5500, b: 3000 });
    let azure = azure_colossus_palette();
    assert_eq!(azure.len(), 6);
    assert_eq!(azure[2], BandColor { r: 8500, g: 9200, b: 10000 });
}
