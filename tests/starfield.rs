use solar_textures::buffer::{Rgba, TextureError};
use solar_textures::cubemap::{face_basis, face_direction, IVec3, FACE_COUNT};
use solar_textures::starfield::{
    classify_star, generate_starfield, star_rgba, FaceStacking, StarClass, StarHashes,
    TargetView, BRIGHT_THRESHOLD, DIM_THRESHOLD, HASH_ONE, MEDIUM_THRESHOLD,
};

fn v(x: i64, y: i64, z: i64) -> IVec3 {
    IVec3 { x, y, z }
}

fn hashes(coarse: u32, medium: u32, fine: u32) -> StarHashes {
    StarHashes { coarse, medium, fine }
}

/// The sine hash of the scene, on a normalised direction, in units of 2^-24.
fn sine_hashes(d: IVec3) -> StarHashes {
    let len = ((d.x * d.x + d.y * d.y + d.z * d.z) as f32).sqrt();
    let (x, y, z) = (d.x as f32 / len, d.y as f32 / len, d.z as f32 / len);
    let h = |s: f32, a: f32, b: f32, c: f32, k: f32| {
        let f = ((x * s * a + y * s * b + z * s * c).sin() * k).fract();
        (f * 16777216.0) as u32
    };
    StarHashes {
        coarse: h(15.0, 12.9898, 78.233, 45.164, 43758.5453),
        medium: h(30.0, 17.1234, 91.567, 23.891, 27182.8182),
        fine: h(60.0, 31.4159, 62.831, 14.142, 31415.9265),
    }
}

#[test]
fn face_bases_follow_the_cube_order() {
    let b0 = face_basis(0);
    assert_eq!(b0.forward, v(1, 0, 0));
    assert_eq!(b0.up, v(0, -1, 0));
    assert_eq!(b0.right, v(0, 0, -1));
    let b3 = face_basis(3);
    assert_eq!(b3.forward, v(0, -1, 0));
    assert_eq!(b3.up, v(0, 0, -1));
    assert_eq!(b3.right, v(1, 0, 0));
    let b5 = face_basis(5);
    assert_eq!(b5.forward, v(0, 0, -1));
    assert_eq!(b5.right, v(-1, 0, 0));
    let mut forwards: Vec<(i64, i64, i64)> =
        (0..FACE_COUNT).map(|f| { let b = face_basis(f).forward; (b.x, b.y, b.z) }).collect();
    forwards.sort();
    forwards.dedup();
    assert_eq!(forwards.len(), 6);
}

#[test]
fn face_direction_exact_values() {
    // top left of +X: forward + right * -1 + up * 1, times 2
    assert_eq!(face_direction(0, 0, 0, 3), v(2, -2, 2));
    // centre of +X
    assert_eq!(face_direction(0, 1, 1, 3), v(2, 0, 0));
    // bottom right of +Y
    assert_eq!(face_direction(2, 2, 2, 3), v(2, 2, -2));
    // a single-pixel face looks through its centre
    assert_eq!(face_direction(4, 0, 0, 1), v(0, 0, 1));
    assert_eq!(face_direction(1, 0, 0, 1), v(-1, 0, 0));
}

#[test]
fn edge_pixels_share_directions_with_a_neighbour() {
    let n = 5u32;
    for face in 0..6 {
        for y in 0..n {
            for x in 0..n {
                if x != 0 && y != 0 && x != n - 1 && y != n - 1 {
                    continue;
                }
                let d = face_direction(face, x, y, n);
                let shared = (0..6).filter(|&g| g != face).any(|g| {
                    (0..n).any(|yy| (0..n).any(|xx| face_direction(g, xx, yy, n) == d))
                });
                assert!(shared, "face {} pixel ({}, {})", face, x, y);
            }
        }
    }
}

#[test]
fn tiers_and_brightness() {
    let top = HASH_ONE - 1;
    assert_eq!(classify_star(hashes(top, 0, 0)), StarClass::Bright(249));
    assert_eq!(classify_star(hashes(BRIGHT_THRESHOLD + 1, 0, 0)), StarClass::Bright(100));
    assert_eq!(classify_star(hashes(BRIGHT_THRESHOLD, top, 0)), StarClass::Medium(159));
    assert_eq!(classify_star(hashes(0, MEDIUM_THRESHOLD + 1, 0)), StarClass::Medium(60));
    assert_eq!(classify_star(hashes(0, MEDIUM_THRESHOLD, top)), StarClass::Dim(119));
    assert_eq!(classify_star(hashes(0, 0, DIM_THRESHOLD + 1)), StarClass::Dim(40));
    assert_eq!(classify_star(hashes(0, 0, DIM_THRESHOLD)), StarClass::Background);
    assert_eq!(classify_star(hashes(0, 0, 0)), StarClass::Background);
    // a saturated hash saturates the brightness, as a cast to a byte would
    assert_eq!(classify_star(hashes(u32::MAX, 0, 0)), StarClass::Bright(255));
}

#[test]
fn bright_check_comes_first() {
    let top = HASH_ONE - 1;
    for (m, f) in [(0, 0), (top, 0), (0, top), (top, top)] {
        assert!(matches!(classify_star(hashes(BRIGHT_THRESHOLD + 5, m, f)), StarClass::Bright(_)));
    }
}

#[test]
fn star_colours() {
    assert_eq!(star_rgba(StarClass::Bright(249)), Rgba { r: 249, g: 249, b: 255, a: 255 });
    assert_eq!(star_rgba(StarClass::Medium(100)), Rgba { r: 100, g: 100, b: 115, a: 255 });
    assert_eq!(star_rgba(StarClass::Dim(40)), Rgba { r: 40, g: 40, b: 55, a: 255 });
    assert_eq!(star_rgba(StarClass::Background), Rgba { r: 1, g: 1, b: 3, a: 255 });
}

#[test]
fn starfield_errors() {
    let r = generate_starfield(42, 0, |_d: IVec3| hashes(0, 0, 0));
    assert_eq!(r.err(), Some(TextureError::InvalidParameter));
    let r = generate_starfield(42, u32::MAX, |_d: IVec3| hashes(0, 0, 0));
    assert_eq!(r.err(), Some(TextureError::AllocationFailure));
}

#[test]
fn single_pixel_faces() {
    let sky = generate_starfield(42, 1, |d: IVec3| {
        // +Z shows a bright star, everything else is background
        if d == v(0, 0, 1) { hashes(HASH_ONE - 1, 0, 0) } else { hashes(0, 0, 0) }
    })
    .unwrap();
    assert_eq!(sky.image.width(), 1);
    assert_eq!(sky.image.height(), 6);
    assert_eq!(sky.image.bytes().len(), 24);
    for face in 0..6 {
        let expected = if face == 4 {
            Rgba { r: 249, g: 249, b: 255, a: 255 }
        } else {
            Rgba { r: 1, g: 1, b: 3, a: 255 }
        };
        assert_eq!(sky.image.pixel(0, face), expected);
    }
}

#[test]
fn faces_are_stacked_in_order() {
    let n = 4u32;
    let sky = generate_starfield(0, n, |d: IVec3| {
        // mark the pixels that look mostly along -Y
        if d.y == -3 { hashes(HASH_ONE - 1, 0, 0) } else { hashes(0, 0, 0) }
    })
    .unwrap();
    for y in 0..n {
        for x in 0..n {
            assert_eq!(sky.image.pixel(x, 3 * n + y).r, 249);
            assert_eq!(sky.image.pixel(x, 2 * n + y).r, 1);
        }
    }
}

#[test]
fn sine_hashed_sky_is_seamless() {
    let n = 64u32;
    let sky = generate_starfield(42, n, sine_hashes).unwrap();
    let mut edge = 0;
    for face in 0..6 {
        for y in 0..n {
            for x in [0, n - 1] {
                let d = face_direction(face, x, y, n);
                let here = sky.image.pixel(x, face * n + y);
                for g in (0..6).filter(|&g| g != face) {
                    for yy in 0..n {
                        for xx in [0, n - 1] {
                            if face_direction(g, xx, yy, n) == d {
                                assert_eq!(sky.image.pixel(xx, g * n + yy), here);
                                edge += 1;
                            }
                        }
                    }
                }
            }
        }
    }
    assert!(edge > 0);
}

#[test]
fn skybox_full_size() {
    let sky = generate_starfield(42, 2048, |_d: IVec3| hashes(0, 0, 0)).unwrap();
    assert_eq!(sky.image.bytes().len(), 2048 * (2048 * 6) * 4);
    assert_eq!(sky.image.width(), 2048);
    assert_eq!(sky.image.height(), 2048 * 6);
    assert_eq!(sky.layout.face_size, 2048);
    assert_eq!(sky.layout.face_count, 6);
    assert_eq!(sky.layout.stacking, FaceStacking::Vertical);
    assert_eq!(sky.layout.target_view, TargetView::CubeArray);
}
