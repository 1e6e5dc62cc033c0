//! Tests of the bilinear algorithm's host implementation and the launch
//! planner.

use gpu_processor::kernel::bilinear_resize_host;
use gpu_processor::planner::plan;

#[test]
fn identity_resize_reproduces_input() {
    // 2x2 RGBA image with 16 distinct bytes.
    let input: Vec<u8> = (0u8..16).collect();
    let out = bilinear_resize_host(&input, 2, 2, 2, 2);
    assert_eq!(out, input);
}

#[test]
fn identity_resize_larger_image() {
    let input: Vec<u8> = (0..3 * 5 * 4).map(|i| (i * 7 % 256) as u8).collect();
    let out = bilinear_resize_host(&input, 3, 5, 3, 5);
    assert_eq!(out, input);
}

#[test]
fn corner_pixel_is_exact() {
    let input: Vec<u8> = vec![
        10, 20, 30, 40, // pixel (0,0)
        50, 60, 70, 80, // pixel (1,0)
        90, 100, 110, 120, // pixel (0,1)
        130, 140, 150, 160, // pixel (1,1)
    ];
    let out = bilinear_resize_host(&input, 2, 2, 4, 4);
    assert_eq!(&out[0..4], &input[0..4]);
    let out2 = bilinear_resize_host(&input, 2, 2, 1, 1);
    assert_eq!(&out2[0..4], &input[0..4]);
}

#[test]
fn successful_resize_output_length() {
    let input: Vec<u8> = vec![0; 4 * 4 * 4];
    let out = bilinear_resize_host(&input, 4, 4, 2, 2);
    assert_eq!(out.len(), 2 * 2 * 4);
    let up = bilinear_resize_host(&input, 4, 4, 9, 7);
    assert_eq!(up.len(), 9 * 7 * 4);
}

#[test]
fn upscale_blends_exact_values() {
    // 2x2 input upscaled to 3x3. Output pixel (1,0) maps to source
    // coordinate 2/3: quotient 0, remainder 2 over denominator 3, so each
    // channel is (1*p00 + 2*p10) / 3 truncated.
    let input: Vec<u8> = vec![
        0, 30, 60, 90, // pixel (0,0)
        255, 90, 120, 150, // pixel (1,0)
        40, 50, 60, 70, // pixel (0,1)
        80, 90, 100, 110, // pixel (1,1)
    ];
    let out = bilinear_resize_host(&input, 2, 2, 3, 3);
    assert_eq!(out.len(), 3 * 3 * 4);
    // (0 + 2*255)/3 = 170, (30 + 2*90)/3 = 70, (60 + 2*120)/3 = 100,
    // (90 + 2*150)/3 = 130.
    assert_eq!(&out[4..8], &[170, 70, 100, 130]);
}

#[test]
fn integer_downscale_samples_even_pixels() {
    // Halving a 4x4 image lands every source coordinate on an even pixel
    // with zero remainder, so the output is a point sample.
    let input: Vec<u8> = (0..4 * 4 * 4).map(|i| i as u8).collect();
    let out = bilinear_resize_host(&input, 4, 4, 2, 2);
    let pixel = |x: usize, y: usize| &input[(y * 4 + x) * 4..(y * 4 + x) * 4 + 4];
    assert_eq!(&out[0..4], pixel(0, 0));
    assert_eq!(&out[4..8], pixel(2, 0));
    assert_eq!(&out[8..12], pixel(0, 2));
    assert_eq!(&out[12..16], pixel(2, 2));
}

#[test]
fn extreme_upscale_stays_in_byte_range() {
    // 1x1 blown up to 1000x1000: every blend degenerates to the single
    // source pixel, and every byte stays in range.
    let input: Vec<u8> = vec![7, 77, 177, 255];
    let out = bilinear_resize_host(&input, 1, 1, 1000, 1000);
    assert_eq!(out.len(), 1000 * 1000 * 4);
    assert!(out.chunks(4).all(|px| px == [7, 77, 177, 255]));
}

#[test]
fn plan_uses_fixed_tiles_and_ceiling_division() {
    let cfg = plan(100, 50);
    assert_eq!(cfg.grid_x, 7);
    assert_eq!(cfg.grid_y, 4);
    assert_eq!(cfg.grid_z, 1);
    assert_eq!(cfg.block_x, 16);
    assert_eq!(cfg.block_y, 16);
    assert_eq!(cfg.block_z, 1);
    assert_eq!(cfg.shared_mem_bytes, 0);
}

#[test]
fn plan_covers_exact_and_ragged_tiles() {
    let exact = plan(16, 32);
    assert_eq!((exact.grid_x, exact.grid_y), (1, 2));
    let ragged = plan(17, 1);
    assert_eq!((ragged.grid_x, ragged.grid_y), (2, 1));
    // Every coordinate is reachable: the last block still covers pixel 16.
    assert!(ragged.grid_x * ragged.block_x > 16);
}
