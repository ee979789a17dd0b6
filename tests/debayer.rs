use camcam::debayer::{
    combine_rgb, debayer_full, debayer_superpixel, separate_colors, smudge_blue, smudge_green,
    smudge_red,
};

fn sample_4x4() -> Vec<u8> {
    vec![
        10, 20, 30, 40, //
        50, 60, 70, 80, //
        90, 100, 110, 120, //
        130, 140, 150, 160,
    ]
}

#[test]
fn superpixel_4x4_by_hand() {
    let out = debayer_superpixel(&sample_4x4(), 4, 4);
    assert_eq!(out, vec![60, 35, 10, 80, 55, 30, 140, 115, 90, 160, 135, 110]);
}

#[test]
fn superpixel_output_is_half_size() {
    let data: Vec<u8> = (0..(6 * 4)).map(|v| v as u8).collect();
    let out = debayer_superpixel(&data, 6, 4);
    assert_eq!(out.len(), 3 * 2 * 3);
    let data: Vec<u8> = vec![7; 1280 * 720];
    assert_eq!(debayer_superpixel(&data, 1280, 720).len(), 640 * 360 * 3);
}

#[test]
fn superpixel_green_truncates() {
    let data = vec![0, 1, 2, 9];
    assert_eq!(debayer_superpixel(&data, 2, 2), vec![9, 1, 0]);
    let data = vec![0, 255, 254, 9];
    assert_eq!(debayer_superpixel(&data, 2, 2), vec![9, 254, 0]);
}

#[test]
fn superpixel_empty_frame() {
    assert!(debayer_superpixel(&[], 0, 0).is_empty());
}

#[test]
fn separate_keeps_samples_at_their_sites() {
    let data = sample_4x4();
    let (r, g, b) = separate_colors(&data, 4, 4);
    assert_eq!(r, vec![0, 0, 0, 0, 0, 60, 0, 80, 0, 0, 0, 0, 0, 140, 0, 160]);
    assert_eq!(g, vec![0, 20, 0, 40, 50, 0, 70, 0, 0, 100, 0, 120, 130, 0, 150, 0]);
    assert_eq!(b, vec![10, 0, 30, 0, 0, 0, 0, 0, 90, 0, 110, 0, 0, 0, 0, 0]);
    for i in 0..16 {
        assert_eq!(r[i] as u32 + g[i] as u32 + b[i] as u32, data[i] as u32);
    }
}

#[test]
fn smudge_green_edges_and_interior() {
    let data = sample_4x4();
    let (_, g, _) = separate_colors(&data, 4, 4);
    let out = smudge_green(&g, 4, 4);
    // corner (0,0): right 20 and down 50
    assert_eq!(out[0], 35);
    // known green stays
    assert_eq!(out[1], 20);
    // interior (1,1): up 20, right 70, down 100, left 50
    assert_eq!(out[5], 60);
    // corner (3,3): up 120, left 150
    assert_eq!(out[15], 135);
    // edge (0,2): right 40, down 70, left 20
    assert_eq!(out[2], 43);
}

#[test]
fn smudge_red_and_blue_fill_both_axes() {
    let data = sample_4x4();
    let (r, _, b) = separate_colors(&data, 4, 4);
    let red = smudge_red(&r, 4, 4);
    assert_eq!(red, vec![60, 60, 70, 80, 60, 60, 70, 80, 100, 100, 110, 120, 140, 140, 150, 160]);
    let blue = smudge_blue(&b, 4, 4);
    assert_eq!(blue, vec![10, 20, 30, 30, 50, 60, 70, 70, 90, 100, 110, 110, 90, 100, 110, 110]);
}

#[test]
fn combine_interleaves() {
    assert_eq!(combine_rgb(&[1, 2], &[3, 4], &[5, 6]), vec![1, 3, 5, 2, 4, 6]);
    assert!(combine_rgb(&[], &[], &[]).is_empty());
}

#[test]
fn full_path_keeps_size_and_samples() {
    let data = sample_4x4();
    let out = debayer_full(&data, 4, 4);
    assert_eq!(out.len(), 4 * 4 * 3);
    for row in 0..4 {
        for col in 0..4 {
            let i = row * 4 + col;
            let channel = match (row % 2, col % 2) {
                (1, 1) => 0,
                (0, 0) => 2,
                _ => 1,
            };
            assert_eq!(out[3 * i + channel], data[i]);
        }
    }
    assert_eq!(&out[0..3], &[60, 35, 10]);
}
