use rust_meet::audio::fill_playback;
use rust_meet::video::{luma_to_char, to_ascii};

#[test]
fn luminance_maps_onto_ramp() {
    assert_eq!(luma_to_char(0), ' ');
    assert_eq!(luma_to_char(28), ' ');
    assert_eq!(luma_to_char(29), '.');
    assert_eq!(luma_to_char(128), '=');
    assert_eq!(luma_to_char(254), '%');
    assert_eq!(luma_to_char(255), '@');
}

#[test]
fn ascii_art_has_one_line_per_row() {
    let luma = vec![0u8, 255, 128, 29, 57, 200];
    assert_eq!(to_ascii(&luma, 3, 2), " @=\n.:#\n");
    assert_eq!(to_ascii(&[], 0, 2), "\n\n");
    assert_eq!(to_ascii(&[], 4, 0), "");
}

#[test]
fn ascii_art_of_full_frame_has_fixed_shape() {
    let luma = vec![255u8; 80 * 40];
    let art = to_ascii(&luma, 80, 40);
    let lines: Vec<&str> = art.split_terminator('\n').collect();
    assert_eq!(lines.len(), 40);
    assert!(lines.iter().all(|l| l.len() == 80 && l.chars().all(|c| c == '@')));
}

#[test]
fn playback_uses_one_chunk_and_pads_with_silence() {
    let mut out = [9.0f32; 5];
    fill_playback(&mut out, Some(&[0.5, -0.5][..]), 0.0);
    assert_eq!(out, [0.5, -0.5, 0.0, 0.0, 0.0]);
    let mut out = [9.0f32; 2];
    fill_playback(&mut out, Some(&[0.1, 0.2, 0.3][..]), 0.0);
    assert_eq!(out, [0.1, 0.2]);
    let mut out = [9.0f32; 3];
    fill_playback(&mut out, None, 0.0);
    assert_eq!(out, [0.0, 0.0, 0.0]);
}
