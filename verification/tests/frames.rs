use depth_anything_rs::errors::DepthError;
use depth_anything_rs::postprocessing::{build_luma16, finalize_output};
use depth_anything_rs::preprocessing::{resize_to_model_input, rgb_from_raw, ResizePolicy};

fn gradient_bytes(w: usize, h: usize) -> Vec<u8> {
    let mut bytes = Vec::with_capacity(3 * w * h);
    for y in 0..h {
        for x in 0..w {
            bytes.push((x % 256) as u8);
            bytes.push((y % 256) as u8);
            bytes.push(((x + y) % 256) as u8);
        }
    }
    bytes
}

#[test]
fn rgb_from_raw_checks_length() {
    let f = rgb_from_raw(2, 1, vec![1, 2, 3, 4, 5, 6]).unwrap();
    assert_eq!(f.width(), 2);
    assert_eq!(f.height(), 1);
    assert_eq!(f.into_raw(), vec![1, 2, 3, 4, 5, 6]);

    let r = rgb_from_raw(2, 1, vec![1, 2, 3, 4, 5]);
    assert!(matches!(r, Err(DepthError::InvariantViolation)));
    let r = rgb_from_raw(2, 1, vec![0; 7]);
    assert!(matches!(r, Err(DepthError::InvariantViolation)));
}

#[test]
fn squash_resize_gives_exact_square() {
    let f = rgb_from_raw(100, 200, gradient_bytes(100, 200)).unwrap();
    let out = resize_to_model_input(&f, ResizePolicy::StaticSquash(518));
    assert_eq!(out.width(), 518);
    assert_eq!(out.height(), 518);
    assert_eq!(out.into_raw().len(), 3 * 518 * 518);
}

#[test]
fn aspect_resize_gives_strided_dimensions() {
    let f = rgb_from_raw(100, 200, gradient_bytes(100, 200)).unwrap();
    let out = resize_to_model_input(&f, ResizePolicy::AspectFit(518, 14));
    assert_eq!(out.width(), 252);
    assert_eq!(out.height(), 518);
    assert!(out.width() % 14 == 0 && out.height() % 14 == 0);
    assert!(out.width() <= 518 && out.height() <= 518);
    assert_eq!(out.into_raw().len(), 3 * 252 * 518);
}

#[test]
fn build_luma16_checks_length() {
    let img = build_luma16(2, 2, vec![0, 65535, 17, 40000]).unwrap();
    assert_eq!(img.width(), 2);
    assert_eq!(img.height(), 2);
    assert_eq!(img.into_raw(), vec![0, 65535, 17, 40000]);

    let r = build_luma16(2, 2, vec![0, 1, 2]);
    assert!(matches!(r, Err(DepthError::InvariantViolation)));
    let r = build_luma16(2, 2, vec![0; 5]);
    assert!(matches!(r, Err(DepthError::InvariantViolation)));
}

#[test]
fn finalize_resamples_back_to_source_dimensions() {
    let img = build_luma16(2, 1, vec![0, 65535]).unwrap();
    let out = finalize_output(img, 100, 200, true);
    assert_eq!(out.width(), 100);
    assert_eq!(out.height(), 200);
    assert_eq!(out.into_raw().len(), 100 * 200);
}

#[test]
fn finalize_resample_carries_the_depth_values() {
    // A bright constant image stays bright through the Catmull-Rom resample:
    // the finalized content comes from the source samples, not from a blank.
    let img = build_luma16(2, 1, vec![65535, 65535]).unwrap();
    let out = finalize_output(img, 4, 2, true);
    assert_eq!(out.width(), 4);
    assert_eq!(out.height(), 2);
    let words = out.into_raw();
    assert_eq!(words.len(), 8);
    for w in words {
        assert!(w > 60000);
    }
}

#[test]
fn finalize_without_request_is_identity() {
    let img = build_luma16(2, 2, vec![1, 2, 3, 4]).unwrap();
    let out = finalize_output(img, 100, 200, false);
    assert_eq!(out.width(), 2);
    assert_eq!(out.height(), 2);
    assert_eq!(out.into_raw(), vec![1, 2, 3, 4]);
}

#[test]
fn finalize_with_matching_dimensions_is_identity() {
    let img = build_luma16(2, 2, vec![9, 8, 7, 6]).unwrap();
    let out = finalize_output(img, 2, 2, true);
    assert_eq!(out.width(), 2);
    assert_eq!(out.height(), 2);
    assert_eq!(out.into_raw(), vec![9, 8, 7, 6]);
}

#[test]
fn end_to_end_dimensions() {
    // A 100x200 source through the dynamic policy, quantized words standing
    // in for the model output, resampled back to the source dimensions.
    let f = rgb_from_raw(100, 200, gradient_bytes(100, 200)).unwrap();
    let resized = resize_to_model_input(&f, ResizePolicy::AspectFit(518, 14));
    let (w, h) = (resized.width(), resized.height());
    assert!(w % 14 == 0 && h % 14 == 0 && w <= 518 && h <= 518);
    let depth = build_luma16(w, h, vec![0; (w * h) as usize]).unwrap();
    let final_img = finalize_output(depth, 100, 200, true);
    assert_eq!(final_img.width(), 100);
    assert_eq!(final_img.height(), 200);
}
