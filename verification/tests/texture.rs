use matrix_visualizer::error::VisualizerError;
use matrix_visualizer::field::Matrix;
use matrix_visualizer::texture::{make_texture_image, to_rgba_bytes};

fn field_of(nrows: usize, ncols: usize, e: f32) -> Matrix {
    Matrix::from_shape_vec(nrows, ncols, vec![e.to_bits(); nrows * ncols]).unwrap()
}

fn field_from(nrows: usize, ncols: usize, samples: &[f32]) -> Matrix {
    Matrix::from_shape_vec(nrows, ncols, samples.iter().map(|e| e.to_bits()).collect()).unwrap()
}

#[test]
fn a_field_of_zeros_is_all_black() {
    let bytes = to_rgba_bytes(&field_of(64, 64, 0.0));
    assert_eq!(bytes.len(), 16384);
    assert!(bytes.iter().all(|b| *b == 0));
}

#[test]
fn a_field_of_ones_is_all_white() {
    let bytes = to_rgba_bytes(&field_of(64, 64, 1.0));
    assert_eq!(bytes.len(), 16384);
    assert!(bytes.iter().all(|b| *b == 255));
}

#[test]
fn a_field_of_halves_is_all_127() {
    let bytes = to_rgba_bytes(&field_of(8, 8, 0.5));
    assert_eq!(bytes.len(), 256);
    assert!(bytes.iter().all(|b| *b == 127));
}

#[test]
fn samples_outside_the_range_are_clamped() {
    let bytes = to_rgba_bytes(&field_from(1, 4, &[-3.0, 7.5, f32::NEG_INFINITY, f32::INFINITY]));
    assert_eq!(bytes, vec![0, 0, 0, 0, 255, 255, 255, 255, 0, 0, 0, 0, 255, 255, 255, 255]);
}

#[test]
fn the_image_has_four_bytes_for_each_sample() {
    let shapes = [(1, 1), (1, 7), (7, 1), (3, 5), (5, 3), (16, 16), (0, 0), (0, 9), (9, 0)];
    for (nrows, ncols) in shapes {
        let bytes = to_rgba_bytes(&field_of(nrows, ncols, 0.25));
        assert_eq!(bytes.len(), 4 * nrows * ncols);
    }
}

#[test]
fn the_four_channels_of_a_pixel_are_equal() {
    let samples: Vec<f32> = (0..35).map(|k| k as f32 / 34.0).collect();
    let bytes = to_rgba_bytes(&field_from(5, 7, &samples));
    assert_eq!(bytes.len(), 140);
    for pixel in bytes.chunks(4) {
        assert_eq!(pixel[0], pixel[1]);
        assert_eq!(pixel[0], pixel[2]);
        assert_eq!(pixel[0], pixel[3]);
    }
}

#[test]
fn the_first_sample_comes_first() {
    let bytes = to_rgba_bytes(&field_from(2, 2, &[1.0, 0.0, 0.0, 0.0]));
    assert_eq!(&bytes[0..4], &[255, 255, 255, 255]);
    assert!(bytes[4..].iter().all(|b| *b == 0));
}

#[test]
fn rows_follow_each_other() {
    // Row 0 is 0.0, 0.2; row 1 is 0.4, 0.6; row 2 is 0.8, 1.0.
    let bytes = to_rgba_bytes(&field_from(3, 2, &[0.0, 0.2, 0.4, 0.6, 0.8, 1.0]));
    let levels: Vec<u8> = bytes.chunks(4).map(|pixel| pixel[0]).collect();
    assert_eq!(levels, vec![0, 51, 102, 153, 204, 255]);
    // The same samples in another shape keep their order.
    let wide = to_rgba_bytes(&field_from(2, 3, &[0.0, 0.2, 0.4, 0.6, 0.8, 1.0]));
    assert_eq!(wide, bytes);
}

#[test]
fn the_sample_at_a_position_stands_at_its_offset() {
    let (nrows, ncols) = (4usize, 6usize);
    for i in 0..nrows {
        for j in 0..ncols {
            let mut samples = vec![0.0f32; nrows * ncols];
            samples[i * ncols + j] = 1.0;
            let bytes = to_rgba_bytes(&field_from(nrows, ncols, &samples));
            for (at, byte) in bytes.iter().enumerate() {
                let inside = 4 * (i * ncols + j) <= at && at < 4 * (i * ncols + j) + 4;
                assert_eq!(*byte, if inside { 255 } else { 0 });
            }
        }
    }
}

#[test]
fn the_raw_image_is_as_wide_as_the_field_has_columns() {
    let image = make_texture_image(&field_from(2, 3, &[0.0, 0.2, 0.4, 0.6, 0.8, 1.0])).unwrap();
    assert_eq!(image.width, 3);
    assert_eq!(image.height, 2);
    let levels: Vec<u8> = image.data.chunks(4).map(|pixel| pixel[0]).collect();
    assert_eq!(levels, vec![0, 51, 102, 153, 204, 255]);
    assert_eq!(image.data.len(), 24);
}

#[test]
fn the_raw_image_of_a_square_field() {
    let image = make_texture_image(&field_of(256, 256, 0.5)).unwrap();
    assert_eq!((image.width, image.height), (256, 256));
    assert_eq!(image.data.len(), 4 * 256 * 256);
    assert!(image.data.iter().all(|b| *b == 127));
}

#[test]
fn a_field_longer_than_a_texture_is_refused() {
    if let Some(too_long) = (u32::MAX as usize).checked_add(1) {
        let high = Matrix::from_shape_vec(too_long, 0, vec![]).unwrap();
        assert!(matches!(make_texture_image(&high), Err(VisualizerError::BufferAllocation)));
        let wide = Matrix::from_shape_vec(0, too_long, vec![]).unwrap();
        assert!(matches!(make_texture_image(&wide), Err(VisualizerError::BufferAllocation)));
    }
}

#[test]
fn a_field_as_long_as_a_texture_is_taken() {
    let longest = u32::MAX as usize;
    let high = Matrix::from_shape_vec(longest, 0, vec![]).unwrap();
    let image = make_texture_image(&high).unwrap();
    assert_eq!((image.width, image.height), (0, u32::MAX));
    assert!(image.data.is_empty());
}
