use cutout::{
    composite, normalize, post_process, resample, Grid, Image, Pixel, PipelineError, RawMask, Score, Settings,
};

fn score(value: f32) -> Score {
    Score::from_bits(value.to_bits())
}

fn raw(shape: &[usize], values: &[f32]) -> RawMask {
    RawMask { shape: shape.to_vec(), scores: values.iter().map(|v| score(*v)).collect() }
}

fn gradient(width: u32, height: u32) -> Image {
    let mut cells = Vec::new();
    for y in 0..height {
        for x in 0..width {
            cells.push(Pixel { red: (x * 20) as u8, green: (y * 20) as u8, blue: (x + y) as u8, alpha: 128 });
        }
    }
    Grid::from_cells(width, height, cells).unwrap()
}

/// Scores of a 4x4 mask whose left half is positive.
fn left_half() -> RawMask {
    let mut values = Vec::new();
    for _y in 0..4 {
        for x in 0..4 {
            values.push(if x < 2 { 2.5f32 } else { -2.5f32 });
        }
    }
    raw(&[1, 4, 4], &values)
}

#[test]
fn the_default_settings_are_zero_and_100() {
    let settings = Settings::default();
    assert_eq!(settings.threshold, Score::zero());
    assert_eq!(settings.threshold.to_bits(), 0);
    assert_eq!(settings.cutoff, 100);
}

#[test]
fn the_pipeline_is_its_three_stages() {
    let image = gradient(9, 6);
    let scores = left_half();
    let settings = Settings::default();
    let binary = normalize(&scores, settings.threshold).unwrap();
    let intensities = resample(&binary, 9, 6).unwrap();
    let expected = composite(&image, &intensities, settings.cutoff).unwrap();
    assert_eq!(post_process(&image, &scores, &settings), Ok(expected));
}

#[test]
fn positive_scores_keep_the_whole_image() {
    let image = gradient(8, 8);
    let cutout = post_process(&image, &raw(&[1, 4, 4], &[1.0; 16]), &Settings::default()).unwrap();
    let expected: Vec<Pixel> = image.cells().iter().map(|p| p.opaque()).collect();
    assert_eq!(cutout.cells(), &expected);
}

#[test]
fn negative_scores_clear_the_whole_image() {
    let image = gradient(8, 8);
    let cutout = post_process(&image, &raw(&[1, 4, 4], &[-1.0; 16]), &Settings::default()).unwrap();
    assert_eq!(cutout.cells(), &vec![Pixel::transparent(); 64]);
}

#[test]
fn the_left_half_is_kept_and_the_right_half_cleared() {
    let image = gradient(8, 4);
    let cutout = post_process(&image, &left_half(), &Settings::default()).unwrap();
    for y in 0..4 {
        assert_eq!(cutout.get(0, y), Some(image.get(0, y).unwrap().opaque()));
        assert_eq!(cutout.get(1, y), Some(image.get(1, y).unwrap().opaque()));
        assert_eq!(cutout.get(6, y), Some(Pixel::transparent()));
        assert_eq!(cutout.get(7, y), Some(Pixel::transparent()));
    }
}

#[test]
fn the_cutout_has_the_size_of_the_image_whatever_the_mask() {
    for (width, height) in [(1, 1), (3, 11), (16, 2), (4, 4)] {
        let image = gradient(width, height);
        for scores in [left_half(), raw(&[1, 1, 1], &[0.0]), raw(&[3, 2, 5], &[0.5; 30])] {
            let cutout = post_process(&image, &scores, &Settings::default()).unwrap();
            assert_eq!((cutout.width(), cutout.height()), (width, height));
        }
    }
}

#[test]
fn the_threshold_and_the_cutoff_are_independent() {
    let image = gradient(2, 2);
    let scores = raw(&[1, 1, 1], &[0.5]);
    let strict = Settings { threshold: score(0.75), cutoff: 100 };
    assert_eq!(post_process(&image, &scores, &strict).unwrap().cells(), &vec![Pixel::transparent(); 4]);
    let lenient = Settings { threshold: score(0.5), cutoff: 254 };
    let kept: Vec<Pixel> = image.cells().iter().map(|p| p.opaque()).collect();
    assert_eq!(post_process(&image, &scores, &lenient).unwrap().cells(), &kept);
    let closed = Settings { threshold: score(0.5), cutoff: 255 };
    assert_eq!(post_process(&image, &scores, &closed).unwrap().cells(), &vec![Pixel::transparent(); 4]);
}

#[test]
fn scores_of_zero_spatial_size_are_a_shape_error() {
    let image = gradient(8, 8);
    let settings = Settings::default();
    assert_eq!(post_process(&image, &raw(&[1, 0, 0], &[]), &settings), Err(PipelineError::ShapeError));
    assert_eq!(post_process(&image, &raw(&[1, 0, 4], &[]), &settings), Err(PipelineError::ShapeError));
    assert_eq!(post_process(&image, &raw(&[4, 4], &[0.0; 16]), &settings), Err(PipelineError::ShapeError));
}

#[test]
fn an_image_without_pixels_is_a_shape_error() {
    let settings = Settings::default();
    for (width, height) in [(0, 0), (0, 5), (5, 0)] {
        let image = gradient(width, height);
        assert_eq!(post_process(&image, &left_half(), &settings), Err(PipelineError::ShapeError));
    }
}

#[test]
fn running_twice_gives_the_same_cutout() {
    let image = gradient(13, 7);
    let settings = Settings::default();
    let first = post_process(&image, &left_half(), &settings);
    let second = post_process(&image.clone(), &left_half(), &settings);
    assert!(first.is_ok());
    assert_eq!(first, second);
}

#[test]
fn an_image_wider_than_the_resampler_takes_is_a_shape_error() {
    let cells = vec![Pixel::transparent(); 65_536];
    let image: Image = Grid::from_cells(65_536, 1, cells).unwrap();
    assert_eq!(post_process(&image, &left_half(), &Settings::default()), Err(PipelineError::ShapeError));
}
