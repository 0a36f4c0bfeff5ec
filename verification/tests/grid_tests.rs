use cutout::{Grid, Image, Pixel, PipelineError};

#[test]
fn from_cells_accepts_exactly_width_times_height() {
    let grid = Grid::from_cells(3, 2, vec![1u8, 2, 3, 4, 5, 6]).unwrap();
    assert_eq!(grid.width(), 3);
    assert_eq!(grid.height(), 2);
    assert_eq!(grid.cells(), &vec![1u8, 2, 3, 4, 5, 6]);
    assert!(!grid.is_empty());
}

#[test]
fn from_cells_rejects_too_few_and_too_many() {
    assert_eq!(Grid::from_cells(3, 2, vec![0u8; 5]), Err(PipelineError::ShapeError));
    assert_eq!(Grid::from_cells(3, 2, vec![0u8; 7]), Err(PipelineError::ShapeError));
    assert_eq!(Grid::from_cells(0, 2, vec![0u8; 1]), Err(PipelineError::ShapeError));
}

#[test]
fn a_grid_without_rows_or_columns_is_empty() {
    assert!(Grid::<bool>::from_cells(0, 0, vec![]).unwrap().is_empty());
    assert!(Grid::<bool>::from_cells(5, 0, vec![]).unwrap().is_empty());
    assert!(Grid::<bool>::from_cells(0, 5, vec![]).unwrap().is_empty());
}

#[test]
fn get_reads_row_by_row() {
    let grid = Grid::from_cells(3, 2, vec![10u8, 11, 12, 20, 21, 22]).unwrap();
    assert_eq!(grid.get(0, 0), Some(10));
    assert_eq!(grid.get(2, 0), Some(12));
    assert_eq!(grid.get(0, 1), Some(20));
    assert_eq!(grid.get(2, 1), Some(22));
}

#[test]
fn get_outside_the_grid_is_none() {
    let grid = Grid::from_cells(3, 2, vec![0u8; 6]).unwrap();
    assert_eq!(grid.get(3, 0), None);
    assert_eq!(grid.get(0, 2), None);
    assert_eq!(grid.get(u32::MAX, u32::MAX), None);
}

#[test]
fn duplicate_and_clone_keep_the_cells() {
    let pixel = Pixel { red: 1, green: 2, blue: 3, alpha: 4 };
    let image = Image::from_cells(1, 2, vec![pixel, Pixel::transparent()]).unwrap();
    assert_eq!(image.duplicate(), image);
    assert_eq!(image.clone(), image);
}

#[test]
fn into_cells_gives_the_cells_back() {
    let grid = Grid::from_cells(2, 2, vec![true, false, false, true]).unwrap();
    assert_eq!(grid.into_cells(), vec![true, false, false, true]);
}

#[test]
fn every_error_has_its_message() {
    assert_eq!(PipelineError::ShapeError.message(), "malformed mask dimensions");
    assert_eq!(PipelineError::DimensionMismatch.message(), "image and mask dimensions differ");
    assert_eq!(PipelineError::ModelError.message(), "segmentation model failed");
    assert_eq!(PipelineError::CodecError.message(), "image codec failed");
}
