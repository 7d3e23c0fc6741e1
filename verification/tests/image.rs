use franklin::{Image, Pixel};

#[test]
fn new_keeps_size_and_pixels() {
    let pixels = vec![Pixel::new(1, 2, 3), Pixel::new(4, 5, 6)];
    let image = Image::new(2, 1, pixels.clone());
    assert_eq!(2, image.height());
    assert_eq!(1, image.width());
    assert_eq!(&pixels, image.pixels());
    assert!(image.is_complete());
}

#[test]
fn blank_fills_every_cell_with_the_pixel() {
    let image = Image::blank(2, 3, &Pixel::new(9, 8, 7));
    assert_eq!(2, image.height());
    assert_eq!(3, image.width());
    assert_eq!(&vec![Pixel::new(9, 8, 7); 6], image.pixels());
}

#[test]
fn blank_of_no_rows_is_empty() {
    let image = Image::blank(0, 7, &Pixel::white());
    assert_eq!(0, image.pixels().len());
    assert_eq!(Vec::<u8>::new(), image.as_raw_bytes());
}

#[test]
fn as_raw_bytes_lists_channels_pixel_by_pixel() {
    let image = Image::new(1, 2, vec![Pixel::new(1, 2, 3), Pixel::new(4, 5, 6)]);
    assert_eq!(vec![1, 2, 3, 4, 5, 6], image.as_raw_bytes());
}

#[test]
fn from_raw_bytes_reads_what_as_raw_bytes_writes() {
    let bytes = [10u8, 20, 30, 40, 50, 60, 70, 80, 90, 100, 110, 120];
    let image = Image::from_raw_bytes(2, 2, &bytes).unwrap();
    assert_eq!(2, image.height());
    assert_eq!(2, image.width());
    assert_eq!(Pixel::new(40, 50, 60), image.pixel(1));
    assert_eq!(bytes.to_vec(), image.as_raw_bytes());
}

#[test]
fn from_raw_bytes_refuses_a_run_of_the_wrong_length() {
    assert!(Image::from_raw_bytes(2, 2, &[0u8; 11]).is_none());
    assert!(Image::from_raw_bytes(2, 2, &[0u8; 13]).is_none());
    assert!(Image::from_raw_bytes(1, 1, &[]).is_none());
    assert!(Image::from_raw_bytes(usize::MAX, 2, &[0u8; 6]).is_none());
    assert!(Image::from_raw_bytes(0, 5, &[]).is_some());
}

#[test]
fn set_pixel_changes_one_pixel_only() {
    let mut image = Image::blank(2, 2, &Pixel::white());
    image.set_pixel(2, Pixel::new(1, 2, 3));
    assert_eq!(
        &vec![Pixel::white(), Pixel::white(), Pixel::new(1, 2, 3), Pixel::white()],
        image.pixels()
    );
    assert_eq!(Pixel::new(1, 2, 3), image.pixel(2));
    assert_eq!(2, image.height());
    assert_eq!(2, image.width());
}

#[test]
fn clone_is_an_equal_image_of_its_own() {
    let image = Image::new(1, 2, vec![Pixel::new(1, 2, 3), Pixel::new(4, 5, 6)]);
    let mut copy = image.clone();
    assert_eq!(image.pixels(), copy.pixels());
    assert_eq!(image.height(), copy.height());
    assert_eq!(image.width(), copy.width());
    copy.set_pixel(0, Pixel::white());
    assert_eq!(Pixel::new(1, 2, 3), image.pixel(0));
}
