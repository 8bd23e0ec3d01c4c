use coordinate_transformer::pixel2tile;
use coordinate_transformer::Pixel;
use coordinate_transformer::ZoomLv;

#[test]
fn pixel2tile_divides_by_the_tile_size() {
    assert_eq!(pixel2tile((476868027, 211407949)), (1862765, 825812));
    assert_eq!(pixel2tile((0, 0)), (0, 0));
    assert_eq!(pixel2tile((255, 255)), (0, 0));
    assert_eq!(pixel2tile((256, 511)), (1, 1));
    assert_eq!(pixel2tile((u32::MAX, u32::MAX)), (16777215, 16777215));
}

#[test]
fn pixel_keeps_its_parts() {
    let pixel = Pixel::new(476868027, 211407949, ZoomLv::Lv21);
    assert_eq!(pixel.to_tuple(), (476868027, 211407949));
    assert_eq!(pixel.zoom(), ZoomLv::Lv21);
}

#[test]
fn pixel_equality_is_by_parts() {
    let a = Pixel::new(1, 2, ZoomLv::Lv3);
    let b = Pixel::new(1, 2, ZoomLv::Lv3);
    let c = Pixel::new(1, 2, ZoomLv::Lv4);
    assert_eq!(a, b);
    assert_ne!(a, c);
}
