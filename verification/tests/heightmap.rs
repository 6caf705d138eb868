use terrain_mesh::heightmap::{load_height_image, sample_vertex_height, HeightImage, HEIGHT_ONE};

fn image(width: u32, height: u32, data: Vec<u16>) -> HeightImage {
    HeightImage::new(width, height, data).unwrap()
}

#[test]
fn height_one_is_full_scale() {
    assert_eq!(HEIGHT_ONE, 12 * 65535);
}

#[test]
fn new_rejects_bad_dimensions() {
    assert!(HeightImage::new(0, 3, vec![]).is_none());
    assert!(HeightImage::new(3, 0, vec![]).is_none());
    assert!(HeightImage::new(2, 2, vec![1, 2, 3]).is_none());
    assert!(HeightImage::new(2, 2, vec![1, 2, 3, 4]).is_some());
}

#[test]
fn accessors_return_the_grid() {
    let img = image(3, 2, vec![10, 20, 30, 40, 50, 60]);
    assert_eq!(img.width(), 3);
    assert_eq!(img.height(), 2);
    assert_eq!(img.px(0, 0), 10);
    assert_eq!(img.px(0, 2), 30);
    assert_eq!(img.px(1, 0), 40);
    assert_eq!(img.px(1, 2), 60);
}

#[test]
fn uniform_image_samples_to_normalized_value() {
    // 0.8 of full scale: 52428 / 65535 == 0.8 exactly.
    let v: u16 = 52428;
    let img = image(3, 3, vec![v; 9]);
    for cy in 0..=3 {
        for cx in 0..=3 {
            assert_eq!(sample_vertex_height(&img, cy, cx), 12 * v as u32);
        }
    }
    assert_eq!(12 * v as u32, HEIGHT_ONE / 5 * 4);
}

#[test]
fn uniform_full_scale_samples_to_height_one() {
    let img = image(2, 2, vec![65535; 4]);
    assert_eq!(sample_vertex_height(&img, 1, 1), HEIGHT_ONE);
}

#[test]
fn corner_averages_one_sample_center_averages_four() {
    let img = image(2, 2, vec![100, 200, 300, 400]);
    // (0,0): only the (0,0) corner of its 2x2 block is in bounds.
    assert_eq!(sample_vertex_height(&img, 0, 0), 12 * 100);
    // (1,1): all four corners are in bounds, mean of the four samples.
    assert_eq!(sample_vertex_height(&img, 1, 1), 3 * (100 + 200 + 300 + 400));
    // (0,1): two corners in bounds (top row of the block is outside).
    assert_eq!(sample_vertex_height(&img, 0, 1), 6 * (100 + 200));
    // (1,0): two corners in bounds (left column of the block is outside).
    assert_eq!(sample_vertex_height(&img, 1, 0), 6 * (100 + 300));
    // (2,2): only the (1,1) corner survives the bottom-right clamp.
    assert_eq!(sample_vertex_height(&img, 2, 2), 12 * 400);
}

fn png_bytes_luma16(width: u32, height: u32, data: Vec<u16>) -> Vec<u8> {
    let buf = image::ImageBuffer::<image::Luma<u16>, Vec<u16>>::from_raw(width, height, data)
        .unwrap();
    let dynimg = image::DynamicImage::ImageLuma16(buf);
    let mut out = std::io::Cursor::new(Vec::new());
    dynimg.write_to(&mut out, image::ImageFormat::Png).unwrap();
    out.into_inner()
}

#[test]
fn load_height_image_decodes_16_bit_grayscale() {
    let bytes = png_bytes_luma16(3, 2, vec![0, 1, 2, 60000, 65535, 12345]);
    let img = load_height_image(&bytes).unwrap();
    assert_eq!(img.width(), 3);
    assert_eq!(img.height(), 2);
    assert_eq!(img.px(0, 0), 0);
    assert_eq!(img.px(0, 1), 1);
    assert_eq!(img.px(0, 2), 2);
    assert_eq!(img.px(1, 0), 60000);
    assert_eq!(img.px(1, 1), 65535);
    assert_eq!(img.px(1, 2), 12345);
}

#[test]
fn load_height_image_rejects_garbage() {
    assert!(load_height_image(&[0u8, 1, 2, 3, 4, 5, 6, 7]).is_err());
    assert!(load_height_image(&[]).is_err());
}

#[test]
fn load_height_image_rejects_8_bit_grayscale() {
    let buf = image::ImageBuffer::<image::Luma<u8>, Vec<u8>>::from_raw(2, 2, vec![1, 2, 3, 4])
        .unwrap();
    let dynimg = image::DynamicImage::ImageLuma8(buf);
    let mut out = std::io::Cursor::new(Vec::new());
    dynimg.write_to(&mut out, image::ImageFormat::Png).unwrap();
    assert!(load_height_image(&out.into_inner()).is_err());
}
