use spectral_renderer::custom_image::{CustomImage, Pixel};

#[test]
fn new_image_is_black_and_sized() {
    let img: CustomImage<f32> = CustomImage::new(4, 3, 0.0);
    assert_eq!(img.get_width(), 4);
    assert_eq!(img.get_height(), 3);
    for y in 0..3 {
        for x in 0..4 {
            let p = img.get_pixel(x, y).unwrap();
            assert_eq!(p.r, 0.0);
            assert_eq!(p.g, 0.0);
            assert_eq!(p.b, 0.0);
            assert_eq!(p.a, 0.0);
        }
    }
}

#[test]
fn new_from_data_accepts_matching_length() {
    let data: Vec<f32> = vec![0.5; 2 * 2 * 4];
    let img = CustomImage::new_from_data(2, 2, data).unwrap();
    assert_eq!(img.get_width(), 2);
    assert_eq!(img.get_height(), 2);
    let p = img.get_pixel(1, 1).unwrap();
    assert_eq!(p.r, 0.5);
    assert_eq!(p.a, 0.5);
}

#[test]
fn new_from_data_rejects_wrong_length() {
    let data: Vec<f32> = vec![0.0; 2 * 2 * 4 - 1];
    let err = match CustomImage::new_from_data(2, 2, data) {
        Ok(_) => panic!("a short buffer must be rejected"),
        Err(e) => e,
    };
    assert_eq!(err.error, "Data length does not match given width and height!");
}

#[test]
fn set_pixel_writes_only_its_pixel() {
    let mut img: CustomImage<f32> = CustomImage::new(3, 2, 0.0);
    let painted = Pixel { r: 1.0, g: 0.25, b: 0.5, a: 1.0 };
    img.set_pixel(1, 1, painted).unwrap();

    let read_back = img.get_pixel(1, 1).unwrap();
    assert_eq!(read_back.r, 1.0);
    assert_eq!(read_back.g, 0.25);
    assert_eq!(read_back.b, 0.5);
    assert_eq!(read_back.a, 1.0);

    for y in 0..2 {
        for x in 0..3 {
            if (x, y) != (1, 1) {
                let p = img.get_pixel(x, y).unwrap();
                assert_eq!((p.r, p.g, p.b, p.a), (0.0, 0.0, 0.0, 0.0));
            }
        }
    }
}

#[test]
fn buffer_layout_is_row_major_with_four_channels() {
    let mut img: CustomImage<f32> = CustomImage::new(3, 2, 0.0);
    img.set_pixel(2, 1, Pixel { r: 0.1, g: 0.2, b: 0.3, a: 0.4 }).unwrap();
    let data = img.into_data();
    assert_eq!(data.len(), 3 * 2 * 4);
    let base = (1 * 3 + 2) * 4;
    assert_eq!(&data[base..base + 4], &[0.1, 0.2, 0.3, 0.4]);
    assert!(data[..base].iter().all(|&v| v == 0.0));
}

#[test]
fn pixel_access_out_of_bounds_is_an_error() {
    let mut img: CustomImage<f32> = CustomImage::new(3, 2, 0.0);
    assert!(img.get_pixel(3, 0).is_err());
    assert!(img.get_pixel(0, 2).is_err());
    assert!(img.get_pixel(3, 2).is_err());
    assert!(img.get_pixel(2, 1).is_ok());

    let p = Pixel { r: 1.0f32, g: 1.0, b: 1.0, a: 1.0 };
    assert!(img.set_pixel(3, 0, p).is_err());
    assert!(img.set_pixel(0, 2, p).is_err());
    // the failed writes changed nothing
    for y in 0..2 {
        for x in 0..3 {
            let q = img.get_pixel(x, y).unwrap();
            assert_eq!((q.r, q.g, q.b, q.a), (0.0, 0.0, 0.0, 0.0));
        }
    }
}

#[test]
fn row_arguments_are_checked() {
    let img: CustomImage<f32> = CustomImage::new(5, 4, 0.0);
    assert!(img.row_args_ok(5, 0).is_ok());
    assert!(img.row_args_ok(5, 3).is_ok());
    assert_eq!(img.row_args_ok(4, 0).unwrap_err().error, "Row too long or short!");
    assert_eq!(img.row_args_ok(6, 0).unwrap_err().error, "Row too long or short!");
    assert_eq!(
        img.row_args_ok(5, 4).unwrap_err().error,
        "Specified row number does not exist!"
    );
}

#[test]
fn blend_pixel_weight_one_replaces_weight_zero_preserves() {
    // The weighted blend itself runs on floating-point channels outside the
    // library; this exercises the accumulator it rests on with the blend
    // written out: old * (1 - w) + new * w per channel.
    let mut img: CustomImage<f32> = CustomImage::new(2, 2, 0.0);
    img.set_pixel(0, 0, Pixel { r: 0.1, g: 0.2, b: 0.3, a: 0.4 }).unwrap();

    let blend = |img: &mut CustomImage<f32>, x: usize, y: usize, new: Pixel<f32>, w: f32| {
        let old = img.get_pixel(x, y).unwrap();
        let mixed = Pixel {
            r: old.r * (1.0 - w) + new.r * w,
            g: old.g * (1.0 - w) + new.g * w,
            b: old.b * (1.0 - w) + new.b * w,
            a: old.a * (1.0 - w) + new.a * w,
        };
        img.set_pixel(x, y, mixed).unwrap();
    };

    // weight 1.0 yields exactly the new color, whatever was there before
    blend(&mut img, 0, 0, Pixel { r: 0.9, g: 0.8, b: 0.7, a: 1.0 }, 1.0);
    let p = img.get_pixel(0, 0).unwrap();
    assert_eq!((p.r, p.g, p.b, p.a), (0.9, 0.8, 0.7, 1.0));

    // weight 0.0 preserves the prior state exactly
    blend(&mut img, 0, 0, Pixel { r: 0.0, g: 0.0, b: 0.0, a: 0.0 }, 0.0);
    let p = img.get_pixel(0, 0).unwrap();
    assert_eq!((p.r, p.g, p.b, p.a), (0.9, 0.8, 0.7, 1.0));
}
