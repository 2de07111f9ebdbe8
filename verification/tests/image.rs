use rusty_vision::color::{Color, ColorSpace};
use rusty_vision::error::Error;
use rusty_vision::geometry::{Point, Shape};
use rusty_vision::image::Image;

#[test]
fn test_image_create() {
    let image = Image::new(
        Shape {
            width: 2,
            height: 2,
            ndim: 3,
        },
        ColorSpace::RGB,
    );
    assert_eq!(image.size(), 2 * 2 * 3)
}

#[test]
fn test_image_add() {
    let shape = Shape {
        width: 2,
        height: 2,
        ndim: 3,
    };

    let mut image1 = Image::new(shape, ColorSpace::RGB);
    let mut image2 = Image::new(shape, ColorSpace::RGB);

    let color = Color::new(20, 0, 0, 255);
    let point = Point::new(0, 0);

    image1.set_pixel(&point.clone(), &color.clone()).unwrap();

    image2.set_pixel(&point.clone(), &color.clone()).unwrap();
    image1 = image1 + image2;

    assert_eq!(image1[(0, 0, 0)], 40);
}

#[test]
fn test_image_add_out_of_range() {
    let shape = Shape {
        width: 2,
        height: 2,
        ndim: 3,
    };

    let mut image1 = Image::new(shape, ColorSpace::RGB);
    let mut image2 = Image::new(shape, ColorSpace::RGB);

    let color = Color::new(200, 0, 0, 255);
    let point = Point::new(0, 0);

    image1.set_pixel(&point.clone(), &color.clone()).unwrap();

    image2.set_pixel(&point.clone(), &color.clone()).unwrap();
    image1 = image1 + image2;

    assert_eq!(image1[(0, 0, 0)], 255);
}

#[test]
fn test_bitwise_and() {
    let shape = Shape {
        width: 2,
        height: 2,
        ndim: 3,
    };

    let mut image1 = Image::new(shape, ColorSpace::RGB);
    let mut image2 = Image::new(shape, ColorSpace::RGB);

    let color = Color::new(200, 0, 0, 255);
    let point = Point::new(0, 0);

    image1.set_pixel(&point.clone(), &color.clone()).unwrap();

    image2.set_pixel(&point.clone(), &color.clone()).unwrap();
    image1 = image1 & image2;

    // The and of a byte with itself is the byte.
    assert_eq!(image1[(0, 0, 0)], 200);
    assert_eq!(image1[(0, 0, 1)], 0);
}

#[test]
fn new_image_is_blank_and_sized_by_its_shape() {
    for (shape, colorspace) in [
        (Shape::new(5, 3, Some(3)), ColorSpace::RGB),
        (Shape::new(5, 3, Some(4)), ColorSpace::RGBA),
        (Shape::new(2, 9, Some(3)), ColorSpace::BGR),
        (Shape::new(1, 1, Some(4)), ColorSpace::BGRA),
        (Shape::new(4, 4, Some(3)), ColorSpace::YUV420P),
        (Shape::new(7, 2, Some(1)), ColorSpace::Gray),
        (Shape::new(0, 5, Some(3)), ColorSpace::RGB),
    ] {
        let image = Image::new(shape, colorspace);
        assert_eq!(image.size(), shape.size());
        assert_eq!(image.width(), shape.width);
        assert_eq!(image.height(), shape.height);
        assert_eq!(image.shape(), shape);
        assert_eq!(image.colorspace(), colorspace);
        assert!(image.slice(0, image.size()).iter().all(|&byte| byte == 0));
    }
}

#[test]
fn from_data_accepts_matching_bytes() {
    let shape = Shape::new(2, 1, Some(3));
    let image = Image::from_data(vec![1, 2, 3, 4, 5, 6], shape, ColorSpace::RGB).unwrap();
    assert_eq!(image.slice(0, 6), &[1, 2, 3, 4, 5, 6]);
    assert_eq!(image.shape(), shape);
    assert_eq!(image.colorspace(), ColorSpace::RGB);
}

#[test]
fn from_data_refuses_a_wrong_length() {
    let shape = Shape::new(2, 1, Some(3));
    assert!(matches!(
        Image::from_data(vec![1, 2, 3, 4, 5], shape, ColorSpace::RGB),
        Err(Error::ShapeMismatch(_))
    ));
    assert!(matches!(
        Image::from_data(vec![0; 7], shape, ColorSpace::RGB),
        Err(Error::ShapeMismatch(_))
    ));
}

#[test]
fn from_data_refuses_a_shape_that_miscounts_channels() {
    let shape = Shape::new(2, 1, Some(3));
    assert!(matches!(
        Image::from_data(vec![0; 6], shape, ColorSpace::RGBA),
        Err(Error::ShapeMismatch(_))
    ));
    let unaddressable = Shape::new(usize::MAX, usize::MAX, Some(3));
    assert!(matches!(
        Image::from_data(vec![0; 6], unaddressable, ColorSpace::RGB),
        Err(Error::ShapeMismatch(_))
    ));
}

#[test]
fn get_index_follows_the_row_major_formula() {
    let image = Image::new(Shape::new(3, 3, Some(3)), ColorSpace::RGB);
    assert_eq!(image.get_index(&Point::new(1, 1)).unwrap(), 12);
    assert_eq!(image.get_index_from_xy(2, 0).unwrap(), 6);
    assert_eq!(image.get_index_from_xy(0, 2).unwrap(), 18);
    assert!(matches!(image.get_index(&Point::new(3, 0)), Err(Error::IndexOutOfBounds(_))));
    assert!(matches!(image.get_index_from_xy(0, 3), Err(Error::IndexOutOfBounds(_))));
}

#[test]
fn set_pixel_succeeds_on_the_last_pixel_and_fails_beside_it() {
    let mut image = Image::new(Shape::new(4, 3, Some(3)), ColorSpace::RGB);
    let color = Color::new(1, 2, 3, 4);
    assert!(image.set_pixel(&Point::new(3, 2), &color).is_ok());
    assert_eq!(image.get_pixel(&Point::new(3, 2)).unwrap(), &[1, 2, 3]);
    let before = image.clone();
    assert!(matches!(
        image.set_pixel(&Point::new(4, 2), &color),
        Err(Error::IndexOutOfBounds(_))
    ));
    assert!(matches!(
        image.set_pixel(&Point::new(3, 3), &color),
        Err(Error::IndexOutOfBounds(_))
    ));
    assert_eq!(image.slice(0, image.size()), before.slice(0, before.size()));
}

#[test]
fn set_pixel_writes_as_many_channels_as_the_image_has() {
    let color = Color::new(10, 20, 30, 40);

    let mut rgba = Image::new(Shape::new(2, 2, Some(4)), ColorSpace::RGBA);
    rgba.set_pixel(&Point::new(1, 0), &color).unwrap();
    assert_eq!(rgba.slice(0, 16), &[0, 0, 0, 0, 10, 20, 30, 40, 0, 0, 0, 0, 0, 0, 0, 0]);

    let mut rgb = Image::new(Shape::new(2, 2, Some(3)), ColorSpace::RGB);
    rgb.set_pixel(&Point::new(0, 1), &color).unwrap();
    assert_eq!(rgb.slice(0, 12), &[0, 0, 0, 0, 0, 0, 10, 20, 30, 0, 0, 0]);

    let mut gray = Image::new(Shape::new(2, 2, Some(1)), ColorSpace::Gray);
    gray.set_pixel(&Point::new(1, 1), &color).unwrap();
    assert_eq!(gray.slice(0, 4), &[0, 0, 0, 10]);
}

#[test]
fn get_pixel_returns_the_bytes_of_the_pixel() {
    let image =
        Image::from_data((0..24).collect(), Shape::new(4, 2, Some(3)), ColorSpace::RGB).unwrap();
    assert_eq!(image.get_pixel(&Point::new(0, 0)).unwrap(), &[0, 1, 2]);
    assert_eq!(image.get_pixel(&Point::new(3, 1)).unwrap(), &[21, 22, 23]);
    assert!(matches!(image.get_pixel(&Point::new(4, 0)), Err(Error::IndexOutOfBounds(_))));
}

#[test]
fn get_mut_pixel_writes_through_to_the_image() {
    let mut image =
        Image::from_data((0..24).collect(), Shape::new(4, 2, Some(3)), ColorSpace::RGB).unwrap();
    {
        let pixel = image.get_mut_pixel(&Point::new(2, 1)).unwrap();
        assert_eq!(pixel, &[18, 19, 20]);
        pixel[1] = 99;
    }
    assert_eq!(image.slice(15, 24), &[15, 16, 17, 18, 99, 20, 21, 22, 23]);
    assert!(matches!(
        image.get_mut_pixel(&Point::new(0, 2)),
        Err(Error::IndexOutOfBounds(_))
    ));
}

#[test]
fn slices_and_swap_address_bytes() {
    let mut image =
        Image::from_data((0..12).collect(), Shape::new(2, 2, Some(3)), ColorSpace::RGB).unwrap();
    assert_eq!(image.slice(3, 6), &[3, 4, 5]);
    assert_eq!(image.slice(4, 4), &[] as &[u8]);
    image.swap(0, 11);
    assert_eq!(image.slice(0, 12), &[11, 1, 2, 3, 4, 5, 6, 7, 8, 9, 10, 0]);
    image.mut_slice(1, 3)[0] = 77;
    assert_eq!(image.slice(0, 4), &[11, 77, 2, 3]);
}

#[test]
fn indexing_reads_bytes_pixels_and_channels() {
    let image =
        Image::from_data((0..24).collect(), Shape::new(4, 2, Some(3)), ColorSpace::RGB).unwrap();
    assert_eq!(image[13], 13);
    assert_eq!(&image[(1, 1)], &[15, 16, 17]);
    assert_eq!(image[(1, 1, 2)], 17);
    assert_eq!(image[(3, 0, 0)], 9);
}

#[test]
fn clone_copies_shape_colorspace_and_bytes() {
    let image =
        Image::from_data((0..12).collect(), Shape::new(2, 2, Some(3)), ColorSpace::BGR).unwrap();
    let copy = image.clone();
    assert_eq!(copy.shape(), image.shape());
    assert_eq!(copy.colorspace(), ColorSpace::BGR);
    assert_eq!(copy.slice(0, 12), image.slice(0, 12));
}

#[test]
fn crop_copies_the_box_row_by_row() {
    // A 4 x 3 grey image whose byte at (x, y) is 10 * y + x.
    let data: Vec<u8> = (0..3).flat_map(|y| (0..4).map(move |x| 10 * y + x)).collect();
    let image = Image::from_data(data, Shape::new(4, 3, Some(1)), ColorSpace::Gray).unwrap();
    let cropped = image.crop(Point::new(1, 1), Shape::new(2, 2, None)).unwrap();
    assert_eq!(cropped.shape(), Shape::new(2, 2, Some(1)));
    assert_eq!(cropped.colorspace(), ColorSpace::Gray);
    assert_eq!(cropped.slice(0, 4), &[11, 12, 21, 22]);
}

#[test]
fn crop_keeps_all_channels_and_ignores_the_requested_channel_count() {
    let image =
        Image::from_data((0..36).collect(), Shape::new(4, 3, Some(3)), ColorSpace::RGB).unwrap();
    let cropped = image.crop(Point::new(2, 0), Shape::new(2, 3, Some(7))).unwrap();
    assert_eq!(cropped.shape(), Shape::new(2, 3, Some(3)));
    assert_eq!(
        cropped.slice(0, 18),
        &[6, 7, 8, 9, 10, 11, 18, 19, 20, 21, 22, 23, 30, 31, 32, 33, 34, 35]
    );
    for y in 0..3 {
        for x in 0..2 {
            assert_eq!(
                cropped.get_pixel(&Point::new(x, y)).unwrap(),
                image.get_pixel(&Point::new(2 + x, y)).unwrap()
            );
        }
    }
}

#[test]
fn crop_of_the_whole_image_and_of_nothing() {
    let image =
        Image::from_data((0..12).collect(), Shape::new(2, 2, Some(3)), ColorSpace::RGB).unwrap();
    let whole = image.crop(Point::new(0, 0), Shape::new(2, 2, Some(3))).unwrap();
    assert_eq!(whole.slice(0, 12), image.slice(0, 12));
    let nothing = image.crop(Point::new(2, 2), Shape::new(0, 0, None)).unwrap();
    assert_eq!(nothing.size(), 0);
}

#[test]
fn crop_refuses_a_box_that_leaves_the_image() {
    let image = Image::new(Shape::new(4, 3, Some(3)), ColorSpace::RGB);
    assert!(matches!(
        image.crop(Point::new(3, 0), Shape::new(2, 1, None)),
        Err(Error::IndexOutOfBounds(_))
    ));
    assert!(matches!(
        image.crop(Point::new(0, 2), Shape::new(1, 2, None)),
        Err(Error::IndexOutOfBounds(_))
    ));
    assert!(matches!(
        image.crop(Point::new(usize::MAX, 0), Shape::new(2, 1, None)),
        Err(Error::IndexOutOfBounds(_))
    ));
}
