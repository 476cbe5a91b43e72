use gl_struct::image::{
    check_bounds, ClientImage, ClientSubImage, ImageDims, ImageError, ImageSrc, SubImageError,
};

fn image_4x4() -> ClientImage<Vec<u8>> {
    ClientImage::new([4, 4, 1], (0u8..16).collect())
}

#[test]
fn try_new_accepts_matching_pixels() {
    let img = ClientImage::try_new([2, 3, 1], vec![0u16; 6]).unwrap();
    assert_eq!(img.dim(), [2, 3, 1]);
    assert_eq!(img.width(), 2);
    assert_eq!(img.height(), 3);
    assert_eq!(img.depth(), 1);
    assert_eq!(img.block_dim(), [1, 1, 1]);
    assert_eq!(img.block_size(), 2);
}

#[test]
fn try_new_rejects_wrong_pixel_count() {
    let r = ClientImage::try_new([2, 2, 2], vec![0u8; 4]);
    assert_eq!(r.err(), Some(ImageError::InvalidDimensions([2, 2, 2], 4)));
}

#[test]
fn try_new_rejects_overflowing_dimensions() {
    let r = ClientImage::try_new([usize::MAX, 2, 1], Vec::<u8>::new());
    assert_eq!(r.err(), Some(ImageError::SizeOverflow([usize::MAX, 2, 1])));
    let r = ClientImage::try_new([1 << 40, 1 << 20, 1 << 10], Vec::<u8>::new());
    assert_eq!(r.err(), Some(ImageError::SizeOverflow([1 << 40, 1 << 20, 1 << 10])));
}

#[test]
fn check_bounds_cases() {
    assert_eq!(check_bounds([0, 0, 0], [4, 4, 1], [4, 4, 1], [1, 1, 1]), Ok(()));
    assert_eq!(check_bounds([1, 2, 0], [2, 2, 1], [4, 4, 1], [1, 1, 1]), Ok(()));
    assert_eq!(
        check_bounds([3, 0, 0], [2, 2, 1], [4, 4, 1], [1, 1, 1]),
        Err(SubImageError::OutOfBounds([5, 2, 1], [4, 4, 1]))
    );
    assert_eq!(
        check_bounds([0, 0, 0], [1, 5, 1], [4, 4, 1], [1, 1, 1]),
        Err(SubImageError::OutOfBounds([1, 5, 1], [4, 4, 1]))
    );
    assert_eq!(
        check_bounds([1, 0, 0], [2, 2, 1], [8, 8, 1], [2, 2, 1]),
        Err(SubImageError::NotBlockAligned([1, 0, 0], [2, 2, 1]))
    );
    assert_eq!(
        check_bounds([2, 0, 0], [1, 2, 1], [8, 8, 1], [2, 2, 1]),
        Err(SubImageError::NotBlockAligned([3, 2, 1], [2, 2, 1]))
    );
    assert_eq!(check_bounds([2, 2, 0], [4, 2, 1], [8, 8, 1], [2, 2, 1]), Ok(()));
}

#[test]
fn sub_images_of_client_image() {
    let img = image_4x4();
    let sub = img.try_sub_image([1, 1, 0], [2, 3, 1]).unwrap();
    assert_eq!(sub.offset(), [1, 1, 0]);
    assert_eq!(sub.offset_x(), 1);
    assert_eq!(sub.offset_y(), 1);
    assert_eq!(sub.offset_z(), 0);
    assert_eq!(sub.dim(), [2, 3, 1]);
    assert_eq!(sub.base_dim(), [4, 4, 1]);
    assert_eq!(sub.base_width(), 4);
    assert_eq!(sub.block_dim(), [1, 1, 1]);
    assert_eq!(
        sub.image(),
        ImageDims { offset: [1, 1, 0], dim: [4, 4, 1], block_dim: [1, 1, 1] }
    );
    assert_eq!(
        img.try_sub_image([2, 2, 0], [3, 1, 1]).err(),
        Some(SubImageError::OutOfBounds([5, 3, 1], [4, 4, 1]))
    );
}

#[test]
fn nested_windows_add_offsets() {
    let img = image_4x4();
    let outer = img.into_sub_image([1, 0, 0], [3, 4, 1]);
    let inner = ClientSubImage::try_new([1, 2, 0], [1, 1, 1], outer).unwrap();
    assert_eq!(inner.image().offset, [2, 2, 0]);
    assert_eq!(inner.base_dim(), [4, 4, 1]);
}

#[test]
fn whole_image_window_is_in_bounds() {
    let mut img = image_4x4();
    let sub = img.sub_image_mut([0, 0, 0], [4, 4, 1]);
    assert_eq!(sub.dim(), [4, 4, 1]);
    assert_eq!(image_4x4().image().offset, [0, 0, 0]);
}

#[test]
fn vectors_are_one_row_images() {
    let v = vec![5u8, 6, 7, 8];
    assert_eq!(v.image(), ImageDims { offset: [0, 0, 0], dim: [4, 1, 1], block_dim: [1, 1, 1] });
    let sub = ClientSubImage::try_new([1, 0, 0], [3, 1, 1], v.clone()).unwrap();
    assert_eq!(sub.image().offset, [1, 0, 0]);
    assert_eq!(
        ClientSubImage::try_new([2, 0, 0], [3, 1, 1], v).err(),
        Some(SubImageError::OutOfBounds([5, 1, 1], [4, 1, 1]))
    );
}
