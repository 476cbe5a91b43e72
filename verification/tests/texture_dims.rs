use gl_struct::glenum::{self, GLError, Wrapping};
use gl_struct::texture::{
    CubeMapFace, TexDim, Texture, TextureType, TEXTURE_1D, TEXTURE_2D, TEXTURE_2D_ARRAY,
    TEXTURE_2D_MULTISAMPLE, TEXTURE_3D, TEXTURE_CUBE_MAP, TEXTURE_RECTANGLE,
};

#[test]
fn dims_report_their_sizes() {
    let d = <[usize; 2]>::new(8, 4, 99);
    assert_eq!(d, [8, 4]);
    assert_eq!((d.width(), d.height(), d.depth()), (8, 4, 1));
    assert_eq!(d.pixels(), 32);
    assert_eq!(<[usize; 2]>::dim(), 2);

    let a = <([usize; 2], usize)>::new(8, 4, 6);
    assert_eq!(a, ([8, 4], 6));
    assert_eq!(a.pixels(), 192);
    assert_eq!(<([usize; 2], usize)>::dim(), 3);

    let l = <([usize; 1], usize)>::new(16, 3, 7);
    assert_eq!((l.width(), l.height(), l.depth()), (16, 3, 1));

    assert_eq!(<usize as TexDim>::new(5, 6, 7), 5);
    assert_eq!(<[usize; 3]>::new(1, 2, 3).pixels(), 6);
}

#[test]
fn minimized_halves_each_size_but_not_layers() {
    assert_eq!([64usize, 16].minimized(3), [8, 2]);
    assert_eq!([64usize, 16].minimized(5), [2, 1]);
    assert_eq!([5usize, 5, 5].minimized(1), [2, 2, 2]);
    assert_eq!(([32usize], 10usize).minimized(2), ([8], 10));
    assert_eq!(([32usize, 8], 4usize).minimized(4), ([2, 1], 4));
    assert_eq!([1usize].minimized(0), [1]);
}

#[test]
fn max_levels_is_bit_length_of_largest_side() {
    assert_eq!([256usize, 64].max_levels(), 9);
    assert_eq!([255usize, 64].max_levels(), 8);
    assert_eq!([1usize].max_levels(), 1);
    assert_eq!([0usize, 0].max_levels(), 1);
    assert_eq!([3usize, 5, 4].max_levels(), 3);
    assert_eq!(1000usize.max_levels(), 10);
    assert_eq!([1usize << 40, 1].max_levels(), 41);
    assert_eq!(([1024usize, 3], 2usize).max_levels(), 11);
    assert_eq!(([16usize], 500usize).max_levels(), 5);
}

#[test]
fn texture_max_levels_by_target() {
    let t: Texture<TEXTURE_2D> = Texture::from_raw(3);
    assert_eq!(t.id(), 3);
    assert_eq!(t.max_levels(true, 5, &[256, 256]), 5);
    assert_eq!(t.max_levels(false, 5, &[256, 64]), 9);
    let ms: Texture<TEXTURE_2D_MULTISAMPLE> = Texture::from_raw(4);
    assert_eq!(ms.max_levels(true, 5, &[256, 256]), 1);
    let rect: Texture<TEXTURE_RECTANGLE> = Texture::from_raw(5);
    assert_eq!(rect.max_levels(false, 0, &[16, 16]), 1);
}

#[test]
fn target_properties() {
    assert_eq!(TEXTURE_2D::glenum(), glenum::TEXTURE_2D);
    assert!(TEXTURE_2D::mipmapped());
    assert!(!TEXTURE_2D::multisampled());
    assert!(!TEXTURE_2D::cube_mapped());
    assert!(TEXTURE_2D_MULTISAMPLE::multisampled());
    assert!(!TEXTURE_2D_MULTISAMPLE::mipmapped());
    assert!(!TEXTURE_RECTANGLE::mipmapped());
    assert!(TEXTURE_CUBE_MAP::cube_mapped());
    assert!(TEXTURE_3D::try_from_glenum(glenum::TEXTURE_3D).is_ok());
    assert_eq!(
        TEXTURE_3D::try_from_glenum(glenum::TEXTURE_2D).err(),
        Some(GLError::InvalidEnum(glenum::TEXTURE_2D, String::new()))
    );
}

#[test]
fn wrap_modes_by_dimension() {
    assert!(!Texture::<TEXTURE_1D>::has_wrap_t());
    assert!(Texture::<TEXTURE_2D>::has_wrap_t());
    assert!(!Texture::<TEXTURE_2D>::has_wrap_r());
    assert!(Texture::<TEXTURE_3D>::has_wrap_r());
    assert!(Texture::<TEXTURE_2D_ARRAY>::has_wrap_r());

    let t1: Texture<TEXTURE_1D> = Texture::from_raw(1);
    assert_eq!(t1.get_wrap_t(glenum::CLAMP_TO_EDGE), Ok(Wrapping::Repeat));
    let t2: Texture<TEXTURE_2D> = Texture::from_raw(2);
    assert_eq!(t2.get_wrap_t(glenum::CLAMP_TO_EDGE), Ok(Wrapping::ClampToEdge));
    assert_eq!(t2.get_wrap_r(glenum::MIRRORED_REPEAT), Ok(Wrapping::Repeat));
    assert_eq!(
        t2.get_wrap_t(0),
        Err(GLError::InvalidEnum(0, "Wrapping".to_string()))
    );
    let rect: Texture<TEXTURE_RECTANGLE> = Texture::from_raw(3);
    assert_eq!(rect.get_wrap_r(glenum::REPEAT), Ok(Wrapping::ClampToEdge));
    let t3: Texture<TEXTURE_3D> = Texture::from_raw(4);
    assert_eq!(t3.get_wrap_r(glenum::MIRRORED_REPEAT), Ok(Wrapping::MirroredRepeat));
}

#[test]
fn cube_map_faces_in_order() {
    let faces = CubeMapFace::faces();
    assert_eq!(faces[0], CubeMapFace::PositiveX);
    assert_eq!(faces[5], CubeMapFace::NegativeZ);
    for (i, f) in faces.iter().enumerate() {
        assert_eq!(f.glenum(), glenum::TEXTURE_CUBE_MAP_POSITIVE_X + i as u32);
        assert_eq!(CubeMapFace::try_from_glenum(f.glenum()), Ok(*f));
    }
    assert_eq!(CubeMapFace::default(), CubeMapFace::PositiveX);
}

#[test]
fn minimizing_in_steps_matches_one_step() {
    let d = [100usize, 37, 5];
    assert_eq!(d.minimized(2).minimized(3), d.minimized(5));
    assert_eq!(d.minimized(4).minimized(4), d.minimized(8));
    assert_eq!(d.minimized(8), [1, 1, 1]);
}
