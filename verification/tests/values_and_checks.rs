use gl_struct::buffer::{storage_creation_flags, MapRead, ReadOnly, ReadWrite, Slice};
use gl_struct::context::{check_loaded, GLProvider};
use gl_struct::glenum::{
    ElementType, FloatType, GLError, IntType, SyncStatus, ALREADY_SIGNALED, PACK_ALIGNMENT,
    PACK_ROW_LENGTH, PACK_SWAP_BYTES, SYNC_FLUSH_COMMANDS_BIT, UNPACK_ALIGNMENT, UNPACK_SKIP_IMAGES,
};
use gl_struct::glsl::{all, any, bvec2, bvec3, bvec4, c_bool, not, GenType};
use gl_struct::label::{
    check_label, client_wait_flags, client_wait_status, client_wait_timeout, label_read_length,
};
use gl_struct::layout::{AttribFormat, IVecFormat, VecFormat};
use gl_struct::pixel_data::{InvalidPixelRowAlignment, PixelRowAlignment, PixelStore};
use gl_struct::vertex::{next_attrib_offset, split_pair, AttribArray, AttribData, VertexArray};

fn b(v: u32) -> c_bool {
    c_bool(v)
}

#[test]
fn c_bool_conversions() {
    assert_eq!(c_bool::from_bool(true), c_bool(1));
    assert_eq!(c_bool::from_bool(false), c_bool(0));
    assert!(c_bool(7).to_bool());
    assert!(!c_bool(0).to_bool());
    assert_eq!(c_bool::from_uint(9).to_uint(), 9);
    assert_eq!(c_bool::from_glboolean(1), c_bool(1));
    assert_eq!(c_bool(0x101).to_glboolean(), 1);
}

#[test]
fn c_bool_operators() {
    assert_eq!(b(6).bitand(b(3)), b(2));
    assert_eq!(b(6).bitor(b(3)), b(7));
    assert_eq!(b(6).bitxor(b(3)), b(5));
    assert_eq!(b(5).not(), b(0));
    assert_eq!(b(0).not(), b(1));
}

#[test]
fn relational_functions() {
    let v = bvec3 { value: [b(0), b(4), b(0)] };
    assert_eq!(any(v), b(1));
    assert_eq!(all(v), b(0));
    assert_eq!(not(v).value, [b(1), b(0), b(1)]);
    let t = bvec2 { value: [b(1), b(2)] };
    assert_eq!(all(t), b(1));
    assert_eq!(any(not(t)), b(0));
    let f = bvec4 { value: [b(0); 4] };
    assert_eq!(any(f), b(0));
    assert_eq!(all(not(f)), b(1));
    assert_eq!(any(b(3)), b(1));
    assert_eq!(bvec4::count(), 4);
    let mut m = bvec2 { value: [b(0), b(0)] };
    m.set_coord(1, b(1));
    assert_eq!(*m.coord(1), b(1));
}

#[test]
fn int_and_float_types() {
    assert_eq!(IntType::UByte.size_of(), 1);
    assert_eq!(IntType::Short.size_of(), 2);
    assert_eq!(IntType::UInt.size_of(), 4);
    assert_eq!(FloatType::Half.size_of(), 2);
    assert_eq!(FloatType::Float.size_of(), 4);
    assert_eq!(IntType::UShort.to_element_type(), Ok(ElementType::UShort));
    assert!(IntType::Byte.to_element_type().is_err());
    assert_eq!(ElementType::UInt.to_int_type(), IntType::UInt);
}

#[test]
fn loaded_function_checks() {
    assert_eq!(check_loaded(&["a", "b"], &[true, true]), Ok(()));
    assert_eq!(
        check_loaded(&["a", "b", "c"], &[true, false, false]),
        Err(GLError::FunctionNotLoaded("b"))
    );
    assert!(GLProvider::get_current(false).is_err());
    let gl = GLProvider::get_current(true).unwrap();
    let mut flags = [true; 10];
    flags[4] = false;
    assert_eq!(gl.upgrade(&flags).err(), Some(GLError::FunctionNotLoaded("glBufferData")));
    let gl2 = gl.upgrade(&[true; 10]).unwrap();
    let gl3 = gl2.upgrade(&[true, true]).unwrap();
    assert_eq!(gl3.upgrade(&[true, false]).err(), Some(GLError::FunctionNotLoaded("glMapBufferRange")));
    let gl4 = gl3.upgrade(&[true, true]).unwrap();
    let _ = (gl4.as_gl2(), gl4.as_gl3(), gl3.as_gl2());
}

#[test]
fn row_alignments() {
    for a in [1u8, 2, 4, 8] {
        assert_eq!(PixelRowAlignment::try_from(a).unwrap().into_u8(), a);
    }
    assert_eq!(PixelRowAlignment::try_from(3), Err(InvalidPixelRowAlignment(3)));
    assert_eq!(PixelRowAlignment::try_from(0), Err(InvalidPixelRowAlignment(0)));
    assert_eq!(PixelRowAlignment::align_4().into_u8(), 4);
    assert_eq!(PixelRowAlignment::align_1().into_u8(), 1);
    assert_eq!(PixelRowAlignment::align_2().into_u8(), 2);
    assert_eq!(PixelRowAlignment::align_8().into_u8(), 8);
}

#[test]
fn labels_and_fences() {
    assert_eq!(check_label(false, "ObjectLabel", 256, "x"), Err(GLError::FunctionNotLoaded("ObjectLabel")));
    assert_eq!(check_label(true, "ObjectLabel", 5, "hello"), Ok(()));
    assert_eq!(
        check_label(true, "ObjectLabel", 4, "hello"),
        Err(GLError::InvalidValue("object label longer than maximum allowed length".to_string()))
    );
    assert_eq!(label_read_length(0), None);
    assert_eq!(label_read_length(-3), None);
    assert_eq!(label_read_length(12), Some(12));
    assert_eq!(client_wait_flags(true), SYNC_FLUSH_COMMANDS_BIT);
    assert_eq!(client_wait_flags(false), 0);
    assert_eq!(client_wait_timeout(None), 0);
    assert_eq!(client_wait_timeout(Some(1_000_000)), 1_000_000);
    assert_eq!(client_wait_timeout(Some((1u128 << 64) + 5)), 5);
    assert_eq!(client_wait_status(ALREADY_SIGNALED), Ok(SyncStatus::AlreadySignaled));
    assert_eq!(client_wait_status(0), Err(GLError::InvalidEnum(0, "SyncStatus".to_string())));
}

#[test]
fn attribute_arrays() {
    assert_eq!(<u16 as AttribData>::format(), IVecFormat(IntType::UShort, 1));
    assert_eq!(<bvec3 as AttribData>::format(), IVecFormat(IntType::UByte, 3));
    assert_eq!(<c_bool as AttribData>::format(), IVecFormat(IntType::UInt, 1));
    let s: Slice<u32, ReadOnly> = Slice::from_raw_parts(11, 8, 64);
    let arr = AttribArray::from_slice(s);
    assert_eq!((arr.id(), arr.stride(), arr.offset()), (11, 4, 64));
    assert_eq!(arr.format(), IVecFormat(IntType::UInt, 1));
    let n = arr.normalized();
    assert_eq!(n.format(), VecFormat::Normalized(IntType::UInt, 1));
    assert_eq!(n.format().size(0), 1);

    let pairs: Slice<(u8, u32), ReadOnly> = Slice::from_raw_parts(2, 4, 8);
    let (x, y) = split_pair(pairs);
    assert_eq!((x.stride(), x.offset()), (std::mem::size_of::<(u8, u32)>(), 8));
    assert_eq!(y.offset(), 9);
    assert_eq!(next_attrib_offset(9, 3, 4), 12);
    assert_eq!(next_attrib_offset(8, 4, 4), 12);

    let va: VertexArray<u16, (u32,)> = VertexArray::from_raw(6);
    assert_eq!(va.id(), 6);
}

#[test]
fn pixel_store_parameters() {
    let s = PixelStore::new();
    assert_eq!(s.alignment.into_u8(), 4);
    let p = s.pack_params();
    assert_eq!(p[0], (PACK_SWAP_BYTES, 0));
    assert_eq!(p[2], (PACK_ALIGNMENT, 4));
    assert_eq!(p[3], (PACK_ROW_LENGTH, 0));
    assert_eq!(gl::PACK_SWAP_BYTES, PACK_SWAP_BYTES);
    assert_eq!(gl::UNPACK_SKIP_IMAGES, UNPACK_SKIP_IMAGES);

    let mut t = PixelStore::of_slice::<u16>(true, false);
    assert_eq!(t.alignment.into_u8(), 2);
    t.row_length = 640;
    t.skip_images = (1usize << 32) + 3;
    let u = t.unpack_params();
    assert_eq!(u[0].1, 1);
    assert_eq!(u[2], (UNPACK_ALIGNMENT, 2));
    assert_eq!(u[3].1, 640);
    assert_eq!(u[7], (UNPACK_SKIP_IMAGES, 3));
    assert_eq!(PixelStore::of_slice::<u64>(false, false).alignment.into_u8(), 8);
    assert_eq!(PixelStore::of_slice::<[u8; 3]>(false, false).alignment.into_u8(), 1);
    assert_eq!(PixelRowAlignment::of_pixels::<u128>().into_u8(), 8);
    assert_eq!(PixelRowAlignment::of_pixels::<u32>().into_u8(), 4);
}

#[test]
fn downgraded_access_asks_no_more_flags() {
    let hint = Some(gl_struct::glenum::CLIENT_STORAGE_BIT);
    let wide = storage_creation_flags::<ReadWrite>(hint);
    for narrow in [
        storage_creation_flags::<ReadOnly>(hint),
        storage_creation_flags::<MapRead>(hint),
    ] {
        assert_eq!(narrow & !wide, 0);
    }
}

#[test]
fn transpose_swaps_rows_and_columns() {
    let m = [[1u32, 2], [3, 4]];
    assert_eq!(gl_struct::glsl::transpose(m), [[1, 3], [2, 4]]);
    let n = [[1, 2, 3], [4, 5, 6]];
    let t = gl_struct::glsl::transpose(n);
    assert_eq!(t, [[1, 4], [2, 5], [3, 6]]);
    assert_eq!(gl_struct::glsl::transpose(t), n);
    assert_eq!(gl_struct::glsl::transpose([[7u8]]), [[7u8]]);
}

#[test]
fn bool_vectors_from_and_to_bools() {
    let v = bvec3::from_bools([true, false, true]);
    assert_eq!(v.value, [b(1), b(0), b(1)]);
    assert_eq!(bvec3 { value: [b(0), b(9), b(0)] }.to_bools(), [false, true, false]);
    assert_eq!(bvec2::from_bools([false, true]).to_bools(), [false, true]);
    assert_eq!(bvec4::from_bools([true; 4]).to_bools(), [true; 4]);
}

#[test]
fn pixel_sources_report_their_lengths() {
    use_pixel_sources();
}

fn use_pixel_sources() {
    let data = [1u8, 2, 3];
    let r: gl_struct::pixels::GLRef<u8, ReadOnly> = gl_struct::pixels::GLRef::Ref(&data);
    assert_eq!(gl_struct::pixels::PixelSrc::pixels(&r).len(), 3);
    assert_eq!(r.size(), 3);
    let s: Slice<u32, ReadWrite> = Slice::from_raw_parts(1, 5, 0);
    let b: gl_struct::pixels::GLRef<u32, ReadWrite> = gl_struct::pixels::GLRef::Buf(s);
    let p = gl_struct::pixels::PixelSrc::pixels(&b);
    assert_eq!((p.len(), p.size()), (5, 20));
    let mut client = vec![0u16; 4];
    let mut m: gl_struct::pixels::GLMut<u16, ReadOnly> = gl_struct::pixels::GLMut::Mut(&mut client);
    assert_eq!(gl_struct::pixels::PixelDst::pixels_mut(&mut m).len(), 4);
}

#[test]
fn pointer_calls_per_slot() {
    use_pointer_calls(gl_struct::glenum::AttribType::Float, FloatType::Float);
}

fn use_pointer_calls(float: gl_struct::glenum::AttribType, ft: FloatType) {
    let single = AttribArray::from_raw_parts(IVecFormat(IntType::Short, 2), 4, 16, 8);
    let calls = single.attrib_pointers(3);
    assert_eq!(calls.len(), 1);
    assert_eq!(
        calls[0],
        gl_struct::vertex::AttribPointer {
            index: 3,
            size: 2,
            ty: gl_struct::glenum::AttribType::Short,
            normalized: false,
            stride: 16,
            offset: 8,
            kind: gl_struct::vertex::PointerKind::Integer,
        }
    );
    let col = gl_struct::layout::OffsetFormat { offset: 0, fmt: VecFormat::Float(ft, 4) };
    let mat: gl_struct::layout::Mat2Format = [col, gl_struct::layout::OffsetFormat { offset: 16, fmt: VecFormat::Float(ft, 4) }];
    let arr = AttribArray::from_raw_parts(mat, 9, 32, 64);
    let calls = arr.attrib_pointers(0);
    assert_eq!(calls.len(), 2);
    assert_eq!((calls[1].index, calls[1].offset, calls[1].ty), (1, 80, float));
    assert_eq!(calls[1].kind, gl_struct::vertex::PointerKind::Float);
    let d = AttribArray::from_raw_parts(gl_struct::layout::DVecFormat(3), 1, 24, 0);
    assert_eq!(d.attrib_pointers(5)[0].kind, gl_struct::vertex::PointerKind::Long);
}

#[test]
fn integer_vectors() {
    use_integer_vectors();
}

fn use_integer_vectors() {
    let mut v = gl_struct::glsl::uvec3 { value: [1, 2, 3] };
    assert_eq!(gl_struct::glsl::uvec3::count(), 3);
    v.set_coord(2, 9);
    assert_eq!(*v.coord(2), 9);
    assert_eq!(<gl_struct::glsl::ivec4 as AttribData>::format(), IVecFormat(IntType::Int, 4));
    assert_eq!(<gl_struct::glsl::uvec2 as AttribData>::format(), IVecFormat(IntType::UInt, 2));
    let mut x: i32 = 4;
    x.set_coord(0, -2);
    assert_eq!((x, <i32 as GenType>::count()), (-2, 1));
}
