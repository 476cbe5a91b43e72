use gl_struct::glenum::{AttribType, FloatType, GLError, IntType, BGRA};
use gl_struct::layout::{
    AttribFormat, DVecFormat, GenAttribFormat, IVecFormat, Mat3Format, OffsetFormat, VecFormat,
};

fn slot(offset: usize, size: u32, ty: AttribType, normalized: bool) -> GenAttribFormat {
    GenAttribFormat { offset, size, ty, normalized }
}

#[test]
fn vec_format_queries() {
    let f = VecFormat::Float(FloatType::Float, 3);
    assert_eq!(VecFormat::attrib_count(), 1);
    assert_eq!(f.offset(0), 0);
    assert_eq!(f.size(0), 3);
    assert_eq!(f.ty(0), AttribType::Float);
    assert!(!f.normalized(0));
    assert!(!f.packed(0));
    assert!(!f.long(0));
    assert!(!f.integer(0));

    let wide = VecFormat::Int(IntType::Short, 9);
    assert_eq!(wide.size(0), 4);
    assert_eq!(wide.ty(0), AttribType::Short);

    let packed = VecFormat::Int_2_10_10_10_Rev(true, true);
    assert_eq!(packed.size(0), BGRA);
    assert!(packed.normalized(0));
    assert!(packed.packed(0));
    assert_eq!(VecFormat::UInt_2_10_10_10_Rev(false, false).size(0), 4);
    assert_eq!(VecFormat::UInt_10F_11F_11F_Rev.size(0), 3);
    assert!(VecFormat::Normalized(IntType::UByte, 4).normalized(0));
}

#[test]
fn ivec_and_dvec_queries() {
    let i = IVecFormat(IntType::UShort, 2);
    assert_eq!(i.size(0), 2);
    assert_eq!(i.ty(0), AttribType::UShort);
    assert!(i.integer(0));
    assert!(!i.long(0));
    assert_eq!(i.normalized(), VecFormat::Normalized(IntType::UShort, 2));

    let d = DVecFormat(4);
    assert_eq!(d.size(0), 4);
    assert_eq!(d.ty(0), AttribType::Double);
    assert!(d.long(0));
    assert!(!d.integer(0));
}

#[test]
fn vec_format_from_layouts() {
    assert_eq!(
        VecFormat::from_layouts(&[slot(0, 2, AttribType::Half, false)]),
        Ok(VecFormat::Float(FloatType::Half, 2))
    );
    assert_eq!(
        VecFormat::from_layouts(&[slot(0, 4, AttribType::UByte, true)]),
        Ok(VecFormat::Normalized(IntType::UByte, 4))
    );
    assert_eq!(
        VecFormat::from_layouts(&[slot(0, 1, AttribType::Int, false)]),
        Ok(VecFormat::Int(IntType::Int, 1))
    );
    assert_eq!(
        VecFormat::from_layouts(&[slot(0, BGRA, AttribType::Int_2_10_10_10_Rev, true)]),
        Ok(VecFormat::Int_2_10_10_10_Rev(true, true))
    );
    assert_eq!(
        VecFormat::from_layouts(&[slot(0, 3, AttribType::Double, false)]),
        Ok(VecFormat::Double(3))
    );
}

#[test]
fn ivec_format_from_layouts_rejects_floats() {
    assert_eq!(
        IVecFormat::from_layouts(&[slot(0, 2, AttribType::Int, false)]),
        Ok(IVecFormat(IntType::Int, 2))
    );
    assert_eq!(
        IVecFormat::from_layouts(&[slot(0, 2, AttribType::Float, false)]),
        Err(GLError::InvalidEnum(AttribType::Float.glenum(), "IntType".to_string()))
    );
    assert_eq!(DVecFormat::from_layouts(&[slot(0, 3, AttribType::Double, false)]), Ok(DVecFormat(3)));
}

#[test]
fn offset_format_shifts_offsets() {
    let f = OffsetFormat { offset: 12, fmt: VecFormat::Float(FloatType::Float, 2) };
    assert_eq!(f.offset(0), 12);
    assert_eq!(f.size(0), 2);
    assert_eq!(
        OffsetFormat::<VecFormat>::from_layouts(&[slot(12, 2, AttribType::Float, false)]),
        Ok(f)
    );
}

#[test]
fn matrix_format_slots() {
    let col = VecFormat::Float(FloatType::Float, 3);
    let m: Mat3Format = [
        OffsetFormat { offset: 0, fmt: col },
        OffsetFormat { offset: 12, fmt: col },
        OffsetFormat { offset: 24, fmt: col },
    ];
    assert_eq!(Mat3Format::attrib_count(), 3);
    assert_eq!(m.offset(0), 0);
    assert_eq!(m.offset(1), 12);
    assert_eq!(m.offset(2), 24);
    assert_eq!(m.size(2), 3);
    assert_eq!(m.ty(1), AttribType::Float);

    let layouts = [
        slot(0, 3, AttribType::Float, false),
        slot(12, 3, AttribType::Float, false),
        slot(24, 3, AttribType::Float, false),
    ];
    assert_eq!(Mat3Format::from_layouts(&layouts), Ok(m));
}

#[test]
fn matrix_format_stops_at_unreadable_column() {
    let layouts = [
        slot(0, 2, AttribType::Int, false),
        slot(8, 2, AttribType::Float, false),
    ];
    let r = <[OffsetFormat<IVecFormat>; 2]>::from_layouts(&layouts);
    assert_eq!(r, Err(GLError::InvalidEnum(AttribType::Float.glenum(), "IntType".to_string())));
}

#[test]
fn tuple_format_slots() {
    let pos = OffsetFormat { offset: 0, fmt: VecFormat::Float(FloatType::Float, 3) };
    let id = OffsetFormat { offset: 12, fmt: IVecFormat(IntType::UInt, 1) };
    let t = (pos, id);
    assert_eq!(<(OffsetFormat<VecFormat>, OffsetFormat<IVecFormat>)>::attrib_count(), 2);
    assert_eq!(t.offset(0), 0);
    assert_eq!(t.offset(1), 12);
    assert_eq!(t.ty(1), AttribType::UInt);
    assert!(t.integer(1));
    assert!(!t.integer(0));

    let layouts = [slot(0, 3, AttribType::Float, false), slot(12, 1, AttribType::UInt, false)];
    assert_eq!(
        <(OffsetFormat<VecFormat>, OffsetFormat<IVecFormat>)>::from_layouts(&layouts),
        Ok((pos, id))
    );

    let triple = (pos, id, OffsetFormat { offset: 16, fmt: DVecFormat(2) });
    assert_eq!(triple.offset(2), 16);
    assert!(triple.long(2));
}

#[test]
fn tuple_format_reports_first_failing_member() {
    let layouts = [slot(0, 3, AttribType::Float, false), slot(12, 1, AttribType::Float, false)];
    assert_eq!(
        <(OffsetFormat<VecFormat>, OffsetFormat<IVecFormat>)>::from_layouts(&layouts),
        Err(GLError::InvalidEnum(AttribType::Float.glenum(), "IntType".to_string()))
    );
}
