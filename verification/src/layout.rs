//! Vertex attribute layouts: how the components of an attribute are described to the GL.

use vstd::prelude::*;
use crate::glenum::{AttribType, ElementType, FloatType, GLError, GLenum, IntType, BGRA};

verus! {

/// Integer types that can index vertices in an element buffer.
pub trait Element: Copy {
    /// The element type describing `Self`.
    spec fn spec_ty() -> ElementType;

    /// The element type describing `Self`.
    fn ty() -> (t: ElementType)
        ensures
            t == Self::spec_ty(),
    ;
}

impl Element for u8 {
    open spec fn spec_ty() -> ElementType {
        ElementType::UByte
    }

    fn ty() -> (t: ElementType) {
        ElementType::UByte
    }
}

impl Element for u16 {
    open spec fn spec_ty() -> ElementType {
        ElementType::UShort
    }

    fn ty() -> (t: ElementType) {
        ElementType::UShort
    }
}

impl Element for u32 {
    open spec fn spec_ty() -> ElementType {
        ElementType::UInt
    }

    fn ty() -> (t: ElementType) {
        ElementType::UInt
    }
}

/// The description of one attribute slot as the GL reports it.
#[derive(Clone, Copy, PartialEq, Eq, Structural, Hash, Debug)]
pub struct GenAttribFormat {
    pub offset: usize,
    pub size: GLenum,
    pub ty: AttribType,
    pub normalized: bool,
}

impl GenAttribFormat {
    pub fn offset(self) -> (r: usize)
        ensures
            r == self.offset,
    {
        self.offset
    }

    pub fn size(self) -> (r: GLenum)
        ensures
            r == self.size,
    {
        self.size
    }

    pub fn ty(self) -> (r: AttribType)
        ensures
            r == self.ty,
    {
        self.ty
    }

    pub fn normalized(self) -> (r: bool)
        ensures
            r == self.normalized,
    {
        self.normalized
    }
}

/// A format that lays out a value over one or more consecutive attribute slots.
///
/// Each exec method agrees with the spec function of the same name.
pub trait AttribFormat: Sized {
    spec fn spec_attrib_count() -> nat;

    spec fn spec_offset(self, index: usize) -> nat;

    spec fn spec_size(self, index: usize) -> GLenum;

    spec fn spec_ty(self, index: usize) -> AttribType;

    spec fn spec_normalized(self, index: usize) -> bool;

    spec fn spec_packed(self, index: usize) -> bool;

    spec fn spec_long(self, index: usize) -> bool;

    spec fn spec_integer(self, index: usize) -> bool;

    /// The inputs on which `from_layouts` completes (it indexes the slots it reads).
    spec fn spec_from_layouts_ok(layouts: Seq<GenAttribFormat>) -> bool;

    /// The format read back from slot descriptions, or `None` when they describe no
    /// value of this format.
    spec fn spec_from_layouts(layouts: Seq<GenAttribFormat>) -> Option<Self>;

    /// Whether `e` is the error given where the slot descriptions describe no value of this
    /// format.
    spec fn spec_layouts_error(layouts: Seq<GenAttribFormat>, e: GLError) -> bool;

    /// The number of attribute slots a value of this format occupies.
    fn attrib_count() -> (n: usize)
        requires
            Self::spec_attrib_count() <= usize::MAX,
        ensures
            n == Self::spec_attrib_count(),
    ;

    /// The byte offset of slot `index` within the value.
    fn offset(&self, index: usize) -> (r: usize)
        requires
            index < Self::spec_attrib_count() <= usize::MAX,
            self.spec_offset(index) <= usize::MAX,
        ensures
            r == self.spec_offset(index),
    ;

    /// The component count of slot `index` (or `BGRA` for reversed packed formats).
    fn size(&self, index: usize) -> (r: GLenum)
        requires
            index < Self::spec_attrib_count() <= usize::MAX,
        ensures
            r == self.spec_size(index),
    ;

    /// The component type of slot `index`.
    fn ty(&self, index: usize) -> (r: AttribType)
        requires
            index < Self::spec_attrib_count() <= usize::MAX,
        ensures
            r == self.spec_ty(index),
    ;

    /// Whether the integer components of slot `index` are normalized.
    fn normalized(&self, index: usize) -> (r: bool)
        requires
            index < Self::spec_attrib_count() <= usize::MAX,
        ensures
            r == self.spec_normalized(index),
    ;

    /// Whether slot `index` holds a packed format.
    fn packed(&self, index: usize) -> (r: bool)
        requires
            index < Self::spec_attrib_count() <= usize::MAX,
        ensures
            r == self.spec_packed(index),
    ;

    /// Whether slot `index` holds 64-bit components.
    fn long(&self, index: usize) -> (r: bool)
        requires
            index < Self::spec_attrib_count() <= usize::MAX,
        ensures
            r == self.spec_long(index),
    ;

    /// Whether slot `index` is read as integers by the shader.
    fn integer(&self, index: usize) -> (r: bool)
        requires
            index < Self::spec_attrib_count() <= usize::MAX,
        ensures
            r == self.spec_integer(index),
    ;

    /// Reads a format back from the descriptions of its slots.
    fn from_layouts(layouts: &[GenAttribFormat]) -> (r: Result<Self, GLError>)
        requires
            Self::spec_from_layouts_ok(layouts@),
        ensures
            match Self::spec_from_layouts(layouts@) {
                Some(f) => r == Ok::<Self, GLError>(f),
                None => r matches Err(e) && Self::spec_layouts_error(layouts@, e),
            },
    ;
}

/// Formats of single attribute slots read as floating-point values by the shader.
#[allow(non_camel_case_types)]
#[derive(Clone, Copy, PartialEq, Eq, Structural, Hash, Debug)]
pub enum VecFormat {
    Float(FloatType, u32),
    Fixed(u32),
    Double(u32),
    Int(IntType, u32),
    Normalized(IntType, u32),
    /// (normalized, bgra)
    Int_2_10_10_10_Rev(bool, bool),
    /// (normalized, bgra)
    UInt_2_10_10_10_Rev(bool, bool),
    UInt_10F_11F_11F_Rev,
}

/// `min(n, 4)`, the component count that the GL accepts for a slot.
pub open spec fn clamp_components(n: u32) -> u32 {
    if n < 4 { n } else { 4 }
}

fn min4(n: u32) -> (r: u32)
    ensures
        r == clamp_components(n),
{
    if n < 4 { n } else { 4 }
}

/// The integer type with the `GLenum` of an attribute type, if there is one.
pub open spec fn int_type_of(ty: AttribType) -> Option<IntType> {
    IntType::spec_from_glenum(ty.spec_glenum())
}

impl AttribFormat for VecFormat {
    open spec fn spec_attrib_count() -> nat {
        1
    }

    open spec fn spec_offset(self, index: usize) -> nat {
        0
    }

    open spec fn spec_size(self, index: usize) -> GLenum {
        if index == 0 {
            match self {
                VecFormat::Float(_, n) => clamp_components(n),
                VecFormat::Fixed(n) => clamp_components(n),
                VecFormat::Double(n) => clamp_components(n),
                VecFormat::Int(_, n) => clamp_components(n),
                VecFormat::Normalized(_, n) => clamp_components(n),
                VecFormat::Int_2_10_10_10_Rev(_, bgra) => if bgra { BGRA } else { 4 },
                VecFormat::UInt_2_10_10_10_Rev(_, bgra) => if bgra { BGRA } else { 4 },
                VecFormat::UInt_10F_11F_11F_Rev => 3,
            }
        } else {
            0
        }
    }

    open spec fn spec_ty(self, index: usize) -> AttribType {
        match self {
            VecFormat::Float(f, _) => match f {
                FloatType::Half => AttribType::Half,
                FloatType::Float => AttribType::Float,
            },
            VecFormat::Fixed(_) => AttribType::Fixed,
            VecFormat::Double(_) => AttribType::Double,
            VecFormat::Int(t, _) => int_attrib_type(t),
            VecFormat::Normalized(t, _) => int_attrib_type(t),
            VecFormat::Int_2_10_10_10_Rev(_, _) => AttribType::Int_2_10_10_10_Rev,
            VecFormat::UInt_2_10_10_10_Rev(_, _) => AttribType::UInt_2_10_10_10_Rev,
            VecFormat::UInt_10F_11F_11F_Rev => AttribType::UInt_10F_11F_11F_Rev,
        }
    }

    open spec fn spec_normalized(self, index: usize) -> bool {
        match self {
            VecFormat::Normalized(_, _) => true,
            VecFormat::Int_2_10_10_10_Rev(b, _) => b,
            VecFormat::UInt_2_10_10_10_Rev(b, _) => b,
            _ => false,
        }
    }

    open spec fn spec_packed(self, index: usize) -> bool {
        index == 0 && match self {
            VecFormat::Int_2_10_10_10_Rev(_, _) => true,
            VecFormat::UInt_2_10_10_10_Rev(_, _) => true,
            VecFormat::UInt_10F_11F_11F_Rev => true,
            _ => false,
        }
    }

    open spec fn spec_long(self, index: usize) -> bool {
        false
    }

    open spec fn spec_integer(self, index: usize) -> bool {
        false
    }

    open spec fn spec_from_layouts_ok(layouts: Seq<GenAttribFormat>) -> bool {
        layouts.len() > 0
    }

    open spec fn spec_from_layouts(layouts: Seq<GenAttribFormat>) -> Option<VecFormat> {
        let l = layouts[0];
        match l.ty {
            AttribType::Half => Some(VecFormat::Float(FloatType::Half, l.size)),
            AttribType::Float => Some(VecFormat::Float(FloatType::Float, l.size)),
            AttribType::Fixed => Some(VecFormat::Fixed(l.size)),
            AttribType::Double => Some(VecFormat::Double(l.size)),
            AttribType::Int_2_10_10_10_Rev => Some(
                VecFormat::Int_2_10_10_10_Rev(l.normalized, l.size == BGRA),
            ),
            AttribType::UInt_2_10_10_10_Rev => Some(
                VecFormat::UInt_2_10_10_10_Rev(l.normalized, l.size == BGRA),
            ),
            AttribType::UInt_10F_11F_11F_Rev => Some(VecFormat::UInt_10F_11F_11F_Rev),
            _ => match int_type_of(l.ty) {
                Some(t) => if l.normalized {
                    Some(VecFormat::Normalized(t, l.size))
                } else {
                    Some(VecFormat::Int(t, l.size))
                },
                None => None,
            },
        }
    }

    open spec fn spec_layouts_error(layouts: Seq<GenAttribFormat>, e: GLError) -> bool {
        e matches GLError::InvalidEnum(v, s) && v == layouts[0].ty.spec_glenum() && s@ == "IntType"@
    }

    fn attrib_count() -> (n: usize) {
        1
    }

    fn offset(&self, index: usize) -> (r: usize) {
        0
    }

    fn size(&self, index: usize) -> (r: GLenum) {
        if index == 0 {
            match *self {
                VecFormat::Float(_, n) => min4(n),
                VecFormat::Fixed(n) => min4(n),
                VecFormat::Double(n) => min4(n),
                VecFormat::Int(_, n) => min4(n),
                VecFormat::Normalized(_, n) => min4(n),
                VecFormat::Int_2_10_10_10_Rev(_, bgra) => if bgra { BGRA } else { 4 },
                VecFormat::UInt_2_10_10_10_Rev(_, bgra) => if bgra { BGRA } else { 4 },
                VecFormat::UInt_10F_11F_11F_Rev => 3,
            }
        } else {
            0
        }
    }

    fn ty(&self, index: usize) -> (r: AttribType) {
        match *self {
            VecFormat::Float(f, _) => f.to_attrib_type(),
            VecFormat::Fixed(_) => AttribType::Fixed,
            VecFormat::Double(_) => AttribType::Double,
            VecFormat::Int(t, _) => t.to_attrib_type(),
            VecFormat::Normalized(t, _) => t.to_attrib_type(),
            VecFormat::Int_2_10_10_10_Rev(_, _) => AttribType::Int_2_10_10_10_Rev,
            VecFormat::UInt_2_10_10_10_Rev(_, _) => AttribType::UInt_2_10_10_10_Rev,
            VecFormat::UInt_10F_11F_11F_Rev => AttribType::UInt_10F_11F_11F_Rev,
        }
    }

    fn normalized(&self, index: usize) -> (r: bool) {
        match *self {
            VecFormat::Normalized(_, _) => true,
            VecFormat::Int_2_10_10_10_Rev(b, _) => b,
            VecFormat::UInt_2_10_10_10_Rev(b, _) => b,
            _ => false,
        }
    }

    fn packed(&self, index: usize) -> (r: bool) {
        if index == 0 {
            match *self {
                VecFormat::Int_2_10_10_10_Rev(_, _) => true,
                VecFormat::UInt_2_10_10_10_Rev(_, _) => true,
                VecFormat::UInt_10F_11F_11F_Rev => true,
                _ => false,
            }
        } else {
            false
        }
    }

    fn long(&self, index: usize) -> (r: bool) {
        false
    }

    fn integer(&self, index: usize) -> (r: bool) {
        false
    }

    fn from_layouts(layouts: &[GenAttribFormat]) -> (r: Result<VecFormat, GLError>) {
        let layout = layouts[0];
        match layout.ty {
            AttribType::Half | AttribType::Float => {
                match FloatType::try_from_glenum(layout.ty.glenum()) {
                    Ok(t) => Ok(VecFormat::Float(t, layout.size)),
                    Err(e) => Err(e),
                }
            },
            AttribType::Fixed => Ok(VecFormat::Fixed(layout.size)),
            AttribType::Double => Ok(VecFormat::Double(layout.size)),
            AttribType::Int_2_10_10_10_Rev => Ok(
                VecFormat::Int_2_10_10_10_Rev(layout.normalized, layout.size == BGRA),
            ),
            AttribType::UInt_2_10_10_10_Rev => Ok(
                VecFormat::UInt_2_10_10_10_Rev(layout.normalized, layout.size == BGRA),
            ),
            AttribType::UInt_10F_11F_11F_Rev => Ok(VecFormat::UInt_10F_11F_11F_Rev),
            _ => {
                match IntType::try_from_glenum(layout.ty.glenum()) {
                    Ok(t) => if layout.normalized {
                        Ok(VecFormat::Normalized(t, layout.size))
                    } else {
                        Ok(VecFormat::Int(t, layout.size))
                    },
                    Err(e) => Err(e),
                }
            },
        }
    }
}

/// The attribute type with the `GLenum` of an integer type.
pub open spec fn int_attrib_type(t: IntType) -> AttribType {
    match t {
        IntType::Byte => AttribType::Byte,
        IntType::UByte => AttribType::UByte,
        IntType::Short => AttribType::Short,
        IntType::UShort => AttribType::UShort,
        IntType::Int => AttribType::Int,
        IntType::UInt => AttribType::UInt,
    }
}

/// Formats of single attribute slots read as integers by the shader.
#[derive(Clone, Copy, PartialEq, Eq, Structural, Hash, Debug)]
pub struct IVecFormat(pub IntType, pub u32);

impl IVecFormat {
    /// The same integer components, read as normalized floating-point values.
    pub fn normalized(self) -> (v: VecFormat)
        ensures
            v == VecFormat::Normalized(self.0, self.1),
    {
        VecFormat::Normalized(self.0, self.1)
    }
}

impl AttribFormat for IVecFormat {
    open spec fn spec_attrib_count() -> nat {
        1
    }

    open spec fn spec_offset(self, index: usize) -> nat {
        0
    }

    open spec fn spec_size(self, index: usize) -> GLenum {
        if index == 0 {
            clamp_components(self.1)
        } else {
            0
        }
    }

    open spec fn spec_ty(self, index: usize) -> AttribType {
        int_attrib_type(self.0)
    }

    open spec fn spec_normalized(self, index: usize) -> bool {
        false
    }

    open spec fn spec_packed(self, index: usize) -> bool {
        false
    }

    open spec fn spec_long(self, index: usize) -> bool {
        false
    }

    open spec fn spec_integer(self, index: usize) -> bool {
        true
    }

    open spec fn spec_from_layouts_ok(layouts: Seq<GenAttribFormat>) -> bool {
        layouts.len() > 0
    }

    open spec fn spec_from_layouts(layouts: Seq<GenAttribFormat>) -> Option<IVecFormat> {
        match int_type_of(layouts[0].ty) {
            Some(t) => Some(IVecFormat(t, layouts[0].size)),
            None => None,
        }
    }

    open spec fn spec_layouts_error(layouts: Seq<GenAttribFormat>, e: GLError) -> bool {
        e matches GLError::InvalidEnum(v, s) && v == layouts[0].ty.spec_glenum() && s@ == "IntType"@
    }

    fn attrib_count() -> (n: usize) {
        1
    }

    fn offset(&self, index: usize) -> (r: usize) {
        0
    }

    fn size(&self, index: usize) -> (r: GLenum) {
        if index == 0 {
            min4(self.1)
        } else {
            0
        }
    }

    fn ty(&self, index: usize) -> (r: AttribType) {
        self.0.to_attrib_type()
    }

    fn normalized(&self, index: usize) -> (r: bool) {
        false
    }

    fn packed(&self, index: usize) -> (r: bool) {
        false
    }

    fn long(&self, index: usize) -> (r: bool) {
        false
    }

    fn integer(&self, index: usize) -> (r: bool) {
        true
    }

    fn from_layouts(layouts: &[GenAttribFormat]) -> (r: Result<IVecFormat, GLError>) {
        match IntType::try_from_glenum(layouts[0].ty.glenum()) {
            Ok(t) => Ok(IVecFormat(t, layouts[0].size)),
            Err(e) => Err(e),
        }
    }
}

/// Formats of single attribute slots holding double-precision values.
#[derive(Clone, Copy, PartialEq, Eq, Structural, Hash, Debug)]
pub struct DVecFormat(pub u32);

impl AttribFormat for DVecFormat {
    open spec fn spec_attrib_count() -> nat {
        1
    }

    open spec fn spec_offset(self, index: usize) -> nat {
        0
    }

    open spec fn spec_size(self, index: usize) -> GLenum {
        if index == 0 {
            clamp_components(self.0)
        } else {
            0
        }
    }

    open spec fn spec_ty(self, index: usize) -> AttribType {
        AttribType::Double
    }

    open spec fn spec_normalized(self, index: usize) -> bool {
        false
    }

    open spec fn spec_packed(self, index: usize) -> bool {
        false
    }

    open spec fn spec_long(self, index: usize) -> bool {
        true
    }

    open spec fn spec_integer(self, index: usize) -> bool {
        false
    }

    open spec fn spec_from_layouts_ok(layouts: Seq<GenAttribFormat>) -> bool {
        layouts.len() > 0
    }

    open spec fn spec_from_layouts(layouts: Seq<GenAttribFormat>) -> Option<DVecFormat> {
        Some(DVecFormat(layouts[0].size))
    }

    /// Reading a double format back never fails.
    open spec fn spec_layouts_error(layouts: Seq<GenAttribFormat>, e: GLError) -> bool {
        false
    }

    fn attrib_count() -> (n: usize) {
        1
    }

    fn offset(&self, index: usize) -> (r: usize) {
        0
    }

    fn size(&self, index: usize) -> (r: GLenum) {
        if index == 0 {
            min4(self.0)
        } else {
            0
        }
    }

    fn ty(&self, index: usize) -> (r: AttribType) {
        AttribType::Double
    }

    fn normalized(&self, index: usize) -> (r: bool) {
        false
    }

    fn packed(&self, index: usize) -> (r: bool) {
        false
    }

    fn long(&self, index: usize) -> (r: bool) {
        true
    }

    fn integer(&self, index: usize) -> (r: bool) {
        false
    }

    fn from_layouts(layouts: &[GenAttribFormat]) -> (r: Result<DVecFormat, GLError>) {
        Ok(DVecFormat(layouts[0].size))
    }
}

/// A format placed at a byte offset inside a larger value.
#[derive(Clone, Copy, PartialEq, Eq, Structural, Hash, Debug)]
pub struct OffsetFormat<A> {
    pub offset: usize,
    pub fmt: A,
}

impl<A: AttribFormat> AttribFormat for OffsetFormat<A> {
    open spec fn spec_attrib_count() -> nat {
        A::spec_attrib_count()
    }

    open spec fn spec_offset(self, index: usize) -> nat {
        (self.offset + self.fmt.spec_offset(index)) as nat
    }

    open spec fn spec_size(self, index: usize) -> GLenum {
        self.fmt.spec_size(index)
    }

    open spec fn spec_ty(self, index: usize) -> AttribType {
        self.fmt.spec_ty(index)
    }

    open spec fn spec_normalized(self, index: usize) -> bool {
        self.fmt.spec_normalized(index)
    }

    open spec fn spec_packed(self, index: usize) -> bool {
        self.fmt.spec_packed(index)
    }

    open spec fn spec_long(self, index: usize) -> bool {
        self.fmt.spec_long(index)
    }

    open spec fn spec_integer(self, index: usize) -> bool {
        self.fmt.spec_integer(index)
    }

    open spec fn spec_from_layouts_ok(layouts: Seq<GenAttribFormat>) -> bool {
        &&& layouts.len() > 0
        &&& 1 <= A::spec_attrib_count() <= usize::MAX
        &&& A::spec_from_layouts_ok(layouts)
        &&& A::spec_from_layouts(layouts) matches Some(f) ==> f.spec_offset(0) <= layouts[0].offset
    }

    open spec fn spec_from_layouts(layouts: Seq<GenAttribFormat>) -> Option<OffsetFormat<A>> {
        match A::spec_from_layouts(layouts) {
            Some(f) => Some(
                OffsetFormat { offset: (layouts[0].offset - f.spec_offset(0)) as usize, fmt: f },
            ),
            None => None,
        }
    }

    open spec fn spec_layouts_error(layouts: Seq<GenAttribFormat>, e: GLError) -> bool {
        A::spec_layouts_error(layouts, e)
    }

    fn attrib_count() -> (n: usize) {
        A::attrib_count()
    }

    fn offset(&self, index: usize) -> (r: usize) {
        self.offset + self.fmt.offset(index)
    }

    fn size(&self, index: usize) -> (r: GLenum) {
        self.fmt.size(index)
    }

    fn ty(&self, index: usize) -> (r: AttribType) {
        self.fmt.ty(index)
    }

    fn normalized(&self, index: usize) -> (r: bool) {
        self.fmt.normalized(index)
    }

    fn packed(&self, index: usize) -> (r: bool) {
        self.fmt.packed(index)
    }

    fn long(&self, index: usize) -> (r: bool) {
        self.fmt.long(index)
    }

    fn integer(&self, index: usize) -> (r: bool) {
        self.fmt.integer(index)
    }

    fn from_layouts(layouts: &[GenAttribFormat]) -> (r: Result<OffsetFormat<A>, GLError>) {
        match A::from_layouts(layouts) {
            Ok(fmt) => Ok(OffsetFormat { offset: layouts[0].offset - fmt.offset(0), fmt }),
            Err(e) => Err(e),
        }
    }
}

/// The element of an array format that holds slot `index`, where each element occupies
/// `count` slots.
pub open spec fn slot_element(index: usize, count: nat) -> int {
    index as int / count as int
}

/// The slot within its element that slot `index` of an array format is.
pub open spec fn slot_within(index: usize, count: nat) -> usize {
    (index as int % count as int) as usize
}

/// The slot descriptions from which element `i` of an array format is read back: those
/// from its first slot on.
pub open spec fn element_layouts(layouts: Seq<GenAttribFormat>, i: int, count: nat) -> Seq<GenAttribFormat> {
    if i == 0 {
        layouts
    } else {
        layouts.subrange(i * count, layouts.len() as int)
    }
}

/// Splits slot `index` of an array of `n` elements of `count` slots each into the element
/// and the slot within it.
fn split_slot(index: usize, n: usize, count: usize) -> (r: (usize, usize))
    requires
        count > 0,
        index < n * count,
    ensures
        r.0 == slot_element(index, count as nat),
        r.1 == slot_within(index, count as nat),
        r.0 < n,
        r.1 < count,
{
    proof {
        vstd::arithmetic::mul::lemma_mul_is_commutative(n as int, count as int);
        vstd::arithmetic::div_mod::lemma_multiply_divide_lt(index as int, count as int, n as int);
    }
    (index / count, index % count)
}

/// The formats of 2x2, 3x3 and 4x4 single-precision matrices: one vector per column.
pub type Mat2Format = [OffsetFormat<VecFormat>; 2];

pub type Mat3Format = [OffsetFormat<VecFormat>; 3];

pub type Mat4Format = [OffsetFormat<VecFormat>; 4];

/// The formats of 2x2, 3x3 and 4x4 double-precision matrices: one vector per column.
pub type DMat2Format = [OffsetFormat<DVecFormat>; 2];

pub type DMat3Format = [OffsetFormat<DVecFormat>; 3];

pub type DMat4Format = [OffsetFormat<DVecFormat>; 4];

/// The format of element `i` of an array format, read back from the slot descriptions
/// from its first slot on.
pub open spec fn element_format<A: AttribFormat>(layouts: Seq<GenAttribFormat>, i: int) -> Option<OffsetFormat<A>> {
    OffsetFormat::<A>::spec_from_layouts(element_layouts(layouts, i, A::spec_attrib_count()))
}

/// Whether the first `n` elements of an array format are read back.
pub open spec fn elements_read<A: AttribFormat>(layouts: Seq<GenAttribFormat>, n: int) -> bool {
    forall|k: int| 0 <= k < n ==> (#[trigger] element_format::<A>(layouts, k)) is Some
}

/// Where `n` elements of `count` slots occupy between one and `usize::MAX` slots, there is
/// an element and its slots count fits in a `usize`.
proof fn lemma_element_count_fits(n: int, count: int)
    requires
        0 <= n,
        0 <= count,
        0 < n * count <= usize::MAX,
    ensures
        n >= 1,
        1 <= count <= usize::MAX,
{
    assert(n >= 1 && count >= 1) by (nonlinear_arith)
        requires 0 <= n, 0 <= count, 0 < n * count;
    assert(count <= n * count) by (nonlinear_arith)
        requires n >= 1, count >= 0;
}

/// Whether each element of `a` is the format read back for it from `layouts`.
pub open spec fn holds_elements<A: AttribFormat, const N: usize>(a: [OffsetFormat<A>; N], layouts: Seq<GenAttribFormat>) -> bool {
    forall|k: int| 0 <= k < N ==> a@[k] == (#[trigger] element_format::<A>(layouts, k))->0
}

impl<A: AttribFormat + Copy, const N: usize> AttribFormat for [OffsetFormat<A>; N] {
    open spec fn spec_attrib_count() -> nat {
        (N as nat) * A::spec_attrib_count()
    }

    open spec fn spec_offset(self, index: usize) -> nat {
        self@[slot_element(index, A::spec_attrib_count())].spec_offset(
            slot_within(index, A::spec_attrib_count()),
        )
    }

    open spec fn spec_size(self, index: usize) -> GLenum {
        self@[slot_element(index, A::spec_attrib_count())].spec_size(
            slot_within(index, A::spec_attrib_count()),
        )
    }

    open spec fn spec_ty(self, index: usize) -> AttribType {
        self@[slot_element(index, A::spec_attrib_count())].spec_ty(
            slot_within(index, A::spec_attrib_count()),
        )
    }

    open spec fn spec_normalized(self, index: usize) -> bool {
        self@[slot_element(index, A::spec_attrib_count())].spec_normalized(
            slot_within(index, A::spec_attrib_count()),
        )
    }

    open spec fn spec_packed(self, index: usize) -> bool {
        self@[slot_element(index, A::spec_attrib_count())].spec_packed(
            slot_within(index, A::spec_attrib_count()),
        )
    }

    open spec fn spec_long(self, index: usize) -> bool {
        self@[slot_element(index, A::spec_attrib_count())].spec_long(
            slot_within(index, A::spec_attrib_count()),
        )
    }

    open spec fn spec_integer(self, index: usize) -> bool {
        self@[slot_element(index, A::spec_attrib_count())].spec_integer(
            slot_within(index, A::spec_attrib_count()),
        )
    }

    /// Each element is read back in turn from the slots from its first one on; reading
    /// stops at the first element that is not. Arrays of no element are not read back.
    open spec fn spec_from_layouts_ok(layouts: Seq<GenAttribFormat>) -> bool {
        &&& N >= 1
        &&& A::spec_attrib_count() <= usize::MAX
        &&& forall|i: int|
            0 <= i < N && elements_read::<A>(layouts, i) ==> {
                &&& i * A::spec_attrib_count() <= layouts.len()
                &&& OffsetFormat::<A>::spec_from_layouts_ok(
                    #[trigger] element_layouts(layouts, i, A::spec_attrib_count()),
                )
            }
    }

    open spec fn spec_from_layouts(layouts: Seq<GenAttribFormat>) -> Option<[OffsetFormat<A>; N]> {
        if elements_read::<A>(layouts, N as int) {
            Some(
                choose|a: [OffsetFormat<A>; N]| #[trigger] holds_elements(a, layouts),
            )
        } else {
            None
        }
    }

    /// The error of the first element that is not read back.
    open spec fn spec_layouts_error(layouts: Seq<GenAttribFormat>, e: GLError) -> bool {
        exists|i: int|
            0 <= i < N && elements_read::<A>(layouts, i) && element_format::<A>(layouts, i) is None
                && OffsetFormat::<A>::spec_layouts_error(
                #[trigger] element_layouts(layouts, i, A::spec_attrib_count()),
                e,
            )
    }

    fn attrib_count() -> (n: usize) {
        if N == 0 {
            0
        } else {
            proof {
                assert(A::spec_attrib_count() <= N * A::spec_attrib_count()) by (nonlinear_arith)
                    requires N >= 1;
            }
            N * A::attrib_count()
        }
    }

    fn offset(&self, index: usize) -> (r: usize) {
        proof {
            lemma_element_count_fits(N as int, A::spec_attrib_count() as int);
        }
        let (i, j) = split_slot(index, N, A::attrib_count());
        self[i].offset(j)
    }

    fn size(&self, index: usize) -> (r: GLenum) {
        proof {
            lemma_element_count_fits(N as int, A::spec_attrib_count() as int);
        }
        let (i, j) = split_slot(index, N, A::attrib_count());
        self[i].size(j)
    }

    fn ty(&self, index: usize) -> (r: AttribType) {
        proof {
            lemma_element_count_fits(N as int, A::spec_attrib_count() as int);
        }
        let (i, j) = split_slot(index, N, A::attrib_count());
        self[i].ty(j)
    }

    fn normalized(&self, index: usize) -> (r: bool) {
        proof {
            lemma_element_count_fits(N as int, A::spec_attrib_count() as int);
        }
        let (i, j) = split_slot(index, N, A::attrib_count());
        self[i].normalized(j)
    }

    fn packed(&self, index: usize) -> (r: bool) {
        proof {
            lemma_element_count_fits(N as int, A::spec_attrib_count() as int);
        }
        let (i, j) = split_slot(index, N, A::attrib_count());
        self[i].packed(j)
    }

    fn long(&self, index: usize) -> (r: bool) {
        proof {
            lemma_element_count_fits(N as int, A::spec_attrib_count() as int);
        }
        let (i, j) = split_slot(index, N, A::attrib_count());
        self[i].long(j)
    }

    fn integer(&self, index: usize) -> (r: bool) {
        proof {
            lemma_element_count_fits(N as int, A::spec_attrib_count() as int);
        }
        let (i, j) = split_slot(index, N, A::attrib_count());
        self[i].integer(j)
    }

    fn from_layouts(layouts: &[GenAttribFormat]) -> (r: Result<[OffsetFormat<A>; N], GLError>) {
        broadcast use vstd::array::group_array_axioms;

        let count = A::attrib_count();
        assert(element_layouts(layouts@, 0, A::spec_attrib_count()) == layouts@);
        assert(elements_read::<A>(layouts@, 0));
        let first = match OffsetFormat::<A>::from_layouts(layouts) {
            Ok(f) => f,
            Err(e) => {
                assert(element_format::<A>(layouts@, 0) is None);
                return Err(e);
            },
        };
        let mut fmt: [OffsetFormat<A>; N] = [first; N];
        let mut i: usize = 1;
        assert(elements_read::<A>(layouts@, 1)) by {
            assert(element_format::<A>(layouts@, 0) is Some);
        }
        while i < N
            invariant
                1 <= i <= N,
                count == A::spec_attrib_count(),
                Self::spec_from_layouts_ok(layouts@),
                elements_read::<A>(layouts@, i as int),
                forall|k: int| 0 <= k < i ==> fmt@[k] == (#[trigger] element_format::<A>(layouts@, k))->0,
            decreases N - i,
        {
            let len = layouts.len();
            let ghost rest = element_layouts(layouts@, i as int, A::spec_attrib_count());
            assert(i * A::spec_attrib_count() <= layouts@.len());
            assert(i * count <= layouts@.len());
            assert(rest =~= layouts@.subrange(i * count, layouts@.len() as int));
            let f = match OffsetFormat::<A>::from_layouts(
                vstd::slice::slice_subrange(layouts, i * count, len),
            ) {
                Ok(f) => f,
                Err(e) => {
                    assert(element_format::<A>(layouts@, i as int) is None);
                    return Err(e);
                },
            };
            assert(element_format::<A>(layouts@, i as int) == Some(f));
            fmt[i] = f;
            i += 1;
        }
        assert(holds_elements(fmt, layouts@));
        let ghost chosen = choose|a: [OffsetFormat<A>; N]| #[trigger] holds_elements(a, layouts@);
        assert forall|k: int| 0 <= k < N implies fmt@[k] == chosen@[k] by {
            assert(element_format::<A>(layouts@, k) is Some);
        }
        assert(fmt =~= chosen);
        Ok(fmt)
    }
}

impl<A: AttribFormat, B: AttribFormat> AttribFormat for (A, B) {
    open spec fn spec_attrib_count() -> nat {
        A::spec_attrib_count() + B::spec_attrib_count()
    }

    open spec fn spec_offset(self, index: usize) -> nat {
        if index < A::spec_attrib_count() {
            self.0.spec_offset(index)
        } else if index < A::spec_attrib_count() + B::spec_attrib_count() {
            self.1.spec_offset((index - (A::spec_attrib_count())) as usize)
        } else {
            0
        }
    }

    open spec fn spec_size(self, index: usize) -> GLenum {
        if index < A::spec_attrib_count() {
            self.0.spec_size(index)
        } else if index < A::spec_attrib_count() + B::spec_attrib_count() {
            self.1.spec_size((index - (A::spec_attrib_count())) as usize)
        } else {
            0
        }
    }

    open spec fn spec_ty(self, index: usize) -> AttribType {
        if index < A::spec_attrib_count() {
            self.0.spec_ty(index)
        } else if index < A::spec_attrib_count() + B::spec_attrib_count() {
            self.1.spec_ty((index - (A::spec_attrib_count())) as usize)
        } else {
            AttribType::Int
        }
    }

    open spec fn spec_normalized(self, index: usize) -> bool {
        if index < A::spec_attrib_count() {
            self.0.spec_normalized(index)
        } else if index < A::spec_attrib_count() + B::spec_attrib_count() {
            self.1.spec_normalized((index - (A::spec_attrib_count())) as usize)
        } else {
            false
        }
    }

    open spec fn spec_packed(self, index: usize) -> bool {
        if index < A::spec_attrib_count() {
            self.0.spec_packed(index)
        } else if index < A::spec_attrib_count() + B::spec_attrib_count() {
            self.1.spec_packed((index - (A::spec_attrib_count())) as usize)
        } else {
            false
        }
    }

    open spec fn spec_long(self, index: usize) -> bool {
        if index < A::spec_attrib_count() {
            self.0.spec_long(index)
        } else if index < A::spec_attrib_count() + B::spec_attrib_count() {
            self.1.spec_long((index - (A::spec_attrib_count())) as usize)
        } else {
            false
        }
    }

    open spec fn spec_integer(self, index: usize) -> bool {
        if index < A::spec_attrib_count() {
            self.0.spec_integer(index)
        } else if index < A::spec_attrib_count() + B::spec_attrib_count() {
            self.1.spec_integer((index - (A::spec_attrib_count())) as usize)
        } else {
            false
        }
    }

    /// The members are read back in turn, each from the slots after those of the members
    /// before it; reading stops at the first member that is not read back.
    open spec fn spec_from_layouts_ok(layouts: Seq<GenAttribFormat>) -> bool {
        A::spec_attrib_count() + B::spec_attrib_count() <= usize::MAX
            && A::spec_from_layouts_ok(layouts)
            && (A::spec_from_layouts(layouts) is Some ==> A::spec_attrib_count() <= layouts.len()
            && B::spec_from_layouts_ok(layouts.subrange(A::spec_attrib_count() as int, layouts.len() as int))
            && (B::spec_from_layouts(layouts.subrange(A::spec_attrib_count() as int, layouts.len() as int)) is Some ==> A::spec_attrib_count() + B::spec_attrib_count() <= layouts.len()))
    }

    open spec fn spec_from_layouts(layouts: Seq<GenAttribFormat>) -> Option<(A, B)> {
        match (A::spec_from_layouts(layouts), B::spec_from_layouts(layouts.subrange(A::spec_attrib_count() as int, layouts.len() as int))) {
            (Some(f0), Some(f1)) => Some((f0, f1)),
            _ => None,
        }
    }

    /// The error of the first member that is not read back.
    open spec fn spec_layouts_error(layouts: Seq<GenAttribFormat>, e: GLError) -> bool {
        if A::spec_from_layouts(layouts) is None {
            A::spec_layouts_error(layouts, e)
        } else {
            B::spec_layouts_error(layouts.subrange(A::spec_attrib_count() as int, layouts.len() as int), e)
        }
    }

    fn attrib_count() -> (n: usize) {
        A::attrib_count() + B::attrib_count()
    }

    fn offset(&self, index: usize) -> (r: usize) {
        let c0: usize = A::attrib_count();
        if index < c0 {
            self.0.offset(index)
        } else {
            self.1.offset(index - (c0))
        }
    }

    fn size(&self, index: usize) -> (r: GLenum) {
        let c0: usize = A::attrib_count();
        if index < c0 {
            self.0.size(index)
        } else {
            self.1.size(index - (c0))
        }
    }

    fn ty(&self, index: usize) -> (r: AttribType) {
        let c0: usize = A::attrib_count();
        if index < c0 {
            self.0.ty(index)
        } else {
            self.1.ty(index - (c0))
        }
    }

    fn normalized(&self, index: usize) -> (r: bool) {
        let c0: usize = A::attrib_count();
        if index < c0 {
            self.0.normalized(index)
        } else {
            self.1.normalized(index - (c0))
        }
    }

    fn packed(&self, index: usize) -> (r: bool) {
        let c0: usize = A::attrib_count();
        if index < c0 {
            self.0.packed(index)
        } else {
            self.1.packed(index - (c0))
        }
    }

    fn long(&self, index: usize) -> (r: bool) {
        let c0: usize = A::attrib_count();
        if index < c0 {
            self.0.long(index)
        } else {
            self.1.long(index - (c0))
        }
    }

    fn integer(&self, index: usize) -> (r: bool) {
        let c0: usize = A::attrib_count();
        if index < c0 {
            self.0.integer(index)
        } else {
            self.1.integer(index - (c0))
        }
    }

    fn from_layouts(layouts: &[GenAttribFormat]) -> (r: Result<(A, B), GLError>) {
        let len = layouts.len();
        let f0 = match A::from_layouts(layouts) {
            Ok(f) => f,
            Err(e) => {
                return Err(e);
            },
        };
        let c0: usize = A::attrib_count();
        let f1 = match B::from_layouts(vstd::slice::slice_subrange(layouts, c0, len)) {
            Ok(f) => f,
            Err(e) => {
                return Err(e);
            },
        };
        Ok((f0, f1))
    }
}

impl<A: AttribFormat, B: AttribFormat, C: AttribFormat> AttribFormat for (A, B, C) {
    open spec fn spec_attrib_count() -> nat {
        A::spec_attrib_count() + B::spec_attrib_count() + C::spec_attrib_count()
    }

    open spec fn spec_offset(self, index: usize) -> nat {
        if index < A::spec_attrib_count() {
            self.0.spec_offset(index)
        } else if index < A::spec_attrib_count() + B::spec_attrib_count() {
            self.1.spec_offset((index - (A::spec_attrib_count())) as usize)
        } else if index < A::spec_attrib_count() + B::spec_attrib_count() + C::spec_attrib_count() {
            self.2.spec_offset((index - (A::spec_attrib_count() + B::spec_attrib_count())) as usize)
        } else {
            0
        }
    }

    open spec fn spec_size(self, index: usize) -> GLenum {
        if index < A::spec_attrib_count() {
            self.0.spec_size(index)
        } else if index < A::spec_attrib_count() + B::spec_attrib_count() {
            self.1.spec_size((index - (A::spec_attrib_count())) as usize)
        } else if index < A::spec_attrib_count() + B::spec_attrib_count() + C::spec_attrib_count() {
            self.2.spec_size((index - (A::spec_attrib_count() + B::spec_attrib_count())) as usize)
        } else {
            0
        }
    }

    open spec fn spec_ty(self, index: usize) -> AttribType {
        if index < A::spec_attrib_count() {
            self.0.spec_ty(index)
        } else if index < A::spec_attrib_count() + B::spec_attrib_count() {
            self.1.spec_ty((index - (A::spec_attrib_count())) as usize)
        } else if index < A::spec_attrib_count() + B::spec_attrib_count() + C::spec_attrib_count() {
            self.2.spec_ty((index - (A::spec_attrib_count() + B::spec_attrib_count())) as usize)
        } else {
            AttribType::Int
        }
    }

    open spec fn spec_normalized(self, index: usize) -> bool {
        if index < A::spec_attrib_count() {
            self.0.spec_normalized(index)
        } else if index < A::spec_attrib_count() + B::spec_attrib_count() {
            self.1.spec_normalized((index - (A::spec_attrib_count())) as usize)
        } else if index < A::spec_attrib_count() + B::spec_attrib_count() + C::spec_attrib_count() {
            self.2.spec_normalized((index - (A::spec_attrib_count() + B::spec_attrib_count())) as usize)
        } else {
            false
        }
    }

    open spec fn spec_packed(self, index: usize) -> bool {
        if index < A::spec_attrib_count() {
            self.0.spec_packed(index)
        } else if index < A::spec_attrib_count() + B::spec_attrib_count() {
            self.1.spec_packed((index - (A::spec_attrib_count())) as usize)
        } else if index < A::spec_attrib_count() + B::spec_attrib_count() + C::spec_attrib_count() {
            self.2.spec_packed((index - (A::spec_attrib_count() + B::spec_attrib_count())) as usize)
        } else {
            false
        }
    }

    open spec fn spec_long(self, index: usize) -> bool {
        if index < A::spec_attrib_count() {
            self.0.spec_long(index)
        } else if index < A::spec_attrib_count() + B::spec_attrib_count() {
            self.1.spec_long((index - (A::spec_attrib_count())) as usize)
        } else if index < A::spec_attrib_count() + B::spec_attrib_count() + C::spec_attrib_count() {
            self.2.spec_long((index - (A::spec_attrib_count() + B::spec_attrib_count())) as usize)
        } else {
            false
        }
    }

    open spec fn spec_integer(self, index: usize) -> bool {
        if index < A::spec_attrib_count() {
            self.0.spec_integer(index)
        } else if index < A::spec_attrib_count() + B::spec_attrib_count() {
            self.1.spec_integer((index - (A::spec_attrib_count())) as usize)
        } else if index < A::spec_attrib_count() + B::spec_attrib_count() + C::spec_attrib_count() {
            self.2.spec_integer((index - (A::spec_attrib_count() + B::spec_attrib_count())) as usize)
        } else {
            false
        }
    }

    /// The members are read back in turn, each from the slots after those of the members
    /// before it; reading stops at the first member that is not read back.
    open spec fn spec_from_layouts_ok(layouts: Seq<GenAttribFormat>) -> bool {
        A::spec_attrib_count() + B::spec_attrib_count() + C::spec_attrib_count() <= usize::MAX
            && A::spec_from_layouts_ok(layouts)
            && (A::spec_from_layouts(layouts) is Some ==> A::spec_attrib_count() <= layouts.len()
            && B::spec_from_layouts_ok(layouts.subrange(A::spec_attrib_count() as int, layouts.len() as int))
            && (B::spec_from_layouts(layouts.subrange(A::spec_attrib_count() as int, layouts.len() as int)) is Some ==> A::spec_attrib_count() + B::spec_attrib_count() <= layouts.len()
            && C::spec_from_layouts_ok(layouts.subrange((A::spec_attrib_count() + B::spec_attrib_count()) as int, layouts.len() as int))
            && (C::spec_from_layouts(layouts.subrange((A::spec_attrib_count() + B::spec_attrib_count()) as int, layouts.len() as int)) is Some ==> A::spec_attrib_count() + B::spec_attrib_count() + C::spec_attrib_count() <= layouts.len())))
    }

    open spec fn spec_from_layouts(layouts: Seq<GenAttribFormat>) -> Option<(A, B, C)> {
        match (A::spec_from_layouts(layouts), B::spec_from_layouts(layouts.subrange(A::spec_attrib_count() as int, layouts.len() as int)), C::spec_from_layouts(layouts.subrange((A::spec_attrib_count() + B::spec_attrib_count()) as int, layouts.len() as int))) {
            (Some(f0), Some(f1), Some(f2)) => Some((f0, f1, f2)),
            _ => None,
        }
    }

    /// The error of the first member that is not read back.
    open spec fn spec_layouts_error(layouts: Seq<GenAttribFormat>, e: GLError) -> bool {
        if A::spec_from_layouts(layouts) is None {
            A::spec_layouts_error(layouts, e)
        } else if B::spec_from_layouts(layouts.subrange(A::spec_attrib_count() as int, layouts.len() as int)) is None {
            B::spec_layouts_error(layouts.subrange(A::spec_attrib_count() as int, layouts.len() as int), e)
        } else {
            C::spec_layouts_error(
                layouts.subrange((A::spec_attrib_count() + B::spec_attrib_count()) as int, layouts.len() as int),
                e,
            )
        }
    }

    fn attrib_count() -> (n: usize) {
        A::attrib_count() + B::attrib_count() + C::attrib_count()
    }

    fn offset(&self, index: usize) -> (r: usize) {
        let c0: usize = A::attrib_count();
        let c1: usize = B::attrib_count();
        if index < c0 {
            self.0.offset(index)
        } else if index < c0 + c1 {
            self.1.offset(index - (c0))
        } else {
            self.2.offset(index - (c0 + c1))
        }
    }

    fn size(&self, index: usize) -> (r: GLenum) {
        let c0: usize = A::attrib_count();
        let c1: usize = B::attrib_count();
        if index < c0 {
            self.0.size(index)
        } else if index < c0 + c1 {
            self.1.size(index - (c0))
        } else {
            self.2.size(index - (c0 + c1))
        }
    }

    fn ty(&self, index: usize) -> (r: AttribType) {
        let c0: usize = A::attrib_count();
        let c1: usize = B::attrib_count();
        if index < c0 {
            self.0.ty(index)
        } else if index < c0 + c1 {
            self.1.ty(index - (c0))
        } else {
            self.2.ty(index - (c0 + c1))
        }
    }

    fn normalized(&self, index: usize) -> (r: bool) {
        let c0: usize = A::attrib_count();
        let c1: usize = B::attrib_count();
        if index < c0 {
            self.0.normalized(index)
        } else if index < c0 + c1 {
            self.1.normalized(index - (c0))
        } else {
            self.2.normalized(index - (c0 + c1))
        }
    }

    fn packed(&self, index: usize) -> (r: bool) {
        let c0: usize = A::attrib_count();
        let c1: usize = B::attrib_count();
        if index < c0 {
            self.0.packed(index)
        } else if index < c0 + c1 {
            self.1.packed(index - (c0))
        } else {
            self.2.packed(index - (c0 + c1))
        }
    }

    fn long(&self, index: usize) -> (r: bool) {
        let c0: usize = A::attrib_count();
        let c1: usize = B::attrib_count();
        if index < c0 {
            self.0.long(index)
        } else if index < c0 + c1 {
            self.1.long(index - (c0))
        } else {
            self.2.long(index - (c0 + c1))
        }
    }

    fn integer(&self, index: usize) -> (r: bool) {
        let c0: usize = A::attrib_count();
        let c1: usize = B::attrib_count();
        if index < c0 {
            self.0.integer(index)
        } else if index < c0 + c1 {
            self.1.integer(index - (c0))
        } else {
            self.2.integer(index - (c0 + c1))
        }
    }

    fn from_layouts(layouts: &[GenAttribFormat]) -> (r: Result<(A, B, C), GLError>) {
        let len = layouts.len();
        let f0 = match A::from_layouts(layouts) {
            Ok(f) => f,
            Err(e) => {
                return Err(e);
            },
        };
        let c0: usize = A::attrib_count();
        let f1 = match B::from_layouts(vstd::slice::slice_subrange(layouts, c0, len)) {
            Ok(f) => f,
            Err(e) => {
                return Err(e);
            },
        };
        let c1: usize = B::attrib_count();
        let f2 = match C::from_layouts(vstd::slice::slice_subrange(layouts, c0 + c1, len)) {
            Ok(f) => f,
            Err(e) => {
                return Err(e);
            },
        };
        Ok((f0, f1, f2))
    }
}


impl From<IVecFormat> for VecFormat {
    fn from(ivec: IVecFormat) -> (v: VecFormat) {
        VecFormat::Int(ivec.0, ivec.1)
    }
}

impl vstd::std_specs::convert::FromSpecImpl<IVecFormat> for VecFormat {
    open spec fn obeys_from_spec() -> bool {
        true
    }

    open spec fn from_spec(ivec: IVecFormat) -> VecFormat {
        VecFormat::Int(ivec.0, ivec.1)
    }
}

impl From<DVecFormat> for VecFormat {
    fn from(dvec: DVecFormat) -> (v: VecFormat) {
        VecFormat::Double(dvec.0)
    }
}

impl vstd::std_specs::convert::FromSpecImpl<DVecFormat> for VecFormat {
    open spec fn obeys_from_spec() -> bool {
        true
    }

    open spec fn from_spec(dvec: DVecFormat) -> VecFormat {
        VecFormat::Double(dvec.0)
    }
}

/// The slot description that the GL reports for slot `index` of a format.
pub open spec fn layout_of<A: AttribFormat>(f: A, index: usize) -> GenAttribFormat {
    GenAttribFormat {
        offset: f.spec_offset(index) as usize,
        size: f.spec_size(index),
        ty: f.spec_ty(index),
        normalized: f.spec_normalized(index),
    }
}

/// The component count carried by a vector format, where it carries one.
pub open spec fn vec_format_count(f: VecFormat) -> u32 {
    match f {
        VecFormat::Float(_, n) => n,
        VecFormat::Fixed(n) => n,
        VecFormat::Double(n) => n,
        VecFormat::Int(_, n) => n,
        VecFormat::Normalized(_, n) => n,
        _ => 0,
    }
}

/// Reading a vector format back from the description of its slot gives the format,
/// for every format whose component count the GL accepts unchanged (at most 4).
pub proof fn lemma_vec_format_roundtrip(f: VecFormat)
    requires
        vec_format_count(f) <= 4,
    ensures
        VecFormat::spec_from_layouts(seq![layout_of(f, 0)]) == Some(f),
{
    let l = layout_of(f, 0);
    match f {
        VecFormat::Int(t, _) => {
            IntType::lemma_glenum_roundtrip(t, t.spec_glenum());
        },
        VecFormat::Normalized(t, _) => {
            IntType::lemma_glenum_roundtrip(t, t.spec_glenum());
        },
        _ => {},
    }
}

/// Reading an integer format back from the description of its slot gives the format,
/// when its component count is at most 4.
pub proof fn lemma_ivec_format_roundtrip(f: IVecFormat)
    requires
        f.1 <= 4,
    ensures
        IVecFormat::spec_from_layouts(seq![layout_of(f, 0)]) == Some(f),
{
    IntType::lemma_glenum_roundtrip(f.0, f.0.spec_glenum());
}

/// Reading a double format back from the description of its slot gives the format,
/// when its component count is at most 4.
pub proof fn lemma_dvec_format_roundtrip(f: DVecFormat)
    requires
        f.0 <= 4,
    ensures
        DVecFormat::spec_from_layouts(seq![layout_of(f, 0)]) == Some(f),
{
}

/// Reading a placed format back from the descriptions of its slots keeps its placement.
pub proof fn lemma_offset_format_roundtrip<A: AttribFormat>(f: OffsetFormat<A>, layouts: Seq<GenAttribFormat>)
    requires
        layouts.len() > 0,
        layouts[0].offset == f.spec_offset(0),
        A::spec_from_layouts(layouts) == Some(f.fmt),
    ensures
        OffsetFormat::<A>::spec_from_layouts(layouts) == Some(f),
{
}

/// The slot descriptions that the GL reports for a format, one per slot.
pub open spec fn layouts_of<A: AttribFormat>(f: A) -> Seq<GenAttribFormat> {
    Seq::new(A::spec_attrib_count(), |i: int| layout_of(f, i as usize))
}

/// A vector format is read back from any description that carries its component count,
/// type and normalization, wherever the slot lies.
proof fn lemma_vec_format_read(f: VecFormat, layouts: Seq<GenAttribFormat>)
    requires
        vec_format_count(f) <= 4,
        layouts.len() > 0,
        layouts[0].size == f.spec_size(0),
        layouts[0].ty == f.spec_ty(0),
        layouts[0].normalized == f.spec_normalized(0),
    ensures
        VecFormat::spec_from_layouts(layouts) == Some(f),
{
    match f {
        VecFormat::Int(t, _) => {
            IntType::lemma_glenum_roundtrip(t, t.spec_glenum());
        },
        VecFormat::Normalized(t, _) => {
            IntType::lemma_glenum_roundtrip(t, t.spec_glenum());
        },
        _ => {},
    }
}

/// Reading a matrix format back from the descriptions of its column slots gives the
/// format, when no column has more than 4 components.
pub proof fn lemma_matrix_format_roundtrip<const N: usize>(m: [OffsetFormat<VecFormat>; N])
    requires
        N >= 1,
        forall|i: int| 0 <= i < N ==> vec_format_count(#[trigger] m@[i].fmt) <= 4,
    ensures
        <[OffsetFormat<VecFormat>; N]>::spec_from_layouts_ok(layouts_of(m)),
        <[OffsetFormat<VecFormat>; N]>::spec_from_layouts(layouts_of(m)) == Some(m),
{
    broadcast use vstd::array::group_array_axioms;

    let l = layouts_of(m);
    assert forall|i: int| 0 <= i < N implies element_format::<VecFormat>(l, i) == Some(m@[i])
        && OffsetFormat::<VecFormat>::spec_from_layouts_ok(
        #[trigger] element_layouts(l, i, VecFormat::spec_attrib_count()),
    ) by {
        let e = element_layouts(l, i, VecFormat::spec_attrib_count());
        assert(slot_element(i as usize, 1) == i);
        assert(slot_within(i as usize, 1) == 0);
        assert(e[0] == l[i]);
        lemma_vec_format_read(m@[i].fmt, e);
    }
    assert(holds_elements(m, l));
    let chosen = choose|a: [OffsetFormat<VecFormat>; N]| #[trigger] holds_elements(a, l);
    assert forall|k: int| 0 <= k < N implies m@[k] == chosen@[k] by {
        assert(element_format::<VecFormat>(l, k) is Some);
    }
    assert(m =~= chosen);
}

/// Reading a vector format back looks at the description of its own slot, the first one,
/// whatever descriptions follow it: every sequence that starts with the description of the
/// format's slot reads back as the format, when its component count is at most 4.
pub proof fn lemma_vec_format_reads_first_slot(f: VecFormat, layouts: Seq<GenAttribFormat>)
    requires
        vec_format_count(f) <= 4,
        layouts.len() > 0,
        layouts[0] == layout_of(f, 0),
    ensures
        VecFormat::spec_from_layouts_ok(layouts),
        VecFormat::spec_from_layouts(layouts) == Some(f),
{
    lemma_vec_format_read(f, layouts);
}

/// Reading an integer format back looks at the description of its own slot, the first one,
/// whatever descriptions follow it: every sequence that starts with the description of the
/// format's slot reads back as the format, when its component count is at most 4.
pub proof fn lemma_ivec_format_reads_first_slot(f: IVecFormat, layouts: Seq<GenAttribFormat>)
    requires
        f.1 <= 4,
        layouts.len() > 0,
        layouts[0] == layout_of(f, 0),
    ensures
        IVecFormat::spec_from_layouts_ok(layouts),
        IVecFormat::spec_from_layouts(layouts) == Some(f),
{
    IntType::lemma_glenum_roundtrip(f.0, f.0.spec_glenum());
    assert(layouts[0].ty == int_attrib_type(f.0));
    assert(layouts[0].size == f.1);
}

/// Reading a double format back looks at the description of its own slot, the first one,
/// whatever descriptions follow it, when its component count is at most 4.
pub proof fn lemma_dvec_format_reads_first_slot(f: DVecFormat, layouts: Seq<GenAttribFormat>)
    requires
        f.0 <= 4,
        layouts.len() > 0,
        layouts[0] == layout_of(f, 0),
    ensures
        DVecFormat::spec_from_layouts_ok(layouts),
        DVecFormat::spec_from_layouts(layouts) == Some(f),
{
    assert(layouts[0].size == f.0);
}

/// Whether `f` is read back from every sequence of slot descriptions that starts with the
/// descriptions of its own slots.
pub open spec fn reads_back<A: AttribFormat>(f: A) -> bool {
    forall|l: Seq<GenAttribFormat>|
        l.len() >= A::spec_attrib_count() && #[trigger] l.subrange(0, A::spec_attrib_count() as int)
            == layouts_of(f) ==> A::spec_from_layouts_ok(l) && A::spec_from_layouts(l) == Some(f)
}

/// A vector format placed at any offset is read back, offset included, from the
/// descriptions of its slot, when its component count is at most 4.
pub proof fn lemma_placed_vec_format_reads_back(f: OffsetFormat<VecFormat>)
    requires
        vec_format_count(f.fmt) <= 4,
    ensures
        reads_back(f),
{
    assert forall|l: Seq<GenAttribFormat>|
        l.len() >= 1 && #[trigger] l.subrange(0, 1) == layouts_of(f) implies OffsetFormat::<
        VecFormat,
    >::spec_from_layouts_ok(l) && OffsetFormat::<VecFormat>::spec_from_layouts(l) == Some(f) by {
        assert(l[0] == l.subrange(0, 1)[0]);
        lemma_vec_format_read(f.fmt, l);
    }
}

/// An integer format placed at any offset is read back, offset included, from the
/// descriptions of its slot, when its component count is at most 4.
pub proof fn lemma_placed_ivec_format_reads_back(f: OffsetFormat<IVecFormat>)
    requires
        f.fmt.1 <= 4,
    ensures
        reads_back(f),
{
    assert forall|l: Seq<GenAttribFormat>|
        l.len() >= 1 && #[trigger] l.subrange(0, 1) == layouts_of(f) implies OffsetFormat::<
        IVecFormat,
    >::spec_from_layouts_ok(l) && OffsetFormat::<IVecFormat>::spec_from_layouts(l) == Some(f) by {
        assert(l[0] == l.subrange(0, 1)[0]);
        IntType::lemma_glenum_roundtrip(f.fmt.0, f.fmt.0.spec_glenum());
    }
}

/// A double format placed at any offset is read back, offset included, from the
/// descriptions of its slot, when its component count is at most 4.
pub proof fn lemma_placed_dvec_format_reads_back(f: OffsetFormat<DVecFormat>)
    requires
        f.fmt.0 <= 4,
    ensures
        reads_back(f),
{
    assert forall|l: Seq<GenAttribFormat>|
        l.len() >= 1 && #[trigger] l.subrange(0, 1) == layouts_of(f) implies OffsetFormat::<
        DVecFormat,
    >::spec_from_layouts_ok(l) && OffsetFormat::<DVecFormat>::spec_from_layouts(l) == Some(f) by {
        assert(l[0] == l.subrange(0, 1)[0]);
    }
}

/// A pair of formats is read back from the descriptions of its slots when each member is:
/// the first member from the first slots, the second from the slots after them.
pub proof fn lemma_pair_format_reads_back<A: AttribFormat, B: AttribFormat>(a: A, b: B)
    requires
        reads_back(a),
        reads_back(b),
        A::spec_attrib_count() + B::spec_attrib_count() <= usize::MAX,
    ensures
        reads_back((a, b)),
{
    let ca = A::spec_attrib_count() as int;
    let cb = B::spec_attrib_count() as int;
    assert forall|l: Seq<GenAttribFormat>|
        l.len() >= ca + cb && #[trigger] l.subrange(0, ca + cb) == layouts_of((a, b)) implies <(
        A,
        B,
    )>::spec_from_layouts_ok(l) && <(A, B)>::spec_from_layouts(l) == Some((a, b)) by {
        assert forall|i: int| 0 <= i < ca implies #[trigger] l.subrange(0, ca)[i] == layouts_of(a)[i] by {
            assert(l.subrange(0, ca)[i] == l.subrange(0, ca + cb)[i]);
        }
        assert(l.subrange(0, ca) =~= layouts_of(a));
        let rest = l.subrange(ca, l.len() as int);
        assert forall|k: int| 0 <= k < cb implies #[trigger] rest.subrange(0, cb)[k] == layouts_of(b)[k] by {
            assert(rest.subrange(0, cb)[k] == l.subrange(0, ca + cb)[ca + k]);
            assert(((ca + k) as usize - A::spec_attrib_count()) as usize == k as usize);
        }
        assert(rest.subrange(0, cb) =~= layouts_of(b));
    }
}

/// A triple of formats is read back from the descriptions of its slots when each member is:
/// each from the slots after those of the members before it.
pub proof fn lemma_triple_format_reads_back<A: AttribFormat, B: AttribFormat, C: AttribFormat>(a: A, b: B, c: C)
    requires
        reads_back(a),
        reads_back(b),
        reads_back(c),
        A::spec_attrib_count() + B::spec_attrib_count() + C::spec_attrib_count() <= usize::MAX,
    ensures
        reads_back((a, b, c)),
{
    let ca = A::spec_attrib_count() as int;
    let cb = B::spec_attrib_count() as int;
    let cc = C::spec_attrib_count() as int;
    assert forall|l: Seq<GenAttribFormat>|
        l.len() >= ca + cb + cc && #[trigger] l.subrange(0, ca + cb + cc) == layouts_of((a, b, c)) implies <(
        A,
        B,
        C,
    )>::spec_from_layouts_ok(l) && <(A, B, C)>::spec_from_layouts(l) == Some((a, b, c)) by {
        let all = l.subrange(0, ca + cb + cc);
        assert forall|i: int| 0 <= i < ca implies #[trigger] l.subrange(0, ca)[i] == layouts_of(a)[i] by {
            assert(l.subrange(0, ca)[i] == all[i]);
        }
        assert(l.subrange(0, ca) =~= layouts_of(a));
        let rest = l.subrange(ca, l.len() as int);
        assert forall|k: int| 0 <= k < cb implies #[trigger] rest.subrange(0, cb)[k] == layouts_of(b)[k] by {
            assert(rest.subrange(0, cb)[k] == all[ca + k]);
            assert(((ca + k) as usize - A::spec_attrib_count()) as usize == k as usize);
        }
        assert(rest.subrange(0, cb) =~= layouts_of(b));
        let last = l.subrange(ca + cb, l.len() as int);
        assert forall|k: int| 0 <= k < cc implies #[trigger] last.subrange(0, cc)[k] == layouts_of(c)[k] by {
            assert(last.subrange(0, cc)[k] == all[ca + cb + k]);
            assert(((ca + cb + k) as usize - (A::spec_attrib_count() + B::spec_attrib_count())) as usize
                == k as usize);
        }
        assert(last.subrange(0, cc) =~= layouts_of(c));
    }
}

} // verus!
