//! Vertex data: the attribute formats of Rust values, attribute arrays in buffers, and
//! vertex array objects.

use vstd::prelude::*;
use vstd::layout::{align_of, size_of};
use core::marker::PhantomData;
use crate::buffer::Slice;
use crate::glenum::{AttribType, GLenum, GLuint, IntType};
use crate::glsl::{bvec2, bvec3, bvec4, c_bool, ivec2, ivec3, ivec4, uvec2, uvec3, uvec4};
use crate::layout::{AttribFormat, IVecFormat};

verus! {

/// Rust values that can be read by the GL as a vertex attribute.
pub trait AttribData: Sized {
    type Format: AttribFormat;

    /// The format of the attribute.
    spec fn spec_format() -> Self::Format;

    fn format() -> (f: Self::Format)
        ensures
            f == Self::spec_format(),
    ;
}

impl AttribData for bool {
    type Format = IVecFormat;

    open spec fn spec_format() -> IVecFormat {
        IVecFormat(IntType::UByte, 1)
    }

    fn format() -> (f: IVecFormat) {
        IVecFormat(IntType::UByte, 1)
    }
}

impl AttribData for c_bool {
    type Format = IVecFormat;

    open spec fn spec_format() -> IVecFormat {
        IVecFormat(IntType::UInt, 1)
    }

    fn format() -> (f: IVecFormat) {
        IVecFormat(IntType::UInt, 1)
    }
}

impl AttribData for bvec2 {
    type Format = IVecFormat;

    open spec fn spec_format() -> IVecFormat {
        IVecFormat(IntType::UByte, 2)
    }

    fn format() -> (f: IVecFormat) {
        IVecFormat(IntType::UByte, 2)
    }
}

impl AttribData for bvec3 {
    type Format = IVecFormat;

    open spec fn spec_format() -> IVecFormat {
        IVecFormat(IntType::UByte, 3)
    }

    fn format() -> (f: IVecFormat) {
        IVecFormat(IntType::UByte, 3)
    }
}

impl AttribData for bvec4 {
    type Format = IVecFormat;

    open spec fn spec_format() -> IVecFormat {
        IVecFormat(IntType::UByte, 4)
    }

    fn format() -> (f: IVecFormat) {
        IVecFormat(IntType::UByte, 4)
    }
}

impl AttribData for u8 {
    type Format = IVecFormat;

    open spec fn spec_format() -> IVecFormat {
        IVecFormat(IntType::UByte, 1)
    }

    fn format() -> (f: IVecFormat) {
        IVecFormat(IntType::UByte, 1)
    }
}

impl AttribData for u16 {
    type Format = IVecFormat;

    open spec fn spec_format() -> IVecFormat {
        IVecFormat(IntType::UShort, 1)
    }

    fn format() -> (f: IVecFormat) {
        IVecFormat(IntType::UShort, 1)
    }
}

impl AttribData for u32 {
    type Format = IVecFormat;

    open spec fn spec_format() -> IVecFormat {
        IVecFormat(IntType::UInt, 1)
    }

    fn format() -> (f: IVecFormat) {
        IVecFormat(IntType::UInt, 1)
    }
}

impl AttribData for i8 {
    type Format = IVecFormat;

    open spec fn spec_format() -> IVecFormat {
        IVecFormat(IntType::Byte, 1)
    }

    fn format() -> (f: IVecFormat) {
        IVecFormat(IntType::Byte, 1)
    }
}

impl AttribData for i16 {
    type Format = IVecFormat;

    open spec fn spec_format() -> IVecFormat {
        IVecFormat(IntType::Short, 1)
    }

    fn format() -> (f: IVecFormat) {
        IVecFormat(IntType::Short, 1)
    }
}

impl AttribData for i32 {
    type Format = IVecFormat;

    open spec fn spec_format() -> IVecFormat {
        IVecFormat(IntType::Int, 1)
    }

    fn format() -> (f: IVecFormat) {
        IVecFormat(IntType::Int, 1)
    }
}

impl AttribData for uvec2 {
    type Format = IVecFormat;

    open spec fn spec_format() -> IVecFormat {
        IVecFormat(IntType::UInt, 2)
    }

    fn format() -> (f: IVecFormat) {
        IVecFormat(IntType::UInt, 2)
    }
}

impl AttribData for uvec3 {
    type Format = IVecFormat;

    open spec fn spec_format() -> IVecFormat {
        IVecFormat(IntType::UInt, 3)
    }

    fn format() -> (f: IVecFormat) {
        IVecFormat(IntType::UInt, 3)
    }
}

impl AttribData for uvec4 {
    type Format = IVecFormat;

    open spec fn spec_format() -> IVecFormat {
        IVecFormat(IntType::UInt, 4)
    }

    fn format() -> (f: IVecFormat) {
        IVecFormat(IntType::UInt, 4)
    }
}

impl AttribData for ivec2 {
    type Format = IVecFormat;

    open spec fn spec_format() -> IVecFormat {
        IVecFormat(IntType::Int, 2)
    }

    fn format() -> (f: IVecFormat) {
        IVecFormat(IntType::Int, 2)
    }
}

impl AttribData for ivec3 {
    type Format = IVecFormat;

    open spec fn spec_format() -> IVecFormat {
        IVecFormat(IntType::Int, 3)
    }

    fn format() -> (f: IVecFormat) {
        IVecFormat(IntType::Int, 3)
    }
}

impl AttribData for ivec4 {
    type Format = IVecFormat;

    open spec fn spec_format() -> IVecFormat {
        IVecFormat(IntType::Int, 4)
    }

    fn format() -> (f: IVecFormat) {
        IVecFormat(IntType::Int, 4)
    }
}

/// An attribute array: values of format `F` read from buffer `id`, one every `stride`
/// bytes, starting at byte `offset`.
pub struct AttribArray<'a, F> {
    id: GLuint,
    format: F,
    stride: usize,
    pointer: usize,
    buf: PhantomData<&'a ()>,
}

/// The abstract content of an attribute array.
pub struct AttribArrayView<F> {
    pub id: GLuint,
    pub format: F,
    pub stride: usize,
    pub offset: usize,
}

impl<'a, F> View for AttribArray<'a, F> {
    type V = AttribArrayView<F>;

    closed spec fn view(&self) -> AttribArrayView<F> {
        AttribArrayView { id: self.id, format: self.format, stride: self.stride, offset: self.pointer }
    }
}

impl<'a, F: AttribFormat> AttribArray<'a, F> {
    /// The array of format `fmt` in buffer `id` with the given stride and byte offset.
    pub fn from_raw_parts(fmt: F, id: GLuint, stride: usize, ptr: usize) -> (a: Self)
        ensures
            a@ == (AttribArrayView { id, format: fmt, stride, offset: ptr }),
    {
        AttribArray { id, format: fmt, stride, pointer: ptr, buf: PhantomData }
    }

    /// The array of the values held in a buffer slice: tightly packed, starting at the slice.
    pub fn from_slice<T: AttribData<Format = F>, B>(buf: Slice<'a, T, B>) -> (a: Self)
        ensures
            a@ == (AttribArrayView {
                id: buf@.id,
                format: T::spec_format(),
                stride: size_of::<T>() as usize,
                offset: buf@.offset as usize,
            }),
    {
        Self::from_raw_parts(T::format(), buf.id(), core::mem::size_of::<T>(), buf.offset())
    }

    pub fn id(&self) -> (r: GLuint)
        ensures
            r == self@.id,
    {
        self.id
    }

    pub fn stride(&self) -> (r: usize)
        ensures
            r == self@.stride,
    {
        self.stride
    }

    /// The byte offset of the first value in the buffer.
    pub fn offset(&self) -> (r: usize)
        ensures
            r == self@.offset,
    {
        self.pointer
    }
}

impl<'a, F: AttribFormat + Copy> AttribArray<'a, F> {
    pub fn format(&self) -> (r: F)
        ensures
            r == self@.format,
    {
        self.format
    }
}

impl<'a> AttribArray<'a, IVecFormat> {
    /// The same array read as normalized floating-point values.
    pub fn normalized(&self) -> (a: AttribArray<'a, crate::layout::VecFormat>)
        ensures
            a@ == (AttribArrayView {
                id: self@.id,
                format: crate::layout::VecFormat::Normalized(self@.format.0, self@.format.1),
                stride: self@.stride,
                offset: self@.offset,
            }),
    {
        AttribArray::from_raw_parts(self.format.normalized(), self.id, self.stride, self.pointer)
    }
}

/// Which attribute pointer call describes a slot: values read as floating point (possibly
/// normalized integers), as integers, or as doubles.
#[derive(Clone, Copy, PartialEq, Eq, Structural, Hash, Debug)]
pub enum PointerKind {
    Float,
    Integer,
    Long,
}

/// One attribute pointer call: the attribute index, the component count, type and
/// normalization of its values, the stride, and the byte offset of the first value in the
/// buffer.
#[derive(Clone, Copy, PartialEq, Eq, Structural, Hash, Debug)]
pub struct AttribPointer {
    pub index: GLuint,
    pub size: GLenum,
    pub ty: AttribType,
    pub normalized: bool,
    pub stride: usize,
    pub offset: usize,
    pub kind: PointerKind,
}

/// The pointer call for slot `i` of an attribute array of format `fmt` bound at attribute
/// `index`.
pub open spec fn spec_attrib_pointer<F: AttribFormat>(a: AttribArrayView<F>, index: GLuint, i: usize) -> AttribPointer {
    AttribPointer {
        index: (index + i) as GLuint,
        size: a.format.spec_size(i),
        ty: a.format.spec_ty(i),
        normalized: a.format.spec_normalized(i),
        stride: a.stride,
        offset: (a.offset + a.format.spec_offset(i)) as usize,
        kind: if a.format.spec_integer(i) {
            PointerKind::Integer
        } else if a.format.spec_long(i) {
            PointerKind::Long
        } else {
            PointerKind::Float
        },
    }
}

/// The inputs on which the pointer calls of an array can be made: the attribute indices and
/// byte offsets fit their types, and no slot is read as 64-bit integers, which the GL does
/// not support.
pub open spec fn attrib_pointers_ok<F: AttribFormat>(a: AttribArrayView<F>, index: GLuint) -> bool {
    &&& F::spec_attrib_count() <= usize::MAX
    &&& index + F::spec_attrib_count() <= u32::MAX + 1
    &&& forall|i: usize| 0 <= i < F::spec_attrib_count() ==> {
        &&& a.offset + (#[trigger] a.format.spec_offset(i)) <= usize::MAX
        &&& !(a.format.spec_integer(i) && a.format.spec_long(i))
    }
}

/// The pointer call for a slot describes that slot: its attribute index is the slot's
/// place after the first index, its component count, type and normalization are those the
/// format gives the slot, its offset is the array's offset plus the slot's, and it reads
/// integers exactly for integer slots and doubles exactly for 64-bit slots.
pub proof fn lemma_attrib_pointer_describes_slot<F: AttribFormat>(a: AttribArrayView<F>, index: GLuint, i: usize)
    requires
        attrib_pointers_ok(a, index),
        i < F::spec_attrib_count(),
    ensures
        spec_attrib_pointer(a, index, i).index == index + i,
        spec_attrib_pointer(a, index, i).size == a.format.spec_size(i),
        spec_attrib_pointer(a, index, i).ty == a.format.spec_ty(i),
        spec_attrib_pointer(a, index, i).normalized == a.format.spec_normalized(i),
        spec_attrib_pointer(a, index, i).stride == a.stride,
        spec_attrib_pointer(a, index, i).offset == a.offset + a.format.spec_offset(i),
        spec_attrib_pointer(a, index, i).kind == PointerKind::Integer <==> a.format.spec_integer(i),
        spec_attrib_pointer(a, index, i).kind == PointerKind::Long <==> a.format.spec_long(i),
{
}

/// The pointer call of a normalized integer vector reads it as normalized floating-point
/// values, and that of a plain integer vector format read as floats does not normalize.
pub proof fn lemma_normalized_vectors_point_normalized(
    a: AttribArrayView<crate::layout::VecFormat>,
    index: GLuint,
)
    requires
        attrib_pointers_ok(a, index),
    ensures
        a.format is Normalized ==> spec_attrib_pointer(a, index, 0).normalized
            && spec_attrib_pointer(a, index, 0).kind == PointerKind::Float,
        a.format is Int ==> !spec_attrib_pointer(a, index, 0).normalized,
        a.format is Float ==> !spec_attrib_pointer(a, index, 0).normalized,
{
}

impl<'a, F: AttribFormat> AttribArray<'a, F> {
    /// The pointer calls that bind this array to the attributes from `index` on, one for each
    /// slot of the format.
    pub fn attrib_pointers(&self, index: GLuint) -> (r: Vec<AttribPointer>)
        requires
            attrib_pointers_ok(self@, index),
        ensures
            r@.len() == F::spec_attrib_count(),
            forall|i: int| 0 <= i < r@.len() ==> #[trigger] r@[i] == spec_attrib_pointer(self@, index, i as usize),
            forall|i: int|
                0 <= i < r@.len() ==> {
                    &&& (#[trigger] r@[i]).index == index + i
                    &&& r@[i].size == self@.format.spec_size(i as usize)
                    &&& r@[i].ty == self@.format.spec_ty(i as usize)
                    &&& r@[i].normalized == self@.format.spec_normalized(i as usize)
                    &&& r@[i].stride == self@.stride
                    &&& r@[i].offset == self@.offset + self@.format.spec_offset(i as usize)
                    &&& (r@[i].kind == PointerKind::Integer <==> self@.format.spec_integer(i as usize))
                    &&& (r@[i].kind == PointerKind::Long <==> self@.format.spec_long(i as usize))
                },
    {
        let count = F::attrib_count();
        let mut r: Vec<AttribPointer> = Vec::new();
        let mut i: usize = 0;
        while i < count
            invariant
                count == F::spec_attrib_count(),
                attrib_pointers_ok(self@, index),
                i <= count,
                r@.len() == i,
                forall|j: int| 0 <= j < i ==> #[trigger] r@[j] == spec_attrib_pointer(self@, index, j as usize),
            decreases count - i,
        {
            assert(self@.offset + self@.format.spec_offset(i) <= usize::MAX);
            let integer = self.format.integer(i);
            let long = self.format.long(i);
            let kind = if integer {
                PointerKind::Integer
            } else if long {
                PointerKind::Long
            } else {
                PointerKind::Float
            };
            let call = AttribPointer {
                index: index + i as GLuint,
                size: self.format.size(i),
                ty: self.format.ty(i),
                normalized: self.format.normalized(i),
                stride: self.stride,
                offset: self.pointer + self.format.offset(i),
                kind,
            };
            r.push(call);
            i = i + 1;
        }
        r
    }
}

/// `p` rounded up to a multiple of `align`, the address that `align_offset` reaches.
pub open spec fn align_up(p: int, align: int) -> int {
    p + (align - p % align) % align
}

/// The offset of the attribute after one of `size` bytes at `pointer`: the end of the
/// attribute rounded up to `align`.
pub fn next_attrib_offset(pointer: usize, size: usize, align: usize) -> (r: usize)
    requires
        align > 0,
        align_up(pointer + size, align as int) <= usize::MAX,
    ensures
        r == align_up(pointer + size, align as int),
{
    let end = pointer + size;
    let pad = (align - end % align) % align;
    end + pad
}

/// Splits an array of pairs into one attribute array per member: both read with the stride
/// of the pair, the first at the start of the slice and the second after the first member.
pub fn split_pair<'a, T1: AttribData, T2: AttribData, B>(buf: Slice<'a, (T1, T2), B>) -> (r: (
    AttribArray<'a, T1::Format>,
    AttribArray<'a, T2::Format>,
))
    requires
        align_up((buf@.offset + size_of::<T1>()) as int, align_of::<T1>() as int) <= usize::MAX,
    ensures
        r.0@ == (AttribArrayView {
            id: buf@.id,
            format: T1::spec_format(),
            stride: size_of::<(T1, T2)>() as usize,
            offset: buf@.offset as usize,
        }),
        r.1@ == (AttribArrayView {
            id: buf@.id,
            format: T2::spec_format(),
            stride: size_of::<(T1, T2)>() as usize,
            offset: align_up((buf@.offset + size_of::<T1>()) as int, align_of::<T1>() as int) as usize,
        }),
{
    vstd::layout::layout_for_type_is_valid::<T1>();
    let id = buf.id();
    let stride = core::mem::size_of::<(T1, T2)>();
    let pointer = buf.offset();
    let first = AttribArray::from_raw_parts(T1::format(), id, stride, pointer);
    let pointer = next_attrib_offset(
        pointer,
        core::mem::size_of::<T1>(),
        core::mem::align_of::<T1>(),
    );
    let second = AttribArray::from_raw_parts(T2::format(), id, stride, pointer);
    (first, second)
}

/// A vertex array object whose element indices have type `E` and whose attributes are
/// described by `V`.
pub struct VertexArray<E, V> {
    id: GLuint,
    buffers: PhantomData<(E, V)>,
}

impl<E, V> VertexArray<E, V> {
    /// The vertex array named `id`.
    pub fn from_raw(id: GLuint) -> (v: Self)
        ensures
            v.spec_id() == id,
    {
        VertexArray { id, buffers: PhantomData }
    }

    pub closed spec fn spec_id(&self) -> GLuint {
        self.id
    }

    /// The name of the vertex array.
    pub fn id(&self) -> (r: GLuint)
        ensures
            r == self.spec_id(),
    {
        self.id
    }
}

/// Rounding up gives a multiple of the alignment that is no smaller and less than one
/// alignment larger.
pub proof fn lemma_align_up(p: int, align: int)
    requires
        p >= 0,
        align > 0,
    ensures
        align_up(p, align) % align == 0,
        p <= align_up(p, align) < p + align,
{
    let r = p % align;
    if r == 0 {
        assert((align - r) % align == 0) by {
            vstd::arithmetic::div_mod::lemma_mod_self_0(align);
        }
    } else {
        assert((align - r) % align == align - r) by {
            vstd::arithmetic::div_mod::lemma_small_mod((align - r) as nat, align as nat);
        }
        vstd::arithmetic::div_mod::lemma_mod_adds(p, align - r, align);
        vstd::arithmetic::div_mod::lemma_mod_self_0(align);
        vstd::arithmetic::div_mod::lemma_fundamental_div_mod(p, align);
        vstd::arithmetic::div_mod::lemma_mod_multiples_basic(p / align + 1, align);
        assert(p + (align - r) == align * (p / align + 1)) by (nonlinear_arith)
            requires
                p == align * (p / align) + r,
        ;
    }
}

} // verus!
