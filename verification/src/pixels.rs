//! Pixel data that a pixel transfer reads from or writes to: client memory or a buffer.

use vstd::prelude::*;
use vstd::layout::spec_size_of_val;
use crate::buffer::{bytes_of, downgrades_to, BufferStorage, ReadOnly, Slice, SliceMut};

verus! {

/// Pixels read by a transfer: either client memory or a range of a buffer.
pub enum GLRef<'a, P, A> {
    Ref(&'a [P]),
    Buf(Slice<'a, P, A>),
}

impl<'a, P, A> Clone for GLRef<'a, P, A> {
    fn clone(&self) -> (r: Self)
        ensures
            r == *self,
    {
        match self {
            GLRef::Ref(s) => GLRef::Ref(*s),
            GLRef::Buf(b) => GLRef::Buf(b.clone()),
        }
    }
}

impl<'a, P, A> Copy for GLRef<'a, P, A> {

}

impl<'a, P, A> GLRef<'a, P, A> {
    /// The number of pixels.
    pub open spec fn spec_len(&self) -> nat {
        match self {
            GLRef::Ref(s) => s@.len(),
            GLRef::Buf(b) => b@.len,
        }
    }

    /// The size of the pixels in bytes.
    pub open spec fn spec_size(&self) -> nat {
        match self {
            GLRef::Ref(s) => spec_size_of_val::<[P]>(s),
            GLRef::Buf(b) => bytes_of::<P>(b@.len),
        }
    }

    pub fn len(&self) -> (n: usize)
        ensures
            n == self.spec_len(),
    {
        match self {
            GLRef::Ref(s) => s.len(),
            GLRef::Buf(b) => b.len(),
        }
    }

    pub fn is_empty(&self) -> (r: bool)
        ensures
            r == (self.spec_len() == 0),
    {
        self.len() == 0
    }

    pub fn size(&self) -> (n: usize)
        ensures
            n == self.spec_size(),
    {
        match self {
            GLRef::Ref(s) => core::mem::size_of_val(*s),
            GLRef::Buf(b) => b.size(),
        }
    }
}

/// Pixels written by a transfer: either client memory or a range of a buffer.
pub enum GLMut<'a, P, A> {
    Mut(&'a mut [P]),
    Buf(SliceMut<'a, P, A>),
}

impl<'a, P, A> GLMut<'a, P, A> {
    /// The number of pixels.
    pub open spec fn spec_len(&self) -> nat {
        match self {
            GLMut::Mut(s) => s@.len(),
            GLMut::Buf(b) => b@.len,
        }
    }

    /// The size of the pixels in bytes.
    pub open spec fn spec_size(&self) -> nat {
        match self {
            GLMut::Mut(s) => spec_size_of_val::<[P]>(&**s),
            GLMut::Buf(b) => bytes_of::<P>(b@.len),
        }
    }

    pub fn len(&self) -> (n: usize)
        ensures
            n == self.spec_len(),
    {
        match self {
            GLMut::Mut(s) => s.len(),
            GLMut::Buf(b) => b.len(),
        }
    }

    pub fn is_empty(&self) -> (r: bool)
        ensures
            r == (self.spec_len() == 0),
    {
        self.len() == 0
    }

    pub fn size(&self) -> (n: usize)
        ensures
            n == self.spec_size(),
    {
        match self {
            GLMut::Mut(s) => core::mem::size_of_val(&**s),
            GLMut::Buf(b) => b.size(),
        }
    }
}

/// Every access type can be read through as `ReadOnly`.
proof fn lemma_downgrades_to_read_only<A: BufferStorage>()
    ensures
        downgrades_to::<A, ReadOnly>(),
{
}

/// A source of pixels for a transfer out of client memory or a buffer.
pub struct Pixels<'a, P> {
    pixels: GLRef<'a, P, ReadOnly>,
}

impl<'a, P> Pixels<'a, P> {
    /// Where the pixels are.
    pub closed spec fn source(&self) -> GLRef<'a, P, ReadOnly> {
        self.pixels
    }

    /// The number of pixels.
    pub open spec fn spec_len(&self) -> nat {
        self.source().spec_len()
    }

    /// The size of the pixels in bytes.
    pub open spec fn spec_size(&self) -> nat {
        self.source().spec_size()
    }

    /// Pixels in client memory.
    pub fn from_ref(slice: &'a [P]) -> (p: Self)
        ensures
            p.source() == GLRef::<'a, P, ReadOnly>::Ref(slice),
    {
        Pixels { pixels: GLRef::Ref(slice) }
    }

    /// Pixels in a range of a buffer.
    pub fn from_buf<A: BufferStorage>(slice: Slice<'a, P, A>) -> (p: Self)
        ensures
            p.source() matches GLRef::Buf(b) && b@ == slice@,
    {
        proof {
            lemma_downgrades_to_read_only::<A>();
        }
        Pixels { pixels: GLRef::Buf(slice.downgrade()) }
    }

    /// The size of the pixels in bytes.
    pub fn size(&self) -> (n: usize)
        ensures
            n == self.spec_size(),
    {
        self.pixels.size()
    }

    /// Where the pixels are, as a copyable reference.
    pub fn borrow(&self) -> (r: GLRef<'a, P, ReadOnly>)
        ensures
            r == self.source(),
    {
        self.pixels.clone()
    }

    /// Whether there are no pixels.
    pub fn is_empty(&self) -> (r: bool)
        ensures
            r == (self.spec_len() == 0),
    {
        self.pixels.is_empty()
    }

    /// The number of pixels.
    pub fn len(&self) -> (n: usize)
        ensures
            n == self.spec_len(),
    {
        self.pixels.len()
    }
}

/// A destination of pixels for a transfer into client memory or a buffer.
pub struct PixelsMut<'a, P> {
    pixels: GLMut<'a, P, ReadOnly>,
}

impl<'a, P> PixelsMut<'a, P> {
    /// The number of pixels.
    pub closed spec fn spec_len(&self) -> nat {
        self.pixels.spec_len()
    }

    /// The size of the pixels in bytes.
    pub closed spec fn spec_size(&self) -> nat {
        self.pixels.spec_size()
    }

    /// Whether the pixels lie in a buffer.
    pub closed spec fn in_buffer(&self) -> bool {
        self.pixels is Buf
    }

    /// Where the pixels are.
    pub closed spec fn target(&self) -> GLMut<'a, P, ReadOnly> {
        self.pixels
    }

    /// Pixels in client memory.
    pub fn from_mut(slice: &'a mut [P]) -> (p: Self)
        ensures
            p.spec_len() == old(slice)@.len(),
            p.spec_size() == spec_size_of_val::<[P]>(&*old(slice)),
            !p.in_buffer(),
            p.target() matches GLMut::Mut(s) && s@ == old(slice)@ && final(s)@ == final(slice)@,
    {
        PixelsMut { pixels: GLMut::Mut(slice) }
    }

    /// Pixels in a range of a buffer.
    pub fn from_buf<A: BufferStorage>(slice: SliceMut<'a, P, A>) -> (p: Self)
        ensures
            p.spec_len() == slice@.len,
            p.spec_size() == bytes_of::<P>(slice@.len),
            p.in_buffer(),
            p.target() matches GLMut::Buf(b) && b@ == slice@,
    {
        proof {
            lemma_downgrades_to_read_only::<A>();
        }
        PixelsMut { pixels: GLMut::Buf(slice.downgrade()) }
    }

    /// The size of the pixels in bytes.
    pub fn size(&self) -> (n: usize)
        ensures
            n == self.spec_size(),
    {
        self.pixels.size()
    }

    /// A shared reference to the same pixels.
    pub fn borrow(&self) -> (r: GLRef<'_, P, ReadOnly>)
        ensures
            r.spec_len() == self.spec_len(),
            r.spec_size() == self.spec_size(),
            (r is Buf) == self.in_buffer(),
            match self.target() {
                GLMut::Mut(s) => r matches GLRef::Ref(c) && c@ == s@,
                GLMut::Buf(b) => r matches GLRef::Buf(c) && c@ == b@,
            },
    {
        match &self.pixels {
            GLMut::Mut(s) => GLRef::Ref(&**s),
            GLMut::Buf(b) => GLRef::Buf(b.as_immut()),
        }
    }

    /// A shorter-lived mutable reference to the same pixels.
    pub fn borrow_mut(&mut self) -> (r: GLMut<'_, P, ReadOnly>)
        ensures
            r.spec_len() == old(self).spec_len(),
            r.spec_size() == old(self).spec_size(),
            (r is Buf) == old(self).in_buffer(),
            match old(self).target() {
                GLMut::Mut(s) => r matches GLMut::Mut(c) && c@ == s@ && (final(self).target() matches GLMut::Mut(f)
                    && f@ == final(c)@),
                GLMut::Buf(b) => r matches GLMut::Buf(c) && c@ == b@ && (final(self).target() matches GLMut::Buf(f)
                    && f@ == b@),
            },
    {
        match &mut self.pixels {
            GLMut::Mut(s) => GLMut::Mut(&mut **s),
            GLMut::Buf(b) => GLMut::Buf(b.as_mut()),
        }
    }

    /// Whether there are no pixels.
    pub fn is_empty(&self) -> (r: bool)
        ensures
            r == (self.spec_len() == 0),
    {
        self.pixels.is_empty()
    }

    /// The number of pixels.
    pub fn len(&self) -> (n: usize)
        ensures
            n == self.spec_len(),
    {
        self.pixels.len()
    }
}

/// Anything that holds pixels which a transfer can read.
///
/// The block dimensions are those of the pixel format: one pixel for uncompressed data.
pub trait PixelSrc {
    type Pixel;

    /// The number of pixels held.
    spec fn spec_pixel_count(&self) -> nat;

    /// The width, height and depth in pixels of one block of the pixel format.
    spec fn spec_block_dim() -> [usize; 3];

    /// The size in bytes of one block of the pixel format.
    spec fn spec_block_size() -> nat;

    /// Every block is at least one pixel wide, high and deep.
    proof fn lemma_block_dim_nonzero()
        ensures
            Self::spec_block_dim()[0] >= 1,
            Self::spec_block_dim()[1] >= 1,
            Self::spec_block_dim()[2] >= 1,
    ;

    /// The pixels, as a transfer source.
    fn pixels(&self) -> (p: Pixels<'_, Self::Pixel>)
        ensures
            p.spec_len() == self.spec_pixel_count(),
    ;

    fn block_width() -> (n: usize)
        ensures
            n == Self::spec_block_dim()[0],
    ;

    fn block_height() -> (n: usize)
        ensures
            n == Self::spec_block_dim()[1],
    ;

    fn block_depth() -> (n: usize)
        ensures
            n == Self::spec_block_dim()[2],
    ;

    fn block_size() -> (n: usize)
        ensures
            n == Self::spec_block_size(),
    ;
}

/// Anything that holds pixels which a transfer can write.
pub trait PixelDst: PixelSrc {
    /// The pixels, as a transfer destination.
    fn pixels_mut(&mut self) -> (p: PixelsMut<'_, Self::Pixel>)
        ensures
            p.spec_len() == old(self).spec_pixel_count(),
    ;
}

impl<P> PixelSrc for Vec<P> {
    type Pixel = P;

    proof fn lemma_block_dim_nonzero() {
    }

    open spec fn spec_pixel_count(&self) -> nat {
        self@.len()
    }

    open spec fn spec_block_dim() -> [usize; 3] {
        [1, 1, 1]
    }

    open spec fn spec_block_size() -> nat {
        vstd::layout::size_of::<P>()
    }

    fn pixels(&self) -> (p: Pixels<'_, P>) {
        Pixels::from_ref(self.as_slice())
    }

    fn block_width() -> (n: usize) {
        1
    }

    fn block_height() -> (n: usize) {
        1
    }

    fn block_depth() -> (n: usize) {
        1
    }

    fn block_size() -> (n: usize) {
        core::mem::size_of::<P>()
    }
}

impl<'a, P> PixelSrc for Pixels<'a, P> {
    type Pixel = P;

    proof fn lemma_block_dim_nonzero() {
    }

    open spec fn spec_pixel_count(&self) -> nat {
        self.spec_len()
    }

    open spec fn spec_block_dim() -> [usize; 3] {
        [1, 1, 1]
    }

    open spec fn spec_block_size() -> nat {
        vstd::layout::size_of::<P>()
    }

    fn pixels(&self) -> (p: Pixels<'_, P>) {
        Pixels { pixels: self.borrow() }
    }

    fn block_width() -> (n: usize) {
        1
    }

    fn block_height() -> (n: usize) {
        1
    }

    fn block_depth() -> (n: usize) {
        1
    }

    fn block_size() -> (n: usize) {
        core::mem::size_of::<P>()
    }
}

impl<'a, P> PixelSrc for PixelsMut<'a, P> {
    type Pixel = P;

    proof fn lemma_block_dim_nonzero() {
    }

    open spec fn spec_pixel_count(&self) -> nat {
        self.spec_len()
    }

    open spec fn spec_block_dim() -> [usize; 3] {
        [1, 1, 1]
    }

    open spec fn spec_block_size() -> nat {
        vstd::layout::size_of::<P>()
    }

    fn pixels(&self) -> (p: Pixels<'_, P>) {
        Pixels { pixels: self.borrow() }
    }

    fn block_width() -> (n: usize) {
        1
    }

    fn block_height() -> (n: usize) {
        1
    }

    fn block_depth() -> (n: usize) {
        1
    }

    fn block_size() -> (n: usize) {
        core::mem::size_of::<P>()
    }
}

impl<'a, P> PixelDst for PixelsMut<'a, P> {
    fn pixels_mut(&mut self) -> (p: PixelsMut<'_, P>) {
        PixelsMut { pixels: self.borrow_mut() }
    }
}

impl<P> PixelDst for Vec<P> {
    fn pixels_mut(&mut self) -> (p: PixelsMut<'_, P>) {
        PixelsMut::from_mut(self.as_mut_slice())
    }
}

impl<'b, T: PixelSrc> PixelSrc for &'b T {
    type Pixel = T::Pixel;

    proof fn lemma_block_dim_nonzero() {
        T::lemma_block_dim_nonzero();
    }

    open spec fn spec_pixel_count(&self) -> nat {
        (**self).spec_pixel_count()
    }

    open spec fn spec_block_dim() -> [usize; 3] {
        T::spec_block_dim()
    }

    open spec fn spec_block_size() -> nat {
        T::spec_block_size()
    }

    fn pixels(&self) -> (p: Pixels<'_, T::Pixel>) {
        (**self).pixels()
    }

    fn block_width() -> (n: usize) {
        T::block_width()
    }

    fn block_height() -> (n: usize) {
        T::block_height()
    }

    fn block_depth() -> (n: usize) {
        T::block_depth()
    }

    fn block_size() -> (n: usize) {
        T::block_size()
    }
}

impl<'b, T: PixelSrc> PixelSrc for &'b mut T {
    type Pixel = T::Pixel;

    proof fn lemma_block_dim_nonzero() {
        T::lemma_block_dim_nonzero();
    }

    open spec fn spec_pixel_count(&self) -> nat {
        (**self).spec_pixel_count()
    }

    open spec fn spec_block_dim() -> [usize; 3] {
        T::spec_block_dim()
    }

    open spec fn spec_block_size() -> nat {
        T::spec_block_size()
    }

    fn pixels(&self) -> (p: Pixels<'_, T::Pixel>) {
        (**self).pixels()
    }

    fn block_width() -> (n: usize) {
        T::block_width()
    }

    fn block_height() -> (n: usize) {
        T::block_height()
    }

    fn block_depth() -> (n: usize) {
        T::block_depth()
    }

    fn block_size() -> (n: usize) {
        T::block_size()
    }
}

impl<'a, P, A: BufferStorage> PixelSrc for GLRef<'a, P, A> {
    type Pixel = P;

    proof fn lemma_block_dim_nonzero() {
    }

    open spec fn spec_pixel_count(&self) -> nat {
        self.spec_len()
    }

    open spec fn spec_block_dim() -> [usize; 3] {
        [1, 1, 1]
    }

    open spec fn spec_block_size() -> nat {
        vstd::layout::size_of::<P>()
    }

    fn pixels(&self) -> (p: Pixels<'_, P>) {
        match self {
            GLRef::Ref(s) => Pixels::from_ref(*s),
            GLRef::Buf(b) => Pixels::from_buf(b.clone()),
        }
    }

    fn block_width() -> (n: usize) {
        1
    }

    fn block_height() -> (n: usize) {
        1
    }

    fn block_depth() -> (n: usize) {
        1
    }

    fn block_size() -> (n: usize) {
        core::mem::size_of::<P>()
    }
}

impl<'a, P, A: BufferStorage> PixelSrc for GLMut<'a, P, A> {
    type Pixel = P;

    proof fn lemma_block_dim_nonzero() {
    }

    open spec fn spec_pixel_count(&self) -> nat {
        self.spec_len()
    }

    open spec fn spec_block_dim() -> [usize; 3] {
        [1, 1, 1]
    }

    open spec fn spec_block_size() -> nat {
        vstd::layout::size_of::<P>()
    }

    fn pixels(&self) -> (p: Pixels<'_, P>) {
        match self {
            GLMut::Mut(s) => Pixels::from_ref(&**s),
            GLMut::Buf(b) => Pixels::from_buf(b.as_immut()),
        }
    }

    fn block_width() -> (n: usize) {
        1
    }

    fn block_height() -> (n: usize) {
        1
    }

    fn block_depth() -> (n: usize) {
        1
    }

    fn block_size() -> (n: usize) {
        core::mem::size_of::<P>()
    }
}

impl<'a, P, A: BufferStorage> PixelDst for GLMut<'a, P, A> {
    fn pixels_mut(&mut self) -> (p: PixelsMut<'_, P>) {
        match self {
            GLMut::Mut(s) => PixelsMut::from_mut(&mut **s),
            GLMut::Buf(b) => PixelsMut::from_buf(b.as_mut()),
        }
    }
}

} // verus!
