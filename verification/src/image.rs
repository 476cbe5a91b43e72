//! Client-side images: pixel data with three dimensions, and rectangular windows into it.

use vstd::prelude::*;
use crate::pixels::{PixelDst, PixelSrc};

verus! {

/// The number of pixels of an image with dimensions `d`.
pub open spec fn dims_product(d: [usize; 3]) -> int {
    d[0] * d[1] * d[2]
}

/// Componentwise sum of two coordinates.
pub open spec fn add3(a: [usize; 3], b: [usize; 3]) -> [usize; 3] {
    [(a[0] + b[0]) as usize, (a[1] + b[1]) as usize, (a[2] + b[2]) as usize]
}

/// Whether the componentwise sum of two coordinates fits in `usize`.
pub open spec fn add3_fits(a: [usize; 3], b: [usize; 3]) -> bool {
    &&& a[0] + b[0] <= usize::MAX
    &&& a[1] + b[1] <= usize::MAX
    &&& a[2] + b[2] <= usize::MAX
}

/// Whether the corner `a` lies within an image of dimensions `b`: no component beyond.
pub open spec fn within(a: [usize; 3], b: [usize; 3]) -> bool {
    a[0] <= b[0] && a[1] <= b[1] && a[2] <= b[2]
}

/// Whether every component of `v` is a multiple of the matching component of `block`.
pub open spec fn block_aligned(v: [usize; 3], block: [usize; 3]) -> bool {
    &&& v[0] % block[0] == 0
    &&& v[1] % block[1] == 0
    &&& v[2] % block[2] == 0
}

/// Whether no component of `block` is zero.
pub open spec fn nonzero3(block: [usize; 3]) -> bool {
    block[0] != 0 && block[1] != 0 && block[2] != 0
}

/// Errors constructing a client image.
#[derive(Clone, Copy, PartialEq, Eq, Hash, Debug)]
pub enum ImageError {
    /// The pixel count of the dimensions overflows `usize`.
    SizeOverflow([usize; 3]),
    /// The dimensions and the length of the pixel buffer disagree.
    InvalidDimensions([usize; 3], usize),
    /// The dimensions are not multiples of the block dimensions of the pixel format.
    NotBlockAligned([usize; 3], [usize; 3]),
}

/// Errors constructing a window into an image.
#[derive(Clone, Copy, PartialEq, Eq, Hash, Debug)]
pub enum SubImageError {
    /// The far corner of the window, and the dimensions of the image.
    OutOfBounds([usize; 3], [usize; 3]),
    /// A corner of the window that is not a multiple of the block dimensions.
    NotBlockAligned([usize; 3], [usize; 3]),
}

fn is_within(a: [usize; 3], b: [usize; 3]) -> (r: bool)
    ensures
        r == within(a, b),
{
    a[0] <= b[0] && a[1] <= b[1] && a[2] <= b[2]
}

fn aligned(v: [usize; 3], block: [usize; 3]) -> (r: bool)
    requires
        nonzero3(block),
    ensures
        r == block_aligned(v, block),
{
    v[0] % block[0] == 0 && v[1] % block[1] == 0 && v[2] % block[2] == 0
}

/// What `check_bounds` answers.
pub open spec fn spec_check_bounds(
    offset: [usize; 3],
    dim: [usize; 3],
    img_dim: [usize; 3],
    block: [usize; 3],
) -> Result<(), SubImageError> {
    let corner = add3(offset, dim);
    if within(corner, img_dim) {
        if block_aligned(offset, block) {
            if block_aligned(corner, block) {
                Ok(())
            } else {
                Err(SubImageError::NotBlockAligned(corner, block))
            }
        } else {
            Err(SubImageError::NotBlockAligned(offset, block))
        }
    } else {
        Err(SubImageError::OutOfBounds(corner, img_dim))
    }
}

/// The inputs on which `check_bounds` completes: the far corner fits in `usize`, and the
/// block dimensions are not zero wherever they divide.
pub open spec fn check_bounds_ok(
    offset: [usize; 3],
    dim: [usize; 3],
    img_dim: [usize; 3],
    block: [usize; 3],
) -> bool {
    &&& add3_fits(offset, dim)
    &&& within(add3(offset, dim), img_dim) ==> nonzero3(block)
}

/// Checks that the window of dimensions `dim` at `offset` fits an image of dimensions
/// `img_dim` (its far corner lies within the image), and that both of its corners are
/// multiples of the block dimensions.
pub fn check_bounds(
    offset: [usize; 3],
    dim: [usize; 3],
    img_dim: [usize; 3],
    block: [usize; 3],
) -> (r: Result<(), SubImageError>)
    requires
        check_bounds_ok(offset, dim, img_dim, block),
    ensures
        r == spec_check_bounds(offset, dim, img_dim, block),
{
    let corner = [offset[0] + dim[0], offset[1] + dim[1], offset[2] + dim[2]];
    assert(corner@ =~= add3(offset, dim)@);
    if is_within(corner, img_dim) {
        if aligned(offset, block) {
            if aligned(corner, block) {
                Ok(())
            } else {
                Err(SubImageError::NotBlockAligned(corner, block))
            }
        } else {
            Err(SubImageError::NotBlockAligned(offset, block))
        }
    } else {
        Err(SubImageError::OutOfBounds(corner, img_dim))
    }
}

/// Checks that a pixel buffer still holds exactly the pixels of an image of dimensions `dim`.
///
/// The product is taken in order, so the product of the first two dimensions fits as well.
pub fn check_buffer_size(dim: [usize; 3], len: usize)
    requires
        dim[0] * dim[1] <= usize::MAX,
        dims_product(dim) == len,
{
    let xy = dim[0] * dim[1];
    let req_len = xy * dim[2];
    assert(req_len == len);
}

/// What an image source presents: the offset of its window in the base image, the
/// dimensions of the base image, and the block dimensions of its pixel format.
#[derive(Clone, Copy, PartialEq, Eq, Hash, Debug)]
pub struct ImageDims {
    pub offset: [usize; 3],
    pub dim: [usize; 3],
    pub block_dim: [usize; 3],
}

/// Anything that presents a window of client pixels.
pub trait ImageSrc {
    /// The window presented.
    spec fn spec_image(&self) -> ImageDims;

    /// Whether the window can be presented: the pixel storage still fits the dimensions and
    /// every enclosing window passes its bounds check.
    spec fn spec_image_ok(&self) -> bool;

    /// The window presented.
    fn image(&self) -> (r: ImageDims)
        requires
            self.spec_image_ok(),
        ensures
            r == self.spec_image(),
    ;
}

/// Image sources whose pixels a transfer can write.
pub trait ImageDst: ImageSrc {

}

/// Pixels laid out as an image of three dimensions (width, height, depth).
pub struct ClientImage<P> {
    dim: [usize; 3],
    pixels: P,
}

/// Whether `dim` describes exactly `count` pixels, the product of the first two
/// dimensions fitting in `usize`.
pub open spec fn dims_fit(dim: [usize; 3], count: nat) -> bool {
    dim[0] * dim[1] <= usize::MAX && dims_product(dim) == count
}

/// What `ClientImage::try_new` answers for dimensions `dim`, `count` pixels and a pixel
/// format with block dimensions `block`.
pub open spec fn spec_try_new(dim: [usize; 3], count: nat, block: [usize; 3]) -> Result<(), ImageError> {
    if dim[0] * dim[1] > usize::MAX || dims_product(dim) > usize::MAX {
        Err(ImageError::SizeOverflow(dim))
    } else if dims_product(dim) != count {
        Err(ImageError::InvalidDimensions(dim, count as usize))
    } else if block_aligned(dim, block) {
        Ok(())
    } else {
        Err(ImageError::NotBlockAligned(dim, block))
    }
}

impl<P> ClientImage<P> {
    /// The dimensions.
    pub closed spec fn spec_dim(&self) -> [usize; 3] {
        self.dim
    }

    /// The pixel storage.
    pub closed spec fn spec_pixels(&self) -> P {
        self.pixels
    }

    /// An image of dimensions `dim` over `pixels`, without checking that they agree.
    pub fn new_unchecked(dim: [usize; 3], pixels: P) -> (img: Self)
        ensures
            img.spec_dim() == dim,
            img.spec_pixels() == pixels,
    {
        ClientImage { dim, pixels }
    }

    pub fn dim(&self) -> (r: [usize; 3])
        ensures
            r == self.spec_dim(),
    {
        self.dim
    }

    pub fn width(&self) -> (r: usize)
        ensures
            r == self.spec_dim()[0],
    {
        self.dim[0]
    }

    pub fn height(&self) -> (r: usize)
        ensures
            r == self.spec_dim()[1],
    {
        self.dim[1]
    }

    pub fn depth(&self) -> (r: usize)
        ensures
            r == self.spec_dim()[2],
    {
        self.dim[2]
    }

    /// The same image, borrowing the pixels.
    pub fn as_ref(&self) -> (img: ClientImage<&P>)
        ensures
            img.spec_dim() == self.spec_dim(),
            *img.spec_pixels() == self.spec_pixels(),
    {
        ClientImage { dim: self.dim, pixels: &self.pixels }
    }

    /// The same image, borrowing the pixels mutably.
    pub fn as_mut(&mut self) -> (img: ClientImage<&mut P>)
        ensures
            img.spec_dim() == old(self).spec_dim(),
            *img.spec_pixels() == old(self).spec_pixels(),
            final(self).spec_dim() == old(self).spec_dim(),
            final(self).spec_pixels() == *final(img.spec_pixels()),
    {
        ClientImage { dim: self.dim, pixels: &mut self.pixels }
    }
}

impl<P: PixelSrc> ClientImage<P> {
    /// The block dimensions of the pixel format.
    pub fn block_dim(&self) -> (r: [usize; 3])
        ensures
            r == P::spec_block_dim(),
    {
        let r = [P::block_width(), P::block_height(), P::block_depth()];
        assert(r@ =~= P::spec_block_dim()@);
        r
    }

    pub fn block_width(&self) -> (r: usize)
        ensures
            r == P::spec_block_dim()[0],
    {
        P::block_width()
    }

    pub fn block_height(&self) -> (r: usize)
        ensures
            r == P::spec_block_dim()[1],
    {
        P::block_height()
    }

    pub fn block_depth(&self) -> (r: usize)
        ensures
            r == P::spec_block_dim()[2],
    {
        P::block_depth()
    }

    /// The size in bytes of one block of the pixel format.
    pub fn block_size(&self) -> (r: usize)
        ensures
            r == P::spec_block_size(),
    {
        P::block_size()
    }

    /// An image of dimensions `dim` over `pixels`.
    ///
    /// Fails with `SizeOverflow` when the pixel count of `dim` overflows, with
    /// `InvalidDimensions` when `pixels` holds another number of pixels, and with
    /// `NotBlockAligned` when a dimension is not a multiple of the block dimensions.
    pub fn try_new(dim: [usize; 3], pixels: P) -> (r: Result<Self, ImageError>)
        ensures
            match spec_try_new(dim, pixels.spec_pixel_count(), P::spec_block_dim()) {
                Ok(()) => r matches Ok(img) && img.spec_dim() == dim && img.spec_pixels() == pixels,
                Err(e) => r matches Err(e2) && e2 == e,
            },
    {
        proof {
            P::lemma_block_dim_nonzero();
        }
        let len = pixels.pixels().len();
        let xy = dim[0].checked_mul(dim[1]);
        let count = match xy {
            Some(m) => m.checked_mul(dim[2]),
            None => None,
        };
        proof {
            if xy is Some {
                assert(dims_product(dim) == xy.unwrap() * dim[2]);
            }
        }
        match count {
            Some(n) => {
                if n == len {
                    let block = [P::block_width(), P::block_height(), P::block_depth()];
                    assert(block =~= P::spec_block_dim());
                    if dim[0] % block[0] == 0 && dim[1] % block[1] == 0 && dim[2] % block[2] == 0 {
                        Ok(ClientImage { dim, pixels })
                    } else {
                        Err(ImageError::NotBlockAligned(dim, block))
                    }
                } else {
                    Err(ImageError::InvalidDimensions(dim, len))
                }
            },
            None => Err(ImageError::SizeOverflow(dim)),
        }
    }

    /// An image of dimensions `dim` over `pixels`, which must agree.
    pub fn new(dim: [usize; 3], pixels: P) -> (img: Self)
        requires
            spec_try_new(dim, pixels.spec_pixel_count(), P::spec_block_dim()) is Ok,
        ensures
            img.spec_dim() == dim,
            img.spec_pixels() == pixels,
    {
        match Self::try_new(dim, pixels) {
            Ok(img) => img,
            Err(_) => vstd::pervasive::unreached(),
        }
    }
}

impl<P: PixelSrc> ImageSrc for ClientImage<P> {
    open spec fn spec_image(&self) -> ImageDims {
        ImageDims { offset: [0, 0, 0], dim: self.spec_dim(), block_dim: P::spec_block_dim() }
    }

    open spec fn spec_image_ok(&self) -> bool {
        dims_fit(self.spec_dim(), self.spec_pixels().spec_pixel_count())
    }

    fn image(&self) -> (r: ImageDims) {
        let pixels = self.pixels.pixels();
        check_buffer_size(self.dim, pixels.len());
        let offset = [0usize, 0usize, 0usize];
        assert(offset =~= [0usize, 0usize, 0usize]);
        ImageDims { offset, dim: self.dim, block_dim: self.block_dim() }
    }
}

impl<P: PixelDst> ImageDst for ClientImage<P> {

}

/// A vector of pixels presents itself as an image one row high and one deep.
impl<P> ImageSrc for Vec<P> {
    open spec fn spec_image(&self) -> ImageDims {
        ImageDims { offset: [0, 0, 0], dim: [self@.len() as usize, 1, 1], block_dim: [1, 1, 1] }
    }

    open spec fn spec_image_ok(&self) -> bool {
        true
    }

    fn image(&self) -> (r: ImageDims) {
        let r = ImageDims { offset: [0, 0, 0], dim: [self.len(), 1, 1], block_dim: [1, 1, 1] };
        assert(r.offset =~= [0usize, 0usize, 0usize]);
        assert(r.dim =~= [self@.len() as usize, 1usize, 1usize]);
        assert(r.block_dim =~= [1usize, 1usize, 1usize]);
        r
    }
}

impl<P> ImageDst for Vec<P> {

}

/// A window of dimensions `dim` at `offset` into an image.
pub struct ClientSubImage<I> {
    offset: [usize; 3],
    dim: [usize; 3],
    image: I,
}

/// Whether a window of dimensions `dim` at `offset` into `img` passes the bounds check.
pub open spec fn sub_image_ok<I: ImageSrc>(offset: [usize; 3], dim: [usize; 3], img: I) -> bool {
    &&& img.spec_image_ok()
    &&& check_bounds_ok(offset, dim, img.spec_image().dim, img.spec_image().block_dim)
}

/// What `ClientSubImage::try_new` answers for a window of dimensions `dim` at `offset`
/// into `img`.
pub open spec fn spec_sub_image_check<I: ImageSrc>(offset: [usize; 3], dim: [usize; 3], img: I) -> Result<(), SubImageError> {
    spec_check_bounds(offset, dim, img.spec_image().dim, img.spec_image().block_dim)
}

impl<I> ClientSubImage<I> {
    /// The offset of the window in the image it looks into.
    pub closed spec fn spec_offset(&self) -> [usize; 3] {
        self.offset
    }

    /// The dimensions of the window.
    pub closed spec fn spec_dim(&self) -> [usize; 3] {
        self.dim
    }

    /// The image the window looks into.
    pub closed spec fn spec_inner(&self) -> I {
        self.image
    }

    /// A window of dimensions `dim` at `offset` into `image`, without a bounds check.
    pub fn new_unchecked(offset: [usize; 3], dim: [usize; 3], image: I) -> (s: Self)
        ensures
            s.spec_offset() == offset,
            s.spec_dim() == dim,
            s.spec_inner() == image,
    {
        ClientSubImage { offset, dim, image }
    }

    pub fn offset(&self) -> (r: [usize; 3])
        ensures
            r == self.spec_offset(),
    {
        self.offset
    }

    pub fn offset_x(&self) -> (r: usize)
        ensures
            r == self.spec_offset()[0],
    {
        self.offset[0]
    }

    pub fn offset_y(&self) -> (r: usize)
        ensures
            r == self.spec_offset()[1],
    {
        self.offset[1]
    }

    pub fn offset_z(&self) -> (r: usize)
        ensures
            r == self.spec_offset()[2],
    {
        self.offset[2]
    }

    pub fn dim(&self) -> (r: [usize; 3])
        ensures
            r == self.spec_dim(),
    {
        self.dim
    }

    pub fn width(&self) -> (r: usize)
        ensures
            r == self.spec_dim()[0],
    {
        self.dim[0]
    }

    pub fn height(&self) -> (r: usize)
        ensures
            r == self.spec_dim()[1],
    {
        self.dim[1]
    }

    pub fn depth(&self) -> (r: usize)
        ensures
            r == self.spec_dim()[2],
    {
        self.dim[2]
    }
}

impl<I: ImageSrc> ClientSubImage<I> {
    /// A window of dimensions `dim` at `offset` into `img`, or the error of the bounds check.
    pub fn try_new(offset: [usize; 3], dim: [usize; 3], img: I) -> (r: Result<Self, SubImageError>)
        requires
            sub_image_ok(offset, dim, img),
        ensures
            match spec_sub_image_check(offset, dim, img) {
                Ok(()) => r matches Ok(s) && s.spec_offset() == offset && s.spec_dim() == dim
                    && s.spec_inner() == img,
                Err(e) => r matches Err(e2) && e2 == e,
            },
    {
        let base = img.image();
        match check_bounds(offset, dim, base.dim, base.block_dim) {
            Ok(()) => Ok(ClientSubImage { offset, dim, image: img }),
            Err(e) => Err(e),
        }
    }

    /// A window of dimensions `dim` at `offset` into `img`, which must pass the bounds check.
    pub fn new(offset: [usize; 3], dim: [usize; 3], img: I) -> (s: Self)
        requires
            sub_image_ok(offset, dim, img),
            spec_sub_image_check(offset, dim, img) is Ok,
        ensures
            s.spec_offset() == offset,
            s.spec_dim() == dim,
            s.spec_inner() == img,
    {
        match Self::try_new(offset, dim, img) {
            Ok(s) => s,
            Err(_) => vstd::pervasive::unreached(),
        }
    }

    /// The dimensions of the base image.
    pub fn base_dim(&self) -> (r: [usize; 3])
        requires
            self.spec_inner().spec_image_ok(),
        ensures
            r == self.spec_inner().spec_image().dim,
    {
        self.image.image().dim
    }

    pub fn base_width(&self) -> (r: usize)
        requires
            self.spec_inner().spec_image_ok(),
        ensures
            r == self.spec_inner().spec_image().dim[0],
    {
        self.base_dim()[0]
    }

    pub fn base_height(&self) -> (r: usize)
        requires
            self.spec_inner().spec_image_ok(),
        ensures
            r == self.spec_inner().spec_image().dim[1],
    {
        self.base_dim()[1]
    }

    pub fn base_depth(&self) -> (r: usize)
        requires
            self.spec_inner().spec_image_ok(),
        ensures
            r == self.spec_inner().spec_image().dim[2],
    {
        self.base_dim()[2]
    }

    /// The block dimensions of the pixel format.
    pub fn block_dim(&self) -> (r: [usize; 3])
        requires
            self.spec_inner().spec_image_ok(),
        ensures
            r == self.spec_inner().spec_image().block_dim,
    {
        self.image.image().block_dim
    }

    pub fn block_width(&self) -> (r: usize)
        requires
            self.spec_inner().spec_image_ok(),
        ensures
            r == self.spec_inner().spec_image().block_dim[0],
    {
        self.block_dim()[0]
    }

    pub fn block_height(&self) -> (r: usize)
        requires
            self.spec_inner().spec_image_ok(),
        ensures
            r == self.spec_inner().spec_image().block_dim[1],
    {
        self.block_dim()[1]
    }

    pub fn block_depth(&self) -> (r: usize)
        requires
            self.spec_inner().spec_image_ok(),
        ensures
            r == self.spec_inner().spec_image().block_dim[2],
    {
        self.block_dim()[2]
    }
}

impl<I: ImageSrc> ImageSrc for ClientSubImage<I> {
    open spec fn spec_image(&self) -> ImageDims {
        let inner = self.spec_inner().spec_image();
        ImageDims {
            offset: add3(self.spec_offset(), inner.offset),
            dim: inner.dim,
            block_dim: inner.block_dim,
        }
    }

    open spec fn spec_image_ok(&self) -> bool {
        let inner = self.spec_inner().spec_image();
        let offset = add3(self.spec_offset(), inner.offset);
        &&& self.spec_inner().spec_image_ok()
        &&& add3_fits(self.spec_offset(), inner.offset)
        &&& check_bounds_ok(offset, self.spec_dim(), inner.dim, inner.block_dim)
        &&& spec_check_bounds(offset, self.spec_dim(), inner.dim, inner.block_dim) is Ok
    }

    fn image(&self) -> (r: ImageDims) {
        let img = self.image.image();
        let offset = [
            self.offset[0] + img.offset[0],
            self.offset[1] + img.offset[1],
            self.offset[2] + img.offset[2],
        ];
        assert(offset =~= add3(self.offset, img.offset));
        let _ = check_bounds(offset, self.dim, img.dim, img.block_dim);
        ImageDims { offset, dim: img.dim, block_dim: img.block_dim }
    }
}

impl<I: ImageDst> ImageDst for ClientSubImage<I> {

}

impl<P: PixelSrc> ClientImage<P> {
    /// The window of dimensions `dim` at `offset` into this image, or the error of the
    /// bounds check.
    pub fn try_into_sub_image(self, offset: [usize; 3], dim: [usize; 3]) -> (r: Result<
        ClientSubImage<ClientImage<P>>,
        SubImageError,
    >)
        requires
            sub_image_ok(offset, dim, self),
        ensures
            match spec_sub_image_check(offset, dim, self) {
                Ok(()) => r matches Ok(s) && s.spec_offset() == offset && s.spec_dim() == dim
                    && s.spec_inner() == self,
                Err(e) => r matches Err(e2) && e2 == e,
            },
    {
        ClientSubImage::try_new(offset, dim, self)
    }

    /// The window of dimensions `dim` at `offset` into this image, which must pass the
    /// bounds check.
    pub fn into_sub_image(self, offset: [usize; 3], dim: [usize; 3]) -> (s: ClientSubImage<ClientImage<P>>)
        requires
            sub_image_ok(offset, dim, self),
            spec_sub_image_check(offset, dim, self) is Ok,
        ensures
            s.spec_offset() == offset,
            s.spec_dim() == dim,
            s.spec_inner() == self,
    {
        ClientSubImage::new(offset, dim, self)
    }

    /// A window into this image that borrows its pixels, or the error of the bounds check.
    pub fn try_sub_image(&self, offset: [usize; 3], dim: [usize; 3]) -> (r: Result<
        ClientSubImage<ClientImage<&P>>,
        SubImageError,
    >)
        requires
            sub_image_ok(offset, dim, *self),
        ensures
            match spec_sub_image_check(offset, dim, *self) {
                Ok(()) => r matches Ok(s) && s.spec_offset() == offset && s.spec_dim() == dim
                    && s.spec_inner().spec_dim() == self.spec_dim(),
                Err(e) => r matches Err(e2) && e2 == e,
            },
    {
        ClientSubImage::try_new(offset, dim, self.as_ref())
    }

    /// A window into this image that borrows its pixels mutably, or the error of the bounds
    /// check.
    pub fn try_sub_image_mut(&mut self, offset: [usize; 3], dim: [usize; 3]) -> (r: Result<
        ClientSubImage<ClientImage<&mut P>>,
        SubImageError,
    >)
        requires
            sub_image_ok(offset, dim, *old(self)),
        ensures
            match spec_sub_image_check(offset, dim, *old(self)) {
                Ok(()) => r matches Ok(s) && s.spec_offset() == offset && s.spec_dim() == dim
                    && s.spec_inner().spec_dim() == old(self).spec_dim()
                    && *s.spec_inner().spec_pixels() == old(self).spec_pixels()
                    && final(self).spec_pixels() == *final(s.spec_inner().spec_pixels()),
                Err(e) => r matches Err(e2) && e2 == e && final(self).spec_pixels() == old(self).spec_pixels(),
            },
            final(self).spec_dim() == old(self).spec_dim(),
    {
        let base = self.image();
        match check_bounds(offset, dim, base.dim, base.block_dim) {
            Ok(()) => Ok(ClientSubImage::new_unchecked(offset, dim, self.as_mut())),
            Err(e) => Err(e),
        }
    }

    /// A window into this image that borrows its pixels; it must pass the bounds check.
    pub fn sub_image(&self, offset: [usize; 3], dim: [usize; 3]) -> (s: ClientSubImage<ClientImage<&P>>)
        requires
            sub_image_ok(offset, dim, *self),
            spec_sub_image_check(offset, dim, *self) is Ok,
        ensures
            s.spec_offset() == offset,
            s.spec_dim() == dim,
            s.spec_inner().spec_dim() == self.spec_dim(),
    {
        match self.try_sub_image(offset, dim) {
            Ok(s) => s,
            Err(_) => vstd::pervasive::unreached(),
        }
    }

    /// A window into this image that borrows its pixels mutably; it must pass the bounds
    /// check.
    pub fn sub_image_mut(&mut self, offset: [usize; 3], dim: [usize; 3]) -> (s: ClientSubImage<ClientImage<&mut P>>)
        requires
            sub_image_ok(offset, dim, *old(self)),
            spec_sub_image_check(offset, dim, *old(self)) is Ok,
        ensures
            s.spec_offset() == offset,
            s.spec_dim() == dim,
            s.spec_inner().spec_dim() == old(self).spec_dim(),
            *s.spec_inner().spec_pixels() == old(self).spec_pixels(),
            final(self).spec_dim() == old(self).spec_dim(),
            final(self).spec_pixels() == *final(s.spec_inner().spec_pixels()),
    {
        match self.try_sub_image_mut(offset, dim) {
            Ok(s) => s,
            Err(_) => vstd::pervasive::unreached(),
        }
    }
}

/// A window's image lies at the sum of its own offset and that of the image it looks into,
/// and has the base dimensions and block dimensions of that image.
pub proof fn lemma_nested_window<I: ImageSrc>(s: ClientSubImage<I>)
    ensures
        s.spec_image().offset == add3(s.spec_offset(), s.spec_inner().spec_image().offset),
        s.spec_image().dim == s.spec_inner().spec_image().dim,
        s.spec_image().block_dim == s.spec_inner().spec_image().block_dim,
{
}

/// An image that `try_new` accepts can always be presented: its dimensions describe
/// exactly the pixels it holds.
pub proof fn lemma_try_new_presentable(dim: [usize; 3], count: nat, block: [usize; 3])
    requires
        spec_try_new(dim, count, block) is Ok,
    ensures
        dims_fit(dim, count),
{
}

/// Whether pixel `p` lies in an image of dimensions `dim`.
pub open spec fn in_box(p: [usize; 3], dim: [usize; 3]) -> bool {
    p[0] < dim[0] && p[1] < dim[1] && p[2] < dim[2]
}

/// A window that passes the bounds check lies within the image, every pixel of it being a
/// pixel of the image, and both of its corners are multiples of the block dimensions.
pub proof fn lemma_window_inside(offset: [usize; 3], dim: [usize; 3], img_dim: [usize; 3], block: [usize; 3])
    requires
        check_bounds_ok(offset, dim, img_dim, block),
        spec_check_bounds(offset, dim, img_dim, block) is Ok,
    ensures
        forall|p: [usize; 3]| #[trigger] in_box(p, dim) ==> in_box(add3(offset, p), img_dim),
        block_aligned(offset, block),
        block_aligned(add3(offset, dim), block),
{
}

} // verus!
