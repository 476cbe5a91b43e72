//! Pixel-store settings: how client pixel data is laid out, and the row alignment.

use vstd::prelude::*;
use crate::glenum::{
    GLenum, GLint, PACK_ALIGNMENT, PACK_IMAGE_HEIGHT, PACK_LSB_FIRST, PACK_ROW_LENGTH,
    PACK_SKIP_IMAGES, PACK_SKIP_PIXELS, PACK_SKIP_ROWS, PACK_SWAP_BYTES, UNPACK_ALIGNMENT,
    UNPACK_IMAGE_HEIGHT, UNPACK_LSB_FIRST, UNPACK_ROW_LENGTH, UNPACK_SKIP_IMAGES,
    UNPACK_SKIP_PIXELS, UNPACK_SKIP_ROWS, UNPACK_SWAP_BYTES,
};

verus! {

/// A row alignment that the GL does not accept.
#[derive(Copy, Clone, PartialEq, Eq, Structural, Hash, Debug)]
pub struct InvalidPixelRowAlignment(pub u8);

/// The alignment, in bytes, of the start of each pixel row: 1, 2, 4 or 8.
#[derive(Copy, Clone, PartialEq, Eq, Structural, Hash, Debug)]
pub struct PixelRowAlignment(u8);

/// The row alignments that the GL accepts.
pub open spec fn valid_row_alignment(a: u8) -> bool {
    a == 1 || a == 2 || a == 4 || a == 8
}

impl PixelRowAlignment {
    #[verifier::type_invariant]
    closed spec fn inv(&self) -> bool {
        valid_row_alignment(self.0)
    }

    /// The alignment in bytes.
    pub closed spec fn value(&self) -> u8 {
        self.0
    }

    /// Rows aligned to single bytes.
    pub fn align_1() -> (p: PixelRowAlignment)
        ensures
            p.value() == 1,
    {
        PixelRowAlignment(1)
    }

    /// Rows aligned to 2 bytes.
    pub fn align_2() -> (p: PixelRowAlignment)
        ensures
            p.value() == 2,
    {
        PixelRowAlignment(2)
    }

    /// Rows aligned to 4 bytes, the GL's initial setting.
    pub fn align_4() -> (p: PixelRowAlignment)
        ensures
            p.value() == 4,
    {
        PixelRowAlignment(4)
    }

    /// Rows aligned to 8 bytes.
    pub fn align_8() -> (p: PixelRowAlignment)
        ensures
            p.value() == 8,
    {
        PixelRowAlignment(8)
    }

    /// The alignment of `a` bytes, or `InvalidPixelRowAlignment(a)` unless `a` is 1, 2, 4 or 8.
    pub fn try_from(a: u8) -> (r: Result<PixelRowAlignment, InvalidPixelRowAlignment>)
        ensures
            r == spec_try_from(a),
            valid_row_alignment(a) ==> (r matches Ok(p) && p.value() == a),
            !valid_row_alignment(a) ==> r == Err::<PixelRowAlignment, InvalidPixelRowAlignment>(
                InvalidPixelRowAlignment(a),
            ),
    {
        if a == 1 || a == 2 || a == 4 || a == 8 {
            Ok(PixelRowAlignment(a))
        } else {
            Err(InvalidPixelRowAlignment(a))
        }
    }

    /// The alignment in bytes.
    pub fn into_u8(self) -> (a: u8)
        ensures
            spec_try_from(a) == Ok::<PixelRowAlignment, InvalidPixelRowAlignment>(self),
            a == self.value(),
            valid_row_alignment(a),
    {
        proof {
            use_type_invariant(&self);
        }
        self.0
    }

    /// The row alignment of tightly packed pixels of type `T`: the alignment of `T`, but at
    /// most 8.
    pub fn of_pixels<T>() -> (p: PixelRowAlignment)
        ensures
            p.value() == (if vstd::layout::align_of::<T>() < 8 { vstd::layout::align_of::<T>() } else { 8 }),
    {
        broadcast use vstd::layout::align_properties;

        let a = core::mem::align_of::<T>();
        if a < 8 {
            proof {
                lemma_small_pow2(a as int);
            }
            PixelRowAlignment(a as u8)
        } else {
            PixelRowAlignment(8)
        }
    }
}

/// The powers of two below 8 are 1, 2 and 4.
proof fn lemma_small_pow2(a: int)
    requires
        vstd::arithmetic::power2::is_pow2(a),
        a < 8,
    ensures
        a == 1 || a == 2 || a == 4,
{
    reveal_with_fuel(vstd::arithmetic::power2::is_pow2, 4);
}

/// How client pixel data is laid out: the pixel-store settings of a transfer.
#[derive(Copy, Clone, PartialEq, Eq, Structural, Hash, Debug)]
pub struct PixelStore {
    pub swap_bytes: bool,
    pub lsb_first: bool,
    pub alignment: PixelRowAlignment,
    pub row_length: usize,
    pub image_height: usize,
    pub skip_pixels: usize,
    pub skip_rows: usize,
    pub skip_images: usize,
}

/// A setting as the integer a pixel-store call takes.
pub open spec fn flag_param(b: bool) -> GLint {
    if b { 1 } else { 0 }
}

/// The eight pixel-store calls for `s`, with the parameter names `names` in the order swap
/// bytes, LSB first, alignment, row length, image height, skip pixels, skip rows, skip images;
/// sizes are taken to their low 32 bits.
pub open spec fn store_params(s: PixelStore, names: Seq<GLenum>) -> Seq<(GLenum, GLint)> {
    seq![
        (names[0], flag_param(s.swap_bytes)),
        (names[1], flag_param(s.lsb_first)),
        (names[2], s.alignment.value() as GLint),
        (names[3], s.row_length as GLint),
        (names[4], s.image_height as GLint),
        (names[5], s.skip_pixels as GLint),
        (names[6], s.skip_rows as GLint),
        (names[7], s.skip_images as GLint),
    ]
}

/// The parameter names of the settings for reading pixels back from the GL.
pub open spec fn pack_names() -> Seq<GLenum> {
    seq![PACK_SWAP_BYTES, PACK_LSB_FIRST, PACK_ALIGNMENT, PACK_ROW_LENGTH, PACK_IMAGE_HEIGHT,
        PACK_SKIP_PIXELS, PACK_SKIP_ROWS, PACK_SKIP_IMAGES]
}

/// The parameter names of the settings for sending pixels to the GL.
pub open spec fn unpack_names() -> Seq<GLenum> {
    seq![UNPACK_SWAP_BYTES, UNPACK_LSB_FIRST, UNPACK_ALIGNMENT, UNPACK_ROW_LENGTH,
        UNPACK_IMAGE_HEIGHT, UNPACK_SKIP_PIXELS, UNPACK_SKIP_ROWS, UNPACK_SKIP_IMAGES]
}

fn flag(b: bool) -> (r: GLint)
    ensures
        r == flag_param(b),
{
    if b { 1 } else { 0 }
}

impl PixelStore {
    /// The settings of pixels that say nothing of their layout: no byte swapping, rows
    /// aligned to 4 bytes, and nothing skipped.
    pub fn new() -> (s: PixelStore)
        ensures
            !s.swap_bytes && !s.lsb_first,
            s.alignment.value() == 4,
            s.row_length == 0 && s.image_height == 0,
            s.skip_pixels == 0 && s.skip_rows == 0 && s.skip_images == 0,
    {
        PixelStore {
            swap_bytes: false,
            lsb_first: false,
            alignment: PixelRowAlignment::align_4(),
            row_length: 0,
            image_height: 0,
            skip_pixels: 0,
            skip_rows: 0,
            skip_images: 0,
        }
    }

    /// The settings of a tightly packed slice of pixels of type `T`, with the byte order
    /// that the pixel type asks for.
    pub fn of_slice<T>(swap_bytes: bool, lsb_first: bool) -> (s: PixelStore)
        ensures
            s.swap_bytes == swap_bytes && s.lsb_first == lsb_first,
            s.alignment.value() == (if vstd::layout::align_of::<T>() < 8 { vstd::layout::align_of::<T>() } else { 8 }),
            s.row_length == 0 && s.image_height == 0,
            s.skip_pixels == 0 && s.skip_rows == 0 && s.skip_images == 0,
    {
        PixelStore {
            swap_bytes,
            lsb_first,
            alignment: PixelRowAlignment::of_pixels::<T>(),
            row_length: 0,
            image_height: 0,
            skip_pixels: 0,
            skip_rows: 0,
            skip_images: 0,
        }
    }

    fn params(&self, names: [GLenum; 8]) -> (r: [(GLenum, GLint); 8])
        ensures
            r@ == store_params(*self, names@),
    {
        let r = [
            (names[0], flag(self.swap_bytes)),
            (names[1], flag(self.lsb_first)),
            (names[2], self.alignment.into_u8() as GLint),
            (names[3], self.row_length as GLint),
            (names[4], self.image_height as GLint),
            (names[5], self.skip_pixels as GLint),
            (names[6], self.skip_rows as GLint),
            (names[7], self.skip_images as GLint),
        ];
        assert(r@ =~= store_params(*self, names@));
        r
    }

    /// The pixel-store calls that set these settings for reading pixels back from the GL.
    pub fn pack_params(&self) -> (r: [(GLenum, GLint); 8])
        ensures
            r@ == store_params(*self, pack_names()),
            r@[0] == (PACK_SWAP_BYTES, (if self.swap_bytes { 1i32 } else { 0i32 })),
            r@[1] == (PACK_LSB_FIRST, (if self.lsb_first { 1i32 } else { 0i32 })),
            r@[2] == (PACK_ALIGNMENT, self.alignment.value() as GLint),
            r@[3] == (PACK_ROW_LENGTH, self.row_length as GLint),
            r@[4] == (PACK_IMAGE_HEIGHT, self.image_height as GLint),
            r@[5] == (PACK_SKIP_PIXELS, self.skip_pixels as GLint),
            r@[6] == (PACK_SKIP_ROWS, self.skip_rows as GLint),
            r@[7] == (PACK_SKIP_IMAGES, self.skip_images as GLint),
    {
        let names = [PACK_SWAP_BYTES, PACK_LSB_FIRST, PACK_ALIGNMENT, PACK_ROW_LENGTH,
            PACK_IMAGE_HEIGHT, PACK_SKIP_PIXELS, PACK_SKIP_ROWS, PACK_SKIP_IMAGES];
        assert(names@ =~= pack_names());
        self.params(names)
    }

    /// The pixel-store calls that set these settings for sending pixels to the GL.
    pub fn unpack_params(&self) -> (r: [(GLenum, GLint); 8])
        ensures
            r@ == store_params(*self, unpack_names()),
            r@[0] == (UNPACK_SWAP_BYTES, (if self.swap_bytes { 1i32 } else { 0i32 })),
            r@[1] == (UNPACK_LSB_FIRST, (if self.lsb_first { 1i32 } else { 0i32 })),
            r@[2] == (UNPACK_ALIGNMENT, self.alignment.value() as GLint),
            r@[3] == (UNPACK_ROW_LENGTH, self.row_length as GLint),
            r@[4] == (UNPACK_IMAGE_HEIGHT, self.image_height as GLint),
            r@[5] == (UNPACK_SKIP_PIXELS, self.skip_pixels as GLint),
            r@[6] == (UNPACK_SKIP_ROWS, self.skip_rows as GLint),
            r@[7] == (UNPACK_SKIP_IMAGES, self.skip_images as GLint),
    {
        let names = [UNPACK_SWAP_BYTES, UNPACK_LSB_FIRST, UNPACK_ALIGNMENT, UNPACK_ROW_LENGTH,
            UNPACK_IMAGE_HEIGHT, UNPACK_SKIP_PIXELS, UNPACK_SKIP_ROWS, UNPACK_SKIP_IMAGES];
        assert(names@ =~= unpack_names());
        self.params(names)
    }
}

/// What `PixelRowAlignment::try_from` answers for `a`.
pub closed spec fn spec_try_from(a: u8) -> Result<PixelRowAlignment, InvalidPixelRowAlignment> {
    if valid_row_alignment(a) {
        Ok(PixelRowAlignment(a))
    } else {
        Err(InvalidPixelRowAlignment(a))
    }
}

/// Turning an alignment into bytes and back gives the same alignment.
pub proof fn lemma_alignment_roundtrip(p: PixelRowAlignment)
    requires
        valid_row_alignment(p.value()),
    ensures
        spec_try_from(p.value()) == Ok::<PixelRowAlignment, InvalidPixelRowAlignment>(p),
{
}

/// Each pixel-store call for reading pixels back sets the parameter named after a setting to
/// that setting: the flags as 1 or 0, the alignment in bytes, and each size.
pub proof fn lemma_pack_params_by_name(s: PixelStore)
    ensures
        store_params(s, pack_names()).len() == 8,
        store_params(s, pack_names())[0] == (PACK_SWAP_BYTES, (if s.swap_bytes { 1i32 } else { 0i32 })),
        store_params(s, pack_names())[1] == (PACK_LSB_FIRST, (if s.lsb_first { 1i32 } else { 0i32 })),
        store_params(s, pack_names())[2] == (PACK_ALIGNMENT, s.alignment.value() as GLint),
        store_params(s, pack_names())[3] == (PACK_ROW_LENGTH, s.row_length as GLint),
        store_params(s, pack_names())[4] == (PACK_IMAGE_HEIGHT, s.image_height as GLint),
        store_params(s, pack_names())[5] == (PACK_SKIP_PIXELS, s.skip_pixels as GLint),
        store_params(s, pack_names())[6] == (PACK_SKIP_ROWS, s.skip_rows as GLint),
        store_params(s, pack_names())[7] == (PACK_SKIP_IMAGES, s.skip_images as GLint),
{
}

/// Each pixel-store call for sending pixels sets the parameter named after a setting to that
/// setting: the flags as 1 or 0, the alignment in bytes, and each size.
pub proof fn lemma_unpack_params_by_name(s: PixelStore)
    ensures
        store_params(s, unpack_names()).len() == 8,
        store_params(s, unpack_names())[0] == (UNPACK_SWAP_BYTES, (if s.swap_bytes { 1i32 } else { 0i32 })),
        store_params(s, unpack_names())[1] == (UNPACK_LSB_FIRST, (if s.lsb_first { 1i32 } else { 0i32 })),
        store_params(s, unpack_names())[2] == (UNPACK_ALIGNMENT, s.alignment.value() as GLint),
        store_params(s, unpack_names())[3] == (UNPACK_ROW_LENGTH, s.row_length as GLint),
        store_params(s, unpack_names())[4] == (UNPACK_IMAGE_HEIGHT, s.image_height as GLint),
        store_params(s, unpack_names())[5] == (UNPACK_SKIP_PIXELS, s.skip_pixels as GLint),
        store_params(s, unpack_names())[6] == (UNPACK_SKIP_ROWS, s.skip_rows as GLint),
        store_params(s, unpack_names())[7] == (UNPACK_SKIP_IMAGES, s.skip_images as GLint),
{
}

} // verus!
