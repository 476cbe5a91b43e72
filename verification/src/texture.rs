//! Texture dimensions, texture targets and cube-map faces.

use vstd::prelude::*;
use vstd::std_specs::bits::u64_leading_zeros;
use vstd::arithmetic::power2::pow2;
use crate::glenum;
use crate::glenum::{
    GLError, GLenum, GLuint, Wrapping, TEXTURE_CUBE_MAP_NEGATIVE_X, TEXTURE_CUBE_MAP_NEGATIVE_Y,
    TEXTURE_CUBE_MAP_NEGATIVE_Z, TEXTURE_CUBE_MAP_POSITIVE_X, TEXTURE_CUBE_MAP_POSITIVE_Y,
    TEXTURE_CUBE_MAP_POSITIVE_Z,
};

verus! {

/// The number of leading zero bits of `x` as a `usize`.
pub open spec fn usize_leading_zeros(x: usize) -> int {
    u64_leading_zeros(x as u64) - (64 - usize::BITS)
}

/// Computes `x.leading_zeros()` for a `usize`.
fn leading_zeros(x: usize) -> (r: u32)
    ensures
        r == usize_leading_zeros(x),
{
    let wide = x as u64;
    let lz = wide.leading_zeros();
    proof {
        vstd::std_specs::bits::axiom_u64_leading_zeros(wide);
        if usize::BITS == 32 && lz < 32 {
            let k: u64 = (63 - lz) as u64;
            assert(wide < 0x1_0000_0000);
            assert(wide < 0x1_0000_0000 && 32 <= k < 64 ==> (wide >> k) & 1u64 == 0u64) by (bit_vector);
        }
    }
    lz - (64 - usize::BITS)
}

/// The number of mipmap levels of a full chain for a largest dimension `m`: the bit length
/// of `m`, that is the number of bits less its leading zeros.
pub open spec fn spec_max_levels_of(m: usize) -> int {
    usize::BITS - usize_leading_zeros(m)
}

/// Whether `n` levels make a full mipmap chain for a largest dimension `m`: none for a size
/// of 0, else `2^(n-1) <= m < 2^n`, so that level `n - 1` is the first of size 1.
pub open spec fn levels_of_size(m: usize, n: int) -> bool {
    if m == 0 {
        n == 0
    } else {
        1 <= n && pow2((n - 1) as nat) <= m && m < pow2(n as nat)
    }
}

/// The bit length of a size is its number of full-chain mipmap levels.
pub proof fn lemma_max_levels_of(m: usize)
    ensures
        levels_of_size(m, spec_max_levels_of(m)),
{
    let wide = m as u64;
    vstd::std_specs::bits::axiom_u64_leading_zeros(wide);
    let lz = u64_leading_zeros(wide);
    if m != 0 {
        let s = (63 - lz) as u64;
        let y = wide >> s;
        assert(y & 1u64 != 0u64 ==> y >= 1) by (bit_vector);
        vstd::bits::lemma_u64_shr_is_div(wide, s);
        vstd::arithmetic::power2::lemma_pow2_pos(s as nat);
        vstd::arithmetic::div_mod::lemma_fundamental_div_mod(wide as int, pow2(s as nat) as int);
        vstd::arithmetic::mul::lemma_mul_inequality(1, (wide as int) / (pow2(s as nat) as int), pow2(s as nat) as int);
        assert(pow2(s as nat) <= wide);
        if lz >= 1 {
            let t = (64 - lz) as u64;
            vstd::bits::lemma_u64_shr_is_div(wide, t);
            vstd::arithmetic::power2::lemma_pow2_pos(t as nat);
            vstd::arithmetic::div_mod::lemma_fundamental_div_mod(wide as int, pow2(t as nat) as int);
            assert(wide < pow2(t as nat));
        } else {
            vstd::arithmetic::power2::lemma2_to64();
            vstd::arithmetic::power2::lemma2_to64_rest();
        }
    }
}

/// The largest of three sizes.
pub open spec fn max3(a: usize, b: usize, c: usize) -> usize {
    let bc = if b < c { c } else { b };
    if a < bc { bc } else { a }
}

fn max_of(a: usize, b: usize) -> (r: usize)
    ensures
        r == (if a < b { b } else { a }),
{
    if a < b { b } else { a }
}

/// A size halved `level` times, but at least 1: the size of mipmap level `level`.
pub open spec fn minify(size: usize, level: u32) -> usize {
    let s = size >> level;
    if s < 1 { 1 } else { s }
}

fn minify_size(size: usize, level: u32) -> (r: usize)
    requires
        level < usize::BITS,
    ensures
        r == minify(size, level),
{
    max_of(size >> level, 1)
}

fn default_max_levels(m: usize) -> (r: GLuint)
    ensures
        r == spec_max_levels_of(m),
        levels_of_size(m, r as int),
{
    let lz = leading_zeros(m);
    proof {
        vstd::std_specs::bits::axiom_u64_leading_zeros(m as u64);
        lemma_max_levels_of(m);
    }
    usize::BITS - lz
}

/// The dimensions of the images of a texture target.
///
/// Each exec method agrees with the spec function named after it.
pub trait TexDim: Sized {
    /// The number of dimensions.
    spec fn spec_dim() -> usize;

    /// Width, height and depth; absent dimensions are 1.
    spec fn spec_size(&self) -> [usize; 3];

    /// The value with the given width, height and depth, of which the absent ones are
    /// ignored.
    spec fn spec_new(width: usize, height: usize, depth: usize) -> Self;

    /// The dimensions of mipmap level `level`.
    spec fn spec_minimized(&self, level: GLuint) -> Self;

    /// The size whose leading zeros count the mipmap levels.
    spec fn spec_level_size(&self) -> usize;

    fn dim() -> (n: usize)
        ensures
            n == Self::spec_dim(),
    ;

    fn new(width: usize, height: usize, depth: usize) -> (r: Self)
        ensures
            r == Self::spec_new(width, height, depth),
    ;

    fn minimized(&self, level: GLuint) -> (r: Self)
        requires
            level < usize::BITS,
        ensures
            r == self.spec_minimized(level),
    ;

    /// The number of pixels of the image.
    fn pixels(&self) -> (n: usize)
        requires
            self.spec_size()[0] * self.spec_size()[1] <= usize::MAX,
            self.spec_size()[0] * self.spec_size()[1] * self.spec_size()[2] <= usize::MAX,
        ensures
            n == self.spec_size()[0] * self.spec_size()[1] * self.spec_size()[2],
    ;

    /// The number of mipmap levels of a full mipmap chain.
    fn max_levels(&self) -> (n: GLuint)
        ensures
            n == spec_max_levels_of(self.spec_level_size()),
            levels_of_size(self.spec_level_size(), n as int),
    ;

    fn width(&self) -> (n: usize)
        ensures
            n == self.spec_size()[0],
    ;

    fn height(&self) -> (n: usize)
        ensures
            n == self.spec_size()[1],
    ;

    fn depth(&self) -> (n: usize)
        ensures
            n == self.spec_size()[2],
    ;
}

fn product3(w: usize, h: usize, d: usize) -> (n: usize)
    requires
        w * h <= usize::MAX,
        w * h * d <= usize::MAX,
    ensures
        n == w * h * d,
{
    let wh = w * h;
    wh * d
}

impl TexDim for usize {
    open spec fn spec_dim() -> usize {
        1
    }

    open spec fn spec_size(&self) -> [usize; 3] {
        [*self, 1, 1]
    }

    open spec fn spec_new(width: usize, height: usize, depth: usize) -> usize {
        width
    }

    open spec fn spec_minimized(&self, level: GLuint) -> usize {
        *self
    }

    open spec fn spec_level_size(&self) -> usize {
        max3(*self, 1, 1)
    }

    fn dim() -> (n: usize) {
        1
    }

    fn new(width: usize, height: usize, depth: usize) -> (r: usize) {
        width
    }

    fn minimized(&self, level: GLuint) -> (r: usize) {
        *self
    }

    fn pixels(&self) -> (n: usize) {
        product3(self.width(), self.height(), self.depth())
    }

    fn max_levels(&self) -> (n: GLuint) {
        default_max_levels(max_of(self.width(), max_of(self.height(), self.depth())))
    }

    fn width(&self) -> (n: usize) {
        *self
    }

    fn height(&self) -> (n: usize) {
        1
    }

    fn depth(&self) -> (n: usize) {
        1
    }
}

impl TexDim for [usize; 1] {
    open spec fn spec_dim() -> usize {
        1
    }

    open spec fn spec_size(&self) -> [usize; 3] {
        [self[0], 1, 1]
    }

    open spec fn spec_new(width: usize, height: usize, depth: usize) -> [usize; 1] {
        [width]
    }

    open spec fn spec_minimized(&self, level: GLuint) -> [usize; 1] {
        [minify(self[0], level)]
    }

    open spec fn spec_level_size(&self) -> usize {
        max3(self[0], 1, 1)
    }

    fn dim() -> (n: usize) {
        1
    }

    fn new(width: usize, height: usize, depth: usize) -> (r: [usize; 1]) {
        let r = [width];
        assert(r =~= [width]);
        r
    }

    fn minimized(&self, level: GLuint) -> (r: [usize; 1]) {
        let r = [minify_size(self[0], level)];
        assert(r =~= [minify(self[0], level)]);
        r
    }

    fn pixels(&self) -> (n: usize) {
        product3(self.width(), self.height(), self.depth())
    }

    fn max_levels(&self) -> (n: GLuint) {
        default_max_levels(max_of(self.width(), max_of(self.height(), self.depth())))
    }

    fn width(&self) -> (n: usize) {
        self[0]
    }

    fn height(&self) -> (n: usize) {
        1
    }

    fn depth(&self) -> (n: usize) {
        1
    }
}

impl TexDim for [usize; 2] {
    open spec fn spec_dim() -> usize {
        2
    }

    open spec fn spec_size(&self) -> [usize; 3] {
        [self[0], self[1], 1]
    }

    open spec fn spec_new(width: usize, height: usize, depth: usize) -> [usize; 2] {
        [width, height]
    }

    open spec fn spec_minimized(&self, level: GLuint) -> [usize; 2] {
        [minify(self[0], level), minify(self[1], level)]
    }

    open spec fn spec_level_size(&self) -> usize {
        max3(self[0], self[1], 1)
    }

    fn dim() -> (n: usize) {
        2
    }

    fn new(width: usize, height: usize, depth: usize) -> (r: [usize; 2]) {
        let r = [width, height];
        assert(r =~= [width, height]);
        r
    }

    fn minimized(&self, level: GLuint) -> (r: [usize; 2]) {
        let r = [minify_size(self[0], level), minify_size(self[1], level)];
        assert(r =~= [minify(self[0], level), minify(self[1], level)]);
        r
    }

    fn pixels(&self) -> (n: usize) {
        product3(self.width(), self.height(), self.depth())
    }

    fn max_levels(&self) -> (n: GLuint) {
        default_max_levels(max_of(self.width(), max_of(self.height(), self.depth())))
    }

    fn width(&self) -> (n: usize) {
        self[0]
    }

    fn height(&self) -> (n: usize) {
        self[1]
    }

    fn depth(&self) -> (n: usize) {
        1
    }
}

impl TexDim for [usize; 3] {
    open spec fn spec_dim() -> usize {
        3
    }

    open spec fn spec_size(&self) -> [usize; 3] {
        *self
    }

    open spec fn spec_new(width: usize, height: usize, depth: usize) -> [usize; 3] {
        [width, height, depth]
    }

    open spec fn spec_minimized(&self, level: GLuint) -> [usize; 3] {
        [minify(self[0], level), minify(self[1], level), minify(self[2], level)]
    }

    open spec fn spec_level_size(&self) -> usize {
        max3(self[0], self[1], self[2])
    }

    fn dim() -> (n: usize) {
        3
    }

    fn new(width: usize, height: usize, depth: usize) -> (r: [usize; 3]) {
        let r = [width, height, depth];
        assert(r =~= [width, height, depth]);
        r
    }

    fn minimized(&self, level: GLuint) -> (r: [usize; 3]) {
        let r = [
            minify_size(self[0], level),
            minify_size(self[1], level),
            minify_size(self[2], level),
        ];
        assert(r =~= [minify(self[0], level), minify(self[1], level), minify(self[2], level)]);
        r
    }

    fn pixels(&self) -> (n: usize) {
        product3(self.width(), self.height(), self.depth())
    }

    fn max_levels(&self) -> (n: GLuint) {
        default_max_levels(max_of(self.width(), max_of(self.height(), self.depth())))
    }

    fn width(&self) -> (n: usize) {
        self[0]
    }

    fn height(&self) -> (n: usize) {
        self[1]
    }

    fn depth(&self) -> (n: usize) {
        self[2]
    }
}

/// Arrays of one-dimensional images: the layer count is not minified.
impl TexDim for ([usize; 1], usize) {
    open spec fn spec_dim() -> usize {
        2
    }

    open spec fn spec_size(&self) -> [usize; 3] {
        [self.0[0], self.1, 1]
    }

    open spec fn spec_new(width: usize, height: usize, depth: usize) -> ([usize; 1], usize) {
        ([width], height)
    }

    open spec fn spec_minimized(&self, level: GLuint) -> ([usize; 1], usize) {
        (self.0.spec_minimized(level), self.1)
    }

    open spec fn spec_level_size(&self) -> usize {
        self.0.spec_level_size()
    }

    fn dim() -> (n: usize) {
        2
    }

    fn new(width: usize, height: usize, depth: usize) -> (r: ([usize; 1], usize)) {
        let w = [width];
        assert(w =~= [width]);
        (w, height)
    }

    fn minimized(&self, level: GLuint) -> (r: ([usize; 1], usize)) {
        (self.0.minimized(level), self.1)
    }

    fn pixels(&self) -> (n: usize) {
        product3(self.width(), self.height(), self.depth())
    }

    fn max_levels(&self) -> (n: GLuint) {
        self.0.max_levels()
    }

    fn width(&self) -> (n: usize) {
        self.0[0]
    }

    fn height(&self) -> (n: usize) {
        self.1
    }

    fn depth(&self) -> (n: usize) {
        1
    }
}

/// Arrays of two-dimensional images: the layer count is not minified.
impl TexDim for ([usize; 2], usize) {
    open spec fn spec_dim() -> usize {
        3
    }

    open spec fn spec_size(&self) -> [usize; 3] {
        [self.0[0], self.0[1], self.1]
    }

    open spec fn spec_new(width: usize, height: usize, depth: usize) -> ([usize; 2], usize) {
        ([width, height], depth)
    }

    open spec fn spec_minimized(&self, level: GLuint) -> ([usize; 2], usize) {
        (self.0.spec_minimized(level), self.1)
    }

    open spec fn spec_level_size(&self) -> usize {
        self.0.spec_level_size()
    }

    fn dim() -> (n: usize) {
        3
    }

    fn new(width: usize, height: usize, depth: usize) -> (r: ([usize; 2], usize)) {
        let wh = [width, height];
        assert(wh =~= [width, height]);
        (wh, depth)
    }

    fn minimized(&self, level: GLuint) -> (r: ([usize; 2], usize)) {
        (self.0.minimized(level), self.1)
    }

    fn pixels(&self) -> (n: usize) {
        product3(self.width(), self.height(), self.depth())
    }

    fn max_levels(&self) -> (n: GLuint) {
        self.0.max_levels()
    }

    fn width(&self) -> (n: usize) {
        self.0[0]
    }

    fn height(&self) -> (n: usize) {
        self.0[1]
    }

    fn depth(&self) -> (n: usize) {
        self.1
    }
}

/// Whether `e` names a multisampled texture target.
pub open spec fn is_multisample_target(e: GLenum) -> bool {
    e == glenum::TEXTURE_2D_MULTISAMPLE || e == glenum::TEXTURE_2D_MULTISAMPLE_ARRAY
}

/// Whether `e` names a texture target with mipmaps.
pub open spec fn is_mipmap_target(e: GLenum) -> bool {
    !(e == glenum::TEXTURE_2D_MULTISAMPLE || e == glenum::TEXTURE_2D_MULTISAMPLE_ARRAY
        || e == glenum::TEXTURE_RECTANGLE || e == glenum::TEXTURE_BUFFER)
}

/// Whether `e` names a cube-map texture target.
pub open spec fn is_cube_map_target(e: GLenum) -> bool {
    e == glenum::TEXTURE_CUBE_MAP || e == glenum::TEXTURE_CUBE_MAP_ARRAY
}

/// A texture target: the kind of a texture and the shape of its images.
pub trait TextureType: Sized {
    type Dim: TexDim;

    /// The `GLenum` naming the target.
    spec fn spec_glenum() -> GLenum;

    fn glenum() -> (e: GLenum)
        ensures
            e == Self::spec_glenum(),
    ;

    /// The target named by `val`, or `GLError::InvalidEnum(val, "")`.
    fn try_from_glenum(val: GLenum) -> (r: Result<Self, GLError>)
        ensures
            val == Self::spec_glenum() ==> r is Ok,
            val != Self::spec_glenum() ==> (r matches Err(GLError::InvalidEnum(v, s)) && v == val
                && s@.len() == 0),
    ;

    /// Whether textures of this target hold several samples per pixel.
    fn multisampled() -> (r: bool)
        ensures
            r == is_multisample_target(Self::spec_glenum()),
    {
        let e = Self::glenum();
        e == glenum::TEXTURE_2D_MULTISAMPLE || e == glenum::TEXTURE_2D_MULTISAMPLE_ARRAY
    }

    /// Whether textures of this target have mipmap levels.
    fn mipmapped() -> (r: bool)
        ensures
            r == is_mipmap_target(Self::spec_glenum()),
    {
        let e = Self::glenum();
        if e == glenum::TEXTURE_2D_MULTISAMPLE || e == glenum::TEXTURE_2D_MULTISAMPLE_ARRAY {
            false
        } else if e == glenum::TEXTURE_RECTANGLE || e == glenum::TEXTURE_BUFFER {
            false
        } else {
            true
        }
    }

    /// Whether textures of this target are cube maps.
    fn cube_mapped() -> (r: bool)
        ensures
            r == is_cube_map_target(Self::spec_glenum()),
    {
        let e = Self::glenum();
        e == glenum::TEXTURE_CUBE_MAP || e == glenum::TEXTURE_CUBE_MAP_ARRAY
    }
}

/// Targets whose textures have mipmap levels.
pub trait Mipmapped: TextureType {
    /// The marker agrees with `TextureType::mipmapped`.
    proof fn lemma_mipmapped()
        ensures
            is_mipmap_target(Self::spec_glenum()),
    ;
}

/// Targets whose textures hold several samples per pixel.
pub trait Multisampled: TextureType {
    /// The marker agrees with `TextureType::multisampled`.
    proof fn lemma_multisampled()
        ensures
            is_multisample_target(Self::spec_glenum()),
    ;
}

/// The target `Texture 1D`.
#[allow(non_camel_case_types)]
#[derive(Clone, Copy, PartialEq, Eq, Structural, Hash, Debug, Default)]
pub struct TEXTURE_1D;

impl TextureType for TEXTURE_1D {
    type Dim = [usize; 1];

    open spec fn spec_glenum() -> GLenum {
        glenum::TEXTURE_1D
    }

    fn glenum() -> (e: GLenum) {
        glenum::TEXTURE_1D
    }

    fn try_from_glenum(val: GLenum) -> (r: Result<TEXTURE_1D, GLError>) {
        if val == glenum::TEXTURE_1D {
            Ok(TEXTURE_1D)
        } else {
            Err(GLError::InvalidEnum(val, String::new()))
        }
    }
}

impl Mipmapped for TEXTURE_1D {
    proof fn lemma_mipmapped() {
    }
}

/// The target `Texture 2D`.
#[allow(non_camel_case_types)]
#[derive(Clone, Copy, PartialEq, Eq, Structural, Hash, Debug, Default)]
pub struct TEXTURE_2D;

impl TextureType for TEXTURE_2D {
    type Dim = [usize; 2];

    open spec fn spec_glenum() -> GLenum {
        glenum::TEXTURE_2D
    }

    fn glenum() -> (e: GLenum) {
        glenum::TEXTURE_2D
    }

    fn try_from_glenum(val: GLenum) -> (r: Result<TEXTURE_2D, GLError>) {
        if val == glenum::TEXTURE_2D {
            Ok(TEXTURE_2D)
        } else {
            Err(GLError::InvalidEnum(val, String::new()))
        }
    }
}

impl Mipmapped for TEXTURE_2D {
    proof fn lemma_mipmapped() {
    }
}

/// The target `Texture 3D`.
#[allow(non_camel_case_types)]
#[derive(Clone, Copy, PartialEq, Eq, Structural, Hash, Debug, Default)]
pub struct TEXTURE_3D;

impl TextureType for TEXTURE_3D {
    type Dim = [usize; 3];

    open spec fn spec_glenum() -> GLenum {
        glenum::TEXTURE_3D
    }

    fn glenum() -> (e: GLenum) {
        glenum::TEXTURE_3D
    }

    fn try_from_glenum(val: GLenum) -> (r: Result<TEXTURE_3D, GLError>) {
        if val == glenum::TEXTURE_3D {
            Ok(TEXTURE_3D)
        } else {
            Err(GLError::InvalidEnum(val, String::new()))
        }
    }
}

impl Mipmapped for TEXTURE_3D {
    proof fn lemma_mipmapped() {
    }
}

/// The target `Texture 1D Array`.
#[allow(non_camel_case_types)]
#[derive(Clone, Copy, PartialEq, Eq, Structural, Hash, Debug, Default)]
pub struct TEXTURE_1D_ARRAY;

impl TextureType for TEXTURE_1D_ARRAY {
    type Dim = ([usize; 1], usize);

    open spec fn spec_glenum() -> GLenum {
        glenum::TEXTURE_1D_ARRAY
    }

    fn glenum() -> (e: GLenum) {
        glenum::TEXTURE_1D_ARRAY
    }

    fn try_from_glenum(val: GLenum) -> (r: Result<TEXTURE_1D_ARRAY, GLError>) {
        if val == glenum::TEXTURE_1D_ARRAY {
            Ok(TEXTURE_1D_ARRAY)
        } else {
            Err(GLError::InvalidEnum(val, String::new()))
        }
    }
}

impl Mipmapped for TEXTURE_1D_ARRAY {
    proof fn lemma_mipmapped() {
    }
}

/// The target `Texture 2D Array`.
#[allow(non_camel_case_types)]
#[derive(Clone, Copy, PartialEq, Eq, Structural, Hash, Debug, Default)]
pub struct TEXTURE_2D_ARRAY;

impl TextureType for TEXTURE_2D_ARRAY {
    type Dim = ([usize; 2], usize);

    open spec fn spec_glenum() -> GLenum {
        glenum::TEXTURE_2D_ARRAY
    }

    fn glenum() -> (e: GLenum) {
        glenum::TEXTURE_2D_ARRAY
    }

    fn try_from_glenum(val: GLenum) -> (r: Result<TEXTURE_2D_ARRAY, GLError>) {
        if val == glenum::TEXTURE_2D_ARRAY {
            Ok(TEXTURE_2D_ARRAY)
        } else {
            Err(GLError::InvalidEnum(val, String::new()))
        }
    }
}

impl Mipmapped for TEXTURE_2D_ARRAY {
    proof fn lemma_mipmapped() {
    }
}

/// The target `Texture Rectangle`.
#[allow(non_camel_case_types)]
#[derive(Clone, Copy, PartialEq, Eq, Structural, Hash, Debug, Default)]
pub struct TEXTURE_RECTANGLE;

impl TextureType for TEXTURE_RECTANGLE {
    type Dim = [usize; 2];

    open spec fn spec_glenum() -> GLenum {
        glenum::TEXTURE_RECTANGLE
    }

    fn glenum() -> (e: GLenum) {
        glenum::TEXTURE_RECTANGLE
    }

    fn try_from_glenum(val: GLenum) -> (r: Result<TEXTURE_RECTANGLE, GLError>) {
        if val == glenum::TEXTURE_RECTANGLE {
            Ok(TEXTURE_RECTANGLE)
        } else {
            Err(GLError::InvalidEnum(val, String::new()))
        }
    }
}

/// The target `Texture Buffer`.
#[allow(non_camel_case_types)]
#[derive(Clone, Copy, PartialEq, Eq, Structural, Hash, Debug, Default)]
pub struct TEXTURE_BUFFER;

impl TextureType for TEXTURE_BUFFER {
    type Dim = usize;

    open spec fn spec_glenum() -> GLenum {
        glenum::TEXTURE_BUFFER
    }

    fn glenum() -> (e: GLenum) {
        glenum::TEXTURE_BUFFER
    }

    fn try_from_glenum(val: GLenum) -> (r: Result<TEXTURE_BUFFER, GLError>) {
        if val == glenum::TEXTURE_BUFFER {
            Ok(TEXTURE_BUFFER)
        } else {
            Err(GLError::InvalidEnum(val, String::new()))
        }
    }
}

/// The target `Texture Cube Map`.
#[allow(non_camel_case_types)]
#[derive(Clone, Copy, PartialEq, Eq, Structural, Hash, Debug, Default)]
pub struct TEXTURE_CUBE_MAP;

impl TextureType for TEXTURE_CUBE_MAP {
    type Dim = [usize; 2];

    open spec fn spec_glenum() -> GLenum {
        glenum::TEXTURE_CUBE_MAP
    }

    fn glenum() -> (e: GLenum) {
        glenum::TEXTURE_CUBE_MAP
    }

    fn try_from_glenum(val: GLenum) -> (r: Result<TEXTURE_CUBE_MAP, GLError>) {
        if val == glenum::TEXTURE_CUBE_MAP {
            Ok(TEXTURE_CUBE_MAP)
        } else {
            Err(GLError::InvalidEnum(val, String::new()))
        }
    }
}

impl Mipmapped for TEXTURE_CUBE_MAP {
    proof fn lemma_mipmapped() {
    }
}

/// The target `Texture Cube Map Array`.
#[allow(non_camel_case_types)]
#[derive(Clone, Copy, PartialEq, Eq, Structural, Hash, Debug, Default)]
pub struct TEXTURE_CUBE_MAP_ARRAY;

impl TextureType for TEXTURE_CUBE_MAP_ARRAY {
    type Dim = ([usize; 2], usize);

    open spec fn spec_glenum() -> GLenum {
        glenum::TEXTURE_CUBE_MAP_ARRAY
    }

    fn glenum() -> (e: GLenum) {
        glenum::TEXTURE_CUBE_MAP_ARRAY
    }

    fn try_from_glenum(val: GLenum) -> (r: Result<TEXTURE_CUBE_MAP_ARRAY, GLError>) {
        if val == glenum::TEXTURE_CUBE_MAP_ARRAY {
            Ok(TEXTURE_CUBE_MAP_ARRAY)
        } else {
            Err(GLError::InvalidEnum(val, String::new()))
        }
    }
}

impl Mipmapped for TEXTURE_CUBE_MAP_ARRAY {
    proof fn lemma_mipmapped() {
    }
}

/// The target `Texture 2D Multisample`.
#[allow(non_camel_case_types)]
#[derive(Clone, Copy, PartialEq, Eq, Structural, Hash, Debug, Default)]
pub struct TEXTURE_2D_MULTISAMPLE;

impl TextureType for TEXTURE_2D_MULTISAMPLE {
    type Dim = [usize; 2];

    open spec fn spec_glenum() -> GLenum {
        glenum::TEXTURE_2D_MULTISAMPLE
    }

    fn glenum() -> (e: GLenum) {
        glenum::TEXTURE_2D_MULTISAMPLE
    }

    fn try_from_glenum(val: GLenum) -> (r: Result<TEXTURE_2D_MULTISAMPLE, GLError>) {
        if val == glenum::TEXTURE_2D_MULTISAMPLE {
            Ok(TEXTURE_2D_MULTISAMPLE)
        } else {
            Err(GLError::InvalidEnum(val, String::new()))
        }
    }
}

impl Multisampled for TEXTURE_2D_MULTISAMPLE {
    proof fn lemma_multisampled() {
    }
}

/// The target `Texture 2D Multisample Array`.
#[allow(non_camel_case_types)]
#[derive(Clone, Copy, PartialEq, Eq, Structural, Hash, Debug, Default)]
pub struct TEXTURE_2D_MULTISAMPLE_ARRAY;

impl TextureType for TEXTURE_2D_MULTISAMPLE_ARRAY {
    type Dim = ([usize; 2], usize);

    open spec fn spec_glenum() -> GLenum {
        glenum::TEXTURE_2D_MULTISAMPLE_ARRAY
    }

    fn glenum() -> (e: GLenum) {
        glenum::TEXTURE_2D_MULTISAMPLE_ARRAY
    }

    fn try_from_glenum(val: GLenum) -> (r: Result<TEXTURE_2D_MULTISAMPLE_ARRAY, GLError>) {
        if val == glenum::TEXTURE_2D_MULTISAMPLE_ARRAY {
            Ok(TEXTURE_2D_MULTISAMPLE_ARRAY)
        } else {
            Err(GLError::InvalidEnum(val, String::new()))
        }
    }
}

impl Multisampled for TEXTURE_2D_MULTISAMPLE_ARRAY {
    proof fn lemma_multisampled() {
    }
}

/// The six faces of a cube map.
#[allow(non_camel_case_types)]
#[derive(Clone, Copy, PartialEq, Eq, Structural, Hash, Debug)]
pub enum CubeMapFace {
    PositiveX,
    NegativeX,
    PositiveY,
    NegativeY,
    PositiveZ,
    NegativeZ,
}

impl CubeMapFace {
    /// The `GLenum` value naming each variant.
    pub open spec fn spec_glenum(self) -> GLenum {
        match self {
            CubeMapFace::PositiveX => TEXTURE_CUBE_MAP_POSITIVE_X,
            CubeMapFace::NegativeX => TEXTURE_CUBE_MAP_NEGATIVE_X,
            CubeMapFace::PositiveY => TEXTURE_CUBE_MAP_POSITIVE_Y,
            CubeMapFace::NegativeY => TEXTURE_CUBE_MAP_NEGATIVE_Y,
            CubeMapFace::PositiveZ => TEXTURE_CUBE_MAP_POSITIVE_Z,
            CubeMapFace::NegativeZ => TEXTURE_CUBE_MAP_NEGATIVE_Z,
        }
    }

    /// The variant named by a `GLenum` value, if any.
    pub open spec fn spec_from_glenum(e: GLenum) -> Option<CubeMapFace> {
        if e == TEXTURE_CUBE_MAP_POSITIVE_X {
            Some(CubeMapFace::PositiveX)
        } else if e == TEXTURE_CUBE_MAP_NEGATIVE_X {
            Some(CubeMapFace::NegativeX)
        } else if e == TEXTURE_CUBE_MAP_POSITIVE_Y {
            Some(CubeMapFace::PositiveY)
        } else if e == TEXTURE_CUBE_MAP_NEGATIVE_Y {
            Some(CubeMapFace::NegativeY)
        } else if e == TEXTURE_CUBE_MAP_POSITIVE_Z {
            Some(CubeMapFace::PositiveZ)
        } else if e == TEXTURE_CUBE_MAP_NEGATIVE_Z {
            Some(CubeMapFace::NegativeZ)
        } else {
            None
        }
    }

    /// The `GLenum` naming this value.
    pub fn glenum(self) -> (e: GLenum)
        ensures
            e == self.spec_glenum(),
    {
        match self {
            CubeMapFace::PositiveX => TEXTURE_CUBE_MAP_POSITIVE_X,
            CubeMapFace::NegativeX => TEXTURE_CUBE_MAP_NEGATIVE_X,
            CubeMapFace::PositiveY => TEXTURE_CUBE_MAP_POSITIVE_Y,
            CubeMapFace::NegativeY => TEXTURE_CUBE_MAP_NEGATIVE_Y,
            CubeMapFace::PositiveZ => TEXTURE_CUBE_MAP_POSITIVE_Z,
            CubeMapFace::NegativeZ => TEXTURE_CUBE_MAP_NEGATIVE_Z,
        }
    }

    /// The value named by `e`, or `GLError::InvalidEnum(e, "CubeMapFace")` when `e` names none.
    pub fn try_from_glenum(e: GLenum) -> (r: Result<CubeMapFace, GLError>)
        ensures
            match CubeMapFace::spec_from_glenum(e) {
                Some(t) => r == Ok::<Self, GLError>(t),
                None => r matches Err(GLError::InvalidEnum(v, s)) && v == e && s@ == "CubeMapFace"@,
            },
    {
        if e == TEXTURE_CUBE_MAP_POSITIVE_X {
            Ok(CubeMapFace::PositiveX)
        } else if e == TEXTURE_CUBE_MAP_NEGATIVE_X {
            Ok(CubeMapFace::NegativeX)
        } else if e == TEXTURE_CUBE_MAP_POSITIVE_Y {
            Ok(CubeMapFace::PositiveY)
        } else if e == TEXTURE_CUBE_MAP_NEGATIVE_Y {
            Ok(CubeMapFace::NegativeY)
        } else if e == TEXTURE_CUBE_MAP_POSITIVE_Z {
            Ok(CubeMapFace::PositiveZ)
        } else if e == TEXTURE_CUBE_MAP_NEGATIVE_Z {
            Ok(CubeMapFace::NegativeZ)
        } else {
            Err(GLError::InvalidEnum(e, "CubeMapFace".to_owned()))
        }
    }

    /// Reading a value back from its `GLenum` gives the value, and only the
    /// `GLenum` of a value reads back as that value.
    pub proof fn lemma_glenum_roundtrip(t: CubeMapFace, e: GLenum)
        ensures
            CubeMapFace::spec_from_glenum(t.spec_glenum()) == Some(t),
            CubeMapFace::spec_from_glenum(e) == Some(t) ==> t.spec_glenum() == e,
    {
    }
}


impl CubeMapFace {
    /// The six faces, in the order of their `GLenum` values.
    pub fn faces() -> (r: [CubeMapFace; 6])
        ensures
            r@ == seq![
                CubeMapFace::PositiveX,
                CubeMapFace::NegativeX,
                CubeMapFace::PositiveY,
                CubeMapFace::NegativeY,
                CubeMapFace::PositiveZ,
                CubeMapFace::NegativeZ,
            ],
    {
        let r = [
            CubeMapFace::PositiveX,
            CubeMapFace::NegativeX,
            CubeMapFace::PositiveY,
            CubeMapFace::NegativeY,
            CubeMapFace::PositiveZ,
            CubeMapFace::NegativeZ,
        ];
        assert(r@ =~= seq![
            CubeMapFace::PositiveX,
            CubeMapFace::NegativeX,
            CubeMapFace::PositiveY,
            CubeMapFace::NegativeY,
            CubeMapFace::PositiveZ,
            CubeMapFace::NegativeZ,
        ]);
        r
    }
}

impl Default for CubeMapFace {
    fn default() -> (r: CubeMapFace)
        ensures
            r == CubeMapFace::PositiveX,
    {
        CubeMapFace::PositiveX
    }
}

/// A texture object of target `T`.
pub struct Texture<T> {
    id: GLuint,
    target: core::marker::PhantomData<T>,
}

impl<T: TextureType> Texture<T> {
    /// The texture named `id`.
    pub fn from_raw(id: GLuint) -> (t: Self)
        ensures
            t.spec_id() == id,
    {
        Texture { id, target: core::marker::PhantomData }
    }

    pub closed spec fn spec_id(&self) -> GLuint {
        self.id
    }

    /// The name of the texture.
    pub fn id(&self) -> (r: GLuint)
        ensures
            r == self.spec_id(),
    {
        self.id
    }

    /// The number of mipmap levels, given what the GL reports of the texture: whether its
    /// format is immutable, its immutable level count, and its base dimensions.
    pub fn max_levels(&self, immutable_format: bool, immutable_levels: GLuint, dim: &T::Dim) -> (n: GLuint)
        ensures
            n == if !is_mipmap_target(T::spec_glenum()) {
                1
            } else if immutable_format {
                immutable_levels as int
            } else {
                spec_max_levels_of(dim.spec_level_size())
            },
    {
        if T::mipmapped() {
            if immutable_format {
                immutable_levels
            } else {
                dim.max_levels()
            }
        } else {
            1
        }
    }

    /// Whether textures of this target have a wrap mode for the T coordinate: those of two
    /// or more dimensions. Setting it on others does nothing.
    pub fn has_wrap_t() -> (r: bool)
        ensures
            r == (T::Dim::spec_dim() >= 2),
    {
        T::Dim::dim() >= 2
    }

    /// Whether textures of this target have a wrap mode for the R coordinate: those of three
    /// dimensions. Setting it on others does nothing.
    pub fn has_wrap_r() -> (r: bool)
        ensures
            r == (T::Dim::spec_dim() >= 3),
    {
        T::Dim::dim() >= 3
    }

    /// The T wrap mode, given the value that the context reports for it (read only where
    /// the target has one). Targets of one dimension report `Wrapping::Repeat`.
    pub fn get_wrap_t(&self, reported: GLenum) -> (r: Result<Wrapping, GLError>)
        ensures
            is_wrap_t_result(T::Dim::spec_dim(), reported, r),
    {
        if Self::has_wrap_t() {
            Wrapping::try_from_glenum(reported)
        } else {
            Ok(Wrapping::Repeat)
        }
    }

    /// The R wrap mode, given the value that the context reports for it (read only where
    /// the target has one). Rectangle textures report `Wrapping::ClampToEdge`, other
    /// targets of fewer than three dimensions `Wrapping::Repeat`.
    pub fn get_wrap_r(&self, reported: GLenum) -> (r: Result<Wrapping, GLError>)
        ensures
            is_wrap_r_result(T::Dim::spec_dim(), T::spec_glenum(), reported, r),
    {
        if Self::has_wrap_r() {
            Wrapping::try_from_glenum(reported)
        } else if T::glenum() == glenum::TEXTURE_RECTANGLE {
            Ok(Wrapping::ClampToEdge)
        } else {
            Ok(Wrapping::Repeat)
        }
    }
}

/// Whether `r` is the reported wrap mode read back as a value: the named mode, or
/// `GLError::InvalidEnum(reported, "Wrapping")` for an unknown value.
pub open spec fn is_wrapping_result(reported: GLenum, r: Result<Wrapping, GLError>) -> bool {
    match Wrapping::spec_from_glenum(reported) {
        Some(w) => r == Ok::<Wrapping, GLError>(w),
        None => r matches Err(GLError::InvalidEnum(v, s)) && v == reported && s@ == "Wrapping"@,
    }
}

/// Whether `r` is the T wrap mode of a texture of `dims` dimensions whose context reports
/// `reported`.
pub open spec fn is_wrap_t_result(dims: usize, reported: GLenum, r: Result<Wrapping, GLError>) -> bool {
    if dims >= 2 {
        is_wrapping_result(reported, r)
    } else {
        r == Ok::<Wrapping, GLError>(Wrapping::Repeat)
    }
}

/// Whether `r` is the R wrap mode of a texture of `dims` dimensions and target `target`
/// whose context reports `reported`.
pub open spec fn is_wrap_r_result(dims: usize, target: GLenum, reported: GLenum, r: Result<Wrapping, GLError>) -> bool {
    if dims >= 3 {
        is_wrapping_result(reported, r)
    } else if target == glenum::TEXTURE_RECTANGLE {
        r == Ok::<Wrapping, GLError>(Wrapping::ClampToEdge)
    } else {
        r == Ok::<Wrapping, GLError>(Wrapping::Repeat)
    }
}

/// The width, height and depth that a value built from `(w, h, d)` reports, when it has
/// `n` dimensions: the absent ones are 1.
pub open spec fn reported_size(n: usize, w: usize, h: usize, d: usize) -> [usize; 3] {
    [w, if n >= 2 { h } else { 1 }, if n >= 3 { d } else { 1 }]
}

/// A freshly built value of every dimension type reports the sizes it was built from, in
/// the dimensions it has.
pub proof fn lemma_new_reports_size(w: usize, h: usize, d: usize)
    ensures
        usize::spec_new(w, h, d).spec_size() == reported_size(usize::spec_dim(), w, h, d),
        <[usize; 1]>::spec_new(w, h, d).spec_size() == reported_size(<[usize; 1]>::spec_dim(), w, h, d),
        <[usize; 2]>::spec_new(w, h, d).spec_size() == reported_size(<[usize; 2]>::spec_dim(), w, h, d),
        <[usize; 3]>::spec_new(w, h, d).spec_size() == reported_size(<[usize; 3]>::spec_dim(), w, h, d),
        <([usize; 1], usize)>::spec_new(w, h, d).spec_size() == reported_size(
            <([usize; 1], usize)>::spec_dim(),
            w,
            h,
            d,
        ),
        <([usize; 2], usize)>::spec_new(w, h, d).spec_size() == reported_size(
            <([usize; 2], usize)>::spec_dim(),
            w,
            h,
            d,
        ),
{
    assert(usize::spec_new(w, h, d).spec_size() =~= reported_size(1, w, h, d));
    assert(<[usize; 1]>::spec_new(w, h, d).spec_size() =~= reported_size(1, w, h, d));
    assert(<[usize; 2]>::spec_new(w, h, d).spec_size() =~= reported_size(2, w, h, d));
    assert(<[usize; 3]>::spec_new(w, h, d).spec_size() =~= reported_size(3, w, h, d));
    assert(<([usize; 1], usize)>::spec_new(w, h, d).spec_size() =~= reported_size(2, w, h, d));
    assert(<([usize; 2], usize)>::spec_new(w, h, d).spec_size() =~= reported_size(3, w, h, d));
}

/// Mipmap level 0 of an image with no zero-sized dimension is the image itself, and every
/// level is at least one pixel in each dimension and no larger than the image.
pub proof fn lemma_minify(size: usize, level: u32)
    requires
        level < usize::BITS,
    ensures
        size >= 1 ==> minify(size, 0) == size,
        minify(size, level) >= 1,
        size >= 1 ==> minify(size, level) <= size,
{
    assert(size >> 0u32 == size) by (bit_vector);
    assert(size >> level <= size) by (bit_vector);
}

/// Level `l` of level `k` of an image is level `k + l` of the image.
pub proof fn lemma_minify_compose(size: usize, k: u32, l: u32)
    requires
        k + l < usize::BITS,
    ensures
        minify(minify(size, k), l) == minify(size, (k + l) as u32),
{
    let kl = (k + l) as u32;
    let a = size >> k;
    vstd::bits::lemma_usize_shr_is_div(size, k as usize);
    vstd::bits::lemma_usize_shr_is_div(a, l as usize);
    vstd::bits::lemma_usize_shr_is_div(size, kl as usize);
    vstd::arithmetic::power2::lemma_pow2_pos(k as nat);
    vstd::arithmetic::power2::lemma_pow2_pos(l as nat);
    vstd::arithmetic::power2::lemma_pow2_adds(k as nat, l as nat);
    vstd::arithmetic::div_mod::lemma_div_denominator(size as int, pow2(k as nat) as int, pow2(l as nat) as int);
    assert(size >> k == size >> (k as usize));
    assert(a >> l == a >> (l as usize));
    assert(size >> kl == size >> (kl as usize));
    if a == 0 {
        assert(1usize >> l <= 1) by (bit_vector);
    }
}

/// Whether `m` is the largest of the three sizes of `size`.
pub open spec fn is_largest_side(m: usize, size: [usize; 3]) -> bool {
    &&& size[0] <= m && size[1] <= m && size[2] <= m
    &&& m == size[0] || m == size[1] || m == size[2]
}

/// The full mipmap chain of an image, of one, two or three dimensions, is counted from its
/// largest side: width, height or depth, the absent ones being 1.
pub proof fn lemma_level_size_is_largest_side(a: usize, b: [usize; 1], c: [usize; 2], d: [usize; 3])
    ensures
        is_largest_side(a.spec_level_size(), a.spec_size()),
        is_largest_side(b.spec_level_size(), b.spec_size()),
        is_largest_side(c.spec_level_size(), c.spec_size()),
        is_largest_side(d.spec_level_size(), d.spec_size()),
{
}

/// The mipmap chain of an array of images is that of one image: it is counted from the
/// largest side of an image, and the number of layers plays no part.
pub proof fn lemma_array_level_size_ignores_layers(b: ([usize; 1], usize), c: ([usize; 2], usize))
    ensures
        is_largest_side(b.spec_level_size(), [b.spec_size()[0], 1, 1]),
        is_largest_side(c.spec_level_size(), [c.spec_size()[0], c.spec_size()[1], 1]),
{
}

/// Mipmap level `level` of an image halves each of its sides `level` times, down to no less
/// than 1, and keeps the absent sides at 1; the layers of an array of images are not
/// minified.
pub proof fn lemma_minimized_halves_each_side(
    b: [usize; 1],
    c: [usize; 2],
    d: [usize; 3],
    e: ([usize; 1], usize),
    f: ([usize; 2], usize),
    level: u32,
)
    requires
        level < usize::BITS,
    ensures
        b.spec_minimized(level).spec_size() == [minify(b[0], level), 1usize, 1usize],
        c.spec_minimized(level).spec_size() == [minify(c[0], level), minify(c[1], level), 1usize],
        d.spec_minimized(level).spec_size() == [minify(d[0], level), minify(d[1], level), minify(d[2], level)],
        e.spec_minimized(level).spec_size() == [minify(e.0[0], level), e.1, 1usize],
        f.spec_minimized(level).spec_size() == [minify(f.0[0], level), minify(f.0[1], level), f.1],
{
    assert(b.spec_minimized(level).spec_size() =~= [minify(b[0], level), 1usize, 1usize]);
    assert(c.spec_minimized(level).spec_size() =~= [minify(c[0], level), minify(c[1], level), 1usize]);
    assert(d.spec_minimized(level).spec_size() =~= [minify(d[0], level), minify(d[1], level), minify(d[2], level)]);
    assert(e.spec_minimized(level).spec_size() =~= [minify(e.0[0], level), e.1, 1usize]);
    assert(f.spec_minimized(level).spec_size() =~= [minify(f.0[0], level), minify(f.0[1], level), f.1]);
}

} // verus!
