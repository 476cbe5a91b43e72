//! GLSL values that need no floating point: the GLSL `bool`, boolean vectors and the
//! relational functions over them, and the block layout markers.

use vstd::prelude::*;
use crate::glenum::GLuint;

verus! {

/// The GLSL `bool`: a 32-bit value that is true when it is not zero.
#[allow(non_camel_case_types)]
#[derive(Clone, Copy, PartialEq, Eq, Structural, PartialOrd, Ord, Debug, Hash, Default)]
pub struct c_bool(pub GLuint);

/// The GLSL name of `c_bool`.
#[allow(non_camel_case_types)]
pub type gl_bool = c_bool;

impl c_bool {
    /// The truth value.
    pub open spec fn truth(self) -> bool {
        self.0 > 0
    }

    /// The GLSL value of a Rust `bool`: 1 or 0.
    pub fn from_bool(b: bool) -> (c: c_bool)
        ensures
            c.0 == (if b { 1u32 } else { 0u32 }),
    {
        c_bool(if b { 1 } else { 0 })
    }

    /// The truth value: whether the value is not zero.
    pub fn to_bool(self) -> (b: bool)
        ensures
            b == self.truth(),
    {
        self.0 > 0
    }

    /// The value with the given bits.
    pub fn from_uint(b: GLuint) -> (c: c_bool)
        ensures
            c.0 == b,
    {
        c_bool(b)
    }

    /// The bits of the value.
    pub fn to_uint(self) -> (b: GLuint)
        ensures
            b == self.0,
    {
        self.0
    }

    /// The value of a `GLboolean`.
    pub fn from_glboolean(b: u8) -> (c: c_bool)
        ensures
            c.0 == b as u32,
    {
        c_bool(b as u32)
    }

    /// The value as a `GLboolean`: its lowest byte.
    pub fn to_glboolean(self) -> (b: u8)
        ensures
            b == self.0 as u8,
    {
        self.0 as u8
    }

    /// Bitwise and of the bits.
    pub fn bitand(self, r: c_bool) -> (c: c_bool)
        ensures
            c.0 == self.0 & r.0,
    {
        c_bool(self.0 & r.0)
    }

    /// Bitwise or of the bits.
    pub fn bitor(self, r: c_bool) -> (c: c_bool)
        ensures
            c.0 == self.0 | r.0,
    {
        c_bool(self.0 | r.0)
    }

    /// Bitwise exclusive or of the bits.
    pub fn bitxor(self, r: c_bool) -> (c: c_bool)
        ensures
            c.0 == self.0 ^ r.0,
    {
        c_bool(self.0 ^ r.0)
    }

    /// Logical negation: 1 for a false value, 0 for a true one.
    pub fn not(self) -> (c: c_bool)
        ensures
            c.0 == (if self.truth() { 0u32 } else { 1u32 }),
    {
        if self.0 > 0 {
            c_bool(0)
        } else {
            c_bool(1)
        }
    }
}

/// Converting a Rust `bool` to a GLSL `bool` and back gives the same `bool`.
pub proof fn lemma_bool_roundtrip(b: bool)
    ensures
        c_bool(if b { 1u32 } else { 0u32 }).truth() == b,
{
}

/// Types whose values are vectors of components that the GLSL functions act on one by one.
pub trait GenType: Sized {
    type Component;

    /// The components.
    spec fn coords(&self) -> Seq<Self::Component>;

    /// The number of components of every value.
    spec fn spec_count() -> nat;

    /// Every value has `spec_count()` components.
    proof fn lemma_count(&self)
        ensures
            self.coords().len() == Self::spec_count(),
    ;

    /// The number of components.
    fn count() -> (n: usize)
        ensures
            n == Self::spec_count(),
    ;

    /// Component `i`.
    fn coord(&self, i: usize) -> (c: &Self::Component)
        requires
            i < self.coords().len(),
        ensures
            *c == self.coords()[i as int],
    ;

    /// Replaces component `i`.
    fn set_coord(&mut self, i: usize, c: Self::Component)
        requires
            i < old(self).coords().len(),
        ensures
            final(self).coords() == old(self).coords().update(i as int, c),
    ;
}

impl GenType for c_bool {
    type Component = c_bool;

    open spec fn coords(&self) -> Seq<c_bool> {
        seq![*self]
    }

    open spec fn spec_count() -> nat {
        1
    }

    proof fn lemma_count(&self) {
    }

    fn count() -> (n: usize) {
        1
    }

    fn coord(&self, i: usize) -> (c: &c_bool) {
        self
    }

    fn set_coord(&mut self, i: usize, c: c_bool) {
        *self = c;
        assert(seq![c] =~= seq![*old(self)].update(i as int, c));
    }
}

/// A GLSL `bvec2`.
#[allow(non_camel_case_types)]
#[derive(Clone, Copy, PartialEq, Eq, Debug, Hash, Default)]
pub struct bvec2 {
    pub value: [c_bool; 2],
}

impl GenType for bvec2 {
    type Component = c_bool;

    open spec fn coords(&self) -> Seq<c_bool> {
        self.value@
    }

    open spec fn spec_count() -> nat {
        2
    }

    proof fn lemma_count(&self) {
    }

    fn count() -> (n: usize) {
        2
    }

    fn coord(&self, i: usize) -> (c: &c_bool) {
        &self.value[i]
    }

    fn set_coord(&mut self, i: usize, c: c_bool) {
        self.value[i] = c;
    }
}

impl bvec2 {
    /// The vector of the GLSL values of `b`.
    pub fn from_bools(b: [bool; 2]) -> (v: bvec2)
        ensures
            forall|i: int| 0 <= i < 2 ==> (#[trigger] v.value@[i]).0 == (if b@[i] { 1u32 } else { 0u32 }),
    {
        bvec2 { value: [c_bool::from_bool(b[0]), c_bool::from_bool(b[1])] }
    }

    /// The truth value of each component.
    pub fn to_bools(&self) -> (b: [bool; 2])
        ensures
            forall|i: int| 0 <= i < 2 ==> (#[trigger] b@[i]) == self.value@[i].truth(),
    {
        [self.value[0].to_bool(), self.value[1].to_bool()]
    }
}

/// A GLSL `bvec3`.
#[allow(non_camel_case_types)]
#[derive(Clone, Copy, PartialEq, Eq, Debug, Hash, Default)]
pub struct bvec3 {
    pub value: [c_bool; 3],
}

impl GenType for bvec3 {
    type Component = c_bool;

    open spec fn coords(&self) -> Seq<c_bool> {
        self.value@
    }

    open spec fn spec_count() -> nat {
        3
    }

    proof fn lemma_count(&self) {
    }

    fn count() -> (n: usize) {
        3
    }

    fn coord(&self, i: usize) -> (c: &c_bool) {
        &self.value[i]
    }

    fn set_coord(&mut self, i: usize, c: c_bool) {
        self.value[i] = c;
    }
}

impl bvec3 {
    /// The vector of the GLSL values of `b`.
    pub fn from_bools(b: [bool; 3]) -> (v: bvec3)
        ensures
            forall|i: int| 0 <= i < 3 ==> (#[trigger] v.value@[i]).0 == (if b@[i] { 1u32 } else { 0u32 }),
    {
        bvec3 { value: [c_bool::from_bool(b[0]), c_bool::from_bool(b[1]), c_bool::from_bool(b[2])] }
    }

    /// The truth value of each component.
    pub fn to_bools(&self) -> (b: [bool; 3])
        ensures
            forall|i: int| 0 <= i < 3 ==> (#[trigger] b@[i]) == self.value@[i].truth(),
    {
        [self.value[0].to_bool(), self.value[1].to_bool(), self.value[2].to_bool()]
    }
}

/// A GLSL `bvec4`.
#[allow(non_camel_case_types)]
#[derive(Clone, Copy, PartialEq, Eq, Debug, Hash, Default)]
pub struct bvec4 {
    pub value: [c_bool; 4],
}

impl GenType for bvec4 {
    type Component = c_bool;

    open spec fn coords(&self) -> Seq<c_bool> {
        self.value@
    }

    open spec fn spec_count() -> nat {
        4
    }

    proof fn lemma_count(&self) {
    }

    fn count() -> (n: usize) {
        4
    }

    fn coord(&self, i: usize) -> (c: &c_bool) {
        &self.value[i]
    }

    fn set_coord(&mut self, i: usize, c: c_bool) {
        self.value[i] = c;
    }
}

impl bvec4 {
    /// The vector of the GLSL values of `b`.
    pub fn from_bools(b: [bool; 4]) -> (v: bvec4)
        ensures
            forall|i: int| 0 <= i < 4 ==> (#[trigger] v.value@[i]).0 == (if b@[i] { 1u32 } else { 0u32 }),
    {
        bvec4 { value: [c_bool::from_bool(b[0]), c_bool::from_bool(b[1]), c_bool::from_bool(b[2]), c_bool::from_bool(b[3])] }
    }

    /// The truth value of each component.
    pub fn to_bools(&self) -> (b: [bool; 4])
        ensures
            forall|i: int| 0 <= i < 4 ==> (#[trigger] b@[i]) == self.value@[i].truth(),
    {
        [self.value[0].to_bool(), self.value[1].to_bool(), self.value[2].to_bool(), self.value[3].to_bool()]
    }
}

impl GenType for u32 {
    type Component = u32;

    open spec fn coords(&self) -> Seq<u32> {
        seq![*self]
    }

    open spec fn spec_count() -> nat {
        1
    }

    proof fn lemma_count(&self) {
    }

    fn count() -> (n: usize) {
        1
    }

    fn coord(&self, i: usize) -> (c: &u32) {
        self
    }

    fn set_coord(&mut self, i: usize, c: u32) {
        *self = c;
        assert(seq![c] =~= seq![*old(self)].update(i as int, c));
    }
}

impl GenType for i32 {
    type Component = i32;

    open spec fn coords(&self) -> Seq<i32> {
        seq![*self]
    }

    open spec fn spec_count() -> nat {
        1
    }

    proof fn lemma_count(&self) {
    }

    fn count() -> (n: usize) {
        1
    }

    fn coord(&self, i: usize) -> (c: &i32) {
        self
    }

    fn set_coord(&mut self, i: usize, c: i32) {
        *self = c;
        assert(seq![c] =~= seq![*old(self)].update(i as int, c));
    }
}

/// A GLSL `uvec2`: 2 unsigned integer components.
#[allow(non_camel_case_types)]
#[derive(Clone, Copy, PartialEq, Eq, Debug, Hash, Default)]
pub struct uvec2 {
    pub value: [u32; 2],
}

impl GenType for uvec2 {
    type Component = u32;

    open spec fn coords(&self) -> Seq<u32> {
        self.value@
    }

    open spec fn spec_count() -> nat {
        2
    }

    proof fn lemma_count(&self) {
    }

    fn count() -> (n: usize) {
        2
    }

    fn coord(&self, i: usize) -> (c: &u32) {
        &self.value[i]
    }

    fn set_coord(&mut self, i: usize, c: u32) {
        self.value[i] = c;
    }
}

/// A GLSL `uvec3`: 3 unsigned integer components.
#[allow(non_camel_case_types)]
#[derive(Clone, Copy, PartialEq, Eq, Debug, Hash, Default)]
pub struct uvec3 {
    pub value: [u32; 3],
}

impl GenType for uvec3 {
    type Component = u32;

    open spec fn coords(&self) -> Seq<u32> {
        self.value@
    }

    open spec fn spec_count() -> nat {
        3
    }

    proof fn lemma_count(&self) {
    }

    fn count() -> (n: usize) {
        3
    }

    fn coord(&self, i: usize) -> (c: &u32) {
        &self.value[i]
    }

    fn set_coord(&mut self, i: usize, c: u32) {
        self.value[i] = c;
    }
}

/// A GLSL `uvec4`: 4 unsigned integer components.
#[allow(non_camel_case_types)]
#[derive(Clone, Copy, PartialEq, Eq, Debug, Hash, Default)]
pub struct uvec4 {
    pub value: [u32; 4],
}

impl GenType for uvec4 {
    type Component = u32;

    open spec fn coords(&self) -> Seq<u32> {
        self.value@
    }

    open spec fn spec_count() -> nat {
        4
    }

    proof fn lemma_count(&self) {
    }

    fn count() -> (n: usize) {
        4
    }

    fn coord(&self, i: usize) -> (c: &u32) {
        &self.value[i]
    }

    fn set_coord(&mut self, i: usize, c: u32) {
        self.value[i] = c;
    }
}

/// A GLSL `ivec2`: 2 signed integer components.
#[allow(non_camel_case_types)]
#[derive(Clone, Copy, PartialEq, Eq, Debug, Hash, Default)]
pub struct ivec2 {
    pub value: [i32; 2],
}

impl GenType for ivec2 {
    type Component = i32;

    open spec fn coords(&self) -> Seq<i32> {
        self.value@
    }

    open spec fn spec_count() -> nat {
        2
    }

    proof fn lemma_count(&self) {
    }

    fn count() -> (n: usize) {
        2
    }

    fn coord(&self, i: usize) -> (c: &i32) {
        &self.value[i]
    }

    fn set_coord(&mut self, i: usize, c: i32) {
        self.value[i] = c;
    }
}

/// A GLSL `ivec3`: 3 signed integer components.
#[allow(non_camel_case_types)]
#[derive(Clone, Copy, PartialEq, Eq, Debug, Hash, Default)]
pub struct ivec3 {
    pub value: [i32; 3],
}

impl GenType for ivec3 {
    type Component = i32;

    open spec fn coords(&self) -> Seq<i32> {
        self.value@
    }

    open spec fn spec_count() -> nat {
        3
    }

    proof fn lemma_count(&self) {
    }

    fn count() -> (n: usize) {
        3
    }

    fn coord(&self, i: usize) -> (c: &i32) {
        &self.value[i]
    }

    fn set_coord(&mut self, i: usize, c: i32) {
        self.value[i] = c;
    }
}

/// A GLSL `ivec4`: 4 signed integer components.
#[allow(non_camel_case_types)]
#[derive(Clone, Copy, PartialEq, Eq, Debug, Hash, Default)]
pub struct ivec4 {
    pub value: [i32; 4],
}

impl GenType for ivec4 {
    type Component = i32;

    open spec fn coords(&self) -> Seq<i32> {
        self.value@
    }

    open spec fn spec_count() -> nat {
        4
    }

    proof fn lemma_count(&self) {
    }

    fn count() -> (n: usize) {
        4
    }

    fn coord(&self, i: usize) -> (c: &i32) {
        &self.value[i]
    }

    fn set_coord(&mut self, i: usize, c: i32) {
        self.value[i] = c;
    }
}

/// Whether some component of `x` is true.
pub open spec fn spec_any(x: Seq<c_bool>) -> bool {
    exists|i: int| 0 <= i < x.len() && (#[trigger] x[i]).truth()
}

/// Whether every component of `x` is true.
pub open spec fn spec_all(x: Seq<c_bool>) -> bool {
    forall|i: int| 0 <= i < x.len() ==> (#[trigger] x[i]).truth()
}

/// The componentwise logical negation of `x`.
pub open spec fn spec_not(x: Seq<c_bool>) -> Seq<c_bool> {
    x.map_values(|c: c_bool| c_bool(if c.truth() { 0u32 } else { 1u32 }))
}

/// True (1) when some component of `x` is true, else false (0).
pub fn any<V: GenType<Component = c_bool>>(x: V) -> (r: c_bool)
    ensures
        r.0 == (if spec_any(x.coords()) { 1u32 } else { 0u32 }),
{
    proof {
        x.lemma_count();
    }
    let n = V::count();
    let mut i: usize = 0;
    while i < n
        invariant
            n == x.coords().len(),
            i <= n,
            forall|j: int| 0 <= j < i ==> !(#[trigger] x.coords()[j]).truth(),
        decreases n - i,
    {
        if x.coord(i).to_bool() {
            return c_bool::from_bool(true);
        }
        i = i + 1;
    }
    c_bool::from_bool(false)
}

/// True (1) when every component of `x` is true, else false (0).
pub fn all<V: GenType<Component = c_bool>>(x: V) -> (r: c_bool)
    ensures
        r.0 == (if spec_all(x.coords()) { 1u32 } else { 0u32 }),
{
    proof {
        x.lemma_count();
    }
    let n = V::count();
    let mut i: usize = 0;
    while i < n
        invariant
            n == x.coords().len(),
            i <= n,
            forall|j: int| 0 <= j < i ==> (#[trigger] x.coords()[j]).truth(),
        decreases n - i,
    {
        if x.coord(i).not().to_bool() {
            return c_bool::from_bool(false);
        }
        i = i + 1;
    }
    c_bool::from_bool(true)
}

/// The componentwise logical negation of `x`.
pub fn not<V: GenType<Component = c_bool>>(x: V) -> (r: V)
    ensures
        r.coords() == spec_not(x.coords()),
{
    proof {
        x.lemma_count();
    }
    let ghost orig = x.coords();
    let mut x = x;
    let n = V::count();
    let mut i: usize = 0;
    while i < n
        invariant
            n == orig.len(),
            x.coords().len() == n,
            i <= n,
            forall|j: int| 0 <= j < i ==> #[trigger] x.coords()[j] == spec_not(orig)[j],
            forall|j: int| i <= j < n ==> #[trigger] x.coords()[j] == orig[j],
        decreases n - i,
    {
        let c = x.coord(i).not();
        x.set_coord(i, c);
        i = i + 1;
    }
    assert(x.coords() =~= spec_not(orig));
    x
}

/// Some component is true exactly when not every component of the negation is true.
pub proof fn lemma_any_not_all(x: Seq<c_bool>)
    ensures
        spec_any(x) == !spec_all(spec_not(x)),
{
    if spec_any(x) {
        let i = choose|i: int| 0 <= i < x.len() && (#[trigger] x[i]).truth();
        assert(!spec_not(x)[i].truth());
    } else {
        assert forall|i: int| 0 <= i < x.len() implies (#[trigger] spec_not(x)[i]).truth() by {
            assert(!x[i].truth());
        }
    }
}

/// Negating twice keeps the truth of every component.
pub proof fn lemma_not_not(x: Seq<c_bool>)
    ensures
        spec_not(spec_not(x)).len() == x.len(),
        forall|i: int| 0 <= i < x.len() ==> (#[trigger] spec_not(spec_not(x))[i]).truth() == x[i].truth(),
{
}

/// Memory layouts of GLSL interface blocks.
pub trait BlockLayout {

}

/// Types that can be laid out in an interface block of layout `B`.
pub trait Layout<B: BlockLayout> {

}

/// Types whose alignment is that of a `vec4`.
pub trait AlignedVec4 {

}

/// The `std140` interface block layout.
#[allow(non_camel_case_types)]
#[derive(Clone, Copy, Debug)]
pub struct std140;

/// The `std430` interface block layout.
#[allow(non_camel_case_types)]
#[derive(Clone, Copy, Debug)]
pub struct std430;

/// The `shared` interface block layout.
#[allow(non_camel_case_types)]
#[derive(Clone, Copy, Debug)]
pub struct shared;

impl BlockLayout for std140 {

}

impl BlockLayout for std430 {

}

impl BlockLayout for shared {

}

/// Whether `t` is the transpose of `m`: entry `i` of column `j` of `t` is entry `j` of
/// column `i` of `m`.
pub open spec fn is_transpose<T, const C: usize, const R: usize>(m: [[T; R]; C], t: [[T; C]; R]) -> bool {
    forall|j: int, i: int| 0 <= j < R && 0 <= i < C ==> (#[trigger] t@[j]@[i]) == m@[i]@[j]
}

/// The transpose of a matrix given as `C` columns of `R` components: a matrix of `R`
/// columns of `C` components. Matrices have at least one row and one column.
pub fn transpose<T: Copy, const C: usize, const R: usize>(m: [[T; R]; C]) -> (t: [[T; C]; R])
    requires
        C >= 1,
        R >= 1,
    ensures
        is_transpose(m, t),
{
    broadcast use vstd::array::group_array_axioms;

    let mut t: [[T; C]; R] = [[m[0][0]; C]; R];
    let mut j: usize = 0;
    while j < R
        invariant
            j <= R,
            forall|jj: int, i: int| 0 <= jj < j && 0 <= i < C ==> (#[trigger] t@[jj]@[i]) == m@[i]@[jj],
        decreases R - j,
    {
        let mut col: [T; C] = t[j];
        let mut i: usize = 0;
        while i < C
            invariant
                j < R,
                i <= C,
                forall|ii: int| 0 <= ii < i ==> (#[trigger] col@[ii]) == m@[ii]@[j as int],
            decreases C - i,
        {
            col[i] = m[i][j];
            i = i + 1;
        }
        let ghost before = t;
        t[j] = col;
        assert forall|jj: int, ii: int| 0 <= jj < j + 1 && 0 <= ii < C implies (#[trigger] t@[jj]@[ii])
            == m@[ii]@[jj] by {
            if jj < j {
                assert(t@[jj] == before@[jj]);
            }
        }
        j = j + 1;
    }
    t
}

/// Transposing twice gives the matrix back.
pub proof fn lemma_transpose_twice<T, const C: usize, const R: usize>(
    m: [[T; R]; C],
    t: [[T; C]; R],
    u: [[T; R]; C],
)
    requires
        is_transpose(m, t),
        is_transpose(t, u),
    ensures
        u == m,
{
    broadcast use vstd::array::group_array_axioms;

    assert forall|i: int| 0 <= i < C implies u@[i] == m@[i] by {
        assert forall|j: int| 0 <= j < R implies u@[i]@[j] == m@[i]@[j] by {
            assert(u@[i]@[j] == t@[j]@[i]);
        }
        assert(u@[i] =~= m@[i]);
    }
    assert(u =~= m);
}

} // verus!
