//! Typed views of OpenGL buffer objects: where a value lives inside a buffer.
//!
//! A buffer holds an array of `T`. Slices record the buffer name, the number of
//! elements and the byte offset of the first element; they are what the GL calls
//! of the application layer read and write through.

use vstd::prelude::*;
use vstd::layout::size_of;
use core::marker::PhantomData;
use crate::glenum::{GLuint, GLbitfield, MAP_READ_BIT, MAP_WRITE_BIT, MAP_PERSISTENT_BIT, DYNAMIC_STORAGE_BIT, CLIENT_STORAGE_BIT};

verus! {

/// The mapping and storage capabilities that a buffer was created with.
pub trait BufferStorage {
    spec fn map_read() -> bool;

    spec fn map_write() -> bool;

    spec fn dynamic_storage() -> bool;

    spec fn map_persistent() -> bool;

    /// The capabilities as run-time values.
    fn access_flags() -> (f: AccessFlags)
        ensures
            f.map_read == Self::map_read(),
            f.map_write == Self::map_write(),
            f.dynamic_storage == Self::dynamic_storage(),
            f.map_persistent == Self::map_persistent(),
    ;
}

/// The capabilities of a buffer access type, as values.
#[derive(Clone, Copy, PartialEq, Eq, Structural, Hash, Debug, Default)]
pub struct AccessFlags {
    pub map_read: bool,
    pub map_write: bool,
    pub dynamic_storage: bool,
    pub map_persistent: bool,
}

/// Access types of buffers whose contents are initialized.
pub trait Initialized: BufferStorage {

}

/// A view with access `A` may be turned into one with access `B` when every capability of
/// `B` is one of `A`.
pub open spec fn downgrades_to<A: BufferStorage, B: BufferStorage>() -> bool {
    &&& B::map_read() ==> A::map_read()
    &&& B::map_write() ==> A::map_write()
    &&& B::dynamic_storage() ==> A::dynamic_storage()
    &&& B::map_persistent() ==> A::map_persistent()
}

/// Buffer access: read only.
#[derive(Clone, Copy, PartialEq, Eq, Structural, Hash, Debug, Default)]
pub struct ReadOnly;

impl BufferStorage for ReadOnly {
    open spec fn map_read() -> bool {
        false
    }

    open spec fn map_write() -> bool {
        false
    }

    open spec fn dynamic_storage() -> bool {
        false
    }

    open spec fn map_persistent() -> bool {
        false
    }

    fn access_flags() -> (f: AccessFlags) {
        AccessFlags { map_read: false, map_write: false, dynamic_storage: false, map_persistent: false }
    }
}

impl Initialized for ReadOnly {}

/// Buffer access: map for reading.
#[derive(Clone, Copy, PartialEq, Eq, Structural, Hash, Debug, Default)]
pub struct MapRead;

impl BufferStorage for MapRead {
    open spec fn map_read() -> bool {
        true
    }

    open spec fn map_write() -> bool {
        false
    }

    open spec fn dynamic_storage() -> bool {
        false
    }

    open spec fn map_persistent() -> bool {
        false
    }

    fn access_flags() -> (f: AccessFlags) {
        AccessFlags { map_read: true, map_write: false, dynamic_storage: false, map_persistent: false }
    }
}

impl Initialized for MapRead {}

/// Buffer access: map for writing.
#[derive(Clone, Copy, PartialEq, Eq, Structural, Hash, Debug, Default)]
pub struct MapWrite;

impl BufferStorage for MapWrite {
    open spec fn map_read() -> bool {
        false
    }

    open spec fn map_write() -> bool {
        true
    }

    open spec fn dynamic_storage() -> bool {
        false
    }

    open spec fn map_persistent() -> bool {
        false
    }

    fn access_flags() -> (f: AccessFlags) {
        AccessFlags { map_read: false, map_write: true, dynamic_storage: false, map_persistent: false }
    }
}

impl Initialized for MapWrite {}

/// Buffer access: map for reading, map for writing.
#[derive(Clone, Copy, PartialEq, Eq, Structural, Hash, Debug, Default)]
pub struct MapReadWrite;

impl BufferStorage for MapReadWrite {
    open spec fn map_read() -> bool {
        true
    }

    open spec fn map_write() -> bool {
        true
    }

    open spec fn dynamic_storage() -> bool {
        false
    }

    open spec fn map_persistent() -> bool {
        false
    }

    fn access_flags() -> (f: AccessFlags) {
        AccessFlags { map_read: true, map_write: true, dynamic_storage: false, map_persistent: false }
    }
}

impl Initialized for MapReadWrite {}

/// Buffer access: dynamic storage.
#[derive(Clone, Copy, PartialEq, Eq, Structural, Hash, Debug, Default)]
pub struct DynWrite;

impl BufferStorage for DynWrite {
    open spec fn map_read() -> bool {
        false
    }

    open spec fn map_write() -> bool {
        false
    }

    open spec fn dynamic_storage() -> bool {
        true
    }

    open spec fn map_persistent() -> bool {
        false
    }

    fn access_flags() -> (f: AccessFlags) {
        AccessFlags { map_read: false, map_write: false, dynamic_storage: true, map_persistent: false }
    }
}

impl Initialized for DynWrite {}

/// Buffer access: map for reading, dynamic storage.
#[derive(Clone, Copy, PartialEq, Eq, Structural, Hash, Debug, Default)]
pub struct MapReadDynWrite;

impl BufferStorage for MapReadDynWrite {
    open spec fn map_read() -> bool {
        true
    }

    open spec fn map_write() -> bool {
        false
    }

    open spec fn dynamic_storage() -> bool {
        true
    }

    open spec fn map_persistent() -> bool {
        false
    }

    fn access_flags() -> (f: AccessFlags) {
        AccessFlags { map_read: true, map_write: false, dynamic_storage: true, map_persistent: false }
    }
}

impl Initialized for MapReadDynWrite {}

/// Buffer access: map for writing, dynamic storage.
#[derive(Clone, Copy, PartialEq, Eq, Structural, Hash, Debug, Default)]
pub struct Write;

impl BufferStorage for Write {
    open spec fn map_read() -> bool {
        false
    }

    open spec fn map_write() -> bool {
        true
    }

    open spec fn dynamic_storage() -> bool {
        true
    }

    open spec fn map_persistent() -> bool {
        false
    }

    fn access_flags() -> (f: AccessFlags) {
        AccessFlags { map_read: false, map_write: true, dynamic_storage: true, map_persistent: false }
    }
}

impl Initialized for Write {}

/// Buffer access: map for reading, map for writing, dynamic storage.
#[derive(Clone, Copy, PartialEq, Eq, Structural, Hash, Debug, Default)]
pub struct ReadWrite;

impl BufferStorage for ReadWrite {
    open spec fn map_read() -> bool {
        true
    }

    open spec fn map_write() -> bool {
        true
    }

    open spec fn dynamic_storage() -> bool {
        true
    }

    open spec fn map_persistent() -> bool {
        false
    }

    fn access_flags() -> (f: AccessFlags) {
        AccessFlags { map_read: true, map_write: true, dynamic_storage: true, map_persistent: false }
    }
}

impl Initialized for ReadWrite {}

/// Buffer access: map for reading, persistent mapping.
#[derive(Clone, Copy, PartialEq, Eq, Structural, Hash, Debug, Default)]
pub struct PersistMapRead;

impl BufferStorage for PersistMapRead {
    open spec fn map_read() -> bool {
        true
    }

    open spec fn map_write() -> bool {
        false
    }

    open spec fn dynamic_storage() -> bool {
        false
    }

    open spec fn map_persistent() -> bool {
        true
    }

    fn access_flags() -> (f: AccessFlags) {
        AccessFlags { map_read: true, map_write: false, dynamic_storage: false, map_persistent: true }
    }
}

impl Initialized for PersistMapRead {}

/// Buffer access: map for writing, persistent mapping.
#[derive(Clone, Copy, PartialEq, Eq, Structural, Hash, Debug, Default)]
pub struct PersistMapWrite;

impl BufferStorage for PersistMapWrite {
    open spec fn map_read() -> bool {
        false
    }

    open spec fn map_write() -> bool {
        true
    }

    open spec fn dynamic_storage() -> bool {
        false
    }

    open spec fn map_persistent() -> bool {
        true
    }

    fn access_flags() -> (f: AccessFlags) {
        AccessFlags { map_read: false, map_write: true, dynamic_storage: false, map_persistent: true }
    }
}

impl Initialized for PersistMapWrite {}

/// Buffer access: map for reading, map for writing, persistent mapping.
#[derive(Clone, Copy, PartialEq, Eq, Structural, Hash, Debug, Default)]
pub struct PersistMapReadWrite;

impl BufferStorage for PersistMapReadWrite {
    open spec fn map_read() -> bool {
        true
    }

    open spec fn map_write() -> bool {
        true
    }

    open spec fn dynamic_storage() -> bool {
        false
    }

    open spec fn map_persistent() -> bool {
        true
    }

    fn access_flags() -> (f: AccessFlags) {
        AccessFlags { map_read: true, map_write: true, dynamic_storage: false, map_persistent: true }
    }
}

impl Initialized for PersistMapReadWrite {}

/// Buffer access: map for reading, dynamic storage, persistent mapping.
#[derive(Clone, Copy, PartialEq, Eq, Structural, Hash, Debug, Default)]
pub struct PersistReadDynWrite;

impl BufferStorage for PersistReadDynWrite {
    open spec fn map_read() -> bool {
        true
    }

    open spec fn map_write() -> bool {
        false
    }

    open spec fn dynamic_storage() -> bool {
        true
    }

    open spec fn map_persistent() -> bool {
        true
    }

    fn access_flags() -> (f: AccessFlags) {
        AccessFlags { map_read: true, map_write: false, dynamic_storage: true, map_persistent: true }
    }
}

impl Initialized for PersistReadDynWrite {}

/// Buffer access: map for writing, dynamic storage, persistent mapping.
#[derive(Clone, Copy, PartialEq, Eq, Structural, Hash, Debug, Default)]
pub struct PersistWrite;

impl BufferStorage for PersistWrite {
    open spec fn map_read() -> bool {
        false
    }

    open spec fn map_write() -> bool {
        true
    }

    open spec fn dynamic_storage() -> bool {
        true
    }

    open spec fn map_persistent() -> bool {
        true
    }

    fn access_flags() -> (f: AccessFlags) {
        AccessFlags { map_read: false, map_write: true, dynamic_storage: true, map_persistent: true }
    }
}

impl Initialized for PersistWrite {}

/// Buffer access: map for reading, map for writing, dynamic storage, persistent mapping.
#[derive(Clone, Copy, PartialEq, Eq, Structural, Hash, Debug, Default)]
pub struct PersistReadWrite;

impl BufferStorage for PersistReadWrite {
    open spec fn map_read() -> bool {
        true
    }

    open spec fn map_write() -> bool {
        true
    }

    open spec fn dynamic_storage() -> bool {
        true
    }

    open spec fn map_persistent() -> bool {
        true
    }

    fn access_flags() -> (f: AccessFlags) {
        AccessFlags { map_read: true, map_write: true, dynamic_storage: true, map_persistent: true }
    }
}

impl Initialized for PersistReadWrite {}

/// Whether `bit` is set in `flags`.
pub open spec fn has_bit(flags: GLbitfield, bit: GLbitfield) -> bool {
    flags & bit != 0
}

/// The bits that the storage call of a buffer may be given.
pub open spec fn storage_bits() -> GLbitfield {
    MAP_READ_BIT | MAP_WRITE_BIT | MAP_PERSISTENT_BIT | DYNAMIC_STORAGE_BIT | CLIENT_STORAGE_BIT
}

proof fn lemma_storage_bits(a: u32, b: u32, c: u32, d: u32, h: u32)
    requires
        a == 0 || a == 0x1,
        b == 0 || b == 0x2,
        c == 0 || c == 0x40,
        d == 0 || d == 0x100,
    ensures
        (a | b | c | d | (h & 0x200)) & 0x1 != 0 <==> a == 0x1,
        (a | b | c | d | (h & 0x200)) & 0x2 != 0 <==> b == 0x2,
        (a | b | c | d | (h & 0x200)) & 0x40 != 0 <==> c == 0x40,
        (a | b | c | d | (h & 0x200)) & 0x100 != 0 <==> d == 0x100,
        (a | b | c | d | (h & 0x200)) & 0x200 != 0 <==> h & 0x200 != 0,
        (a | b | c | d | (h & 0x200)) & !0x343u32 == 0,
{
    assert((a | b | c | d | (h & 0x200)) & 0x1 != 0 <==> a == 0x1) by (bit_vector)
        requires a == 0 || a == 0x1, b == 0 || b == 0x2, c == 0 || c == 0x40, d == 0 || d == 0x100;
    assert((a | b | c | d | (h & 0x200)) & 0x2 != 0 <==> b == 0x2) by (bit_vector)
        requires a == 0 || a == 0x1, b == 0 || b == 0x2, c == 0 || c == 0x40, d == 0 || d == 0x100;
    assert((a | b | c | d | (h & 0x200)) & 0x40 != 0 <==> c == 0x40) by (bit_vector)
        requires a == 0 || a == 0x1, b == 0 || b == 0x2, c == 0 || c == 0x40, d == 0 || d == 0x100;
    assert((a | b | c | d | (h & 0x200)) & 0x100 != 0 <==> d == 0x100) by (bit_vector)
        requires a == 0 || a == 0x1, b == 0 || b == 0x2, c == 0 || c == 0x40, d == 0 || d == 0x100;
    assert((a | b | c | d | (h & 0x200)) & 0x200 != 0 <==> h & 0x200 != 0) by (bit_vector)
        requires a == 0 || a == 0x1, b == 0 || b == 0x2, c == 0 || c == 0x40, d == 0 || d == 0x100;
    assert((a | b | c | d | (h & 0x200)) & !0x343u32 == 0) by (bit_vector)
        requires a == 0 || a == 0x1, b == 0 || b == 0x2, c == 0 || c == 0x40, d == 0 || d == 0x100;
}

/// The storage flags of a buffer with access `A` created with the hint bits `hint`.
pub open spec fn spec_storage_flags<A: BufferStorage>(hint: Option<GLbitfield>) -> GLbitfield {
    (if A::map_read() { MAP_READ_BIT } else { 0 }) | (if A::map_write() { MAP_WRITE_BIT } else { 0 })
        | (if A::map_persistent() { MAP_PERSISTENT_BIT } else { 0 }) | (if A::dynamic_storage() {
        DYNAMIC_STORAGE_BIT
    } else {
        0
    }) | (match hint {
        Some(h) => h,
        None => 0,
    } & CLIENT_STORAGE_BIT)
}

/// The flags with which storage is created for a buffer with access `A`: one bit for each
/// capability of `A`, and the client-storage bit where the hint carries it. No other bit is set.
pub fn storage_creation_flags<A: BufferStorage>(hint: Option<GLbitfield>) -> (flags: GLbitfield)
    ensures
        flags == spec_storage_flags::<A>(hint),
        has_bit(flags, MAP_READ_BIT) <==> A::map_read(),
        has_bit(flags, MAP_WRITE_BIT) <==> A::map_write(),
        has_bit(flags, MAP_PERSISTENT_BIT) <==> A::map_persistent(),
        has_bit(flags, DYNAMIC_STORAGE_BIT) <==> A::dynamic_storage(),
        has_bit(flags, CLIENT_STORAGE_BIT) <==> (hint is Some && has_bit(hint->0, CLIENT_STORAGE_BIT)),
        flags & !storage_bits() == 0,
{
    let access = A::access_flags();
    let read: u32 = if access.map_read { MAP_READ_BIT } else { 0 };
    let write: u32 = if access.map_write { MAP_WRITE_BIT } else { 0 };
    let persistent: u32 = if access.map_persistent { MAP_PERSISTENT_BIT } else { 0 };
    let dynamic: u32 = if access.dynamic_storage { DYNAMIC_STORAGE_BIT } else { 0 };
    let hinted: u32 = match hint {
        Some(h) => h,
        None => 0,
    };
    proof {
        lemma_storage_bits(read, write, persistent, dynamic, hinted);
        assert(0u32 & 0x200u32 == 0) by (bit_vector);
        assert(storage_bits() == 0x343u32) by (bit_vector);
    }
    read | write | persistent | dynamic | (hinted & CLIENT_STORAGE_BIT)
}

/// A buffer whose access downgrades to `B` is created with every storage flag that one of
/// access `B` would be created with, given the same hint.
pub proof fn lemma_downgrade_flags<A: BufferStorage, B: BufferStorage>(hint: Option<GLbitfield>)
    requires
        downgrades_to::<A, B>(),
    ensures
        spec_storage_flags::<B>(hint) & !spec_storage_flags::<A>(hint) == 0,
{
    let h: u32 = match hint {
        Some(h) => h,
        None => 0,
    };
    let ar: u32 = if A::map_read() { 1 } else { 0 };
    let aw: u32 = if A::map_write() { 2 } else { 0 };
    let ap: u32 = if A::map_persistent() { 0x40 } else { 0 };
    let ad: u32 = if A::dynamic_storage() { 0x100 } else { 0 };
    let br: u32 = if B::map_read() { 1 } else { 0 };
    let bw: u32 = if B::map_write() { 2 } else { 0 };
    let bp: u32 = if B::map_persistent() { 0x40 } else { 0 };
    let bd: u32 = if B::dynamic_storage() { 0x100 } else { 0 };
    assert((br | bw | bp | bd | (h & 0x200)) & !(ar | aw | ap | ad | (h & 0x200)) == 0) by (bit_vector)
        requires
            ar == 0 || ar == 1,
            aw == 0 || aw == 2,
            ap == 0 || ap == 0x40,
            ad == 0 || ad == 0x100,
            br == 0 || br == ar,
            bw == 0 || bw == aw,
            bp == 0 || bp == ap,
            bd == 0 || bd == ad,
    ;
}

/// The abstract content of a buffer or slice: the buffer name, the element count and the
/// byte offset of the first element.
pub struct SliceView {
    pub id: GLuint,
    pub len: nat,
    pub offset: nat,
}

/// The byte size of `len` values of `T`.
pub open spec fn bytes_of<T>(len: nat) -> nat {
    len * size_of::<T>()
}

/// An upper bound that every byte position in a buffer respects.
pub open spec fn fits_in_buffer<T>(offset: nat, len: nat) -> bool {
    offset + bytes_of::<T>(len) <= isize::MAX
}

/// Computes `len * size_of::<T>()` for a range that lies in a buffer.
fn byte_len<T>(offset: usize, len: usize) -> (n: usize)
    requires
        fits_in_buffer::<T>(offset as nat, len as nat),
    ensures
        n == bytes_of::<T>(len as nat),
{
    let size = core::mem::size_of::<T>();
    proof {
        vstd::arithmetic::mul::lemma_mul_nonnegative(len as int, size as int);
    }
    len * size
}

/// An owned OpenGL buffer holding an array of `T` with access `A`.
pub struct Buffer<T, A> {
    id: GLuint,
    len: usize,
    access: PhantomData<(T, A)>,
}

impl<T, A> View for Buffer<T, A> {
    type V = SliceView;

    closed spec fn view(&self) -> SliceView {
        SliceView { id: self.id, len: self.len as nat, offset: 0 }
    }
}

impl<T, A> Buffer<T, A> {
    #[verifier::type_invariant]
    closed spec fn inv(&self) -> bool {
        fits_in_buffer::<T>(0, self.len as nat)
    }

    /// Takes ownership of the buffer named `id`, which holds `len` values of `T`.
    pub fn from_raw_parts(id: GLuint, len: usize) -> (b: Self)
        requires
            fits_in_buffer::<T>(0, len as nat),
        ensures
            b@ == (SliceView { id, len: len as nat, offset: 0 }),
    {
        Buffer { id, len, access: PhantomData }
    }

    /// The name of the buffer.
    pub fn id(&self) -> (r: GLuint)
        ensures
            r == self@.id,
    {
        self.id
    }

    /// The number of elements.
    pub fn len(&self) -> (r: usize)
        ensures
            r == self@.len,
    {
        self.len
    }

    /// The size of the contents in bytes.
    pub fn size(&self) -> (r: usize)
        ensures
            r == bytes_of::<T>(self@.len),
    {
        proof {
            use_type_invariant(self);
        }
        byte_len::<T>(0, self.len)
    }

    /// The alignment of the contents in bytes.
    pub fn align(&self) -> (r: usize)
        ensures
            r == vstd::layout::align_of::<T>(),
    {
        core::mem::align_of::<T>()
    }

    /// A shared view of the whole buffer.
    pub fn as_slice(&self) -> (s: Slice<'_, T, A>)
        ensures
            s@ == self@,
            s@.offset == 0,
    {
        proof {
            use_type_invariant(self);
        }
        Slice { id: self.id, len: self.len, offset: 0, buf: PhantomData }
    }

    /// A mutable view of the whole buffer.
    pub fn as_slice_mut(&mut self) -> (s: SliceMut<'_, T, A>)
        ensures
            s@ == old(self)@,
            s@.offset == 0,
            final(self)@ == old(self)@,
    {
        proof {
            use_type_invariant(&*self);
        }
        SliceMut { id: self.id, len: self.len, offset: 0, buf: PhantomData }
    }

    /// The first `mid` elements and the rest.
    pub fn split_at(&self, mid: usize) -> (r: (Slice<'_, T, A>, Slice<'_, T, A>))
        requires
            mid <= self@.len,
        ensures
            r.0@ == split_left::<T>(self@, mid as nat),
            r.1@ == split_right::<T>(self@, mid as nat),
            r.0@.offset == 0,
    {
        self.as_slice().split_at(mid)
    }

    /// The first `mid` elements and the rest, for writing.
    pub fn split_at_mut(&mut self, mid: usize) -> (r: (SliceMut<'_, T, A>, SliceMut<'_, T, A>))
        requires
            mid <= old(self)@.len,
        ensures
            final(self)@ == old(self)@,
            r.0@ == split_left::<T>(old(self)@, mid as nat),
            r.1@ == split_right::<T>(old(self)@, mid as nat),
            r.0@.offset == 0,
    {
        self.as_slice_mut().split_at_mut(mid)
    }

    /// The first element and the rest, or `None` when the buffer is empty.
    pub fn split_first(&self) -> (r: Option<(Slice<'_, T, A>, Slice<'_, T, A>)>)
        ensures
            self@.len == 0 ==> r is None,
            self@.len > 0 ==> (r matches Some((first, rest)) && first@ == split_left::<T>(self@, 1)
                && rest@ == split_right::<T>(self@, 1)),
    {
        self.as_slice().split_first()
    }

    /// The first element and the rest, for writing, or `None` when the buffer is empty.
    pub fn split_first_mut(&mut self) -> (r: Option<(SliceMut<'_, T, A>, SliceMut<'_, T, A>)>)
        ensures
            final(self)@ == old(self)@,
            old(self)@.len == 0 ==> r is None,
            old(self)@.len > 0 ==> (r matches Some((first, rest)) && first@ == split_left::<T>(
                old(self)@,
                1,
            ) && rest@ == split_right::<T>(old(self)@, 1)),
    {
        self.as_slice_mut().split_first_mut()
    }

    /// The last element and the rest, or `None` when the buffer is empty.
    pub fn split_last(&self) -> (r: Option<(Slice<'_, T, A>, Slice<'_, T, A>)>)
        ensures
            self@.len == 0 ==> r is None,
            self@.len > 0 ==> (r matches Some((last, rest)) && last@ == split_right::<T>(
                self@,
                (self@.len - 1) as nat,
            ) && rest@ == split_left::<T>(self@, (self@.len - 1) as nat)),
    {
        self.as_slice().split_last()
    }

    /// The last element and the rest, for writing, or `None` when the buffer is empty.
    pub fn split_last_mut(&mut self) -> (r: Option<(SliceMut<'_, T, A>, SliceMut<'_, T, A>)>)
        ensures
            final(self)@ == old(self)@,
            old(self)@.len == 0 ==> r is None,
            old(self)@.len > 0 ==> (r matches Some((last, rest)) && last@ == split_right::<T>(
                old(self)@,
                (old(self)@.len - 1) as nat,
            ) && rest@ == split_left::<T>(old(self)@, (old(self)@.len - 1) as nat)),
    {
        self.as_slice_mut().split_last_mut()
    }

    /// The element at `i`.
    pub fn index(&self, i: usize) -> (s: Slice<'_, T, A>)
        requires
            i < self@.len,
        ensures
            s@ == element_at::<T>(self@, i as nat),
    {
        self.as_slice().index(i)
    }

    /// The element at `i`, for writing.
    pub fn index_mut(&mut self, i: usize) -> (s: SliceMut<'_, T, A>)
        requires
            i < old(self)@.len,
        ensures
            final(self)@ == old(self)@,
            s@ == element_at::<T>(old(self)@, i as nat),
    {
        self.as_slice_mut().index_mut(i)
    }
}

/// The view of the first `mid` elements of `s`.
pub open spec fn split_left<T>(s: SliceView, mid: nat) -> SliceView {
    SliceView { id: s.id, len: mid, offset: s.offset }
}

/// The view of the elements of `s` from `mid` on.
pub open spec fn split_right<T>(s: SliceView, mid: nat) -> SliceView {
    SliceView { id: s.id, len: (s.len - mid) as nat, offset: s.offset + bytes_of::<T>(mid) }
}

/// The view of the single element `i` of `s`.
pub open spec fn element_at<T>(s: SliceView, i: nat) -> SliceView {
    SliceView { id: s.id, len: 1, offset: s.offset + bytes_of::<T>(i) }
}

/// A shared view of a range of elements of a buffer.
pub struct Slice<'a, T, A> {
    id: GLuint,
    len: usize,
    offset: usize,
    buf: PhantomData<&'a (T, A)>,
}

impl<'a, T, A> Clone for Slice<'a, T, A> {
    fn clone(&self) -> (s: Self)
        ensures
            s == *self,
    {
        proof {
            use_type_invariant(self);
        }
        Slice { id: self.id, len: self.len, offset: self.offset, buf: PhantomData }
    }
}

impl<'a, T, A> Copy for Slice<'a, T, A> {

}

impl<'a, T, A> View for Slice<'a, T, A> {
    type V = SliceView;

    closed spec fn view(&self) -> SliceView {
        SliceView { id: self.id, len: self.len as nat, offset: self.offset as nat }
    }
}

/// A mutable view of a range of elements of a buffer.
pub struct SliceMut<'a, T, A> {
    id: GLuint,
    len: usize,
    offset: usize,
    buf: PhantomData<&'a mut (T, A)>,
}

impl<'a, T, A> View for SliceMut<'a, T, A> {
    type V = SliceView;

    closed spec fn view(&self) -> SliceView {
        SliceView { id: self.id, len: self.len as nat, offset: self.offset as nat }
    }
}

impl<'a, T, A> Slice<'a, T, A> {
    #[verifier::type_invariant]
    closed spec fn inv(&self) -> bool {
        fits_in_buffer::<T>(self.offset as nat, self.len as nat)
    }

    /// A view of `len` elements of buffer `id` starting at byte `offset`.
    pub fn from_raw_parts(id: GLuint, len: usize, offset: usize) -> (s: Self)
        requires
            fits_in_buffer::<T>(offset as nat, len as nat),
        ensures
            s@ == (SliceView { id, len: len as nat, offset: offset as nat }),
    {
        Slice { id, len, offset, buf: PhantomData }
    }

    /// The name of the buffer.
    pub fn id(&self) -> (r: GLuint)
        ensures
            r == self@.id,
    {
        self.id
    }

    /// The size in bytes.
    pub fn size(&self) -> (r: usize)
        ensures
            r == bytes_of::<T>(self@.len),
    {
        proof {
            use_type_invariant(self);
        }
        byte_len::<T>(self.offset, self.len)
    }

    /// The alignment of the elements in bytes.
    pub fn align(&self) -> (r: usize)
        ensures
            r == vstd::layout::align_of::<T>(),
    {
        core::mem::align_of::<T>()
    }

    /// The byte offset of the first element in the buffer.
    pub fn offset(&self) -> (r: usize)
        ensures
            r == self@.offset,
    {
        self.offset
    }

    /// The number of elements.
    pub fn len(&self) -> (r: usize)
        ensures
            r == self@.len,
    {
        self.len
    }

    /// The same range with access `B`, which may ask for no capability that `A` lacks.
    pub fn downgrade<B>(self) -> (s: Slice<'a, T, B>)
        where A: BufferStorage, B: BufferStorage,
        requires
            downgrades_to::<A, B>(),
        ensures
            s@ == self@,
    {
        proof {
            use_type_invariant(&self);
        }
        Slice { id: self.id, len: self.len, offset: self.offset, buf: PhantomData }
    }

    /// The first `mid` elements and the rest.
    pub fn split_at(self, mid: usize) -> (r: (Slice<'a, T, A>, Slice<'a, T, A>))
        requires
            mid <= self@.len,
        ensures
            r.0@ == split_left::<T>(self@, mid as nat),
            r.1@ == split_right::<T>(self@, mid as nat),
    {
        proof {
            use_type_invariant(&self);
            lemma_split_fits::<T>(self.offset as nat, self.len as nat, mid as nat);
        }
        let skip = byte_len::<T>(self.offset, mid);
        (
            Slice { id: self.id, len: mid, offset: self.offset, buf: PhantomData },
            Slice { id: self.id, len: self.len - mid, offset: self.offset + skip, buf: PhantomData },
        )
    }

    /// The first element and the rest, or `None` when the slice is empty.
    pub fn split_first(self) -> (r: Option<(Slice<'a, T, A>, Slice<'a, T, A>)>)
        ensures
            self@.len == 0 ==> r is None,
            self@.len > 0 ==> (r matches Some((first, rest)) && first@ == split_left::<T>(self@, 1)
                && rest@ == split_right::<T>(self@, 1)),
    {
        if self.len == 0 {
            None
        } else {
            let (first, rest) = self.split_at(1);
            Some((first.index(0), rest))
        }
    }

    /// The last element and the rest, or `None` when the slice is empty.
    pub fn split_last(self) -> (r: Option<(Slice<'a, T, A>, Slice<'a, T, A>)>)
        ensures
            self@.len == 0 ==> r is None,
            self@.len > 0 ==> (r matches Some((last, rest)) && last@ == split_right::<T>(
                self@,
                (self@.len - 1) as nat,
            ) && rest@ == split_left::<T>(self@, (self@.len - 1) as nat)),
    {
        if self.len == 0 {
            None
        } else {
            let mid = self.len - 1;
            let (rest, last) = self.split_at(mid);
            Some((last.index(0), rest))
        }
    }

    /// The element at `i`.
    pub fn index(self, i: usize) -> (s: Slice<'a, T, A>)
        requires
            i < self@.len,
        ensures
            s@ == element_at::<T>(self@, i as nat),
    {
        proof {
            use_type_invariant(&self);
            lemma_split_fits::<T>(self.offset as nat, self.len as nat, i as nat);
            lemma_split_fits::<T>(
                self.offset as nat + bytes_of::<T>(i as nat),
                (self.len - i) as nat,
                1,
            );
        }
        let skip = byte_len::<T>(self.offset, i);
        Slice { id: self.id, len: 1, offset: self.offset + skip, buf: PhantomData }
    }

    /// The mutable view of the same range.
    fn into_mut(self) -> (s: SliceMut<'a, T, A>)
        ensures
            s@ == self@,
    {
        proof {
            use_type_invariant(&self);
        }
        SliceMut { id: self.id, len: self.len, offset: self.offset, buf: PhantomData }
    }
}

/// Splitting a range that lies in a buffer gives two ranges that lie in it.
proof fn lemma_split_fits<T>(offset: nat, len: nat, mid: nat)
    requires
        fits_in_buffer::<T>(offset, len),
        mid <= len,
    ensures
        fits_in_buffer::<T>(offset, mid),
        fits_in_buffer::<T>(offset + bytes_of::<T>(mid), (len - mid) as nat),
        bytes_of::<T>(mid) + bytes_of::<T>((len - mid) as nat) == bytes_of::<T>(len),
{
    let s = size_of::<T>();
    vstd::arithmetic::mul::lemma_mul_inequality(mid as int, len as int, s as int);
    vstd::arithmetic::mul::lemma_mul_is_distributive_sub_other_way(s as int, len as int, mid as int);
}

impl<'a, T, A> SliceMut<'a, T, A> {
    #[verifier::type_invariant]
    closed spec fn inv(&self) -> bool {
        fits_in_buffer::<T>(self.offset as nat, self.len as nat)
    }

    /// A mutable view of `len` elements of buffer `id` starting at byte `offset`.
    pub fn from_raw_parts(id: GLuint, len: usize, offset: usize) -> (s: Self)
        requires
            fits_in_buffer::<T>(offset as nat, len as nat),
        ensures
            s@ == (SliceView { id, len: len as nat, offset: offset as nat }),
    {
        SliceMut { id, len, offset, buf: PhantomData }
    }

    /// The name of the buffer.
    pub fn id(&self) -> (r: GLuint)
        ensures
            r == self@.id,
    {
        self.id
    }

    /// The size in bytes.
    pub fn size(&self) -> (r: usize)
        ensures
            r == bytes_of::<T>(self@.len),
    {
        proof {
            use_type_invariant(self);
        }
        byte_len::<T>(self.offset, self.len)
    }

    /// The alignment of the elements in bytes.
    pub fn align(&self) -> (r: usize)
        ensures
            r == vstd::layout::align_of::<T>(),
    {
        core::mem::align_of::<T>()
    }

    /// The byte offset of the first element in the buffer.
    pub fn offset(&self) -> (r: usize)
        ensures
            r == self@.offset,
    {
        self.offset
    }

    /// The number of elements.
    pub fn len(&self) -> (r: usize)
        ensures
            r == self@.len,
    {
        self.len
    }

    /// A shared view of the same range.
    pub fn as_immut(&self) -> (s: Slice<'_, T, A>)
        ensures
            s@ == self@,
    {
        proof {
            use_type_invariant(self);
        }
        Slice { id: self.id, len: self.len, offset: self.offset, buf: PhantomData }
    }

    /// A shorter-lived mutable view of the same range.
    pub fn as_mut(&mut self) -> (s: SliceMut<'_, T, A>)
        ensures
            s@ == old(self)@,
            final(self)@ == old(self)@,
    {
        proof {
            use_type_invariant(&*self);
        }
        SliceMut { id: self.id, len: self.len, offset: self.offset, buf: PhantomData }
    }

    /// The same range with access `B`, which may ask for no capability that `A` lacks.
    pub fn downgrade<B>(self) -> (s: SliceMut<'a, T, B>)
        where A: BufferStorage, B: BufferStorage,
        requires
            downgrades_to::<A, B>(),
        ensures
            s@ == self@,
    {
        proof {
            use_type_invariant(&self);
        }
        SliceMut { id: self.id, len: self.len, offset: self.offset, buf: PhantomData }
    }

    fn into_immut(self) -> (s: Slice<'a, T, A>)
        ensures
            s@ == self@,
    {
        proof {
            use_type_invariant(&self);
        }
        Slice { id: self.id, len: self.len, offset: self.offset, buf: PhantomData }
    }

    /// The first `mid` elements and the rest, as shared views.
    pub fn split_at(self, mid: usize) -> (r: (Slice<'a, T, A>, Slice<'a, T, A>))
        requires
            mid <= self@.len,
        ensures
            r.0@ == split_left::<T>(self@, mid as nat),
            r.1@ == split_right::<T>(self@, mid as nat),
    {
        self.into_immut().split_at(mid)
    }

    /// The first `mid` elements and the rest.
    pub fn split_at_mut(self, mid: usize) -> (r: (SliceMut<'a, T, A>, SliceMut<'a, T, A>))
        requires
            mid <= self@.len,
        ensures
            r.0@ == split_left::<T>(self@, mid as nat),
            r.1@ == split_right::<T>(self@, mid as nat),
    {
        let (s1, s2) = self.split_at(mid);
        (s1.into_mut(), s2.into_mut())
    }

    /// The first element and the rest, as shared views, or `None` when the slice is empty.
    pub fn split_first(self) -> (r: Option<(Slice<'a, T, A>, Slice<'a, T, A>)>)
        ensures
            self@.len == 0 ==> r is None,
            self@.len > 0 ==> (r matches Some((first, rest)) && first@ == split_left::<T>(self@, 1)
                && rest@ == split_right::<T>(self@, 1)),
    {
        self.into_immut().split_first()
    }

    /// The first element and the rest, or `None` when the slice is empty.
    pub fn split_first_mut(self) -> (r: Option<(SliceMut<'a, T, A>, SliceMut<'a, T, A>)>)
        ensures
            self@.len == 0 ==> r is None,
            self@.len > 0 ==> (r matches Some((first, rest)) && first@ == split_left::<T>(self@, 1)
                && rest@ == split_right::<T>(self@, 1)),
    {
        match self.split_first() {
            Some((s1, s2)) => Some((s1.into_mut(), s2.into_mut())),
            None => None,
        }
    }

    /// The last element and the rest, as shared views, or `None` when the slice is empty.
    pub fn split_last(self) -> (r: Option<(Slice<'a, T, A>, Slice<'a, T, A>)>)
        ensures
            self@.len == 0 ==> r is None,
            self@.len > 0 ==> (r matches Some((last, rest)) && last@ == split_right::<T>(
                self@,
                (self@.len - 1) as nat,
            ) && rest@ == split_left::<T>(self@, (self@.len - 1) as nat)),
    {
        self.into_immut().split_last()
    }

    /// The last element and the rest, or `None` when the slice is empty.
    pub fn split_last_mut(self) -> (r: Option<(SliceMut<'a, T, A>, SliceMut<'a, T, A>)>)
        ensures
            self@.len == 0 ==> r is None,
            self@.len > 0 ==> (r matches Some((last, rest)) && last@ == split_right::<T>(
                self@,
                (self@.len - 1) as nat,
            ) && rest@ == split_left::<T>(self@, (self@.len - 1) as nat)),
    {
        match self.split_last() {
            Some((s1, s2)) => Some((s1.into_mut(), s2.into_mut())),
            None => None,
        }
    }

    /// The element at `i`, as a shared view.
    pub fn index(self, i: usize) -> (s: Slice<'a, T, A>)
        requires
            i < self@.len,
        ensures
            s@ == element_at::<T>(self@, i as nat),
    {
        self.into_immut().index(i)
    }

    /// The element at `i`.
    pub fn index_mut(self, i: usize) -> (s: SliceMut<'a, T, A>)
        requires
            i < self@.len,
        ensures
            s@ == element_at::<T>(self@, i as nat),
    {
        self.into_immut().index(i).into_mut()
    }
}

/// A buffer's contents start at its first byte: its view, and that of the slice of all of
/// it, has offset 0.
pub proof fn lemma_buffer_starts_at_zero<T, A>(b: Buffer<T, A>)
    ensures
        b@.offset == 0,
{
}

/// Splitting a slice at `mid` gives two ranges of the same buffer that together cover
/// it: the right one starts where the left one ends, and the element counts add up.
pub proof fn lemma_split_partitions<T>(s: SliceView, mid: nat)
    requires
        mid <= s.len,
    ensures
        split_left::<T>(s, mid).id == s.id && split_right::<T>(s, mid).id == s.id,
        split_left::<T>(s, mid).offset == s.offset,
        split_right::<T>(s, mid).offset == split_left::<T>(s, mid).offset + bytes_of::<T>(mid),
        split_left::<T>(s, mid).len + split_right::<T>(s, mid).len == s.len,
        bytes_of::<T>(split_left::<T>(s, mid).len) + bytes_of::<T>(split_right::<T>(s, mid).len)
            == bytes_of::<T>(s.len),
{
    let sz = size_of::<T>();
    vstd::arithmetic::mul::lemma_mul_is_distributive_sub_other_way(sz as int, s.len as int, mid as int);
}

/// The element at `i` is the first element of the slice split at `i`.
pub proof fn lemma_index_is_split<T>(s: SliceView, i: nat)
    requires
        i < s.len,
    ensures
        element_at::<T>(s, i) == split_left::<T>(split_right::<T>(s, i), 1),
{
}

} // verus!
