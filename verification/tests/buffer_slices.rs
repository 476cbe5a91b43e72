use gl_struct::buffer::{
    storage_creation_flags, Buffer, DynWrite, MapRead, PersistReadWrite, ReadOnly, ReadWrite,
    Slice, SliceMut,
};
use gl_struct::glenum::{
    CLIENT_STORAGE_BIT, DYNAMIC_STORAGE_BIT, MAP_PERSISTENT_BIT, MAP_READ_BIT, MAP_WRITE_BIT,
};

#[test]
fn buffer_reports_its_contents() {
    let buf: Buffer<u32, ReadWrite> = Buffer::from_raw_parts(7, 10);
    assert_eq!(buf.id(), 7);
    assert_eq!(buf.len(), 10);
    assert_eq!(buf.size(), 40);
    assert_eq!(buf.align(), 4);
    let s = buf.as_slice();
    assert_eq!((s.id(), s.len(), s.offset(), s.size()), (7, 10, 0, 40));
}

#[test]
fn split_at_partitions_bytes() {
    let buf: Buffer<u32, ReadOnly> = Buffer::from_raw_parts(3, 10);
    let (left, right) = buf.split_at(4);
    assert_eq!((left.len(), left.offset()), (4, 0));
    assert_eq!((right.len(), right.offset()), (6, 16));
    assert_eq!(left.size() + right.size(), buf.size());
    let (a, b) = right.split_at(6);
    assert_eq!((a.len(), a.offset()), (6, 16));
    assert_eq!((b.len(), b.offset()), (0, 40));
}

#[test]
fn split_first_and_last() {
    let buf: Buffer<u16, ReadOnly> = Buffer::from_raw_parts(1, 3);
    let (first, rest) = buf.split_first().unwrap();
    assert_eq!((first.len(), first.offset()), (1, 0));
    assert_eq!((rest.len(), rest.offset()), (2, 2));
    let (last, init) = buf.split_last().unwrap();
    assert_eq!((last.len(), last.offset()), (1, 4));
    assert_eq!((init.len(), init.offset()), (2, 0));

    let empty: Buffer<u16, ReadOnly> = Buffer::from_raw_parts(2, 0);
    assert!(empty.split_first().is_none());
    assert!(empty.split_last().is_none());
}

#[test]
fn index_selects_one_element() {
    let buf: Buffer<u64, ReadOnly> = Buffer::from_raw_parts(9, 5);
    let e = buf.index(3);
    assert_eq!((e.id(), e.len(), e.offset(), e.size()), (9, 1, 24, 8));
    let s: Slice<u64, ReadOnly> = Slice::from_raw_parts(9, 4, 8);
    let e = s.index(2);
    assert_eq!(e.offset(), 24);
}

#[test]
fn mutable_slices_split_like_shared_ones() {
    let mut buf: Buffer<u32, ReadWrite> = Buffer::from_raw_parts(5, 8);
    let (a, b) = buf.split_at_mut(3);
    assert_eq!((a.len(), a.offset()), (3, 0));
    assert_eq!((b.len(), b.offset()), (5, 12));
    let (x, y) = b.split_first_mut().unwrap();
    assert_eq!((x.offset(), y.offset(), y.len()), (12, 16, 4));
    let m: SliceMut<u32, ReadWrite> = SliceMut::from_raw_parts(5, 4, 16);
    let last = m.split_last_mut().unwrap().0;
    assert_eq!(last.offset(), 28);
    let e = buf.index_mut(7);
    assert_eq!(e.offset(), 28);
}

#[test]
fn downgrade_keeps_the_view() {
    let s: Slice<u8, ReadWrite> = Slice::from_raw_parts(4, 16, 32);
    let d: Slice<u8, ReadOnly> = s.downgrade();
    assert_eq!((d.id(), d.len(), d.offset()), (4, 16, 32));
}

#[test]
fn storage_flags_follow_access() {
    assert_eq!(storage_creation_flags::<ReadOnly>(None), 0);
    assert_eq!(storage_creation_flags::<MapRead>(None), MAP_READ_BIT);
    assert_eq!(storage_creation_flags::<DynWrite>(None), DYNAMIC_STORAGE_BIT);
    assert_eq!(
        storage_creation_flags::<ReadWrite>(None),
        MAP_READ_BIT | MAP_WRITE_BIT | DYNAMIC_STORAGE_BIT
    );
    assert_eq!(
        storage_creation_flags::<PersistReadWrite>(Some(CLIENT_STORAGE_BIT | MAP_READ_BIT)),
        MAP_READ_BIT | MAP_WRITE_BIT | DYNAMIC_STORAGE_BIT | MAP_PERSISTENT_BIT | CLIENT_STORAGE_BIT
    );
    assert_eq!(storage_creation_flags::<ReadOnly>(Some(0xFFFF_FFFF)), CLIENT_STORAGE_BIT);
}
