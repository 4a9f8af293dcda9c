use openmesh::util::bitvec::BitVec;
use openmesh::util::index::{IndexSet, IndexSetUnchecked, IndexUnchecked};

#[test]
fn test_index_vec() {
    let mut vec = vec![1, 2, 3];
    assert_eq!(*vec.index_unchecked(0), 1);
    assert_eq!(*vec.index_unchecked(1), 2);
    assert_eq!(*vec.index_unchecked(2), 3);

    vec.index_set_unchecked(0, 5);
    assert_eq!(*vec.index_unchecked(0), 5);
    vec.index_set_unchecked(2, 7);
    assert_eq!(*vec.index_unchecked(2), 7);
    assert_eq!(vec, vec![5, 2, 7]);

    vec.index_set(0, 1);
    assert_eq!(vec[0], 1);
    vec.index_set(2, 3);
    assert_eq!(vec[2], 3);
    assert_eq!(vec, vec![1, 2, 3]);
}

#[test]
fn test_index_bitvec() {
    let mut vec = BitVec::from_bytes(&[0xef, 0xa5, 0x71]);
    assert_eq!(vec.get(0), true);
    assert_eq!(vec.get(4), false);
    assert_eq!(vec.get(15), true);
    assert_eq!(*vec.index_unchecked(0), true);
    assert_eq!(*vec.index_unchecked(4), false);
    assert_eq!(*vec.index_unchecked(15), true);

    vec.index_set_unchecked(0, false);
    assert_eq!(*vec.index_unchecked(0), false);
    vec.index_set_unchecked(15, false);
    assert_eq!(*vec.index_unchecked(15), false);
    assert_eq!(vec.as_bytes(), &[0xee, 0x25, 0x71]);

    vec.index_set(0, true);
    assert_eq!(vec.get(0), true);
    vec.index_set(15, true);
    assert_eq!(vec.get(15), true);
    assert_eq!(vec.as_bytes(), &[0xef, 0xa5, 0x71]);
}
