use openmesh::util::bitvec::BitVec;

fn collect(vec: &BitVec) -> Vec<bool> {
    let mut out = Vec::new();
    let mut iter = vec.iter();
    while let Some(b) = iter.next() {
        out.push(b);
    }
    out
}

#[test]
fn test_constructors() {
    let vec = BitVec::new();
    assert_eq!(vec.len(), 0);
    assert_eq!(vec.as_bytes(), &[]);

    let vec = BitVec::from_bytes(&[0xab, 0xcd]);
    assert_eq!(vec.len(), 16);
    assert_eq!(vec.as_bytes(), &[0xab, 0xcd]);

    let vec = BitVec::from_elem(4, true);
    assert_eq!(vec.len(), 4);
    assert_eq!(vec.as_bytes(), &[0x0f]);

    let vec = BitVec::from_elem(31, true);
    assert_eq!(vec.len(), 31);
    assert_eq!(vec.as_bytes(), &[0xff, 0xff, 0xff, 0x7f]);

    let vec = BitVec::from_elem(4, false);
    assert_eq!(vec.len(), 4);
    assert_eq!(vec.as_bytes(), &[0]);

    let vec = BitVec::from_elem(31, false);
    assert_eq!(vec.len(), 31);
    assert_eq!(vec.as_bytes(), &[0, 0, 0, 0]);
}

#[test]
fn test_with_bytes_mut() {
    let mut vec = BitVec::from_elem(28, false);
    assert_eq!(vec.len(), 28);
    assert_eq!(vec.as_bytes(), &[0, 0, 0, 0]);

    // Fill the underlying buffers with all 1s.
    vec.with_bytes_mut(|slice| {
        assert_eq!(slice.len(), 4);
        for i in 0..4 {
            slice[i] = 0xff;
        }
    });
    // Expect the unused bytes to be zeroed out.
    assert_eq!(vec.as_bytes(), &[0xff, 0xff, 0xff, 0x0f]);
}

#[test]
fn test_into_vec() {
    let mut vec = BitVec::from_bytes(&[0xef, 0xcd, 0xab, 0x89, 0x67, 0x45, 0xe3]);
    vec.pop();
    vec.pop();
    assert_eq!(vec.len(), 54);
    let vec = vec.into_vec();
    assert_eq!(vec, &[0xef, 0xcd, 0xab, 0x89, 0x67, 0x45, 0x23]);
}

#[test]
fn test_get_set() {
    let mut vec = BitVec::from_bytes(&[0xef, 0xa5, 0x71]);
    assert_eq!(vec.as_bytes(), &[0xef, 0xa5, 0x71]);
    assert_eq!(true, vec.get(8));

    vec.set(8, true);
    assert_eq!(true, vec.get(8));
    assert_eq!(vec.as_bytes(), &[0xef, 0xa5, 0x71]);

    vec.set(8, false);
    assert_eq!(false, vec.get(8));
    assert_eq!(vec.as_bytes(), &[0xef, 0xa4, 0x71]);

    vec.set(7, false);
    assert_eq!(false, vec.get(7));
    assert_eq!(vec.as_bytes(), &[0x6f, 0xa4, 0x71]);
}

#[test]
fn test_pop_to_empty() {
    let mut vec = BitVec::new();
    assert_eq!(vec.pop(), None);
    assert_eq!(vec.pop(), None);

    let mut vec = BitVec::from_bytes(&[0b01111111]);
    assert_eq!(vec.pop(), Some(false));
    assert_eq!(vec.len(), 7);
    for _ in 0..7 {
        assert_eq!(vec.pop(), Some(true));
    }
    assert_eq!(vec.len(), 0);
    assert_eq!(vec.pop(), None);
    assert_eq!(vec.pop(), None);
    assert_eq!(vec.len(), 0);
}

#[test]
fn test_pop_push() {
    let mut vec = BitVec::from_bytes(&[0xef, 0xcd, 0xab, 0x89, 0x67, 0x45, 0b11100011]);
    assert_eq!(vec.len(), 56);

    // Pop 2 bits and expect the slice view to show zeros for them.
    assert_eq!(vec.pop(), Some(true));
    assert_eq!(vec.pop(), Some(true));
    assert_eq!(vec.len(), 54);
    assert_eq!(vec.as_bytes(), &[0xef, 0xcd, 0xab, 0x89, 0x67, 0x45, 0b00100011]);

    // Finish popping the byte and expect the slice to be one byte shorter.
    assert_eq!(vec.pop(), Some(true));
    assert_eq!(vec.pop(), Some(false));
    assert_eq!(vec.pop(), Some(false));
    assert_eq!(vec.pop(), Some(false));
    assert_eq!(vec.pop(), Some(true));
    assert_eq!(vec.pop(), Some(true));
    assert_eq!(vec.len(), 48);
    assert_eq!(vec.as_bytes(), &[0xef, 0xcd, 0xab, 0x89, 0x67, 0x45]);

    // Push another byte in.
    for _ in 0..4 {
        vec.push(true);
        vec.push(false);
    }
    assert_eq!(vec.len(), 56);
    assert_eq!(vec.as_bytes(), &[0xef, 0xcd, 0xab, 0x89, 0x67, 0x45, 0b01010101]);
}

#[test]
fn bitvec_test_clear() {
    let mut vec = BitVec::from_bytes(&[0xef, 0xcd, 0xab, 0x89, 0x67, 0x45, 0xe3]);
    assert_eq!(vec.len(), 56);
    vec.clear();
    assert_eq!(vec.len(), 0);
    assert_eq!(vec.as_bytes(), &[]);
}

#[test]
fn bitvec_test_iter() {
    let l = true;
    let o = false;

    assert_eq!(collect(&BitVec::new()), Vec::<bool>::new());

    let mut vec = BitVec::from_bytes(&[0xef, 0xa5, 0x71]);
    // low bit to high bit:       f       e        5       a        1       7
    assert_eq!(collect(&vec), vec![l, l, l, l, o, l, l, l, l, o, l, o, o, l, o, l, l, o, o, o, l, l, l, o]);
    vec.pop();
    vec.pop();

    // low bit to high bit:       f       e        5       a        1     3
    assert_eq!(collect(&vec), vec![l, l, l, l, o, l, l, l, l, o, l, o, o, l, o, l, l, o, o, o, l, l]);
}

#[test]
fn test_eq() {
    let vec1 = BitVec::from_bytes(&[0xef, 0xa5, 0x71]);
    let mut vec2 = BitVec::from_bytes(&[0xef, 0xa5, 0x71]);
    assert!(vec1 == vec2);
    vec2.push(true);
    assert!(vec1 != vec2);
    vec2.pop();
    assert!(vec1 == vec2);
    vec2.set(3, false);
    assert!(vec1 != vec2);
}

#[test]
fn test_clone() {
    let mut vec = BitVec::from_bytes(&[0xef, 0xa5, 0x71]);
    assert!(vec == vec.clone());
    vec.pop();
    vec.pop();
    assert!(vec == vec.clone());
}

#[test]
fn test_debug() {
    assert_eq!(
        BitVec::from_bytes(&[0xef, 0xa5, 0x71]).debug_string(),
        "BitVec{24: 1111.111 1.1..1.1 1...111.}"
    )
}
