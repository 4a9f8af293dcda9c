use openmesh::io::binary::{Binary, Endian, UNKNOWN_SIZE};
use openmesh::mesh::status::{
    Status, DELETED, FEATURE, FIXED_NON_MANIFOLD, HIDDEN, LOCKED, SELECTED, TAGGED, TAGGED2,
};
use openmesh::util::bitvec::BitVec;
use Endian::{Big, Little};

fn check_store<T: Binary>(endian: Endian, value: &T, expected_bytes: &[u8]) {
    let mut buf = Vec::<u8>::new();
    assert_eq!(value.size_of_value(), expected_bytes.len());
    if <T as Binary>::size_of_type() != UNKNOWN_SIZE {
        assert_eq!(value.size_of_value(), <T as Binary>::size_of_type());
    }
    assert_eq!(value.store(&mut buf, endian).unwrap(), expected_bytes.len());
    assert_eq!(buf, expected_bytes);
}

fn check_restore<F, T>(endian: Endian, bytes: &[u8], new: F, expected_value: &T)
where
    T: Binary + std::fmt::Debug + PartialEq<T>,
    F: FnOnce() -> T,
{
    let mut value = new();
    assert_eq!(value.restore(bytes, endian).unwrap(), bytes.len());
    assert_eq!(&value, expected_value);
}

fn check_restore_bitvec(endian: Endian, bytes: &[u8], new: BitVec, expected_value: &BitVec) {
    let mut value = new;
    assert_eq!(value.restore(bytes, endian).unwrap(), bytes.len());
    assert!(&value == expected_value);
}

fn store_primitives() {
    check_store(Little, &0x01u8, &[0x01]);
    check_store(Big, &0x01u8, &[0x01]);
    check_store(Little, &0x0123u16, &[0x23, 0x01]);
    check_store(Big, &0x0123u16, &[0x01, 0x23]);
    check_store(Little, &0x01234567u32, &[0x67, 0x45, 0x23, 0x01]);
    check_store(Big, &0x01234567u32, &[0x01, 0x23, 0x45, 0x67]);
    check_store(Little, &0x0123456789abcdefu64, &[0xef, 0xcd, 0xab, 0x89, 0x67, 0x45, 0x23, 0x01]);
    check_store(Big, &0x0123456789abcdefu64, &[0x01, 0x23, 0x45, 0x67, 0x89, 0xab, 0xcd, 0xef]);
    check_store(Little, &0x01i8, &[0x01]);
    check_store(Big, &0x01i8, &[0x01]);
    check_store(Little, &0x0123i16, &[0x23, 0x01]);
    check_store(Big, &0x0123i16, &[0x01, 0x23]);
    check_store(Little, &0x01234567i32, &[0x67, 0x45, 0x23, 0x01]);
    check_store(Big, &0x01234567i32, &[0x01, 0x23, 0x45, 0x67]);
    check_store(Little, &0x0123456789abcdefi64, &[0xef, 0xcd, 0xab, 0x89, 0x67, 0x45, 0x23, 0x01]);
    check_store(Big, &0x0123456789abcdefi64, &[0x01, 0x23, 0x45, 0x67, 0x89, 0xab, 0xcd, 0xef]);

    // Floating-point values are stored by their bit patterns.
    let float32 = f32::from_bits(0x3e124925u32);
    let float64 = f64::from_bits(0x3e12492589abcdefu64);
    check_store(Little, &float32.to_bits(), &[0x25, 0x49, 0x12, 0x3e]);
    check_store(Big, &float32.to_bits(), &[0x3e, 0x12, 0x49, 0x25]);
    check_store(Little, &float64.to_bits(), &[0xef, 0xcd, 0xab, 0x89, 0x25, 0x49, 0x12, 0x3e]);
    check_store(Big, &float64.to_bits(), &[0x3e, 0x12, 0x49, 0x25, 0x89, 0xab, 0xcd, 0xef]);
}

fn restore_primitives() {
    check_restore(Little, &[0x01], || 0, &0x01u8);
    check_restore(Big, &[0x01], || 0, &0x01u8);
    check_restore(Little, &[0x23, 0x01], || 0, &0x0123u16);
    check_restore(Big, &[0x01, 0x23], || 0, &0x0123u16);
    check_restore(Little, &[0x67, 0x45, 0x23, 0x01], || 0, &0x01234567u32);
    check_restore(Big, &[0x01, 0x23, 0x45, 0x67], || 0, &0x01234567u32);
    check_restore(Little, &[0xef, 0xcd, 0xab, 0x89, 0x67, 0x45, 0x23, 0x01], || 0, &0x0123456789abcdefu64);
    check_restore(Big, &[0x01, 0x23, 0x45, 0x67, 0x89, 0xab, 0xcd, 0xef], || 0, &0x0123456789abcdefu64);
    check_restore(Little, &[0x01], || 0, &0x01i8);
    check_restore(Big, &[0x01], || 0, &0x01i8);
    check_restore(Little, &[0x23, 0x01], || 0, &0x0123i16);
    check_restore(Big, &[0x01, 0x23], || 0, &0x0123i16);
    check_restore(Little, &[0x67, 0x45, 0x23, 0x01], || 0, &0x01234567i32);
    check_restore(Big, &[0x01, 0x23, 0x45, 0x67], || 0, &0x01234567i32);
    check_restore(Little, &[0xef, 0xcd, 0xab, 0x89, 0x67, 0x45, 0x23, 0x01], || 0, &0x0123456789abcdefi64);
    check_restore(Big, &[0x01, 0x23, 0x45, 0x67, 0x89, 0xab, 0xcd, 0xef], || 0, &0x0123456789abcdefi64);

    // Floating-point values are restored from their bit patterns.
    let float32 = f32::from_bits(0x3e124925u32);
    let float64 = f64::from_bits(0x3e12492589abcdefu64);
    let mut bits32 = 0u32;
    assert_eq!(bits32.restore(&[0x25, 0x49, 0x12, 0x3e], Little).unwrap(), 4);
    assert_eq!(f32::from_bits(bits32), float32);
    assert_eq!(bits32.restore(&[0x3e, 0x12, 0x49, 0x25], Big).unwrap(), 4);
    assert_eq!(f32::from_bits(bits32), float32);
    let mut bits64 = 0u64;
    assert_eq!(bits64.restore(&[0xef, 0xcd, 0xab, 0x89, 0x25, 0x49, 0x12, 0x3e], Little).unwrap(), 8);
    assert_eq!(f64::from_bits(bits64), float64);
    assert_eq!(bits64.restore(&[0x3e, 0x12, 0x49, 0x25, 0x89, 0xab, 0xcd, 0xef], Big).unwrap(), 8);
    assert_eq!(f64::from_bits(bits64), float64);
}

fn store_primitive_vecs() {
    check_store(Little, &Vec::<u8>::new(), &[]);
    check_store(Big, &Vec::<u8>::new(), &[]);
    check_store(Little, &Vec::<u32>::new(), &[]);
    check_store(Big, &Vec::<u32>::new(), &[]);
    check_store(Little, &vec![0x01u8, 0xac], &[0x01, 0xac]);
    check_store(Big, &vec![0x01u8, 0xac], &[0x01, 0xac]);
    check_store(Little, &vec![0x01i8, 0x7c], &[0x01, 0x7c]);
    check_store(Big, &vec![0x01i8, 0x7c], &[0x01, 0x7c]);
    check_store(Little, &vec![0x01234567u32, 0x13570246], &[0x67, 0x45, 0x23, 0x01, 0x46, 0x02, 0x57, 0x13]);
    check_store(Big, &vec![0x01234567u32, 0x13570246], &[0x01, 0x23, 0x45, 0x67, 0x13, 0x57, 0x02, 0x46]);
    check_store(Little, &vec![0x01234567i32, 0x13570246], &[0x67, 0x45, 0x23, 0x01, 0x46, 0x02, 0x57, 0x13]);
    check_store(Big, &vec![0x01234567i32, 0x13570246], &[0x01, 0x23, 0x45, 0x67, 0x13, 0x57, 0x02, 0x46]);

    let vecf = vec![0x3e124925u32, 0x6537851a];
    let vecd = vec![0x3e12492589abcdefu64, 0x3fae1e1f3ac15743];
    check_store(Little, &vecf, &[0x25, 0x49, 0x12, 0x3e, 0x1a, 0x85, 0x37, 0x65]);
    check_store(Big, &vecf, &[0x3e, 0x12, 0x49, 0x25, 0x65, 0x37, 0x85, 0x1a]);
    check_store(Little, &vecd, &[0xef, 0xcd, 0xab, 0x89, 0x25, 0x49, 0x12, 0x3e, 0x43, 0x57, 0xc1, 0x3a, 0x1f, 0x1e, 0xae, 0x3f]);
    check_store(Big, &vecd, &[0x3e, 0x12, 0x49, 0x25, 0x89, 0xab, 0xcd, 0xef, 0x3f, 0xae, 0x1e, 0x1f, 0x3a, 0xc1, 0x57, 0x43]);
}

fn restore_primitive_vecs() {
    check_restore(Little, &[], Vec::new, &Vec::<u8>::new());
    check_restore(Big, &[], Vec::new, &Vec::<u8>::new());
    check_restore(Little, &[], Vec::new, &Vec::<u32>::new());
    check_restore(Big, &[], Vec::new, &Vec::<u32>::new());
    check_restore(Little, &[0x01, 0xac], || vec![0, 0], &vec![0x01u8, 0xac]);
    check_restore(Big, &[0x01, 0xac], || vec![0, 0], &vec![0x01u8, 0xac]);
    check_restore(Little, &[0x01, 0x7c], || vec![0, 0], &vec![0x01i8, 0x7c]);
    check_restore(Big, &[0x01, 0x7c], || vec![0, 0], &vec![0x01i8, 0x7c]);
    check_restore(Little, &[0x67, 0x45, 0x23, 0x01, 0x46, 0x02, 0x57, 0x13], || vec![0, 0], &vec![0x01234567u32, 0x13570246]);
    check_restore(Big, &[0x01, 0x23, 0x45, 0x67, 0x13, 0x57, 0x02, 0x46], || vec![0, 0], &vec![0x01234567u32, 0x13570246]);
    check_restore(Little, &[0x67, 0x45, 0x23, 0x01, 0x46, 0x02, 0x57, 0x13], || vec![0, 0], &vec![0x01234567i32, 0x13570246]);
    check_restore(Big, &[0x01, 0x23, 0x45, 0x67, 0x13, 0x57, 0x02, 0x46], || vec![0, 0], &vec![0x01234567i32, 0x13570246]);

    let vecf = vec![0x3e124925u32, 0x6537851a];
    let vecd = vec![0x3e12492589abcdefu64, 0x3fae1e1f3ac15743];
    check_restore(Little, &[0x25, 0x49, 0x12, 0x3e, 0x1a, 0x85, 0x37, 0x65], || vec![0, 0], &vecf);
    check_restore(Big, &[0x3e, 0x12, 0x49, 0x25, 0x65, 0x37, 0x85, 0x1a], || vec![0, 0], &vecf);
    check_restore(Little, &[0xef, 0xcd, 0xab, 0x89, 0x25, 0x49, 0x12, 0x3e, 0x43, 0x57, 0xc1, 0x3a, 0x1f, 0x1e, 0xae, 0x3f], || vec![0, 0], &vecd);
    check_restore(Big, &[0x3e, 0x12, 0x49, 0x25, 0x89, 0xab, 0xcd, 0xef, 0x3f, 0xae, 0x1e, 0x1f, 0x3a, 0xc1, 0x57, 0x43], || vec![0, 0], &vecd);
}

fn store_strings() {
    check_store(Little, &String::new(), &[0, 0]);
    check_store(Big, &String::new(), &[0, 0]);
    let s = String::from("hello");
    check_store(Little, &s, &[5, 0, 104, 101, 108, 108, 111]);
    check_store(Big, &s, &[0, 5, 104, 101, 108, 108, 111]);
}

fn restore_strings() {
    check_restore(Little, &[0, 0], String::new, &String::new());
    check_restore(Big, &[0, 0], String::new, &String::new());
    check_restore(Little, &[5, 0, 104, 101, 108, 108, 111], || String::from("prev-content"), &String::from("hello"));
    check_restore(Big, &[0, 5, 104, 101, 108, 108, 111], || String::from("prev-content"), &String::from("hello"));
}

fn store_string_vecs() {
    check_store(Little, &Vec::<String>::new(), &[]);
    check_store(Big, &Vec::<String>::new(), &[]);
    let vec = vec![String::from("hello"), String::from(" world")];
    check_store(Little, &vec, &[5, 0, 104, 101, 108, 108, 111, 6, 0, 32, 119, 111, 114, 108, 100]);
    check_store(Big, &vec, &[0, 5, 104, 101, 108, 108, 111, 0, 6, 32, 119, 111, 114, 108, 100]);
}

fn restore_string_vecs() {
    check_restore(Little, &[], Vec::<String>::new, &Vec::<String>::new());
    check_restore(Big, &[], Vec::<String>::new, &Vec::<String>::new());
    let expected = vec![String::from("hello"), String::from(" world")];
    let to_fill = vec![String::from("prev-content"), String::from("prev-content")];
    check_restore(Little, &[5, 0, 104, 101, 108, 108, 111, 6, 0, 32, 119, 111, 114, 108, 100], || to_fill.clone(), &expected);
    check_restore(Big, &[0, 5, 104, 101, 108, 108, 111, 0, 6, 32, 119, 111, 114, 108, 100], || to_fill.clone(), &expected);
}

#[test]
fn binary_test_store() {
    store_primitives();
    store_strings();
}

#[test]
fn binary_test_restore() {
    restore_primitives();
    restore_strings();
}

#[test]
fn primitives_test_store() {
    store_primitives();
    store_primitive_vecs();
}

#[test]
fn primitives_test_restore() {
    restore_primitives();
    restore_primitive_vecs();
}

#[test]
fn string_test_store() {
    store_strings();
    store_string_vecs();
}

#[test]
fn string_test_restore() {
    restore_strings();
    restore_string_vecs();
}

#[test]
fn vec_test_store() {
    store_string_vecs();
    store_primitive_vecs();
}

#[test]
fn vec_test_restore() {
    restore_string_vecs();
    restore_primitive_vecs();
}

#[test]
fn geometry_test_store() {
    check_store(Little, &[0x01u8, 0xac], &[0x01, 0xac]);
    check_store(Big, &[0x01u8, 0xac], &[0x01, 0xac]);
    check_store(Little, &[0x01i8, 0x7c], &[0x01, 0x7c]);
    check_store(Big, &[0x01i8, 0x7c], &[0x01, 0x7c]);
    check_store(Little, &[0x01234567u32, 0x13570246], &[0x67, 0x45, 0x23, 0x01, 0x46, 0x02, 0x57, 0x13]);
    check_store(Big, &[0x01234567u32, 0x13570246], &[0x01, 0x23, 0x45, 0x67, 0x13, 0x57, 0x02, 0x46]);
    check_store(Little, &[0x01234567i32, 0x13570246], &[0x67, 0x45, 0x23, 0x01, 0x46, 0x02, 0x57, 0x13]);
    check_store(Big, &[0x01234567i32, 0x13570246], &[0x01, 0x23, 0x45, 0x67, 0x13, 0x57, 0x02, 0x46]);

    let vec2f = [0x3e124925u32, 0x6537851a];
    let vec2d = [0x3e12492589abcdefu64, 0x3fae1e1f3ac15743];
    check_store(Little, &vec2f, &[0x25, 0x49, 0x12, 0x3e, 0x1a, 0x85, 0x37, 0x65]);
    check_store(Big, &vec2f, &[0x3e, 0x12, 0x49, 0x25, 0x65, 0x37, 0x85, 0x1a]);
    check_store(Little, &vec2d, &[0xef, 0xcd, 0xab, 0x89, 0x25, 0x49, 0x12, 0x3e, 0x43, 0x57, 0xc1, 0x3a, 0x1f, 0x1e, 0xae, 0x3f]);
    check_store(Big, &vec2d, &[0x3e, 0x12, 0x49, 0x25, 0x89, 0xab, 0xcd, 0xef, 0x3f, 0xae, 0x1e, 0x1f, 0x3a, 0xc1, 0x57, 0x43]);
}

#[test]
fn geometry_test_restore() {
    check_restore(Little, &[0x01, 0xac], || [0u8; 2], &[0x01u8, 0xac]);
    check_restore(Big, &[0x01, 0xac], || [0u8; 2], &[0x01u8, 0xac]);
    check_restore(Little, &[0x01, 0x7c], || [0i8; 2], &[0x01i8, 0x7c]);
    check_restore(Big, &[0x01, 0x7c], || [0i8; 2], &[0x01i8, 0x7c]);
    check_restore(Little, &[0x67, 0x45, 0x23, 0x01, 0x46, 0x02, 0x57, 0x13], || [0u32; 2], &[0x01234567u32, 0x13570246]);
    check_restore(Big, &[0x01, 0x23, 0x45, 0x67, 0x13, 0x57, 0x02, 0x46], || [0u32; 2], &[0x01234567u32, 0x13570246]);
    check_restore(Little, &[0x67, 0x45, 0x23, 0x01, 0x46, 0x02, 0x57, 0x13], || [0i32; 2], &[0x01234567i32, 0x13570246]);
    check_restore(Big, &[0x01, 0x23, 0x45, 0x67, 0x13, 0x57, 0x02, 0x46], || [0i32; 2], &[0x01234567i32, 0x13570246]);

    let vec2f = [0x3e124925u32, 0x6537851a];
    let vec2d = [0x3e12492589abcdefu64, 0x3fae1e1f3ac15743];
    check_restore(Little, &[0x25, 0x49, 0x12, 0x3e, 0x1a, 0x85, 0x37, 0x65], || [0u32; 2], &vec2f);
    check_restore(Big, &[0x3e, 0x12, 0x49, 0x25, 0x65, 0x37, 0x85, 0x1a], || [0u32; 2], &vec2f);
    check_restore(Little, &[0xef, 0xcd, 0xab, 0x89, 0x25, 0x49, 0x12, 0x3e, 0x43, 0x57, 0xc1, 0x3a, 0x1f, 0x1e, 0xae, 0x3f], || [0u64; 2], &vec2d);
    check_restore(Big, &[0x3e, 0x12, 0x49, 0x25, 0x89, 0xab, 0xcd, 0xef, 0x3f, 0xae, 0x1e, 0x1f, 0x3a, 0xc1, 0x57, 0x43], || [0u64; 2], &vec2d);
}

#[test]
fn status_test_store() {
    let flags1 = Status::from_bits_truncate(DELETED | LOCKED | HIDDEN | TAGGED | TAGGED2);
    check_store(Little, &flags1, &[0x6b, 0x00, 0x00, 0x00]);
    check_store(Big, &flags1, &[0x00, 0x00, 0x00, 0x6b]);
    let flags2 = Status::from_bits_truncate(SELECTED | FEATURE | FIXED_NON_MANIFOLD);
    check_store(Little, &flags2, &[0x94, 0x00, 0x00, 0x00]);
    check_store(Big, &flags2, &[0x00, 0x00, 0x00, 0x94]);
}

#[test]
fn status_test_restore() {
    let flags1 = Status::from_bits_truncate(DELETED | LOCKED | HIDDEN | TAGGED | TAGGED2);
    check_restore(Little, &[0x6b, 0xff, 0xff, 0xff], Status::empty, &flags1);
    check_restore(Big, &[0xff, 0xff, 0xff, 0x6b], Status::empty, &flags1);
    let flags2 = Status::from_bits_truncate(SELECTED | FEATURE | FIXED_NON_MANIFOLD);
    check_restore(Little, &[0x94, 0xff, 0xff, 0xff], Status::empty, &flags2);
    check_restore(Big, &[0xff, 0xff, 0xff, 0x94], Status::empty, &flags2);
}

#[test]
fn bitvec_test_store() {
    check_store(Little, &BitVec::new(), &[]);
    check_store(Big, &BitVec::new(), &[]);

    let with_full_bytes = [0xef, 0xcd, 0xab, 0x89, 0x67, 0x45, 0xe3];
    let with_partial_byte = [0xef, 0xcd, 0xab, 0x89, 0x67, 0x45, 0x23];
    let mut vec = BitVec::from_bytes(&with_full_bytes);
    vec.pop();
    vec.pop();
    assert_eq!(vec.len(), 54);
    check_store(Little, &vec, &with_partial_byte);
    check_store(Big, &vec, &with_partial_byte);

    let with_full_bytes = [0xef, 0xcd, 0xab, 0x89, 0x67, 0x45, 0x23, 0x01];
    let vec = BitVec::from_bytes(&with_full_bytes);
    assert_eq!(vec.len(), 64);
    check_store(Little, &vec, &with_full_bytes);
    check_store(Big, &vec, &with_full_bytes);
}

#[test]
fn bitvec_test_restore() {
    check_restore_bitvec(Little, &[], BitVec::new(), &BitVec::new());
    check_restore_bitvec(Big, &[], BitVec::new(), &BitVec::new());

    let input_stream = [0xef, 0xcd, 0xab, 0x89, 0x67, 0x45, 0x23];
    let mut expected_vec = BitVec::from_bytes(&input_stream);
    check_restore_bitvec(Little, &input_stream, BitVec::from_elem(56, false), &expected_vec);
    check_restore_bitvec(Big, &input_stream, BitVec::from_elem(56, true), &expected_vec);

    expected_vec.pop();
    expected_vec.pop();
    check_restore_bitvec(Little, &input_stream, BitVec::from_elem(54, false), &expected_vec);
    check_restore_bitvec(Big, &input_stream, BitVec::from_elem(54, true), &expected_vec);
}
