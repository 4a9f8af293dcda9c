use openmesh::io::options::Options;
use openmesh::mesh::status::Status;

#[test]
fn options_test_empty() {
    let flags = Options::empty();
    assert!(!flags.is_binary());
    assert!(!flags.vertex_has_normal());
    assert!(!flags.vertex_has_color());
    assert!(!flags.vertex_has_texcoord());
    assert!(!flags.edge_has_color());
    assert!(!flags.face_has_normal());
    assert!(!flags.face_has_color());
    assert!(!flags.face_has_texcoord());
    assert!(!flags.color_has_alpha());
    assert!(!flags.color_is_float());
}

#[test]
fn options_test_all() {
    let flags = Options::all();
    assert!(flags.is_binary());
    assert!(flags.vertex_has_normal());
    assert!(flags.vertex_has_color());
    assert!(flags.vertex_has_texcoord());
    assert!(flags.edge_has_color());
    assert!(flags.face_has_normal());
    assert!(flags.face_has_color());
    assert!(flags.face_has_texcoord());
    assert!(flags.color_has_alpha());
    assert!(flags.color_is_float());
}

#[test]
fn status_test_empty() {
    let flags = Status::empty();
    assert!(!flags.deleted());
    assert!(!flags.locked());
    assert!(!flags.selected());
    assert!(!flags.hidden());
    assert!(!flags.feature());
    assert!(!flags.tagged());
    assert!(!flags.tagged2());
    assert!(!flags.fixed_non_manifold());
}

#[test]
fn status_test_all() {
    let flags = Status::all();
    assert!(flags.deleted());
    assert!(flags.locked());
    assert!(flags.selected());
    assert!(flags.hidden());
    assert!(flags.feature());
    assert!(flags.tagged());
    assert!(flags.tagged2());
    assert!(flags.fixed_non_manifold());
}

#[test]
fn test_set_all() {
    let mut flags = Status::empty();
    flags.set_deleted(true);
    flags.set_locked(true);
    flags.set_selected(true);
    flags.set_hidden(true);
    flags.set_feature(true);
    flags.set_tagged(true);
    flags.set_tagged2(true);
    flags.set_fixed_non_manifold(true);
    assert_eq!(flags, Status::all());
    flags.set_deleted(false);
    flags.set_locked(false);
    flags.set_selected(false);
    flags.set_hidden(false);
    flags.set_feature(false);
    flags.set_tagged(false);
    flags.set_tagged2(false);
    flags.set_fixed_non_manifold(false);
    assert_eq!(flags, Status::empty());
}

#[test]
fn status_test_iter() {
    let mut flags = Status::empty();
    let mut iter = Status::iter();
    while let Some(flag) = iter.next() {
        flags.insert(flag);
    }
    assert_eq!(flags, Status::all());
}
