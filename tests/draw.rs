use rayca_vk::draw::{
    size_of_index, DrawCall, PrimitiveGeometry, INDEX_TYPE_UINT16, INDEX_TYPE_UINT32, INDEX_TYPE_UINT8,
};

#[test]
fn index_sizes() {
    assert_eq!(size_of_index(INDEX_TYPE_UINT16), Some(2));
    assert_eq!(size_of_index(INDEX_TYPE_UINT32), Some(4));
    assert_eq!(size_of_index(INDEX_TYPE_UINT8), Some(1));
    assert_eq!(size_of_index(7), None);
}

#[test]
fn primitive_without_indices_draws_vertices() {
    let p = PrimitiveGeometry::new(36);
    assert_eq!(p.get_index_count(), 0);
    assert_eq!(p.draw_call(), DrawCall::Vertices(36));
}

#[test]
fn primitive_with_indices_draws_indexed() {
    let mut p = PrimitiveGeometry::new(24);
    p.set_indices(72, INDEX_TYPE_UINT16);
    assert_eq!(p.get_index_count(), 36);
    assert_eq!(p.draw_call(), DrawCall::Indexed(36));
    p.set_indices(72, INDEX_TYPE_UINT32);
    assert_eq!(p.draw_call(), DrawCall::Indexed(18));
    p.set_indices(6, INDEX_TYPE_UINT8);
    assert_eq!(p.draw_call(), DrawCall::Indexed(6));
}
