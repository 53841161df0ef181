#[derive(Debug, Default, Copy, Clone)]
pub struct NoPartialEq {
    pub i: i32,
}

#[allow(non_snake_case)]
#[test]
fn bindgen_test_layout_NoPartialEq() {
    assert_eq!(std::mem::size_of::<NoPartialEq>(), 4usize, "Size of: NoPartialEq");
    assert_eq!(std::mem::align_of::<NoPartialEq>(), 4usize, "Alignment of NoPartialEq");
    // The single 4-byte field of a 4-byte struct can only sit at offset 0.
    let field_room = std::mem::size_of::<NoPartialEq>() - std::mem::size_of::<i32>();
    assert_eq!(field_room, 0usize, "Offset of field: NoPartialEq::i");
}
