use render_core::{
    AttributePointer, AttributePointerList, AttributeType, LayoutError, V2C3UV,
};

fn float_pointer(index: u32, components: usize, offset: u32) -> AttributePointer {
    AttributePointer::new(index, components, AttributeType::Float, false, offset)
}

#[test]
fn contiguous_layout_is_accepted_with_the_record_size_as_stride() {
    let pointers = vec![
        float_pointer(0, 2, 0),
        float_pointer(1, 3, 8),
        float_pointer(2, 2, 20),
    ];
    let list = AttributePointerList::new(pointers, 28).unwrap();
    assert_eq!(list.len(), 3);
    assert_eq!(list.get_stride(), 28);
    assert_eq!(list.index(0).get_offset(), 0);
    assert_eq!(list.index(1).get_offset(), 8);
    assert_eq!(list.index(2).get_offset(), 20);
    assert_eq!(list.index(2).get_components(), 2);
    assert_eq!(list.index(2).get_index(), 2);
    assert_eq!(list.index(2).get_type(), AttributeType::Float);
    assert!(!list.index(2).get_normalized());
}

#[test]
fn layout_with_an_index_gap_is_refused() {
    let pointers = vec![float_pointer(0, 2, 0), float_pointer(2, 3, 8)];
    assert_eq!(
        AttributePointerList::new(pointers, 20).err(),
        Some(LayoutError::IndexGap { position: 1 })
    );
}

#[test]
fn layout_that_does_not_start_at_index_zero_is_refused() {
    let pointers = vec![float_pointer(1, 2, 0)];
    assert_eq!(
        AttributePointerList::new(pointers, 8).err(),
        Some(LayoutError::IndexGap { position: 0 })
    );
}

#[test]
fn layout_with_a_hole_between_attributes_is_refused() {
    let pointers = vec![float_pointer(0, 2, 0), float_pointer(1, 3, 12)];
    assert_eq!(
        AttributePointerList::new(pointers, 24).err(),
        Some(LayoutError::BadOffset { position: 1 })
    );
}

#[test]
fn layout_with_overlapping_attributes_is_refused() {
    let pointers = vec![float_pointer(0, 2, 0), float_pointer(1, 3, 4)];
    assert_eq!(
        AttributePointerList::new(pointers, 16).err(),
        Some(LayoutError::BadOffset { position: 1 })
    );
}

#[test]
fn wrong_offset_is_reported_before_wrong_index() {
    let pointers = vec![float_pointer(0, 2, 0), float_pointer(5, 3, 9)];
    assert_eq!(
        AttributePointerList::new(pointers, 20).err(),
        Some(LayoutError::BadOffset { position: 1 })
    );
}

#[test]
fn layout_that_does_not_cover_the_record_is_refused() {
    let pointers = vec![
        float_pointer(0, 2, 0),
        float_pointer(1, 3, 8),
        float_pointer(2, 2, 20),
    ];
    assert_eq!(
        AttributePointerList::new(pointers, 32).err(),
        Some(LayoutError::SizeMismatch { record_size: 32 })
    );
    let pointers = vec![float_pointer(0, 2, 0)];
    assert_eq!(
        AttributePointerList::new(pointers, 4).err(),
        Some(LayoutError::SizeMismatch { record_size: 4 })
    );
}

#[test]
fn empty_layout_describes_the_empty_record_only() {
    let list = AttributePointerList::new(vec![], 0).unwrap();
    assert_eq!(list.len(), 0);
    assert_eq!(list.get_stride(), 0);
    assert_eq!(
        AttributePointerList::new(vec![], 4).err(),
        Some(LayoutError::SizeMismatch { record_size: 4 })
    );
}

#[test]
fn attribute_sizes_follow_the_component_type() {
    assert_eq!(AttributeType::Byte.size(), 1);
    assert_eq!(AttributeType::UnsignedByte.size(), 1);
    assert_eq!(AttributeType::Short.size(), 2);
    assert_eq!(AttributeType::UnsignedShort.size(), 2);
    assert_eq!(AttributeType::Int.size(), 4);
    assert_eq!(AttributeType::UnsignedInt.size(), 4);
    assert_eq!(AttributeType::Float.size(), 4);
    let pointers = vec![
        AttributePointer::new(0, 3, AttributeType::Short, false, 0),
        AttributePointer::new(1, 4, AttributeType::UnsignedByte, true, 6),
        AttributePointer::new(2, 1, AttributeType::Int, false, 10),
    ];
    let list = AttributePointerList::new(pointers, 14).unwrap();
    assert_eq!(list.get_stride(), 14);
    assert!(list.index(1).get_normalized());
}

#[test]
fn attribute_that_runs_past_all_offsets_is_refused() {
    let pointers = vec![float_pointer(0, usize::MAX, 0)];
    assert_eq!(
        AttributePointerList::new(pointers, 28).err(),
        Some(LayoutError::SizeMismatch { record_size: 28 })
    );
    let pointers = vec![float_pointer(0, 0x4000_0000, 0), float_pointer(1, 1, 0)];
    assert_eq!(
        AttributePointerList::new(pointers, 28).err(),
        Some(LayoutError::BadOffset { position: 1 })
    );
}

#[test]
fn vertex_record_has_three_attributes_over_28_bytes() {
    let list = V2C3UV::attribute_pointers();
    assert_eq!(list.len(), 3);
    assert_eq!(list.get_stride(), 28);
    assert_eq!(*list.index(0), float_pointer(0, 2, 0));
    assert_eq!(*list.index(1), float_pointer(1, 3, 8));
    assert_eq!(*list.index(2), float_pointer(2, 2, 20));
}
