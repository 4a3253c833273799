use lyra::layout::{buffer_size, AttribPointer, LayoutError, VertexLayout};

fn cube_layout() -> VertexLayout {
    VertexLayout::new(vec![3, 2]).unwrap()
}

#[test]
fn cube_attrib_pointers() {
    let pointers = cube_layout().attrib_pointers().unwrap();
    assert_eq!(
        pointers,
        vec![
            AttribPointer { index: 0, size: 3, stride: 20, offset: 0 },
            AttribPointer { index: 1, size: 2, stride: 20, offset: 12 },
        ]
    );
}

#[test]
fn cube_vertex_count() {
    assert_eq!(cube_layout().vertex_count(180), Ok(36));
}

#[test]
fn cube_components_per_vertex() {
    assert_eq!(cube_layout().components_per_vertex(), Ok(5));
    assert_eq!(cube_layout().sizes(), &vec![3, 2]);
}

#[test]
fn cube_buffer_size() {
    assert_eq!(buffer_size(180), Ok(720));
    assert_eq!(buffer_size(0), Ok(0));
}

#[test]
fn buffer_size_overflow() {
    assert_eq!(buffer_size(usize::MAX), Err(LayoutError::BufferOverflow));
    let largest = isize::MAX as usize / 4;
    assert_eq!(buffer_size(largest), Ok((largest * 4) as isize));
    assert_eq!(buffer_size(largest + 1), Err(LayoutError::BufferOverflow));
}

#[test]
fn invalid_sizes_refused() {
    assert!(matches!(VertexLayout::new(vec![3, 0, 2]), Err(LayoutError::InvalidSize { index: 1 })));
    assert!(matches!(VertexLayout::new(vec![5, 2]), Err(LayoutError::InvalidSize { index: 0 })));
    assert!(matches!(VertexLayout::new(vec![4, 1, -1]), Err(LayoutError::InvalidSize { index: 2 })));
}

#[test]
fn partial_vertex() {
    assert_eq!(cube_layout().vertex_count(181), Err(LayoutError::PartialVertex));
    let empty = VertexLayout::new(vec![]).unwrap();
    assert_eq!(empty.vertex_count(0), Err(LayoutError::PartialVertex));
    assert_eq!(empty.attrib_pointers(), Ok(vec![]));
}

#[test]
fn vertex_count_overflow() {
    let single = VertexLayout::new(vec![1]).unwrap();
    assert_eq!(single.vertex_count(i32::MAX as usize), Ok(i32::MAX));
    assert_eq!(single.vertex_count(i32::MAX as usize + 1), Err(LayoutError::CountOverflow));
}

#[test]
fn three_attributes() {
    let layout = VertexLayout::new(vec![3, 4, 2]).unwrap();
    let pointers = layout.attrib_pointers().unwrap();
    let offsets: Vec<usize> = pointers.iter().map(|p| p.offset).collect();
    assert_eq!(offsets, vec![0, 12, 28]);
    assert!(pointers.iter().all(|p| p.stride == 36));
    assert_eq!(layout.vertex_count(27), Ok(3));
}
