use ferrousgl::mesh::attribute_type_size;
use ferrousgl::mesh::vertex_layout;
use ferrousgl::AttributePointer;

#[test]
fn component_sizes_are_those_of_the_types() {
    assert_eq!(attribute_type_size(gl::FLOAT), Some(std::mem::size_of::<f32>()));
    assert_eq!(attribute_type_size(gl::UNSIGNED_INT), Some(std::mem::size_of::<u32>()));
    assert_eq!(attribute_type_size(gl::UNSIGNED_BYTE), Some(std::mem::size_of::<u8>()));
    assert_eq!(attribute_type_size(gl::INT), None);
    assert_eq!(attribute_type_size(gl::DOUBLE), None);
    assert_eq!(attribute_type_size(0), None);
}

#[test]
fn position_and_color_are_interleaved() {
    let layout = vertex_layout(&[(0, 3, gl::FLOAT, false), (1, 3, gl::FLOAT, false)]).unwrap();
    assert_eq!(
        layout,
        vec![
            AttributePointer {
                index: 0,
                size: 3,
                component_type: gl::FLOAT,
                normalized: false,
                stride: 24,
                offset: 0,
            },
            AttributePointer {
                index: 1,
                size: 3,
                component_type: gl::FLOAT,
                normalized: false,
                stride: 24,
                offset: 12,
            },
        ]
    );
}

#[test]
fn mixed_component_types_add_up() {
    let layout = vertex_layout(&[
        (2, 2, gl::FLOAT, false),
        (5, 4, gl::UNSIGNED_BYTE, true),
        (1, 1, gl::UNSIGNED_INT, false),
        (7, 3, gl::UNSIGNED_BYTE, false),
    ])
    .unwrap();
    let offsets: Vec<usize> = layout.iter().map(|pointer| pointer.offset).collect();
    assert_eq!(offsets, vec![0, 8, 12, 16]);
    for pointer in &layout {
        assert_eq!(pointer.stride, 19);
    }
    assert_eq!(layout[1].index, 5);
    assert_eq!(layout[1].size, 4);
    assert_eq!(layout[1].component_type, gl::UNSIGNED_BYTE);
    assert!(layout[1].normalized);
    assert!(!layout[2].normalized);
}

#[test]
fn no_attributes_give_an_empty_layout() {
    assert_eq!(vertex_layout(&[]), Some(Vec::new()));
}

#[test]
fn attribute_without_components_takes_no_room() {
    let layout = vertex_layout(&[(0, 0, gl::FLOAT, false), (1, 2, gl::FLOAT, false)]).unwrap();
    assert_eq!(layout[0].offset, 0);
    assert_eq!(layout[1].offset, 0);
    assert_eq!(layout[1].stride, 8);
}

#[test]
fn unsupported_component_type_has_no_layout() {
    assert_eq!(vertex_layout(&[(0, 3, gl::INT, false)]), None);
    assert_eq!(vertex_layout(&[(0, 3, gl::FLOAT, false), (1, 3, gl::DOUBLE, false)]), None);
    assert_eq!(vertex_layout(&[(0, 3, 12345, false), (1, 3, gl::FLOAT, false)]), None);
}

#[test]
fn negative_component_count_has_no_layout() {
    assert_eq!(vertex_layout(&[(0, -1, gl::FLOAT, false)]), None);
    assert_eq!(vertex_layout(&[(0, 3, gl::FLOAT, false), (1, i32::MIN, gl::FLOAT, false)]), None);
}

#[test]
fn stride_beyond_the_signed_range_has_no_layout() {
    assert_eq!(vertex_layout(&[(0, i32::MAX, gl::FLOAT, false)]), None);
    assert_eq!(
        vertex_layout(&[(0, i32::MAX, gl::UNSIGNED_BYTE, false), (1, 1, gl::UNSIGNED_BYTE, false)]),
        None
    );
    let largest = vertex_layout(&[(0, i32::MAX, gl::UNSIGNED_BYTE, false)]).unwrap();
    assert_eq!(largest[0].stride, i32::MAX);
    let split = vertex_layout(&[
        (0, i32::MAX - 4, gl::UNSIGNED_BYTE, false),
        (1, 1, gl::FLOAT, false),
    ])
    .unwrap();
    assert_eq!(split[1].offset, (i32::MAX - 4) as usize);
    assert_eq!(split[1].stride, i32::MAX);
}
