use wgsl_cli::frame::Frame;
use wgsl_cli::frame::Size;
use wgsl_cli::geometry::{
    index_data, rect_indices, rect_vertices, Vertex, VertexAttribute, VertexFormat,
    VertexStepMode, RECT_INDICES, VERTEX_SIZE,
};
use wgsl_cli::layout::{
    check_layout, globals_members, matches_host_record, Member, GLOBALS_SIZE, PADDING_OFFSET,
    RESOLUTION_OFFSET, TIME_OFFSET,
};

#[test]
fn quad_has_the_four_corners_of_the_viewport() {
    assert_eq!(
        rect_vertices(),
        [
            Vertex { x: 1, y: -1 },
            Vertex { x: -1, y: -1 },
            Vertex { x: -1, y: 1 },
            Vertex { x: 1, y: 1 },
        ]
    );
}

#[test]
fn quad_is_two_triangles_over_its_corners() {
    assert_eq!(RECT_INDICES, [0, 1, 2, 0, 2, 3]);
    assert_eq!(rect_indices(), RECT_INDICES);
    for index in rect_indices() {
        assert!((index as usize) < rect_vertices().len());
    }
    assert_eq!(Frame::new(Size { width: 1, height: 1 }, 0).draw.index_count as usize, RECT_INDICES.len());
}

fn side(a: Vertex, b: Vertex, px: i64, py: i64, scale: i64) -> i64 {
    (b.x - a.x) as i64 * (py - a.y as i64 * scale) - (b.y - a.y) as i64 * (px - a.x as i64 * scale)
}

fn holds(t: usize, px: i64, py: i64, scale: i64) -> bool {
    let v = rect_vertices();
    let i = rect_indices();
    let (a, b, c) = (v[i[3 * t] as usize], v[i[3 * t + 1] as usize], v[i[3 * t + 2] as usize]);
    let (s0, s1, s2) = (side(a, b, px, py, scale), side(b, c, px, py, scale), side(c, a, px, py, scale));
    (s0 >= 0 && s1 >= 0 && s2 >= 0) || (s0 <= 0 && s1 <= 0 && s2 <= 0)
}

#[test]
fn quad_covers_corners_centre_and_a_grid() {
    for (px, py) in [(-1, -1), (1, -1), (-1, 1), (1, 1), (0, 0)] {
        assert!(holds(0, px, py, 1) || holds(1, px, py, 1));
    }
    let scale = 16;
    for px in -scale..=scale {
        for py in -scale..=scale {
            assert!(holds(0, px, py, scale) || holds(1, px, py, scale));
        }
    }
    assert!(!holds(0, 17, 0, scale) && !holds(1, 17, 0, scale));
    assert!(!holds(0, 0, -17, scale) && !holds(1, 0, -17, scale));
}

#[test]
fn index_data_is_the_indices_in_machine_byte_order() {
    let mut expected = Vec::new();
    for index in RECT_INDICES {
        expected.extend_from_slice(&index.to_ne_bytes());
    }
    assert_eq!(index_data(), expected);
    assert_eq!(index_data().len(), 12);
    let little: Vec<u8> = vec![0, 0, 1, 0, 2, 0, 0, 0, 2, 0, 3, 0];
    let big: Vec<u8> = vec![0, 0, 0, 1, 0, 2, 0, 0, 0, 2, 0, 3];
    assert!(index_data() == little || index_data() == big);
}

#[test]
fn vertex_layout_is_one_float_pair_at_location_zero() {
    let layout = Vertex::desc();
    assert_eq!(layout.array_stride, 8);
    assert_eq!(layout.array_stride, VERTEX_SIZE);
    assert_eq!(layout.step_mode, VertexStepMode::Vertex);
    assert_eq!(
        layout.attributes,
        vec![VertexAttribute { format: VertexFormat::Float32x2, offset: 0, shader_location: 0 }]
    );
    assert_eq!(layout.attributes[0].format.size(), layout.array_stride);
}

#[test]
fn vertex_format_sizes() {
    let sizes = [
        (VertexFormat::Uint8x2, 2),
        (VertexFormat::Uint8x4, 4),
        (VertexFormat::Sint8x2, 2),
        (VertexFormat::Sint8x4, 4),
        (VertexFormat::Unorm8x2, 2),
        (VertexFormat::Unorm8x4, 4),
        (VertexFormat::Snorm8x2, 2),
        (VertexFormat::Snorm8x4, 4),
        (VertexFormat::Uint16x2, 4),
        (VertexFormat::Uint16x4, 8),
        (VertexFormat::Sint16x2, 4),
        (VertexFormat::Sint16x4, 8),
        (VertexFormat::Unorm16x2, 4),
        (VertexFormat::Unorm16x4, 8),
        (VertexFormat::Snorm16x2, 4),
        (VertexFormat::Snorm16x4, 8),
        (VertexFormat::Float16x2, 4),
        (VertexFormat::Float16x4, 8),
        (VertexFormat::Float32, 4),
        (VertexFormat::Float32x2, 8),
        (VertexFormat::Float32x3, 12),
        (VertexFormat::Float32x4, 16),
        (VertexFormat::Uint32, 4),
        (VertexFormat::Uint32x2, 8),
        (VertexFormat::Uint32x3, 12),
        (VertexFormat::Uint32x4, 16),
        (VertexFormat::Sint32, 4),
        (VertexFormat::Sint32x2, 8),
        (VertexFormat::Sint32x3, 12),
        (VertexFormat::Sint32x4, 16),
        (VertexFormat::Float64, 8),
        (VertexFormat::Float64x2, 16),
        (VertexFormat::Float64x3, 24),
        (VertexFormat::Float64x4, 32),
    ];
    for (format, size) in sizes {
        assert_eq!(format.size(), size);
    }
}

#[test]
fn uniform_record_layout() {
    assert_eq!(GLOBALS_SIZE, 16);
    assert_eq!((RESOLUTION_OFFSET, TIME_OFFSET, PADDING_OFFSET), (0, 8, 12));
    assert_eq!(
        globals_members(),
        vec![
            Member { offset: 0, size: 8, align: 8 },
            Member { offset: 8, size: 4, align: 4 },
            Member { offset: 12, size: 4, align: 4 },
        ]
    );
    assert!(check_layout(&globals_members(), GLOBALS_SIZE));
    assert!(matches_host_record(16));
    assert!(!matches_host_record(12));
    assert!(!matches_host_record(0));
}

#[test]
fn layout_without_padding_is_refused() {
    let members = vec![
        Member { offset: 0, size: 8, align: 8 },
        Member { offset: 8, size: 4, align: 4 },
    ];
    // 12 bytes is no multiple of the 8-byte alignment of the first member.
    assert!(!check_layout(&members, 12));
    // And 16 bytes leaves a hole at the end.
    assert!(!check_layout(&members, 16));
}

#[test]
fn layout_check_edge_cases() {
    assert!(check_layout(&vec![], 0));
    assert!(!check_layout(&vec![], 4));
    assert!(check_layout(&vec![Member { offset: 0, size: 4, align: 4 }], 4));
    // A gap between members.
    assert!(!check_layout(
        &vec![Member { offset: 0, size: 4, align: 4 }, Member { offset: 8, size: 4, align: 4 }],
        12
    ));
    // A misaligned member.
    assert!(!check_layout(
        &vec![Member { offset: 0, size: 4, align: 4 }, Member { offset: 4, size: 8, align: 8 }],
        12
    ));
    // Zero alignment.
    assert!(!check_layout(&vec![Member { offset: 0, size: 4, align: 0 }], 4));
    // A member that does not start at 0.
    assert!(!check_layout(&vec![Member { offset: 4, size: 4, align: 4 }], 8));
    // A member that ends beyond what a size can say.
    assert!(!check_layout(&vec![Member { offset: 0, size: u64::MAX, align: 1 }, Member { offset: u64::MAX, size: 1, align: 1 }], u64::MAX));
    assert!(check_layout(&vec![Member { offset: 0, size: u64::MAX, align: 1 }], u64::MAX));
}
