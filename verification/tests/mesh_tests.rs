use render_core::allocator::{AllocKind, BufferUsage, GpuAllocator, Residency};
use render_core::errors::AllocError;
use render_core::mesh::{
    serialize_indices, serialize_vertices, upload, AttributeFormat, Mesh, Vertex,
    VertexDescription, COLOR_ATTRIBUTE_OFFSET, VERTEX_STRIDE,
};

fn vertex(base: u32) -> Vertex {
    Vertex { px: base, py: base + 1, pz: base + 2, cx: base + 3, cy: base + 4, cz: base + 5 }
}

#[test]
fn vertex_description_is_one_binding_with_two_packed_attributes() {
    let d = VertexDescription::new();
    assert_eq!(d.stride as usize, VERTEX_STRIDE);
    assert_eq!(d.attributes.len(), 2);
    assert_eq!(d.attributes[0].binding, 0);
    assert_eq!(d.attributes[0].location, 0);
    assert_eq!(d.attributes[0].offset, 0);
    assert_eq!(d.attributes[0].format, AttributeFormat::ThreeLanes32);
    assert_eq!(d.attributes[1].binding, 0);
    assert_eq!(d.attributes[1].location, 1);
    assert_eq!(d.attributes[1].offset, COLOR_ATTRIBUTE_OFFSET);
}

#[test]
fn indices_serialize_as_packed_little_endian_words() {
    assert_eq!(
        serialize_indices(&vec![1, 0x01020304]),
        vec![1, 0, 0, 0, 0x04, 0x03, 0x02, 0x01]
    );
    assert_eq!(serialize_indices(&Vec::new()), Vec::<u8>::new());
}

#[test]
fn vertices_serialize_as_packed_stride_sized_records() {
    let v = Vertex { px: 0x11, py: 0x22, pz: 0x33, cx: 0x44, cy: 0x55, cz: 0x66 };
    let bytes = serialize_vertices(&vec![v]);
    assert_eq!(bytes.len(), VERTEX_STRIDE);
    assert_eq!(
        bytes,
        vec![
            0x11, 0, 0, 0, 0x22, 0, 0, 0, 0x33, 0, 0, 0, //
            0x44, 0, 0, 0, 0x55, 0, 0, 0, 0x66, 0, 0, 0,
        ]
    );
    assert_eq!(serialize_vertices(&vec![v, v]).len(), 2 * VERTEX_STRIDE);
}

#[test]
fn from_streams_zips_positions_and_normals_in_chunks_of_three() {
    let positions = vec![1, 2, 3, 4, 5, 6];
    let normals = vec![7, 8, 9, 10, 11, 12];
    let m = Mesh::from_streams(&positions, &normals, vec![0, 1, 2]);
    assert_eq!(m.vertices.len(), 2);
    assert_eq!(m.vertices[0], Vertex { px: 1, py: 2, pz: 3, cx: 7, cy: 8, cz: 9 });
    assert_eq!(m.vertices[1], Vertex { px: 4, py: 5, pz: 6, cx: 10, cy: 11, cz: 12 });
    assert_eq!(m.indices, vec![0, 1, 2]);
}

#[test]
fn from_streams_drops_a_trailing_partial_chunk() {
    let positions = vec![1, 2, 3, 4];
    let normals = vec![5, 6, 7, 8];
    let m = Mesh::from_streams(&positions, &normals, Vec::new());
    assert_eq!(m.vertices.len(), 1);
}

#[test]
fn upload_sizes_buffers_exactly_by_vertex_stride_and_index_width() {
    // A cube: eight vertices, thirty-six indices.
    let vertices: Vec<Vertex> = (0..8).map(|i| vertex(i * 10)).collect();
    let indices: Vec<u32> = (0..36).map(|i| i % 8).collect();
    let mesh = Mesh::new(vertices, indices);
    let mut a = GpuAllocator::new(1 << 20);
    let mb = upload(&mut a, &mesh).unwrap();
    assert_eq!(a.records[mb.vertex_allocation].size, 8 * VERTEX_STRIDE); // 192
    assert_eq!(a.records[mb.index_allocation].size, 36 * 4); // 144
    assert_eq!(mb.index_count, 36);
    assert_eq!(mb.index_width, 4);
    assert_eq!(mb.vertex_offset, 0);
    assert_eq!(mb.index_offset, 0);
    // The buffers hold exactly the serialized mesh bytes.
    assert_eq!(a.read_back(mb.vertex_allocation), serialize_vertices(&mesh.vertices));
    assert_eq!(a.read_back(mb.index_allocation), serialize_indices(&mesh.indices));
}

#[test]
fn upload_rolls_back_when_the_index_buffer_does_not_fit() {
    let mesh = Mesh::new(vec![vertex(0)], vec![0, 0, 0]);
    // Room for the 24-byte vertex buffer, not for the 12-byte index buffer.
    let mut a = GpuAllocator::new(30);
    assert_eq!(upload(&mut a, &mesh), Err(AllocError::OutOfMemory));
    assert!(a.all_released());
    assert_eq!(a.remaining(), 30);
    // With room for both, the same upload succeeds.
    let mut b = GpuAllocator::new(36);
    let mb = upload(&mut b, &mesh).unwrap();
    assert_eq!(b.remaining(), 0);
    assert_eq!(b.records[mb.vertex_allocation].kind, AllocKind::Buffer(BufferUsage::Vertex));
    assert_eq!(b.records[mb.index_allocation].kind, AllocKind::Buffer(BufferUsage::Index));
    assert_eq!(b.records[mb.vertex_allocation].residency, Residency::HostVisible);
}
