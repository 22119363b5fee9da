//! Meshes and their upload into GPU-resident buffers: the vertex layout the
//! pipeline binds, the byte serialization written through the allocator, and
//! the buffer bundle a draw call reads.

use vstd::prelude::*;

use crate::allocator::{AllocKind, BufferUsage, GpuAllocator, Residency};
use crate::errors::AllocError;

verus! {

/// Bytes one vertex occupies in the vertex buffer: six 32-bit lanes.
pub const VERTEX_STRIDE: usize = 24;

/// Byte offset of the color-or-normal attribute inside a vertex.
pub const COLOR_ATTRIBUTE_OFFSET: u32 = 12;

/// One vertex as the shader sees it: a three-lane position and a three-lane
/// color-or-normal, each lane carried as the raw 32-bit pattern of the
/// shader's lane value.
#[derive(Clone, Copy, PartialEq, Eq, Structural, Debug)]
pub struct Vertex {
    pub px: u32,
    pub py: u32,
    pub pz: u32,
    pub cx: u32,
    pub cy: u32,
    pub cz: u32,
}

/// The lane format of a vertex attribute.
#[derive(Clone, Copy, PartialEq, Eq, Structural, Debug)]
pub enum AttributeFormat {
    /// Three consecutive 32-bit float lanes.
    ThreeLanes32,
}

/// One per-vertex attribute of the single vertex binding.
#[derive(Clone, Copy, PartialEq, Eq, Structural, Debug)]
pub struct VertexAttribute {
    pub binding: u32,
    pub location: u32,
    pub offset: u32,
    pub format: AttributeFormat,
}

/// The vertex input layout: one binding, two packed attributes.
pub struct VertexDescription {
    pub stride: u32,
    pub attributes: Vec<VertexAttribute>,
}

/// Builds one attribute and advances the location counter, so consecutive
/// attributes take consecutive shader locations.
pub fn create_attribute(binding: u32, offset: u32, location: &mut u32) -> (a: VertexAttribute)
    requires
        *old(location) < u32::MAX,
    ensures
        a == (VertexAttribute {
            binding,
            location: *old(location),
            offset,
            format: AttributeFormat::ThreeLanes32,
        }),
        *final(location) == *old(location) + 1,
{
    let a = VertexAttribute {
        binding,
        location: *location,
        offset,
        format: AttributeFormat::ThreeLanes32,
    };
    *location = *location + 1;
    a
}

impl VertexDescription {
    /// The fixed layout of this engine: one binding with the vertex stride,
    /// position at offset zero in location zero, color-or-normal packed
    /// right after it in location one.
    pub fn new() -> (d: VertexDescription)
        ensures
            d.stride == VERTEX_STRIDE,
            d.attributes@.len() == 2,
            d.attributes@[0] == (VertexAttribute {
                binding: 0,
                location: 0,
                offset: 0,
                format: AttributeFormat::ThreeLanes32,
            }),
            d.attributes@[1] == (VertexAttribute {
                binding: 0,
                location: 1,
                offset: COLOR_ATTRIBUTE_OFFSET,
                format: AttributeFormat::ThreeLanes32,
            }),
    {
        let mut location: u32 = 0;
        let mut attributes: Vec<VertexAttribute> = Vec::new();
        let position = create_attribute(0, 0, &mut location);
        attributes.push(position);
        let color = create_attribute(0, COLOR_ATTRIBUTE_OFFSET, &mut location);
        attributes.push(color);
        VertexDescription { stride: VERTEX_STRIDE as u32, attributes }
    }
}

/// A parsed mesh: triangulated, single-indexed, with 32-bit indices.
pub struct Mesh {
    pub vertices: Vec<Vertex>,
    pub indices: Vec<u32>,
}

/// The vertex assembled from lane `3*i` of the position and normal streams.
pub open spec fn spec_vertex_at(positions: Seq<u32>, normals: Seq<u32>, i: int) -> Vertex {
    Vertex {
        px: positions[3 * i],
        py: positions[3 * i + 1],
        pz: positions[3 * i + 2],
        cx: normals[3 * i],
        cy: normals[3 * i + 1],
        cz: normals[3 * i + 2],
    }
}

impl Mesh {
    /// Wraps an already-parsed vertex and index list as a mesh.
    pub fn new(vertices: Vec<Vertex>, indices: Vec<u32>) -> (m: Mesh)
        ensures
            m.vertices == vertices,
            m.indices == indices,
    {
        Mesh { vertices, indices }
    }

    /// Assembles vertices by zipping the position and normal streams in
    /// chunks of three lanes, the shape a single-indexed model loader
    /// produces; trailing lanes short of a full chunk are dropped.
    pub fn from_streams(positions: &Vec<u32>, normals: &Vec<u32>, indices: Vec<u32>) -> (m: Mesh)
        requires
            positions@.len() == normals@.len(),
        ensures
            m.vertices@.len() == positions@.len() / 3,
            forall|i: int|
                0 <= i < m.vertices@.len()
                    ==> m.vertices@[i] == spec_vertex_at(positions@, normals@, i),
            m.indices == indices,
    {
        let n = positions.len();
        let count = n / 3;
        proof {
            assert(3 * ((n as int) / 3) <= n as int) by (nonlinear_arith);
        }
        let mut vertices: Vec<Vertex> = Vec::new();
        let mut i: usize = 0;
        while i < count
            invariant
                i <= count,
                n == positions@.len(),
                count == positions@.len() / 3,
                3 * count <= n,
                positions@.len() == normals@.len(),
                vertices@.len() == i,
                forall|j: int|
                    0 <= j < i ==> vertices@[j] == spec_vertex_at(positions@, normals@, j),
            decreases count - i,
        {
            proof {
                assert(3 * (i as int) + 3 <= 3 * (count as int)) by (nonlinear_arith)
                    requires i < count;
                assert(3 * (i as int) + 3 <= n);
            }
            let base = 3 * i;
            let v = Vertex {
                px: positions[base],
                py: positions[base + 1],
                pz: positions[base + 2],
                cx: normals[base],
                cy: normals[base + 1],
                cz: normals[base + 2],
            };
            vertices.push(v);
            i = i + 1;
        }
        Mesh { vertices, indices }
    }
}

/// The four little-endian bytes of a 32-bit word.
pub open spec fn spec_le_bytes(x: u32) -> Seq<u8> {
    seq![
        (x & 0xff) as u8,
        ((x >> 8) & 0xff) as u8,
        ((x >> 16) & 0xff) as u8,
        ((x >> 24) & 0xff) as u8,
    ]
}

/// A word sequence laid out as consecutive little-endian bytes.
pub open spec fn spec_words_bytes(words: Seq<u32>) -> Seq<u8>
    decreases words.len(),
{
    if words.len() == 0 {
        Seq::empty()
    } else {
        spec_words_bytes(words.drop_last()) + spec_le_bytes(words.last())
    }
}

/// The six lanes of a vertex, in buffer order.
pub open spec fn spec_vertex_words(v: Vertex) -> Seq<u32> {
    seq![v.px, v.py, v.pz, v.cx, v.cy, v.cz]
}

/// A vertex list laid out as packed, contiguous vertex records.
pub open spec fn spec_vertex_bytes(vertices: Seq<Vertex>) -> Seq<u8>
    decreases vertices.len(),
{
    if vertices.len() == 0 {
        Seq::empty()
    } else {
        spec_vertex_bytes(vertices.drop_last()) + spec_words_bytes(
            spec_vertex_words(vertices.last()))
    }
}

pub proof fn lemma_words_bytes_len(words: Seq<u32>)
    ensures
        spec_words_bytes(words).len() == 4 * words.len(),
    decreases words.len(),
{
    if words.len() > 0 {
        lemma_words_bytes_len(words.drop_last());
    }
}

/// Packed vertices occupy exactly the stride for each vertex.
pub proof fn lemma_vertex_bytes_len(vertices: Seq<Vertex>)
    ensures
        spec_vertex_bytes(vertices).len() == VERTEX_STRIDE * vertices.len(),
    decreases vertices.len(),
{
    if vertices.len() > 0 {
        lemma_vertex_bytes_len(vertices.drop_last());
        lemma_words_bytes_len(spec_vertex_words(vertices.last()));
    }
}

proof fn lemma_words_bytes_six(a: u32, b: u32, c: u32, d: u32, e: u32, f: u32)
    ensures
        spec_words_bytes(seq![a, b, c, d, e, f]) =~= spec_le_bytes(a) + spec_le_bytes(b)
            + spec_le_bytes(c) + spec_le_bytes(d) + spec_le_bytes(e) + spec_le_bytes(f),
{
    let s6 = seq![a, b, c, d, e, f];
    let s5 = seq![a, b, c, d, e];
    let s4 = seq![a, b, c, d];
    let s3 = seq![a, b, c];
    let s2 = seq![a, b];
    let s1 = seq![a];
    assert(s6.drop_last() =~= s5);
    assert(s5.drop_last() =~= s4);
    assert(s4.drop_last() =~= s3);
    assert(s3.drop_last() =~= s2);
    assert(s2.drop_last() =~= s1);
    assert(s1.drop_last() =~= Seq::<u32>::empty());
    assert(spec_words_bytes(Seq::<u32>::empty()) =~= Seq::<u8>::empty());
    assert(s1.last() == a);
    assert(s2.last() == b);
    assert(s3.last() == c);
    assert(s4.last() == d);
    assert(s5.last() == e);
    assert(s6.last() == f);
    assert(spec_words_bytes(s1) =~= spec_le_bytes(a));
    assert(spec_words_bytes(s2) =~= spec_le_bytes(a) + spec_le_bytes(b));
    assert(spec_words_bytes(s3) =~= spec_le_bytes(a) + spec_le_bytes(b) + spec_le_bytes(c));
    assert(spec_words_bytes(s4) =~= spec_le_bytes(a) + spec_le_bytes(b) + spec_le_bytes(c)
        + spec_le_bytes(d));
    assert(spec_words_bytes(s5) =~= spec_le_bytes(a) + spec_le_bytes(b) + spec_le_bytes(c)
        + spec_le_bytes(d) + spec_le_bytes(e));
}

/// Appends the four little-endian bytes of a word.
fn push_le_bytes(out: &mut Vec<u8>, x: u32)
    ensures
        final(out)@ == old(out)@ + spec_le_bytes(x),
{
    out.push((x & 0xff) as u8);
    out.push(((x >> 8) & 0xff) as u8);
    out.push(((x >> 16) & 0xff) as u8);
    out.push(((x >> 24) & 0xff) as u8);
    proof {
        assert(out@ =~= old(out)@ + spec_le_bytes(x));
    }
}

/// Serializes 32-bit indices as packed little-endian words.
pub fn serialize_indices(indices: &Vec<u32>) -> (r: Vec<u8>)
    ensures
        r@ == spec_words_bytes(indices@),
        r@.len() == 4 * indices@.len(),
{
    let mut out: Vec<u8> = Vec::new();
    let mut i: usize = 0;
    while i < indices.len()
        invariant
            i <= indices@.len(),
            out@ == spec_words_bytes(indices@.subrange(0, i as int)),
        decreases indices@.len() - i,
    {
        push_le_bytes(&mut out, indices[i]);
        proof {
            let pre = indices@.subrange(0, i as int);
            let post = indices@.subrange(0, i as int + 1);
            assert(post.drop_last() =~= pre);
            assert(post.last() == indices@[i as int]);
        }
        i = i + 1;
    }
    proof {
        assert(indices@.subrange(0, indices@.len() as int) =~= indices@);
        lemma_words_bytes_len(indices@);
    }
    out
}

/// Serializes vertices as packed, contiguous vertex records.
pub fn serialize_vertices(vertices: &Vec<Vertex>) -> (r: Vec<u8>)
    ensures
        r@ == spec_vertex_bytes(vertices@),
        r@.len() == VERTEX_STRIDE * vertices@.len(),
{
    let mut out: Vec<u8> = Vec::new();
    let mut i: usize = 0;
    while i < vertices.len()
        invariant
            i <= vertices@.len(),
            out@ == spec_vertex_bytes(vertices@.subrange(0, i as int)),
        decreases vertices@.len() - i,
    {
        let v = vertices[i];
        push_le_bytes(&mut out, v.px);
        push_le_bytes(&mut out, v.py);
        push_le_bytes(&mut out, v.pz);
        push_le_bytes(&mut out, v.cx);
        push_le_bytes(&mut out, v.cy);
        push_le_bytes(&mut out, v.cz);
        proof {
            let pre = vertices@.subrange(0, i as int);
            let post = vertices@.subrange(0, i as int + 1);
            assert(post.drop_last() =~= pre);
            assert(post.last() == vertices@[i as int]);
            lemma_words_bytes_six(v.px, v.py, v.pz, v.cx, v.cy, v.cz);
            assert(spec_vertex_words(vertices@[i as int]) =~= seq![v.px, v.py, v.pz, v.cx, v.cy, v.cz]);
            assert(out@ =~= spec_vertex_bytes(post));
        }
        i = i + 1;
    }
    proof {
        assert(vertices@.subrange(0, vertices@.len() as int) =~= vertices@);
        lemma_vertex_bytes_len(vertices@);
    }
    out
}

/// The GPU-resident buffers of one uploaded mesh: vertex and index buffer
/// allocations with their byte offsets, the index width, and the index
/// count a draw over the whole mesh uses. The two buffers live and die
/// together.
#[derive(Clone, Copy, PartialEq, Eq, Structural, Debug)]
pub struct MeshBuffers {
    pub vertex_allocation: usize,
    pub vertex_offset: u64,
    pub index_allocation: usize,
    pub index_offset: u64,
    /// Bytes per stored index; this engine stores 32-bit indices.
    pub index_width: u32,
    pub index_count: u32,
}

/// Uploads a mesh into two freshly allocated host-visible buffers: the
/// vertex bytes into a vertex-usage buffer of exactly the packed vertex
/// size, the index bytes into an index-usage buffer of four bytes per
/// index, each written through a scoped mapping.
///
/// Fails exactly when the two buffers together exceed the bytes left in the
/// budget; a partial success is rolled back, so on failure the live
/// allocations are unchanged.
pub fn upload(allocator: &mut GpuAllocator, mesh: &Mesh) -> (r: Result<MeshBuffers, AllocError>)
    requires
        old(allocator).wf(),
        mesh.vertices@.len() * VERTEX_STRIDE <= usize::MAX,
        mesh.indices@.len() * 4 <= usize::MAX,
        mesh.indices@.len() <= u32::MAX,
    ensures
        final(allocator).wf(),
        final(allocator).budget == old(allocator).budget,
        final(allocator).records@.len() >= old(allocator).records@.len(),
        forall|j: int|
            0 <= j < old(allocator).records@.len()
                ==> final(allocator).records@[j] == old(allocator).records@[j],
        match r {
            Ok(mb) => {
                let vertex_size = mesh.vertices@.len() * VERTEX_STRIDE;
                let index_size = mesh.indices@.len() * 4;
                &&& vertex_size + index_size <= old(allocator).budget - old(allocator).used
                &&& mb.vertex_allocation == old(allocator).records@.len()
                &&& mb.index_allocation == old(allocator).records@.len() + 1
                &&& final(allocator).records@.len() == old(allocator).records@.len() + 2
                &&& final(allocator).records@[mb.vertex_allocation as int].live
                &&& final(allocator).records@[mb.vertex_allocation as int].kind
                    == AllocKind::Buffer(BufferUsage::Vertex)
                &&& final(allocator).records@[mb.vertex_allocation as int].residency
                    is HostVisible
                &&& final(allocator).records@[mb.vertex_allocation as int].size == vertex_size
                &&& final(allocator).records@[mb.vertex_allocation as int].bytes@
                    == spec_vertex_bytes(mesh.vertices@)
                &&& final(allocator).records@[mb.index_allocation as int].live
                &&& final(allocator).records@[mb.index_allocation as int].kind
                    == AllocKind::Buffer(BufferUsage::Index)
                &&& final(allocator).records@[mb.index_allocation as int].residency
                    is HostVisible
                &&& final(allocator).records@[mb.index_allocation as int].size == index_size
                &&& final(allocator).records@[mb.index_allocation as int].bytes@
                    == spec_words_bytes(mesh.indices@)
                &&& mb.vertex_offset == 0
                &&& mb.index_offset == 0
                &&& mb.index_width == 4
                &&& mb.index_count == mesh.indices@.len()
                &&& final(allocator).used == old(allocator).used + vertex_size + index_size
            },
            Err(e) => {
                let vertex_size = mesh.vertices@.len() * VERTEX_STRIDE;
                let index_size = mesh.indices@.len() * 4;
                &&& e == AllocError::OutOfMemory
                &&& vertex_size + index_size > old(allocator).budget - old(allocator).used
                &&& final(allocator).used == old(allocator).used
                &&& forall|j: int|
                    old(allocator).records@.len() <= j < final(allocator).records@.len()
                        ==> !(#[trigger] final(allocator).records@[j]).live
            },
        },
{
    let vertex_bytes = serialize_vertices(&mesh.vertices);
    let index_bytes = serialize_indices(&mesh.indices);
    let vertex_size = mesh.vertices.len() * VERTEX_STRIDE;
    let index_size = mesh.indices.len() * 4;

    let vertex_allocation = match allocator.allocate(
        vertex_size,
        AllocKind::Buffer(BufferUsage::Vertex),
        Residency::HostVisible,
    ) {
        Ok(id) => id,
        Err(e) => {
            return Err(e);
        },
    };
    let index_allocation = match allocator.allocate(
        index_size,
        AllocKind::Buffer(BufferUsage::Index),
        Residency::HostVisible,
    ) {
        Ok(id) => id,
        Err(e) => {
            // Roll the vertex buffer back: the pair lives and dies together.
            allocator.release(vertex_allocation);
            return Err(e);
        },
    };
    allocator.map_write(vertex_allocation, &vertex_bytes);
    allocator.map_write(index_allocation, &index_bytes);
    Ok(MeshBuffers {
        vertex_allocation,
        vertex_offset: 0,
        index_allocation,
        index_offset: 0,
        index_width: 4,
        index_count: mesh.indices.len() as u32,
    })
}

} // verus!
