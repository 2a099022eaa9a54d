//! Static geometry: the vertex layout, the bytes handed to the GPU, the
//! uploaded buffers and the draw call that covers them.
use vstd::prelude::*;

verus! {

/// Bytes in one 32-bit float component.
pub const FLOAT_BYTES: u64 = 4;

/// One vertex attribute made of `components` 32-bit floats, read from
/// `offset` bytes into the vertex and fed to shader location `location`.
#[derive(Clone, Copy, Debug, PartialEq, Eq, Structural)]
pub struct VertexAttribute {
    pub offset: u64,
    pub location: u32,
    pub components: u32,
}

/// How the bytes of one vertex are laid out: the distance between vertices
/// and the attributes inside one.
pub struct VertexLayout {
    pub stride: u64,
    pub attributes: Vec<VertexAttribute>,
}

/// The byte offset of attribute `k` when attributes are packed back to back.
pub open spec fn packed_offset(components: Seq<u32>, k: int) -> int
    decreases k,
{
    if k <= 0 {
        0
    } else {
        packed_offset(components, k - 1) + FLOAT_BYTES * components[k - 1]
    }
}

proof fn lemma_packed_offset_grows(components: Seq<u32>, j: int, k: int)
    requires
        0 <= j <= k,
    ensures
        packed_offset(components, j) <= packed_offset(components, k),
    decreases k - j,
{
    if j < k {
        lemma_packed_offset_grows(components, j, k - 1);
    }
}

/// Packs float attributes of the given widths back to back, at shader
/// locations `0, 1, ...`. `None` when the vertex would be larger than a
/// 64-bit stride can say.
pub fn packed_layout(components: &[u32]) -> (r: Option<VertexLayout>)
    requires
        components@.len() <= u32::MAX,
    ensures
        r.is_some() == (packed_offset(components@, components@.len() as int) <= u64::MAX),
        r matches Some(l) ==> {
            &&& l.stride == packed_offset(components@, components@.len() as int)
            &&& l.attributes@.len() == components@.len()
            &&& forall|k: int|
                0 <= k < components@.len() ==> #[trigger] l.attributes@[k] == (VertexAttribute {
                    offset: packed_offset(components@, k) as u64,
                    location: k as u32,
                    components: components@[k],
                })
        },
{
    let mut attributes: Vec<VertexAttribute> = Vec::new();
    let mut offset: u64 = 0;
    let mut k: usize = 0;
    while k < components.len()
        invariant
            k <= components@.len() <= u32::MAX,
            offset == packed_offset(components@, k as int),
            attributes@.len() == k,
            forall|j: int|
                0 <= j < k ==> #[trigger] attributes@[j] == (VertexAttribute {
                    offset: packed_offset(components@, j) as u64,
                    location: j as u32,
                    components: components@[j],
                }),
        decreases components@.len() - k,
    {
        let width: u64 = components[k] as u64 * FLOAT_BYTES;
        if offset > u64::MAX - width {
            proof {
                lemma_packed_offset_grows(components@, k as int + 1, components@.len() as int);
            }
            return None;
        }
        attributes.push(VertexAttribute { offset, location: k as u32, components: components[k] });
        offset = offset + width;
        k = k + 1;
    }
    Some(VertexLayout { stride: offset, attributes })
}

/// Float widths of a textured vertex: a 3D position, then a 2D texture
/// coordinate.
pub const POSITION_COMPONENTS: u32 = 3;
pub const TEX_COORD_COMPONENTS: u32 = 2;

/// The layout of a textured vertex: position at location 0, texture
/// coordinate right after it at location 1.
pub fn textured_vertex_layout() -> (r: VertexLayout)
    ensures
        r.stride == FLOAT_BYTES * (POSITION_COMPONENTS + TEX_COORD_COMPONENTS),
        r.attributes@ == seq![
            VertexAttribute { offset: 0, location: 0, components: POSITION_COMPONENTS },
            VertexAttribute { offset: (FLOAT_BYTES * POSITION_COMPONENTS) as u64, location: 1, components: TEX_COORD_COMPONENTS },
        ],
{
    let components: [u32; 2] = [POSITION_COMPONENTS, TEX_COORD_COMPONENTS];
    let layout = packed_layout(&components);
    assert(components@[0] == POSITION_COMPONENTS && components@[1] == TEX_COORD_COMPONENTS);
    assert(packed_offset(components@, 0) == 0);
    assert(packed_offset(components@, 1) == 12);
    assert(packed_offset(components@, 2) == 20);
    match layout {
        Some(l) => {
            assert(l.attributes@ =~= seq![
                VertexAttribute { offset: 0, location: 0, components: POSITION_COMPONENTS },
                VertexAttribute { offset: (FLOAT_BYTES * POSITION_COMPONENTS) as u64, location: 1, components: TEX_COORD_COMPONENTS },
            ]) by {
                assert(l.attributes@[0] == VertexAttribute { offset: 0, location: 0, components: POSITION_COMPONENTS });
                assert(l.attributes@[1] == VertexAttribute { offset: 12, location: 1, components: TEX_COORD_COMPONENTS });
            }
            l
        },
        None => {
            assert(false);
            VertexLayout { stride: 0, attributes: Vec::new() }
        },
    }
}

/// The bytes of `indices`, two per index, low byte first.
pub open spec fn little_endian_bytes(indices: Seq<u16>, bytes: Seq<u8>) -> bool {
    &&& bytes.len() == 2 * indices.len()
    &&& forall|i: int|
        0 <= i < indices.len() ==> #[trigger] indices[i] == bytes[2 * i] + 256 * bytes[2 * i + 1]
}

/// The bytes of `indices`, two per index, high byte first.
pub open spec fn big_endian_bytes(indices: Seq<u16>, bytes: Seq<u8>) -> bool {
    &&& bytes.len() == 2 * indices.len()
    &&& forall|i: int|
        0 <= i < indices.len() ==> #[trigger] indices[i] == 256 * bytes[2 * i] + bytes[2 * i + 1]
}

/// Relies on `bytemuck::cast_slice` from `u16` to `u8`: it never fails for
/// this pair (the target's alignment is 1 and its size divides 2) and hands
/// back the same memory, two bytes per index in the machine's byte order.
#[verifier::external_body]
fn index_bytes(indices: &[u16]) -> (r: Vec<u8>)
    ensures
        little_endian_bytes(indices@, r@) || big_endian_bytes(indices@, r@),
{
    bytemuck::cast_slice::<u16, u8>(indices).to_vec()
}

/// Why static geometry cannot be uploaded.
#[derive(Clone, Copy, Debug, PartialEq, Eq, Structural)]
pub enum GeometryError {
    /// No vertex or no index was given.
    Empty,
    /// The vertex bytes are not a whole number of vertices.
    PartialVertex,
    /// More vertices or indices than a draw call can count.
    TooLarge,
}

/// Vertex and index data ready to be copied into GPU buffers.
pub struct GeometryUpload {
    vertex_bytes: Vec<u8>,
    index_bytes: Vec<u8>,
    vertex_count: u32,
    index_count: u32,
}

impl GeometryUpload {
    pub closed spec fn spec_vertex_bytes(&self) -> Seq<u8> {
        self.vertex_bytes@
    }

    pub closed spec fn spec_index_bytes(&self) -> Seq<u8> {
        self.index_bytes@
    }

    pub closed spec fn spec_vertex_count(&self) -> u32 {
        self.vertex_count
    }

    pub closed spec fn spec_index_count(&self) -> u32 {
        self.index_count
    }

    /// What `prepare` makes of packed vertex bytes with the given stride
    /// and of the index list.
    pub open spec fn prepared(
        vertex_bytes: Seq<u8>,
        vertex_stride: u64,
        indices: Seq<u16>,
        r: Result<GeometryUpload, GeometryError>,
    ) -> bool {
        if vertex_bytes.len() == 0 || indices.len() == 0 {
            r == Err::<GeometryUpload, GeometryError>(GeometryError::Empty)
        } else if vertex_stride == 0 || vertex_bytes.len() % (vertex_stride as nat) != 0 {
            r == Err::<GeometryUpload, GeometryError>(GeometryError::PartialVertex)
        } else if vertex_bytes.len() / (vertex_stride as nat) > u32::MAX || indices.len() > u32::MAX {
            r == Err::<GeometryUpload, GeometryError>(GeometryError::TooLarge)
        } else {
            &&& r is Ok
            &&& r->Ok_0.spec_vertex_bytes() == vertex_bytes
            &&& r->Ok_0.spec_vertex_count() == vertex_bytes.len() / (vertex_stride as nat)
            &&& r->Ok_0.spec_index_count() == indices.len()
            &&& (little_endian_bytes(indices, r->Ok_0.spec_index_bytes()) || big_endian_bytes(
                indices,
                r->Ok_0.spec_index_bytes(),
            ))
        }
    }

    /// Checks the static geometry and lays out its bytes for upload. Index
    /// values are not checked against the vertex count.
    pub fn prepare(vertex_bytes: Vec<u8>, vertex_stride: u64, indices: &[u16]) -> (r: Result<
        GeometryUpload,
        GeometryError,
    >)
        ensures
            Self::prepared(vertex_bytes@, vertex_stride, indices@, r),
    {
        if vertex_bytes.len() == 0 || indices.len() == 0 {
            return Err(GeometryError::Empty);
        }
        let n_bytes = vertex_bytes.len() as u64;
        if vertex_stride == 0 || n_bytes % vertex_stride != 0 {
            return Err(GeometryError::PartialVertex);
        }
        let n_vertices = n_bytes / vertex_stride;
        if n_vertices > u32::MAX as u64 || indices.len() > u32::MAX as usize {
            return Err(GeometryError::TooLarge);
        }
        let index_bytes = index_bytes(indices);
        Ok(GeometryUpload {
            vertex_bytes,
            index_bytes,
            vertex_count: n_vertices as u32,
            index_count: indices.len() as u32,
        })
    }

    pub fn vertex_bytes(&self) -> (r: &Vec<u8>)
        ensures
            r@ == self.spec_vertex_bytes(),
    {
        &self.vertex_bytes
    }

    pub fn index_bytes(&self) -> (r: &Vec<u8>)
        ensures
            r@ == self.spec_index_bytes(),
    {
        &self.index_bytes
    }

    pub fn vertex_count(&self) -> (r: u32)
        ensures
            r == self.spec_vertex_count(),
    {
        self.vertex_count
    }

    pub fn index_count(&self) -> (r: u32)
        ensures
            r == self.spec_index_count(),
    {
        self.index_count
    }
}

/// One draw call over `[start, end)`: of indices when `indexed`, else of
/// vertices; always a single instance.
#[derive(Clone, Copy, Debug, PartialEq, Eq, Structural)]
pub struct DrawCall {
    pub indexed: bool,
    pub start: u32,
    pub end: u32,
}

/// GPU-resident vertex and index buffers, immutable once made, with the
/// counts they were filled with.
pub struct GeometryBuffer<B> {
    vertex_buffer: B,
    index_buffer: B,
    vertex_count: u32,
    index_count: u32,
}

impl<B> GeometryBuffer<B> {
    pub closed spec fn spec_vertex_buffer(&self) -> B {
        self.vertex_buffer
    }

    pub closed spec fn spec_index_buffer(&self) -> B {
        self.index_buffer
    }

    pub closed spec fn spec_vertex_count(&self) -> u32 {
        self.vertex_count
    }

    pub closed spec fn spec_index_count(&self) -> u32 {
        self.index_count
    }

    /// The draw call that covers every uploaded index.
    pub open spec fn spec_full_draw(&self) -> DrawCall {
        DrawCall { indexed: true, start: 0, end: self.spec_index_count() }
    }

    /// Takes ownership of the buffers that `upload`'s bytes were copied into.
    pub fn new(upload: &GeometryUpload, vertex_buffer: B, index_buffer: B) -> (r: GeometryBuffer<B>)
        ensures
            r.spec_vertex_buffer() == vertex_buffer,
            r.spec_index_buffer() == index_buffer,
            r.spec_vertex_count() == upload.spec_vertex_count(),
            r.spec_index_count() == upload.spec_index_count(),
    {
        GeometryBuffer {
            vertex_buffer,
            index_buffer,
            vertex_count: upload.vertex_count,
            index_count: upload.index_count,
        }
    }

    pub fn vertex_buffer(&self) -> (r: &B)
        ensures
            *r == self.spec_vertex_buffer(),
    {
        &self.vertex_buffer
    }

    pub fn index_buffer(&self) -> (r: &B)
        ensures
            *r == self.spec_index_buffer(),
    {
        &self.index_buffer
    }

    pub fn vertex_count(&self) -> (r: u32)
        ensures
            r == self.spec_vertex_count(),
    {
        self.vertex_count
    }

    pub fn index_count(&self) -> (r: u32)
        ensures
            r == self.spec_index_count(),
    {
        self.index_count
    }

    /// The one draw call that covers the indices `[0, index count)`.
    pub fn full_draw(&self) -> (r: DrawCall)
        ensures
            r == self.spec_full_draw(),
    {
        DrawCall { indexed: true, start: 0, end: self.index_count }
    }
}

} // verus!
