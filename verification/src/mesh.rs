//! Geometry resources: an immutable vertex/index description of one
//! drawable object, carrying a stable 128-bit identity used as the sole
//! key for GPU resource caching.

use crate::buffer_set::{BufferData, BufferSet};
use crate::gpu::{padded_size, Gpu, GpuOp};
use vstd::prelude::*;

verus! {

/// One vertex record of the fixed external schema: a 12-byte
/// little-endian three-component float position, kept as raw bytes so
/// that the geometry logic stays independent of float arithmetic.
#[derive(Clone, Copy, Debug)]
pub struct Vertex {
    pub data: [u8; 12],
}

/// The bytes of a vertex sequence as they are uploaded: each 12-byte
/// record in order.
pub open spec fn vertex_bytes_of(vs: Seq<Vertex>) -> Seq<u8>
    decreases vs.len(),
{
    if vs.len() == 0 {
        Seq::empty()
    } else {
        vertex_bytes_of(vs.drop_last()) + vs.last().data@
    }
}

/// The little-endian bytes of one 16-bit index.
pub open spec fn le_bytes_of_u16(x: u16) -> Seq<u8> {
    seq![(x & 0xff) as u8, (x >> 8) as u8]
}

/// The little-endian bytes of a whole index sequence, in order: the
/// exact layout of an uploaded 16-bit index buffer.
pub open spec fn le_bytes_of_indices(s: Seq<u16>) -> Seq<u8>
    decreases s.len(),
{
    if s.len() == 0 {
        Seq::empty()
    } else {
        le_bytes_of_indices(s.drop_last()) + le_bytes_of_u16(s.last())
    }
}

pub proof fn lemma_vertex_bytes_len(vs: Seq<Vertex>)
    ensures
        vertex_bytes_of(vs).len() == vs.len() * 12,
    decreases vs.len(),
{
    if vs.len() > 0 {
        lemma_vertex_bytes_len(vs.drop_last());
    }
}

pub proof fn lemma_le_bytes_len(s: Seq<u16>)
    ensures
        le_bytes_of_indices(s).len() == s.len() * 2,
    decreases s.len(),
{
    if s.len() > 0 {
        lemma_le_bytes_len(s.drop_last());
    }
}

/// Why construction of a geometry resource was refused.
#[derive(Clone, Copy, PartialEq, Eq, Structural, Debug)]
pub enum MeshError {
    /// Some index does not point into the vertex sequence.
    IndexOutOfRange,
    /// The vertex or index sequence exceeds what the GPU interface can
    /// address (index counts are bound as 32-bit, vertex bytes as usize).
    TooLarge,
}

/// Every index points into the vertex sequence: the geometry invariant.
pub open spec fn indices_in_range(vertices: Seq<Vertex>, indices: Seq<u16>) -> bool {
    forall|i: int| 0 <= i < indices.len() ==> (indices[i] as int) < vertices.len()
}

/// The machine bounds a geometry must meet so that byte sizes and draw
/// ranges can be computed without overflow.
pub open spec fn sizes_fit(vertices: Seq<Vertex>, indices: Seq<u16>) -> bool {
    &&& vertices.len() * 12 <= usize::MAX
    &&& indices.len() <= u32::MAX
}

/// The mathematical content of one geometry resource.
pub struct MeshView {
    pub id: u128,
    pub vertices: Seq<Vertex>,
    pub indices: Seq<u16>,
}

impl MeshView {
    /// The geometry invariant, as seen by contracts.
    pub open spec fn wf(self) -> bool {
        &&& indices_in_range(self.vertices, self.indices)
        &&& sizes_fit(self.vertices, self.indices)
    }
}

/// An immutable CPU-side description of one drawable object: a vertex
/// list, an index list, and a stable identity assigned at construction.
#[derive(Debug)]
pub struct Mesh {
    id: u128,
    vertices: Vec<Vertex>,
    indices: Vec<u16>,
}

impl View for Mesh {
    type V = MeshView;

    closed spec fn view(&self) -> MeshView {
        MeshView { id: self.id, vertices: self.vertices@, indices: self.indices@ }
    }
}

/// Relies on uuid::Uuid::new_v4 for a freshly drawn random 128-bit
/// identity; nothing is assumed about the value drawn.
#[verifier::external_body]
fn random_id() -> u128 {
    uuid::Uuid::new_v4().as_u128()
}

/// Relies on bytemuck::cast_slice to reinterpret a 16-bit index slice as
/// its bytes, which on the little-endian targets this renderer supports
/// is each index's little-endian byte pair in order.
#[verifier::external_body]
fn cast_index_bytes(indices: &Vec<u16>) -> (r: Vec<u8>)
    ensures
        r@ == le_bytes_of_indices(indices@),
{
    bytemuck::cast_slice(indices.as_slice()).to_vec()
}

impl Mesh {
    /// The geometry invariant, established at construction and carried
    /// by every mesh value.
    #[verifier::type_invariant]
    pub open spec fn type_wf(self) -> bool {
        self@.wf()
    }

    /// Builds a geometry resource under a caller-chosen identity,
    /// refusing any index that does not point into the vertex sequence.
    pub fn with_id(id: u128, vertices: Vec<Vertex>, indices: Vec<u16>) -> (r: Result<
        Mesh,
        MeshError,
    >)
        ensures
            r is Ok <==> (indices_in_range(vertices@, indices@) && sizes_fit(
                vertices@,
                indices@,
            )),
            r matches Ok(m) ==> m@ == (MeshView { id, vertices: vertices@, indices: indices@ }),
            r matches Err(e) ==> e == (if sizes_fit(vertices@, indices@) {
                MeshError::IndexOutOfRange
            } else {
                MeshError::TooLarge
            }),
    {
        if vertices.len() > usize::MAX / 12 || indices.len() as u64 > u32::MAX as u64 {
            return Err(MeshError::TooLarge);
        }
        proof {
            assert(vertices@.len() * 12 <= usize::MAX) by (nonlinear_arith)
                requires
                    vertices@.len() <= usize::MAX / 12,
            ;
        }
        let vertex_count = vertices.len();
        let mut i: usize = 0;
        while i < indices.len()
            invariant
                i <= indices@.len(),
                vertex_count == vertices@.len(),
                sizes_fit(vertices@, indices@),
                forall|j: int| 0 <= j < i ==> (indices@[j] as int) < vertices@.len(),
            decreases indices@.len() - i,
        {
            if indices[i] as usize >= vertex_count {
                return Err(MeshError::IndexOutOfRange);
            }
            i += 1;
        }
        Ok(Mesh { id, vertices, indices })
    }

    /// Builds a geometry resource under a freshly drawn random identity.
    pub fn new(vertices: Vec<Vertex>, indices: Vec<u16>) -> (r: Result<Mesh, MeshError>)
        ensures
            r is Ok <==> (indices_in_range(vertices@, indices@) && sizes_fit(
                vertices@,
                indices@,
            )),
            r matches Ok(m) ==> m@.vertices == vertices@ && m@.indices == indices@,
            r matches Err(e) ==> e == (if sizes_fit(vertices@, indices@) {
                MeshError::IndexOutOfRange
            } else {
                MeshError::TooLarge
            }),
    {
        let id = random_id();
        Mesh::with_id(id, vertices, indices)
    }

    /// The stable identity, assigned once at construction.
    pub fn id(&self) -> (r: u128)
        ensures
            r == self@.id,
    {
        self.id
    }

    /// How many indices one indexed draw of this geometry covers.
    pub fn index_count(&self) -> (r: usize)
        ensures
            r == self@.indices.len(),
    {
        self.indices.len()
    }

    /// How many vertex records the geometry holds.
    pub fn vertex_count(&self) -> (r: usize)
        ensures
            r == self@.vertices.len(),
    {
        self.vertices.len()
    }

    /// The vertex bytes as they are uploaded: each 12-byte record in
    /// order.
    pub fn vertex_data(&self) -> (r: Vec<u8>)
        ensures
            r@ == vertex_bytes_of(self@.vertices),
    {
        proof {
            use_type_invariant(self);
        }
        let mut out: Vec<u8> = Vec::new();
        let n = self.vertices.len();
        let mut i: usize = 0;
        proof {
            lemma_vertex_bytes_len(self.vertices@);
        }
        while i < n
            invariant
                i <= n,
                n == self.vertices@.len(),
                n * 12 <= usize::MAX,
                out@ == vertex_bytes_of(self.vertices@.take(i as int)),
            decreases n - i,
        {
            let mut j: usize = 0;
            while j < 12
                invariant
                    j <= 12,
                    i < n,
                    n == self.vertices@.len(),
                    out@ == vertex_bytes_of(self.vertices@.take(i as int))
                        + self.vertices@[i as int].data@.take(j as int),
                decreases 12 - j,
            {
                let b = self.vertices[i].data[j];
                out.push(b);
                j += 1;
            }
            proof {
                assert(self.vertices@.take(i + 1).drop_last() =~= self.vertices@.take(i as int));
                assert(self.vertices@.take(i + 1).last() == self.vertices@[i as int]);
                assert(self.vertices@[i as int].data@.take(12) =~= self.vertices@[i as int].data@);
            }
            i += 1;
        }
        proof {
            assert(self.vertices@.take(n as int) =~= self.vertices@);
        }
        out
    }

    /// The index bytes as they are uploaded: each index's little-endian
    /// byte pair in order.
    pub fn index_data(&self) -> (r: Vec<u8>)
        ensures
            r@ == le_bytes_of_indices(self@.indices),
    {
        cast_index_bytes(&self.indices)
    }

    /// Uploads the geometry into a fresh GPU buffer pair: one vertex
    /// buffer and one index buffer, each holding exactly its bytes.
    /// The byte sizes must fit the device's buffer-size limit.
    pub fn buffer_set(&self, gpu: &mut Gpu) -> (r: BufferSet)
        requires
            padded_size(vertex_bytes_of(self@.vertices).len() as int) <= old(
                gpu,
            ).spec_max_buffer_size() as int,
            padded_size(le_bytes_of_indices(self@.indices).len() as int) <= old(
                gpu,
            ).spec_max_buffer_size() as int,
        ensures
            final(gpu).spec_max_dimension() == old(gpu).spec_max_dimension(),
            final(gpu).spec_max_buffer_size() == old(gpu).spec_max_buffer_size(),
            final(gpu).spec_configured() == old(gpu).spec_configured(),
            final(gpu).spec_open_passes() == old(gpu).spec_open_passes(),
            final(gpu).log() == old(gpu).log() + seq![
                GpuOp::UploadVertices { bytes: vertex_bytes_of(self@.vertices) },
                GpuOp::UploadIndices { bytes: le_bytes_of_indices(self@.indices) },
            ],
            r.data() == (BufferData {
                vertex_bytes: vertex_bytes_of(self@.vertices),
                index_bytes: le_bytes_of_indices(self@.indices),
            }),
    {
        let vertex_bytes = self.vertex_data();
        let index_bytes = self.index_data();
        let vertex_buffer = gpu.create_vertex_buffer(&vertex_bytes);
        let index_buffer = gpu.create_index_buffer(&index_bytes);
        proof {
            assert(old(gpu).log().push(GpuOp::UploadVertices { bytes: vertex_bytes@ }).push(
                GpuOp::UploadIndices { bytes: index_bytes@ },
            ) =~= old(gpu).log() + seq![
                GpuOp::UploadVertices { bytes: vertex_bytes@ },
                GpuOp::UploadIndices { bytes: index_bytes@ },
            ]);
        }
        BufferSet::new(
            index_buffer,
            vertex_buffer,
            Ghost(BufferData { vertex_bytes: vertex_bytes@, index_bytes: index_bytes@ }),
        )
    }
}

} // verus!
