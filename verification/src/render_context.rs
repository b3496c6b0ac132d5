//! The render context: owner of the GPU handles, the stored surface
//! size, and the geometry registry, driving surface reconfiguration and
//! the per-frame command protocol.
//!
//! Every contract is stated over the ghost GPU operation log: what a
//! call may issue, in what order, and — just as important — when it
//! must issue nothing at all.

use crate::buffer_set::{BufferData, BufferSet};
use crate::camera::{view_projection_of, Camera};
use crate::gpu::{padded_size, Gpu, GpuOp};
use crate::mesh::{le_bytes_of_indices, vertex_bytes_of, Mesh, MeshView};
use std::collections::HashMap;
use vstd::prelude::*;

verus! {

broadcast use vstd::std_specs::hash::group_hash_axioms;

/// How a frame request ended. Per-frame conditions are deliberately
/// distinct from construction failures: a skipped frame is an expected
/// transient state, not an error.
#[derive(Clone, Copy, PartialEq, Eq, Structural, Debug)]
pub enum FrameStatus {
    /// The frame was encoded, submitted and presented.
    Presented,
    /// A stored surface dimension is zero (minimized window); the frame
    /// was skipped before any GPU call.
    SkippedZeroArea,
    /// No presentable surface image could be acquired; the frame was
    /// skipped after the acquire attempt.
    SkippedNoSurface,
}

/// The buffer bytes one geometry uploads.
pub open spec fn mesh_data(m: MeshView) -> BufferData {
    BufferData {
        vertex_bytes: vertex_bytes_of(m.vertices),
        index_bytes: le_bytes_of_indices(m.indices),
    }
}

/// Insert-if-absent: how one registration changes the registry's
/// contents.
pub open spec fn register_model(model: Map<u128, BufferData>, m: MeshView) -> Map<
    u128,
    BufferData,
> {
    if model.contains_key(m.id) {
        model
    } else {
        model.insert(m.id, mesh_data(m))
    }
}

/// The registry contents after registering a whole sequence of
/// geometries in order.
pub open spec fn register_model_all(model: Map<u128, BufferData>, ms: Seq<MeshView>) -> Map<
    u128,
    BufferData,
>
    decreases ms.len(),
{
    if ms.len() == 0 {
        model
    } else {
        register_model_all(register_model(model, ms.first()), ms.drop_first())
    }
}

/// The upload operations one registration issues: none when the
/// identity is already cached, otherwise one vertex and one index
/// buffer creation.
pub open spec fn upload_ops_for(model: Map<u128, BufferData>, m: MeshView) -> Seq<GpuOp> {
    if model.contains_key(m.id) {
        Seq::empty()
    } else {
        seq![
            GpuOp::UploadVertices { bytes: vertex_bytes_of(m.vertices) },
            GpuOp::UploadIndices { bytes: le_bytes_of_indices(m.indices) },
        ]
    }
}

/// The upload operations registering a whole sequence of geometries
/// issues, in order.
pub open spec fn upload_ops(model: Map<u128, BufferData>, ms: Seq<MeshView>) -> Seq<GpuOp>
    decreases ms.len(),
{
    if ms.len() == 0 {
        Seq::empty()
    } else {
        upload_ops_for(model, ms.first()) + upload_ops(
            register_model(model, ms.first()),
            ms.drop_first(),
        )
    }
}

/// The one indexed draw a geometry gets: over its registered buffer
/// bytes, covering exactly its index count, one instance.
pub open spec fn draw_op_for(model: Map<u128, BufferData>, m: MeshView) -> GpuOp {
    GpuOp::Draw {
        vertex_bytes: model[m.id].vertex_bytes,
        index_bytes: model[m.id].index_bytes,
        index_count: m.indices.len() as u32,
        instances: 1,
    }
}

/// One draw per geometry that has indices, in the order the
/// geometries were supplied. A geometry with no indices binds and
/// draws nothing: there is nothing to draw, and the GPU interface
/// refuses an empty buffer binding.
pub open spec fn draw_ops(model: Map<u128, BufferData>, ms: Seq<MeshView>) -> Seq<GpuOp>
    decreases ms.len(),
{
    if ms.len() == 0 {
        Seq::empty()
    } else {
        (if ms.first().indices.len() == 0 {
            Seq::<GpuOp>::empty()
        } else {
            seq![draw_op_for(model, ms.first())]
        }) + draw_ops(model, ms.drop_first())
    }
}

/// The mathematical content of a geometry list.
pub open spec fn mesh_views(ms: Seq<Mesh>) -> Seq<MeshView> {
    ms.map_values(|m: Mesh| m@)
}

/// Every geometry in the list fits the device's buffer-size limit
/// (after rounding up to the copy alignment), so its buffer pair can
/// be created.
pub open spec fn all_fit(ms: Seq<MeshView>, max_buffer_size: u64) -> bool {
    forall|i: int|
        #![trigger ms[i]]
        0 <= i < ms.len() ==> padded_size(mesh_data(ms[i]).vertex_bytes.len() as int)
            <= max_buffer_size as int && padded_size(mesh_data(ms[i]).index_bytes.len() as int)
            <= max_buffer_size as int
}

/// Every geometry in the list carries the data its identity is — or
/// becomes — registered under: an identity is never reused for
/// different data, so each draw range stays within its bound buffer.
pub open spec fn consistent_with(model: Map<u128, BufferData>, ms: Seq<MeshView>) -> bool {
    forall|i: int|
        #![trigger ms[i]]
        0 <= i < ms.len() ==> register_model_all(model, ms)[ms[i].id] == mesh_data(ms[i])
}

/// Everything one successful frame issues, in order: acquire the
/// image, upload what is not yet cached, write the uniform matrix,
/// begin the cleared pass with pipeline and binding group bound, draw
/// each geometry, submit, and present last.
pub open spec fn frame_ops(
    model: Map<u128, BufferData>,
    ms: Seq<MeshView>,
    uniform: Seq<u8>,
) -> Seq<GpuOp> {
    seq![GpuOp::Acquire { got_image: true }] + upload_ops(model, ms) + seq![
        GpuOp::WriteUniform { bytes: uniform },
        GpuOp::BeginPass,
    ] + draw_ops(register_model_all(model, ms), ms) + seq![GpuOp::Submit, GpuOp::Present]
}

proof fn lemma_register_model_all_snoc(model: Map<u128, BufferData>, s: Seq<MeshView>, m: MeshView)
    ensures
        register_model_all(model, s.push(m)) == register_model(register_model_all(model, s), m),
    decreases s.len(),
{
    let t = s.push(m);
    if s.len() == 0 {
        assert(t.first() == m);
        assert(t.drop_first() =~= Seq::<MeshView>::empty());
        assert(register_model_all(model, t) == register_model_all(
            register_model(model, m),
            t.drop_first(),
        ));
        assert(register_model_all(register_model(model, m), t.drop_first()) == register_model(
            model,
            m,
        ));
        assert(register_model_all(model, s) == model);
    } else {
        assert(t.first() == s.first());
        assert(t.drop_first() =~= s.drop_first().push(m));
        lemma_register_model_all_snoc(register_model(model, s.first()), s.drop_first(), m);
        assert(register_model_all(model, t) == register_model_all(
            register_model(model, s.first()),
            s.drop_first().push(m),
        ));
        assert(register_model_all(model, s) == register_model_all(
            register_model(model, s.first()),
            s.drop_first(),
        ));
    }
}

proof fn lemma_upload_ops_snoc(model: Map<u128, BufferData>, s: Seq<MeshView>, m: MeshView)
    ensures
        upload_ops(model, s.push(m)) == upload_ops(model, s) + upload_ops_for(
            register_model_all(model, s),
            m,
        ),
    decreases s.len(),
{
    let t = s.push(m);
    if s.len() == 0 {
        assert(t.first() == m);
        assert(t.drop_first() =~= Seq::<MeshView>::empty());
        assert(upload_ops(model, t) == upload_ops_for(model, m) + upload_ops(
            register_model(model, m),
            t.drop_first(),
        ));
        assert(upload_ops(register_model(model, m), t.drop_first()) =~= Seq::<GpuOp>::empty());
        assert(register_model_all(model, s) == model);
        assert(upload_ops(model, s) =~= Seq::<GpuOp>::empty());
        assert(upload_ops(model, t) =~= upload_ops(model, s) + upload_ops_for(
            register_model_all(model, s),
            m,
        ));
    } else {
        assert(t.first() == s.first());
        assert(t.drop_first() =~= s.drop_first().push(m));
        lemma_upload_ops_snoc(register_model(model, s.first()), s.drop_first(), m);
        assert(upload_ops(model, t) == upload_ops_for(model, s.first()) + upload_ops(
            register_model(model, s.first()),
            s.drop_first().push(m),
        ));
        assert(upload_ops(model, s) == upload_ops_for(model, s.first()) + upload_ops(
            register_model(model, s.first()),
            s.drop_first(),
        ));
        assert(register_model_all(model, s) == register_model_all(
            register_model(model, s.first()),
            s.drop_first(),
        ));
        assert(upload_ops(model, t) =~= upload_ops(model, s) + upload_ops_for(
            register_model_all(model, s),
            m,
        ));
    }
}

/// The draw a geometry appends to a frame: none when it has no
/// indices.
pub open spec fn draw_ops_for(model: Map<u128, BufferData>, m: MeshView) -> Seq<GpuOp> {
    if m.indices.len() == 0 {
        Seq::empty()
    } else {
        seq![draw_op_for(model, m)]
    }
}

proof fn lemma_draw_ops_snoc(model: Map<u128, BufferData>, s: Seq<MeshView>, m: MeshView)
    ensures
        draw_ops(model, s.push(m)) == draw_ops(model, s) + draw_ops_for(model, m),
    decreases s.len(),
{
    let t = s.push(m);
    if s.len() == 0 {
        assert(t.first() == m);
        assert(t.drop_first() =~= Seq::<MeshView>::empty());
        assert(draw_ops(model, t) == draw_ops_for(model, m) + draw_ops(model, t.drop_first()));
        assert(draw_ops(model, t.drop_first()) =~= Seq::<GpuOp>::empty());
        assert(draw_ops(model, s) =~= Seq::<GpuOp>::empty());
        assert(draw_ops(model, t) =~= draw_ops(model, s) + draw_ops_for(model, m));
    } else {
        assert(t.first() == s.first());
        assert(t.drop_first() =~= s.drop_first().push(m));
        lemma_draw_ops_snoc(model, s.drop_first(), m);
        assert(draw_ops(model, t) == draw_ops_for(model, s.first()) + draw_ops(
            model,
            s.drop_first().push(m),
        ));
        assert(draw_ops(model, s) == draw_ops_for(model, s.first()) + draw_ops(
            model,
            s.drop_first(),
        ));
        assert(draw_ops(model, t) =~= draw_ops(model, s) + draw_ops_for(model, m));
    }
}

/// The registry grows monotonically and entries are never replaced:
/// whatever is cached before a sequence of registrations is still
/// cached afterward, under the same contents. There is no eviction.
pub proof fn lemma_register_model_all_preserves(
    model: Map<u128, BufferData>,
    s: Seq<MeshView>,
    k: u128,
)
    requires
        model.contains_key(k),
    ensures
        register_model_all(model, s).contains_key(k),
        register_model_all(model, s)[k] == model[k],
    decreases s.len(),
{
    if s.len() > 0 {
        lemma_register_model_all_preserves(register_model(model, s.first()), s.drop_first(), k);
    }
}

/// After registering a sequence, every identity in it is cached: on
/// the render path, which registers before encoding, every lookup is a
/// guaranteed hit.
pub proof fn lemma_register_model_all_contains(
    model: Map<u128, BufferData>,
    s: Seq<MeshView>,
    j: int,
)
    requires
        0 <= j < s.len(),
    ensures
        register_model_all(model, s).contains_key(s[j].id),
    decreases s.len(),
{
    if j == 0 {
        lemma_register_model_all_preserves(
            register_model(model, s.first()),
            s.drop_first(),
            s.first().id,
        );
    } else {
        lemma_register_model_all_contains(register_model(model, s.first()), s.drop_first(), j - 1);
        assert(s.drop_first()[j - 1] == s[j]);
    }
}

/// A geometry's buffer record is sized to match it exactly: 12 bytes
/// per vertex record, 2 bytes per 16-bit index — so the one draw a
/// frame issues for it covers its whole index buffer.
pub proof fn lemma_mesh_data_sizes(m: MeshView)
    ensures
        mesh_data(m).vertex_bytes.len() == m.vertices.len() * 12,
        mesh_data(m).index_bytes.len() == m.indices.len() * 2,
{
    crate::mesh::lemma_vertex_bytes_len(m.vertices);
    crate::mesh::lemma_le_bytes_len(m.indices);
}

/// Registering a geometry under an identity that is already cached is
/// a no-op: the registry keeps the entry of the first registration —
/// the identical buffer pair — and no upload is issued for the second
/// call.
pub proof fn lemma_register_idempotent(model: Map<u128, BufferData>, m: MeshView)
    ensures
        register_model(register_model(model, m), m) == register_model(model, m),
        upload_ops_for(register_model(model, m), m) == Seq::<GpuOp>::empty(),
        register_model(model, m)[m.id] == (if model.contains_key(m.id) {
            model[m.id]
        } else {
            mesh_data(m)
        }),
{
}

/// A frame issues exactly one indexed draw per supplied geometry, in
/// supply order, each covering exactly the geometry's index count with
/// instance count one, over that geometry's registered buffer bytes.
/// Stated of geometries that have indices: one with none issues no
/// draw at all, since there is nothing to draw and the GPU interface
/// refuses an empty buffer binding.
pub proof fn lemma_draw_ops_shape(model: Map<u128, BufferData>, ms: Seq<MeshView>)
    requires
        forall|i: int| 0 <= i < ms.len() ==> #[trigger] ms[i].indices.len() > 0,
    ensures
        draw_ops(model, ms).len() == ms.len(),
        forall|i: int|
            0 <= i < ms.len() ==> draw_ops(model, ms)[i] == draw_op_for(model, ms[i]),
    decreases ms.len(),
{
    if ms.len() > 0 {
        assert forall|j: int|
            0 <= j < ms.drop_first().len() implies #[trigger] ms.drop_first()[j].indices.len()
            > 0 by {
            assert(ms.drop_first()[j] == ms[j + 1]);
        }
        lemma_draw_ops_shape(model, ms.drop_first());
        assert(ms[0].indices.len() > 0);
        assert forall|i: int|
            0 <= i < ms.len() implies draw_ops(model, ms)[i] == draw_op_for(model, ms[i]) by {
            if i > 0 {
                assert(ms.drop_first()[i - 1] == ms[i]);
                assert(draw_ops(model, ms)[i] == draw_ops(model, ms.drop_first())[i - 1]);
            }
        }
    }
}

proof fn lemma_upload_ops_kinds(model: Map<u128, BufferData>, ms: Seq<MeshView>)
    ensures
        forall|j: int|
            0 <= j < upload_ops(model, ms).len() ==> (upload_ops(model, ms)[j] is UploadVertices
                || upload_ops(model, ms)[j] is UploadIndices),
    decreases ms.len(),
{
    if ms.len() > 0 {
        lemma_upload_ops_kinds(register_model(model, ms.first()), ms.drop_first());
    }
}

proof fn lemma_draw_ops_kinds(model: Map<u128, BufferData>, ms: Seq<MeshView>)
    ensures
        forall|j: int| 0 <= j < draw_ops(model, ms).len() ==> draw_ops(model, ms)[j] is Draw,
    decreases ms.len(),
{
    if ms.len() > 0 {
        lemma_draw_ops_kinds(model, ms.drop_first());
    }
}

/// Within one frame, the uniform write is ordered before every draw:
/// whatever matrix a frame draws with is the one written in that same
/// frame, by queue submission order.
pub proof fn lemma_uniform_precedes_draws(
    model: Map<u128, BufferData>,
    ms: Seq<MeshView>,
    uniform: Seq<u8>,
)
    ensures
        forall|j: int, k: int|
            #![trigger frame_ops(model, ms, uniform)[j], frame_ops(model, ms, uniform)[k]]
            {
                &&& 0 <= j < frame_ops(model, ms, uniform).len()
                &&& 0 <= k < frame_ops(model, ms, uniform).len()
                &&& frame_ops(model, ms, uniform)[j] is WriteUniform
                &&& frame_ops(model, ms, uniform)[k] is Draw
            } ==> j < k,
{
    let u = upload_ops(model, ms);
    let d = draw_ops(register_model_all(model, ms), ms);
    let ops = frame_ops(model, ms, uniform);
    lemma_upload_ops_kinds(model, ms);
    lemma_draw_ops_kinds(register_model_all(model, ms), ms);
    assert(ops.len() == 5 + u.len() + d.len());
    assert forall|j: int, k: int|
        #![trigger ops[j], ops[k]]
        {
            &&& 0 <= j < ops.len()
            &&& 0 <= k < ops.len()
            &&& ops[j] is WriteUniform
            &&& ops[k] is Draw
        } implies j < k by {
        if 1 <= j < 1 + u.len() {
            assert(ops[j] == u[j - 1]);
        }
        if 3 + u.len() <= j < 3 + u.len() + d.len() {
            assert(ops[j] == d[j - 3 - u.len()]);
        }
        assert(j == 1 + u.len());
        if 1 <= k < 1 + u.len() {
            assert(ops[k] == u[k - 1]);
        }
        if 3 + u.len() <= k < 3 + u.len() + d.len() {
            assert(ops[k] == d[k - 3 - u.len()]);
        }
        assert(k >= 3 + u.len());
    }
}

/// Owns the GPU device, presentation surface and pipeline state, the
/// stored surface dimensions, and the geometry registry.
pub struct RenderContext {
    gpu: Gpu,
    width: u32,
    height: u32,
    buffer_sets: HashMap<u128, BufferSet>,
}

impl RenderContext {
    /// The context is between frames: no render pass is recording,
    /// and the surface has been configured whenever the stored size is
    /// non-zero — so a frame may always acquire, and a finished frame
    /// may always submit. Construction establishes it and every call
    /// preserves it.
    pub closed spec fn frame_ready(&self) -> bool {
        &&& self.gpu.spec_open_passes() == 0
        &&& self.width > 0 && self.height > 0 ==> self.gpu.spec_configured()
    }

    /// Every GPU operation this context has issued, oldest first.
    pub closed spec fn log(&self) -> Seq<GpuOp> {
        self.gpu.log()
    }

    /// The stored surface width, as of the last resize (or
    /// construction).
    pub closed spec fn spec_width(&self) -> u32 {
        self.width
    }

    /// The stored surface height, as of the last resize (or
    /// construction).
    pub closed spec fn spec_height(&self) -> u32 {
        self.height
    }

    /// The registry: which buffer pair each registered identity owns.
    pub closed spec fn registry(&self) -> Map<u128, BufferSet> {
        self.buffer_sets@
    }

    /// The registry's contents: the bytes behind each registered
    /// identity.
    pub open spec fn model(&self) -> Map<u128, BufferData> {
        self.registry().map_values(|bs: BufferSet| bs.data())
    }

    /// The device's largest supported surface dimension: resizing
    /// beyond it is a validation error the GPU interface refuses.
    pub closed spec fn spec_max_dimension(&self) -> u32 {
        self.gpu.spec_max_dimension()
    }

    /// The device's largest supported buffer size: a geometry whose
    /// byte payload exceeds it cannot be uploaded.
    pub closed spec fn spec_max_buffer_size(&self) -> u64 {
        self.gpu.spec_max_buffer_size()
    }

    /// The six GPU handles the context owns — device, queue, surface,
    /// pipeline, binding group, uniform buffer — which no call ever
    /// replaces.
    pub closed spec fn gpu_handles(&self) -> (
        wgpu::Device,
        wgpu::Queue,
        wgpu::Surface<'static>,
        wgpu::RenderPipeline,
        wgpu::BindGroup,
        wgpu::Buffer,
    ) {
        self.gpu.handles()
    }

    /// The device's largest supported surface dimension, for callers
    /// that must stay within `resize`'s bound.
    pub fn max_dimension(&self) -> (r: u32)
        ensures
            r == self.spec_max_dimension(),
    {
        self.gpu.max_dimension_value()
    }

    /// The device's largest supported buffer size, for callers that
    /// must stay within the registration bounds.
    pub fn max_buffer_size(&self) -> (r: u64)
        ensures
            r == self.spec_max_buffer_size(),
    {
        self.gpu.max_buffer_size_value()
    }

    /// Wraps the initialized GPU handles with an empty registry and
    /// the window's current pixel size, and configures the surface to
    /// that size when it is non-zero (a zero-area window starts out
    /// unconfigured and skipped, exactly as after a zero resize).
    pub fn new(gpu: Gpu, width: u32, height: u32) -> (r: RenderContext)
        requires
            gpu.spec_open_passes() == 0,
            width > 0 && height > 0 ==> width <= gpu.spec_max_dimension() && height
                <= gpu.spec_max_dimension(),
        ensures
            r.spec_width() == width,
            r.spec_height() == height,
            r.registry() == Map::<u128, BufferSet>::empty(),
            r.spec_max_dimension() == gpu.spec_max_dimension(),
            r.spec_max_buffer_size() == gpu.spec_max_buffer_size(),
            r.gpu_handles() == gpu.handles(),
            r.frame_ready(),
            width == 0 || height == 0 ==> r.log() == gpu.log(),
            width > 0 && height > 0 ==> r.log() == gpu.log().push(
                GpuOp::Configure { width, height },
            ),
    {
        let mut gpu = gpu;
        if width > 0 && height > 0 {
            gpu.configure(width, height);
        }
        RenderContext { gpu, width, height, buffer_sets: HashMap::new() }
    }

    /// Registers a geometry: idempotent. An identity that is already
    /// cached causes no GPU work and leaves the registry — and so the
    /// buffer pair handle it maps to — untouched; a new identity
    /// uploads its vertex and index bytes once and is inserted. The
    /// geometry's byte payload must fit the device's buffer-size
    /// limit.
    pub fn register_mesh(&mut self, mesh: &Mesh)
        requires
            old(self).frame_ready(),
            padded_size(mesh_data(mesh@).vertex_bytes.len() as int) <= old(
                self,
            ).spec_max_buffer_size() as int,
            padded_size(mesh_data(mesh@).index_bytes.len() as int) <= old(
                self,
            ).spec_max_buffer_size() as int,
        ensures
            final(self).spec_width() == old(self).spec_width(),
            final(self).spec_height() == old(self).spec_height(),
            final(self).spec_max_dimension() == old(self).spec_max_dimension(),
            final(self).spec_max_buffer_size() == old(self).spec_max_buffer_size(),
            old(self).registry().contains_key(mesh@.id) ==> final(self).registry() == old(
                self,
            ).registry() && final(self).log() == old(self).log(),
            !old(self).registry().contains_key(mesh@.id) ==> {
                &&& final(self).registry() == old(self).registry().insert(
                    mesh@.id,
                    final(self).registry()[mesh@.id],
                )
                &&& final(self).model() == old(self).model().insert(mesh@.id, mesh_data(mesh@))
                &&& final(self).log() == old(self).log() + upload_ops_for(old(self).model(), mesh@)
            },
            final(self).registry().contains_key(mesh@.id),
            final(self).frame_ready(),
            forall|k: u128|
                old(self).registry().contains_key(k)
                    ==> #[trigger] final(self).registry().contains_key(k)
                    && final(self).registry()[k] == old(self).registry()[k],
    {
        let id = mesh.id();
        if self.buffer_sets.contains_key(&id) {
            return;
        }
        let bs = mesh.buffer_set(&mut self.gpu);
        self.buffer_sets.insert(id, bs);
        proof {
            assert(self.model() =~= old(self).model().insert(mesh@.id, mesh_data(mesh@)));
            assert(self.registry() =~= old(self).registry().insert(
                mesh@.id,
                self.registry()[mesh@.id],
            ));
        }
    }

    /// The buffer pair a registered identity owns. Looking up an
    /// unregistered identity is a contract violation, ruled out here;
    /// the render path always registers first.
    pub fn lookup(&self, id: u128) -> (r: &BufferSet)
        requires
            self.registry().contains_key(id),
        ensures
            *r == self.registry()[id],
    {
        self.buffer_sets.get(&id).unwrap()
    }

    /// Stores the new dimensions unconditionally; reconfigures the
    /// surface only when both are non-zero, since configuring a
    /// zero-area surface is invalid and minimized windows simply stop
    /// presenting. A non-zero size must fit the device's texture
    /// dimension limit, a bound every real window size meets.
    pub fn resize(&mut self, width: u32, height: u32)
        requires
            old(self).frame_ready(),
            width > 0 && height > 0 ==> width <= old(self).spec_max_dimension()
                && height <= old(self).spec_max_dimension(),
        ensures
            final(self).spec_width() == width,
            final(self).spec_height() == height,
            final(self).registry() == old(self).registry(),
            final(self).spec_max_dimension() == old(self).spec_max_dimension(),
            final(self).spec_max_buffer_size() == old(self).spec_max_buffer_size(),
            final(self).gpu_handles() == old(self).gpu_handles(),
            final(self).frame_ready(),
            width == 0 || height == 0 ==> final(self).log() == old(self).log(),
            width > 0 && height > 0 ==> final(self).log() == old(self).log().push(
                GpuOp::Configure { width, height },
            ),
    {
        self.width = width;
        self.height = height;
        if width == 0 || height == 0 {
            return;
        }
        self.gpu.configure(width, height);
    }

    /// Renders one frame: skips entirely while a stored dimension is
    /// zero; otherwise attempts to acquire a surface image (skipping
    /// the frame when none comes back), registers every supplied
    /// geometry that is not yet cached, writes the view-projection
    /// matrix for the stored width and height into the uniform buffer,
    /// encodes one cleared pass with one indexed draw per geometry in
    /// supply order, submits, and presents last.
    #[verifier::spinoff_prover]
    pub fn render(&mut self, camera: &Camera, meshes: &Vec<Mesh>) -> (r: FrameStatus)
        requires
            old(self).frame_ready(),
            all_fit(mesh_views(meshes@), old(self).spec_max_buffer_size()),
            consistent_with(old(self).model(), mesh_views(meshes@)),
        ensures
            final(self).spec_width() == old(self).spec_width(),
            final(self).spec_height() == old(self).spec_height(),
            final(self).frame_ready(),
            final(self).spec_max_dimension() == old(self).spec_max_dimension(),
            final(self).spec_max_buffer_size() == old(self).spec_max_buffer_size(),
            r == FrameStatus::SkippedZeroArea <==> (old(self).spec_width() == 0
                || old(self).spec_height() == 0),
            r == FrameStatus::SkippedZeroArea ==> final(self).log() == old(self).log()
                && final(self).registry() == old(self).registry(),
            r == FrameStatus::SkippedNoSurface ==> final(self).log() == old(self).log().push(
                GpuOp::Acquire { got_image: false },
            ) && final(self).registry() == old(self).registry(),
            old(self).spec_width() > 0 && old(self).spec_height() > 0 ==> final(self).log().len()
                > old(self).log().len() && final(self).log()[old(self).log().len() as int] == (
            GpuOp::Acquire { got_image: r == FrameStatus::Presented }),
            r == FrameStatus::Presented ==> final(self).log() == old(self).log() + frame_ops(
                old(self).model(),
                mesh_views(meshes@),
                view_projection_of(camera@, old(self).spec_width(), old(self).spec_height()),
            ),
            r == FrameStatus::Presented ==> final(self).model() == register_model_all(
                old(self).model(),
                mesh_views(meshes@),
            ),
            r == FrameStatus::Presented ==> forall|k: u128|
                old(self).registry().contains_key(k)
                    ==> #[trigger] final(self).registry().contains_key(k)
                    && final(self).registry()[k] == old(self).registry()[k],
    {
        if self.width == 0 || self.height == 0 {
            return FrameStatus::SkippedZeroArea;
        }
        let width = self.width;
        let height = self.height;
        let ghost model0 = self.model();
        let ghost registry0 = self.registry();
        let ghost log0 = self.log();
        let ghost ms = mesh_views(meshes@);

        let frame = match self.gpu.acquire() {
            Some(f) => f,
            None => {
                return FrameStatus::SkippedNoSurface;
            },
        };

        let mut i: usize = 0;
        while i < meshes.len()
            invariant
                i <= meshes@.len(),
                ms == mesh_views(meshes@),
                ms.len() == meshes@.len(),
                self.spec_width() == width,
                self.spec_height() == height,
                width > 0,
                height > 0,
                self.spec_max_dimension() == old(self).spec_max_dimension(),
                self.spec_max_buffer_size() == old(self).spec_max_buffer_size(),
                self.gpu.spec_configured(),
                self.gpu.spec_open_passes() == 0,
                all_fit(ms, old(self).spec_max_buffer_size()),
                self.log() == log0.push(GpuOp::Acquire { got_image: true }) + upload_ops(
                    model0,
                    ms.take(i as int),
                ),
                self.model() == register_model_all(model0, ms.take(i as int)),
                forall|k: u128|
                    registry0.contains_key(k) ==> #[trigger] self.registry().contains_key(k)
                        && self.registry()[k] == registry0[k],
            decreases meshes@.len() - i,
        {
            let mesh = &meshes[i];
            let ghost model_before = self.model();
            let ghost registry_before = self.registry();
            proof {
                assert(ms[i as int] == mesh@);
                assert(model_before.contains_key(mesh@.id) == self.registry().contains_key(
                    mesh@.id,
                ));
            }
            self.register_mesh(mesh);
            proof {
                assert forall|k: u128|
                    registry0.contains_key(k) implies #[trigger] self.registry().contains_key(k)
                    && self.registry()[k] == registry0[k] by {
                    assert(registry_before.contains_key(k) && registry_before[k] == registry0[k]);
                }
                assert(ms.take(i + 1) =~= ms.take(i as int).push(ms[i as int]));
                lemma_register_model_all_snoc(model0, ms.take(i as int), ms[i as int]);
                lemma_upload_ops_snoc(model0, ms.take(i as int), ms[i as int]);
                assert(self.log() == log0.push(GpuOp::Acquire { got_image: true }) + upload_ops(
                    model0,
                    ms.take(i + 1),
                )) by {
                    let acquired = log0.push(GpuOp::Acquire { got_image: true });
                    assert(acquired + (upload_ops(model0, ms.take(i as int)) + upload_ops_for(
                        model_before,
                        ms[i as int],
                    )) =~= acquired + upload_ops(model0, ms.take(i as int)) + upload_ops_for(
                        model_before,
                        ms[i as int],
                    ));
                    if model_before.contains_key(mesh@.id) {
                        assert(self.log() =~= acquired + upload_ops(model0, ms.take(i as int))
                            + upload_ops_for(model_before, ms[i as int]));
                    }
                };
            }
            i += 1;
        }
        proof {
            assert(ms.take(meshes@.len() as int) =~= ms);
        }

        let vp = camera.view_projection_matrix(width, height);
        self.gpu.write_uniform(&vp);
        let (encoder, mut pass) = self.gpu.begin_pass(&frame);

        let ghost model_after = self.model();
        let ghost registry_after = self.registry();
        let ghost log1 = self.log();

        let mut i: usize = 0;
        while i < meshes.len()
            invariant
                i <= meshes@.len(),
                ms == mesh_views(meshes@),
                ms.len() == meshes@.len(),
                self.spec_width() == width,
                self.spec_height() == height,
                self.spec_max_dimension() == old(self).spec_max_dimension(),
                self.spec_max_buffer_size() == old(self).spec_max_buffer_size(),
                self.gpu.spec_configured(),
                self.gpu.spec_open_passes() == 1,
                self.registry() == registry_after,
                self.model() == model_after,
                model_after == register_model_all(model0, ms),
                consistent_with(model0, ms),
                self.log() == log1 + draw_ops(model_after, ms.take(i as int)),
            decreases meshes@.len() - i,
        {
            let mesh = &meshes[i];
            proof {
                use_type_invariant(mesh);
                assert(ms[i as int] == mesh@);
            }
            let index_count = mesh.index_count() as u32;
            if index_count > 0 {
                proof {
                    lemma_register_model_all_contains(model0, ms, i as int);
                    assert(self.registry().contains_key(mesh@.id));
                }
                let id = mesh.id();
                let buffers = self.buffer_sets.get(&id).unwrap();
                proof {
                    assert(model_after[mesh@.id] == mesh_data(mesh@));
                    assert(buffers.data() == model_after[mesh@.id]);
                    crate::mesh::lemma_le_bytes_len(mesh@.indices);
                    crate::mesh::lemma_vertex_bytes_len(mesh@.vertices);
                    assert((mesh@.indices[0] as int) < mesh@.vertices.len());
                    assert(index_count * 2 <= buffers.data().index_bytes.len());
                    assert(buffers.data().vertex_bytes.len() > 0);
                    assert(buffers.data().index_bytes.len() > 0);
                }
                self.gpu.draw(&mut pass, buffers, index_count);
            }
            proof {
                assert(ms.take(i + 1) =~= ms.take(i as int).push(ms[i as int]));
                lemma_draw_ops_snoc(model_after, ms.take(i as int), ms[i as int]);
                assert(self.log() =~= log1 + draw_ops(model_after, ms.take(i + 1)));
            }
            i += 1;
        }
        proof {
            assert(ms.take(meshes@.len() as int) =~= ms);
        }

        self.gpu.end_pass(pass);
        self.gpu.submit(encoder);
        self.gpu.present(frame);
        proof {
            let uniform = view_projection_of(camera@, width, height);
            assert(self.log() =~= log0 + frame_ops(model0, ms, uniform));
            assert(frame_ops(model0, ms, uniform)[0] == (GpuOp::Acquire { got_image: true }));
            assert(self.log()[log0.len() as int] == (GpuOp::Acquire { got_image: true }));
            assert(self.log().len() > log0.len());
            assert(self.model() =~= register_model_all(model0, ms));
            assert forall|k: u128|
                registry0.contains_key(k) implies #[trigger] self.registry().contains_key(k)
                && self.registry()[k] == registry0[k] by {
                assert(registry_after.contains_key(k) && registry_after[k] == registry0[k]);
            }
        }
        FrameStatus::Presented
    }
}

} // verus!
