//! The GPU device, queue, presentation surface and fixed pipeline
//! state, owned as opaque handles, together with a ghost log of every
//! GPU operation issued through them.
//!
//! Each wrapper below performs exactly one step of the frame protocol
//! and records it in the log; the render path's contracts are stated
//! over that log.

use crate::buffer_set::BufferSet;
use vstd::prelude::*;
use wgpu::util::DeviceExt;

verus! {

#[verifier::external_type_specification]
#[verifier::external_body]
pub struct ExDevice(wgpu::Device);

#[verifier::external_type_specification]
#[verifier::external_body]
pub struct ExQueue(wgpu::Queue);

#[verifier::external_type_specification]
#[verifier::external_body]
pub struct ExSurface<'window>(wgpu::Surface<'window>);

#[verifier::external_type_specification]
#[verifier::external_body]
pub struct ExBuffer(wgpu::Buffer);

#[verifier::external_type_specification]
#[verifier::external_body]
pub struct ExRenderPipeline(wgpu::RenderPipeline);

#[verifier::external_type_specification]
#[verifier::external_body]
pub struct ExBindGroup(wgpu::BindGroup);

#[verifier::external_type_specification]
#[verifier::external_body]
pub struct ExSurfaceTexture(wgpu::SurfaceTexture);

#[verifier::external_type_specification]
#[verifier::external_body]
pub struct ExCommandEncoder(wgpu::CommandEncoder);

#[verifier::external_type_specification]
#[verifier::external_body]
pub struct ExRenderPass<'encoder>(wgpu::RenderPass<'encoder>);

#[verifier::external_type_specification]
#[verifier::external_body]
pub struct ExTextureUsages(wgpu::TextureUsages);

#[verifier::external_type_specification]
#[verifier::external_body]
pub struct ExTextureFormat(wgpu::TextureFormat);

#[verifier::external_type_specification]
#[verifier::external_body]
pub struct ExSurfaceColorSpace(wgpu::SurfaceColorSpace);

#[verifier::external_type_specification]
#[verifier::external_body]
pub struct ExPresentMode(wgpu::PresentMode);

#[verifier::external_type_specification]
#[verifier::external_body]
pub struct ExCompositeAlphaMode(wgpu::CompositeAlphaMode);

/// One GPU operation of the frame protocol, as the contracts see it.
pub enum GpuOp {
    /// The presentation surface was reconfigured to the given pixel size.
    Configure { width: u32, height: u32 },
    /// A vertex buffer was created, initialized with exactly these
    /// bytes (sized up to the GPU's copy alignment, zero-padded).
    UploadVertices { bytes: Seq<u8> },
    /// An index buffer was created, initialized with exactly these
    /// bytes (sized up to the GPU's copy alignment, zero-padded).
    UploadIndices { bytes: Seq<u8> },
    /// The next presentable surface image was requested; `got_image`
    /// says whether one came back.
    Acquire { got_image: bool },
    /// These bytes were written into the uniform buffer.
    WriteUniform { bytes: Seq<u8> },
    /// A render pass was begun on the acquired image: the color target
    /// cleared, the fixed pipeline and the uniform binding group bound.
    BeginPass,
    /// One indexed draw was issued over the bound buffer pair created
    /// from these bytes, covering `index_count` indices.
    Draw { vertex_bytes: Seq<u8>, index_bytes: Seq<u8>, index_count: u32, instances: u32 },
    /// The encoded command buffer was submitted to the queue.
    Submit,
    /// The acquired surface image was presented.
    Present,
}

/// The size a buffer of `n` content bytes is created with: rounded up
/// to the GPU interface's 4-byte copy alignment.
pub open spec fn padded_size(n: int) -> int {
    ((n + 3) / 4) * 4
}

/// The GPU handles this renderer owns, and the ghost log of the
/// operations issued through them.
pub struct Gpu {
    device: wgpu::Device,
    queue: wgpu::Queue,
    surface: wgpu::Surface<'static>,
    max_dimension: u32,
    max_buffer_size: u64,
    usage: wgpu::TextureUsages,
    format: wgpu::TextureFormat,
    color_space: wgpu::SurfaceColorSpace,
    present_mode: wgpu::PresentMode,
    alpha_mode: wgpu::CompositeAlphaMode,
    frame_latency: u32,
    pipeline: wgpu::RenderPipeline,
    bind_group: wgpu::BindGroup,
    uniform_buffer: wgpu::Buffer,
    ops: Ghost<Seq<GpuOp>>,
    configured: Ghost<bool>,
    open_passes: Ghost<int>,
}

impl Gpu {
    /// Every GPU operation issued so far, oldest first.
    pub closed spec fn log(&self) -> Seq<GpuOp> {
        self.ops@
    }

    /// Whether the surface has been configured at least once:
    /// acquiring from a never-configured surface panics, so the
    /// acquire wrapper demands this.
    pub closed spec fn spec_configured(&self) -> bool {
        self.configured@
    }

    /// How many render passes begun through this context are still
    /// recording: submitting while one records is a validation error,
    /// so the submit wrapper demands zero.
    pub closed spec fn spec_open_passes(&self) -> int {
        self.open_passes@
    }

    /// The device's largest supported surface dimension, given at
    /// construction: configuring beyond it is a validation error.
    pub closed spec fn spec_max_dimension(&self) -> u32 {
        self.max_dimension
    }

    /// The device's largest supported buffer size, given at
    /// construction: creating a larger buffer is a validation error.
    pub closed spec fn spec_max_buffer_size(&self) -> u64 {
        self.max_buffer_size
    }

    /// The device's largest supported surface dimension, as an exec
    /// value for callers that must stay within it.
    pub(crate) fn max_dimension_value(&self) -> (r: u32)
        ensures
            r == self.spec_max_dimension(),
    {
        self.max_dimension
    }

    /// The device's largest supported buffer size, as an exec value
    /// for callers that must stay within it.
    pub(crate) fn max_buffer_size_value(&self) -> (r: u64)
        ensures
            r == self.spec_max_buffer_size(),
    {
        self.max_buffer_size
    }

    /// The opened logical device.
    pub closed spec fn spec_device(&self) -> wgpu::Device {
        self.device
    }

    /// The command-submission queue.
    pub closed spec fn spec_queue(&self) -> wgpu::Queue {
        self.queue
    }

    /// The presentation surface.
    pub closed spec fn spec_surface(&self) -> wgpu::Surface<'static> {
        self.surface
    }

    /// The fixed render pipeline.
    pub closed spec fn spec_pipeline(&self) -> wgpu::RenderPipeline {
        self.pipeline
    }

    /// The uniform binding group.
    pub closed spec fn spec_bind_group(&self) -> wgpu::BindGroup {
        self.bind_group
    }

    /// The one-matrix uniform buffer.
    pub closed spec fn spec_uniform_buffer(&self) -> wgpu::Buffer {
        self.uniform_buffer
    }

    /// All six owned GPU handles at once: none of them is ever
    /// replaced after construction.
    pub open spec fn handles(&self) -> (
        wgpu::Device,
        wgpu::Queue,
        wgpu::Surface<'static>,
        wgpu::RenderPipeline,
        wgpu::BindGroup,
        wgpu::Buffer,
    ) {
        (
            self.spec_device(),
            self.spec_queue(),
            self.spec_surface(),
            self.spec_pipeline(),
            self.spec_bind_group(),
            self.spec_uniform_buffer(),
        )
    }

    /// Takes ownership of the handles the initialization sequence
    /// produced: the opened device and queue, the surface to be
    /// configured with the settings given here, the device's dimension
    /// and buffer-size limits, the fixed pipeline, and the uniform
    /// buffer — sized for exactly one 4x4 float matrix, 64 bytes —
    /// with its binding group. The settings are the protocol's fixed
    /// choices, applied on every surface configuration: render-target
    /// usage, the adapter's preferred color format and color space, a
    /// FIFO (vsync) presentation mode, opaque composition, and a
    /// maximum queued-frame latency of one.
    pub fn new(
        device: wgpu::Device,
        queue: wgpu::Queue,
        surface: wgpu::Surface<'static>,
        max_dimension: u32,
        max_buffer_size: u64,
        usage: wgpu::TextureUsages,
        format: wgpu::TextureFormat,
        color_space: wgpu::SurfaceColorSpace,
        present_mode: wgpu::PresentMode,
        alpha_mode: wgpu::CompositeAlphaMode,
        frame_latency: u32,
        pipeline: wgpu::RenderPipeline,
        bind_group: wgpu::BindGroup,
        uniform_buffer: wgpu::Buffer,
    ) -> (r: Gpu)
        ensures
            r.log() == Seq::<GpuOp>::empty(),
            r.spec_max_dimension() == max_dimension,
            r.spec_max_buffer_size() == max_buffer_size,
            r.handles() == (device, queue, surface, pipeline, bind_group, uniform_buffer),
            !r.spec_configured(),
            r.spec_open_passes() == 0,
    {
        Gpu {
            device,
            queue,
            surface,
            max_dimension,
            max_buffer_size,
            usage,
            format,
            color_space,
            present_mode,
            alpha_mode,
            frame_latency,
            pipeline,
            bind_group,
            uniform_buffer,
            ops: Ghost(Seq::empty()),
            configured: Ghost(false),
            open_passes: Ghost(0),
        }
    }

    /// Relies on wgpu's Surface::configure: reconfigures the surface
    /// against the device with the stored settings and the given pixel
    /// size. Surface::configure panics on a zero dimension, and a
    /// dimension above the device's texture limit is a validation
    /// error that reaches wgpu's fatal uncaptured-error handler; the
    /// preconditions rule both out.
    #[verifier::external_body]
    pub(crate) fn configure(&mut self, width: u32, height: u32)
        requires
            width > 0,
            height > 0,
            width <= old(self).spec_max_dimension(),
            height <= old(self).spec_max_dimension(),
        ensures
            final(self).log() == old(self).log().push(GpuOp::Configure { width, height }),
            final(self).spec_max_dimension() == old(self).spec_max_dimension(),
            final(self).spec_max_buffer_size() == old(self).spec_max_buffer_size(),
            final(self).handles() == old(self).handles(),
            final(self).spec_configured(),
            final(self).spec_open_passes() == old(self).spec_open_passes(),
    {
        let config = wgpu::SurfaceConfiguration {
            usage: self.usage,
            format: self.format,
            color_space: self.color_space,
            width,
            height,
            present_mode: self.present_mode,
            alpha_mode: self.alpha_mode,
            view_formats: vec![],
            desired_maximum_frame_latency: self.frame_latency,
        };
        self.surface.configure(&self.device, &config);
    }

    /// Relies on wgpu's DeviceExt::create_buffer_init: creates a GPU
    /// vertex buffer initialized with exactly the given bytes. The
    /// buffer is allocated at the contents' size rounded up to the
    /// copy alignment; a buffer beyond the device's size limit would
    /// be a fatal validation error, which the precondition rules out.
    #[verifier::external_body]
    pub(crate) fn create_vertex_buffer(&mut self, bytes: &Vec<u8>) -> (r: wgpu::Buffer)
        requires
            padded_size(bytes@.len() as int) <= old(self).spec_max_buffer_size() as int,
        ensures
            final(self).log() == old(self).log().push(GpuOp::UploadVertices { bytes: bytes@ }),
            final(self).spec_max_dimension() == old(self).spec_max_dimension(),
            final(self).spec_max_buffer_size() == old(self).spec_max_buffer_size(),
            final(self).spec_configured() == old(self).spec_configured(),
            final(self).spec_open_passes() == old(self).spec_open_passes(),
    {
        self.device.create_buffer_init(
            &wgpu::util::BufferInitDescriptor {
                label: Some("Vertex Buffer"),
                contents: bytes.as_slice(),
                usage: wgpu::BufferUsages::VERTEX,
            },
        )
    }

    /// Relies on wgpu's DeviceExt::create_buffer_init: creates a GPU
    /// index buffer initialized with exactly the given bytes. The
    /// buffer is allocated at the contents' size rounded up to the
    /// copy alignment; a buffer beyond the device's size limit would
    /// be a fatal validation error, which the precondition rules out.
    #[verifier::external_body]
    pub(crate) fn create_index_buffer(&mut self, bytes: &Vec<u8>) -> (r: wgpu::Buffer)
        requires
            padded_size(bytes@.len() as int) <= old(self).spec_max_buffer_size() as int,
        ensures
            final(self).log() == old(self).log().push(GpuOp::UploadIndices { bytes: bytes@ }),
            final(self).spec_max_dimension() == old(self).spec_max_dimension(),
            final(self).spec_max_buffer_size() == old(self).spec_max_buffer_size(),
            final(self).spec_configured() == old(self).spec_configured(),
            final(self).spec_open_passes() == old(self).spec_open_passes(),
    {
        self.device.create_buffer_init(
            &wgpu::util::BufferInitDescriptor {
                label: Some("Index Buffer"),
                contents: bytes.as_slice(),
                usage: wgpu::BufferUsages::INDEX,
            },
        )
    }

    /// Relies on wgpu's Surface::get_current_texture: requests the
    /// next presentable image. Whether an image comes back depends on
    /// the surface's state at that moment, so nothing is promised of
    /// the outcome — but the outcome itself is recorded in the log.
    /// Requesting an image from a never-configured surface panics,
    /// which the precondition rules out; construction and resize
    /// configure whenever the stored size is non-zero, and the render
    /// path skips zero sizes.
    #[verifier::external_body]
    pub(crate) fn acquire(&mut self) -> (r: Option<wgpu::SurfaceTexture>)
        requires
            old(self).spec_configured(),
        ensures
            final(self).log() == old(self).log().push(
                GpuOp::Acquire { got_image: r is Some },
            ),
            final(self).spec_max_dimension() == old(self).spec_max_dimension(),
            final(self).spec_max_buffer_size() == old(self).spec_max_buffer_size(),
            final(self).spec_configured() == old(self).spec_configured(),
            final(self).spec_open_passes() == old(self).spec_open_passes(),
    {
        match self.surface.get_current_texture() {
            wgpu::CurrentSurfaceTexture::Success(t) => Some(t),
            wgpu::CurrentSurfaceTexture::Suboptimal(t) => Some(t),
            _ => None,
        }
    }

    /// Relies on wgpu's Queue::write_buffer: schedules a write of
    /// exactly these 64 bytes into the uniform buffer (64 bytes by
    /// construction), ordered before later submissions on the same
    /// queue.
    #[verifier::external_body]
    pub(crate) fn write_uniform(&mut self, bytes: &Vec<u8>)
        requires
            bytes@.len() == 64,
        ensures
            final(self).log() == old(self).log().push(GpuOp::WriteUniform { bytes: bytes@ }),
            final(self).spec_max_dimension() == old(self).spec_max_dimension(),
            final(self).spec_max_buffer_size() == old(self).spec_max_buffer_size(),
            final(self).spec_configured() == old(self).spec_configured(),
            final(self).spec_open_passes() == old(self).spec_open_passes(),
    {
        self.queue.write_buffer(&self.uniform_buffer, 0, bytes.as_slice());
    }

    /// Relies on wgpu's CommandEncoder::begin_render_pass: begins one
    /// render pass on the acquired image, clearing the color target,
    /// then binds the fixed pipeline and the uniform binding group.
    #[verifier::external_body]
    pub(crate) fn begin_pass(&mut self, frame: &wgpu::SurfaceTexture) -> (r: (
        wgpu::CommandEncoder,
        wgpu::RenderPass<'static>,
    ))
        ensures
            final(self).log() == old(self).log().push(GpuOp::BeginPass),
            final(self).spec_max_dimension() == old(self).spec_max_dimension(),
            final(self).spec_max_buffer_size() == old(self).spec_max_buffer_size(),
            final(self).spec_configured() == old(self).spec_configured(),
            final(self).spec_open_passes() == old(self).spec_open_passes() + 1,
    {
        let view = frame.texture.create_view(&wgpu::TextureViewDescriptor::default());
        let mut encoder = self.device.create_command_encoder(
            &wgpu::CommandEncoderDescriptor { label: Some("Render Encoder") });
        let ops = wgpu::Operations {
            load: wgpu::LoadOp::Clear(wgpu::Color::GREEN), store: wgpu::StoreOp::Store };
        let attachment = wgpu::RenderPassColorAttachment {
            view: &view, depth_slice: None, resolve_target: None, ops };
        let mut pass = encoder.begin_render_pass(&wgpu::RenderPassDescriptor {
            label: Some("Render Pass"), color_attachments: &[Some(attachment)],
            depth_stencil_attachment: None, timestamp_writes: None,
            occlusion_query_set: None, multiview_mask: None,
        }).forget_lifetime();
        pass.set_pipeline(&self.pipeline);
        pass.set_bind_group(0, &self.bind_group, &[]);
        (encoder, pass)
    }

    /// Relies on wgpu's RenderPass buffer binding and draw_indexed:
    /// binds the pair's vertex and index buffers (16-bit indices) and
    /// issues one indexed draw covering `index_count` indices, one
    /// instance. Drawing past the end of the bound index buffer would
    /// be a fatal validation error, and binding an empty buffer slice
    /// panics outright; the preconditions keep the range within the
    /// bytes the pair was created with and rule out empty payloads.
    #[verifier::external_body]
    pub(crate) fn draw(
        &mut self,
        pass: &mut wgpu::RenderPass<'static>,
        buffers: &BufferSet,
        index_count: u32,
    )
        requires
            index_count * 2 <= buffers.data().index_bytes.len(),
            buffers.data().vertex_bytes.len() > 0,
            buffers.data().index_bytes.len() > 0,
        ensures
            final(self).log() == old(self).log().push(
                GpuOp::Draw {
                    vertex_bytes: buffers.data().vertex_bytes,
                    index_bytes: buffers.data().index_bytes,
                    index_count,
                    instances: 1,
                },
            ),
            final(self).spec_max_dimension() == old(self).spec_max_dimension(),
            final(self).spec_max_buffer_size() == old(self).spec_max_buffer_size(),
            final(self).spec_configured() == old(self).spec_configured(),
            final(self).spec_open_passes() == old(self).spec_open_passes(),
    {
        pass.set_vertex_buffer(0, buffers.vertex_buffer().slice(..));
        pass.set_index_buffer(buffers.index_buffer().slice(..), wgpu::IndexFormat::Uint16);
        pass.draw_indexed(0..index_count, 0, 0..1);
    }

    /// Relies on wgpu's RenderPass::drop: consuming the pass ends
    /// command recording on it, which must happen before the encoder
    /// is finished; one fewer pass is recording afterward.
    #[verifier::external_body]
    pub(crate) fn end_pass(&mut self, pass: wgpu::RenderPass<'static>)
        ensures
            final(self).log() == old(self).log(),
            final(self).spec_max_dimension() == old(self).spec_max_dimension(),
            final(self).spec_max_buffer_size() == old(self).spec_max_buffer_size(),
            final(self).spec_configured() == old(self).spec_configured(),
            final(self).spec_open_passes() == old(self).spec_open_passes() - 1,
    {
        drop(pass);
    }

    /// Relies on wgpu's Queue::submit: submits the finished command
    /// buffer; its commands execute after previously scheduled queue
    /// work such as the uniform write. Finishing an encoder whose
    /// render pass still records is a validation error, which the
    /// precondition rules out: every pass begun must have been ended.
    #[verifier::external_body]
    pub(crate) fn submit(&mut self, encoder: wgpu::CommandEncoder)
        requires
            old(self).spec_open_passes() == 0,
        ensures
            final(self).log() == old(self).log().push(GpuOp::Submit),
            final(self).spec_max_dimension() == old(self).spec_max_dimension(),
            final(self).spec_max_buffer_size() == old(self).spec_max_buffer_size(),
            final(self).spec_configured() == old(self).spec_configured(),
            final(self).spec_open_passes() == old(self).spec_open_passes(),
    {
        self.queue.submit(std::iter::once(encoder.finish()));
    }

    /// Relies on wgpu's Queue::present: schedules the acquired image
    /// for presentation, after the work already submitted.
    #[verifier::external_body]
    pub(crate) fn present(&mut self, frame: wgpu::SurfaceTexture)
        ensures
            final(self).log() == old(self).log().push(GpuOp::Present),
            final(self).spec_max_dimension() == old(self).spec_max_dimension(),
            final(self).spec_max_buffer_size() == old(self).spec_max_buffer_size(),
            final(self).spec_configured() == old(self).spec_configured(),
            final(self).spec_open_passes() == old(self).spec_open_passes(),
    {
        self.queue.present(frame);
    }
}


} // verus!
