//! The graphics backend boundary: declarations of the wgpu types the
//! runtime holds, and one trusted wrapper per wgpu call the runtime makes
//! (two bundle an inseparable sequence: a texture upload, and the blocking
//! buffer read-back).
//!
//! Nothing here is proved. Each wrapper's body holds its backend call and
//! argument conversion, nothing else; everything the runtime decides —
//! ordering, sizes, byte layouts, what to bind where — is verified code
//! in the callers. Backend failures surface through the device's
//! validation error scope; the two calls the backend treats as fatal
//! outside any scope (configuring a surface, acquiring from one) carry
//! the conditions under which the runtime keeps them safe.

use vstd::prelude::*;
use wgpu::util::DeviceExt;

verus! {

#[verifier::external_type_specification]
#[verifier::external_body]
pub struct ExDevice(wgpu::Device);

#[verifier::external_type_specification]
#[verifier::external_body]
pub struct ExQueue(wgpu::Queue);

#[verifier::external_type_specification]
#[verifier::external_body]
pub struct ExSurface(wgpu::Surface);

#[verifier::external_type_specification]
#[verifier::external_body]
pub struct ExSurfaceTexture(wgpu::SurfaceTexture);

#[verifier::external_type_specification]
#[verifier::external_body]
pub struct ExSurfaceError(wgpu::SurfaceError);

#[verifier::external_type_specification]
#[verifier::external_body]
#[verifier::reject_recursive_types(V)]
pub struct ExSurfaceConfiguration<V>(wgpu_types::SurfaceConfiguration<V>);

#[verifier::external_type_specification]
#[verifier::external_body]
pub struct ExTextureFormat(wgpu::TextureFormat);

#[verifier::external_type_specification]
#[verifier::external_body]
pub struct ExTextureView(wgpu::TextureView);

#[verifier::external_type_specification]
#[verifier::external_body]
pub struct ExSampler(wgpu::Sampler);

#[verifier::external_type_specification]
#[verifier::external_body]
pub struct ExBuffer(wgpu::Buffer);

#[verifier::external_type_specification]
#[verifier::external_body]
pub struct ExBindGroup(wgpu::BindGroup);

#[verifier::external_type_specification]
#[verifier::external_body]
pub struct ExBindGroupLayout(wgpu::BindGroupLayout);

#[verifier::external_type_specification]
#[verifier::external_body]
pub struct ExShaderModule(wgpu::ShaderModule);

#[verifier::external_type_specification]
#[verifier::external_body]
pub struct ExPipelineLayout(wgpu::PipelineLayout);

#[verifier::external_type_specification]
#[verifier::external_body]
pub struct ExRenderPipeline(wgpu::RenderPipeline);

#[verifier::external_type_specification]
#[verifier::external_body]
pub struct ExCommandEncoder(wgpu::CommandEncoder);

#[verifier::external_type_specification]
#[verifier::external_body]
pub struct ExRenderPass<'a>(wgpu::RenderPass<'a>);

#[verifier::external_type_specification]
#[verifier::external_body]
pub struct ExWgpuError(wgpu::Error);

/// Relies on `wgpu::Device::create_sampler` with the default descriptor:
/// a filtering sampler.
#[verifier::external_body]
pub(crate) fn create_sampler(device: &wgpu::Device) -> wgpu::Sampler {
    device.create_sampler(&wgpu::SamplerDescriptor::default())
}

/// Relies on `wgpu::util::DeviceExt::create_buffer_init`: a uniform
/// buffer holding the given bytes, writable from the queue.
#[verifier::external_body]
pub(crate) fn create_uniform_buffer(device: &wgpu::Device, contents: &Vec<u8>) -> wgpu::Buffer {
    device.create_buffer_init(&wgpu::util::BufferInitDescriptor {
        label: Some("Uniform Buffer"),
        contents: contents.as_slice(),
        usage: wgpu::BufferUsages::UNIFORM | wgpu::BufferUsages::COPY_DST,
    })
}

/// Relies on `wgpu::Device::create_bind_group_layout`: one uniform-buffer
/// binding at binding 0, visible to the fragment stage.
#[verifier::external_body]
pub(crate) fn create_uniform_bind_group_layout(device: &wgpu::Device) -> wgpu::BindGroupLayout {
    let ty = wgpu::BindingType::Buffer {
        ty: wgpu::BufferBindingType::Uniform, has_dynamic_offset: false, min_binding_size: None,
    };
    device.create_bind_group_layout(&wgpu::BindGroupLayoutDescriptor {
        label: Some("Uniform Bind Group Layout"),
        entries: &[wgpu::BindGroupLayoutEntry {
            binding: 0, visibility: wgpu::ShaderStages::FRAGMENT, ty, count: None,
        }],
    })
}

/// Relies on `wgpu::Device::create_bind_group`: binds the whole uniform
/// buffer at binding 0 of the given layout.
#[verifier::external_body]
pub(crate) fn create_uniform_bind_group(
    device: &wgpu::Device,
    layout: &wgpu::BindGroupLayout,
    buffer: &wgpu::Buffer,
) -> wgpu::BindGroup {
    device.create_bind_group(&wgpu::BindGroupDescriptor {
        label: Some("Uniform Bind Group"),
        layout,
        entries: &[wgpu::BindGroupEntry { binding: 0, resource: buffer.as_entire_binding() }],
    })
}

/// Relies on `wgpu::Queue::write_buffer`: schedules the bytes to be
/// written at the start of the buffer.
#[verifier::external_body]
pub(crate) fn write_buffer(queue: &wgpu::Queue, buffer: &wgpu::Buffer, data: &Vec<u8>) {
    queue.write_buffer(buffer, 0, data.as_slice());
}

/// Relies on `wgpu::Device::create_texture`, `wgpu::Queue::write_texture`
/// and `wgpu::Texture::create_view`: a 2D RGBA8 sRGB texture of the given
/// size, uploaded from tightly packed rows and handed out as its default
/// view. One wrapper carries all three calls because the intermediate
/// texture handle's type shares its name with this crate's own texture
/// type and so cannot stand in a signature here. A zero dimension is a
/// validation error caught by the device's error scope.
#[verifier::external_body]
pub(crate) fn create_uploaded_texture_view(
    device: &wgpu::Device,
    queue: &wgpu::Queue,
    width: u32,
    height: u32,
    data: &[u8],
) -> wgpu::TextureView
    requires
        data@.len() == width * height * 4,
        width * 4 <= u32::MAX,
{
    let size = wgpu::Extent3d { width, height, depth_or_array_layers: 1 };
    let texture = device.create_texture(&wgpu::TextureDescriptor {
        label: Some("Diffuse Texture"), size, mip_level_count: 1, sample_count: 1,
        dimension: wgpu::TextureDimension::D2, format: wgpu::TextureFormat::Rgba8UnormSrgb,
        usage: wgpu::TextureUsages::TEXTURE_BINDING | wgpu::TextureUsages::COPY_DST,
        view_formats: &[wgpu::TextureFormat::Rgba8UnormSrgb],
    });
    let layout = wgpu::ImageDataLayout {
        offset: 0, bytes_per_row: Some(4 * width), rows_per_image: Some(height),
    };
    queue.write_texture(texture.as_image_copy(), data, layout, size);
    texture.create_view(&wgpu::TextureViewDescriptor::default())
}

/// Relies on `wgpu::Device::create_bind_group_layout`: a 2D float texture
/// at binding 0 and a filtering sampler at binding 1, fragment-visible —
/// the layout every texture bind group and the pipeline share.
#[verifier::external_body]
pub(crate) fn create_texture_bind_group_layout(device: &wgpu::Device) -> wgpu::BindGroupLayout {
    let texture_ty = wgpu::BindingType::Texture {
        multisampled: false, view_dimension: wgpu::TextureViewDimension::D2,
        sample_type: wgpu::TextureSampleType::Float { filterable: true },
    };
    let sampler_ty = wgpu::BindingType::Sampler(wgpu::SamplerBindingType::Filtering);
    let visibility = wgpu::ShaderStages::FRAGMENT;
    device.create_bind_group_layout(&wgpu::BindGroupLayoutDescriptor {
        label: Some("Texture Bind Group Layout"),
        entries: &[
            wgpu::BindGroupLayoutEntry { binding: 0, visibility, ty: texture_ty, count: None },
            wgpu::BindGroupLayoutEntry { binding: 1, visibility, ty: sampler_ty, count: None },
        ],
    })
}

/// Relies on `wgpu::Device::create_bind_group`: the texture's view at
/// binding 0 and the sampler at binding 1.
#[verifier::external_body]
pub(crate) fn create_texture_bind_group(
    device: &wgpu::Device,
    layout: &wgpu::BindGroupLayout,
    view: &wgpu::TextureView,
    sampler: &wgpu::Sampler,
) -> wgpu::BindGroup {
    device.create_bind_group(&wgpu::BindGroupDescriptor {
        label: Some("Bind Group"),
        layout,
        entries: &[
            wgpu::BindGroupEntry { binding: 0, resource: wgpu::BindingResource::TextureView(view) },
            wgpu::BindGroupEntry { binding: 1, resource: wgpu::BindingResource::Sampler(sampler) },
        ],
    })
}

/// Relies on `wgpu::Device::create_shader_module`: compiles WGSL source;
/// rejected source surfaces through the device's error scope.
#[verifier::external_body]
pub(crate) fn create_shader_module(device: &wgpu::Device, source: &str) -> wgpu::ShaderModule {
    device.create_shader_module(wgpu::ShaderModuleDescriptor {
        label: Some("Shader"),
        source: wgpu::ShaderSource::Wgsl(std::borrow::Cow::from(source)),
    })
}

/// Relies on `wgpu::Device::create_pipeline_layout` over the given bind
/// group layouts, in order.
#[verifier::external_body]
pub(crate) fn create_pipeline_layout(
    device: &wgpu::Device,
    layouts: &Vec<&wgpu::BindGroupLayout>,
) -> wgpu::PipelineLayout {
    device.create_pipeline_layout(&wgpu::PipelineLayoutDescriptor {
        label: Some("Pipeline Layout"),
        bind_group_layouts: layouts.as_slice(),
        push_constant_ranges: &[],
    })
}

/// Relies on `wgpu::Device::create_render_pipeline`: one vertex and one
/// fragment stage, both entered at `main`, drawing to the given format.
#[verifier::external_body]
pub(crate) fn create_render_pipeline(
    device: &wgpu::Device,
    layout: &wgpu::PipelineLayout,
    vs: &wgpu::ShaderModule,
    fs: &wgpu::ShaderModule,
    format: &wgpu::TextureFormat,
) -> wgpu::RenderPipeline {
    let fragment = Some(wgpu::FragmentState {
        module: fs, entry_point: "main", targets: &[Some((*format).into())],
    });
    device.create_render_pipeline(&wgpu::RenderPipelineDescriptor {
        label: Some("Render Pipeline"),
        layout: Some(layout),
        vertex: wgpu::VertexState { module: vs, entry_point: "main", buffers: &[] },
        fragment,
        primitive: wgpu::PrimitiveState::default(),
        depth_stencil: None,
        multisample: wgpu::MultisampleState::default(),
        multiview: None,
    })
}

/// Relies on `wgpu::Device::create_command_encoder`.
#[verifier::external_body]
pub(crate) fn create_command_encoder(device: &wgpu::Device) -> wgpu::CommandEncoder {
    device.create_command_encoder(&wgpu::CommandEncoderDescriptor { label: Some("Render Encoder") })
}

/// Relies on `wgpu::CommandEncoder::begin_render_pass`: one color
/// attachment on the given view, loading the previous contents.
#[verifier::external_body]
pub(crate) fn begin_wgs_pass<'a>(
    encoder: &'a mut wgpu::CommandEncoder,
    view: &'a wgpu::TextureView,
) -> wgpu::RenderPass<'a> {
    let attachment = wgpu::RenderPassColorAttachment {
        view, resolve_target: None, ops: wgpu::Operations { load: wgpu::LoadOp::Load, store: true },
    };
    encoder.begin_render_pass(&wgpu::RenderPassDescriptor {
        label: Some("Render Pass"),
        color_attachments: &[Some(attachment)],
        depth_stencil_attachment: None,
    })
}

/// Relies on `wgpu::RenderPass::set_viewport`. The four rectangle values
/// arrive as IEEE 754 single bit patterns; the depth range is fixed at
/// zero to one.
#[verifier::external_body]
pub(crate) fn pass_set_viewport(
    pass: &mut wgpu::RenderPass,
    x_bits: u32,
    y_bits: u32,
    w_bits: u32,
    h_bits: u32,
) {
    let (zero, one) = (bytemuck::cast(0u32), bytemuck::cast(0x3F80_0000u32));
    pass.set_viewport(
        bytemuck::cast(x_bits), bytemuck::cast(y_bits),
        bytemuck::cast(w_bits), bytemuck::cast(h_bits),
        zero, one,
    );
}

/// Relies on `wgpu::RenderPass::set_pipeline`.
#[verifier::external_body]
pub(crate) fn pass_set_pipeline<'a>(
    pass: &mut wgpu::RenderPass<'a>,
    pipeline: &'a wgpu::RenderPipeline,
) {
    pass.set_pipeline(pipeline);
}

/// Relies on `wgpu::RenderPass::set_bind_group` with no dynamic offsets.
#[verifier::external_body]
pub(crate) fn pass_set_bind_group<'a>(
    pass: &mut wgpu::RenderPass<'a>,
    index: u32,
    bind_group: &'a wgpu::BindGroup,
) {
    pass.set_bind_group(index, bind_group, &[]);
}

/// Relies on `wgpu::RenderPass::draw`: one instance of three vertices —
/// the full-screen triangle the vertex shader spans.
#[verifier::external_body]
pub(crate) fn pass_draw_triangle(pass: &mut wgpu::RenderPass) {
    pass.draw(0..3, 0..1);
}

/// Relies on `wgpu::CommandEncoder::finish` and `wgpu::Queue::submit`:
/// submits the recorded commands.
#[verifier::external_body]
pub(crate) fn submit_encoder(queue: &wgpu::Queue, encoder: wgpu::CommandEncoder) {
    queue.submit(core::iter::once(encoder.finish()));
}

/// Relies on `wgpu::Surface::configure`: reconfigures the presentation
/// surface to the new size, keeping the rest of the configuration. A zero
/// dimension is rejected by the backend outside any error scope, so the
/// precondition excludes it; configuring while an acquired surface
/// texture is still unpresented is likewise fatal, so the runtime calls
/// this only between frames.
#[verifier::external_body]
pub(crate) fn configure_surface(
    surface: &wgpu::Surface,
    device: &wgpu::Device,
    config: &mut wgpu::SurfaceConfiguration,
    width: u32,
    height: u32,
)
    requires
        width >= 1,
        height >= 1,
{
    config.width = width;
    config.height = height;
    surface.configure(device, config);
}

/// Relies on `wgpu::Surface::get_current_texture`: the next drawable
/// surface target, or the backend's reason there is none. Acquiring from
/// a surface that was never configured is fatal in the backend, so the
/// runtime calls this only once its surface is configured.
#[verifier::external_body]
pub(crate) fn surface_get_current(surface: &wgpu::Surface) -> Result<
    wgpu::SurfaceTexture,
    wgpu::SurfaceError,
> {
    surface.get_current_texture()
}

/// Relies on `wgpu::Texture::create_view` on a surface texture, viewing
/// it in the given format.
#[verifier::external_body]
pub(crate) fn surface_texture_view(
    st: &wgpu::SurfaceTexture,
    format: &wgpu::TextureFormat,
) -> wgpu::TextureView {
    st.texture.create_view(&wgpu::TextureViewDescriptor {
        format: Some(*format),
        ..wgpu::TextureViewDescriptor::default()
    })
}

/// Relies on `wgpu::Texture::size`: the surface texture's pixel
/// dimensions.
#[verifier::external_body]
pub(crate) fn surface_texture_size(st: &wgpu::SurfaceTexture) -> (u32, u32) {
    let size = st.texture.size();
    (size.width, size.height)
}

/// Relies on `wgpu::SurfaceTexture::present`: schedules the texture for
/// presentation.
#[verifier::external_body]
pub(crate) fn present_surface_texture(st: wgpu::SurfaceTexture) {
    st.present();
}

/// Relies on `wgpu::Device::create_buffer`: a map-readable copy
/// destination of the given size, unmapped.
#[verifier::external_body]
pub(crate) fn create_read_buffer(device: &wgpu::Device, size: u64) -> wgpu::Buffer {
    device.create_buffer(&wgpu::BufferDescriptor {
        label: Some("Buffer"),
        size,
        usage: wgpu::BufferUsages::MAP_READ | wgpu::BufferUsages::COPY_DST,
        mapped_at_creation: false,
    })
}

/// Relies on `wgpu::CommandEncoder::copy_texture_to_buffer`: copies the
/// whole surface texture into the buffer with the given row stride.
#[verifier::external_body]
pub(crate) fn copy_surface_to_buffer(
    encoder: &mut wgpu::CommandEncoder,
    st: &wgpu::SurfaceTexture,
    buffer: &wgpu::Buffer,
    bytes_per_row: u32,
    width: u32,
    height: u32,
) {
    let layout = wgpu::ImageDataLayout {
        offset: 0, bytes_per_row: Some(bytes_per_row), rows_per_image: None,
    };
    encoder.copy_texture_to_buffer(
        st.texture.as_image_copy(),
        wgpu::ImageCopyBuffer { buffer, layout },
        wgpu::Extent3d { width, height, depth_or_array_layers: 1 },
    );
}

/// Relies on `wgpu::BufferSlice::map_async` and `wgpu::Device::poll`
/// with `Maintain::Wait`, which blocks until the mapping callback has
/// run: reads the whole buffer back, or `None` if the mapping failed.
#[verifier::external_body]
pub(crate) fn read_buffer_blocking(device: &wgpu::Device, buffer: &wgpu::Buffer) -> Option<
    Vec<u8>,
> {
    let slice = buffer.slice(..);
    let (sender, receiver) = std::sync::mpsc::channel();
    slice.map_async(wgpu::MapMode::Read, move |r| {
        let _ = sender.send(r.is_ok());
    });
    device.poll(wgpu::Maintain::Wait);
    match receiver.recv() {
        Ok(true) => {
            let data = slice.get_mapped_range().to_vec();
            buffer.unmap();
            Some(data)
        },
        _ => None,
    }
}

/// Relies on `wgpu::Device::limits`: the maximum number of bind groups,
/// which caps how many textures one pipeline can bind.
#[verifier::external_body]
pub(crate) fn device_max_bind_groups(device: &wgpu::Device) -> u32 {
    device.limits().max_bind_groups
}

/// Relies on `wgpu::Device::push_error_scope` with the validation filter.
#[verifier::external_body]
pub(crate) fn push_validation_scope(device: &wgpu::Device) {
    device.push_error_scope(wgpu::ErrorFilter::Validation);
}

/// Relies on `wgpu::Device::pop_error_scope`, waited out on the calling
/// thread: the oldest validation error in the scope, if any.
#[verifier::external_body]
pub(crate) fn pop_error_scope_blocking(device: &wgpu::Device) -> Option<wgpu::Error> {
    futures::executor::block_on(device.pop_error_scope())
}

} // verus!
