//! The rendering runtime: the GPU shell around [`RuntimeState`].
//!
//! The runtime owns the backend handles — device, queue, surface,
//! pipeline, bind groups, buffers — and a [`RuntimeState`] that makes
//! every decision. Each operation first lets the state machine decide
//! (and fail, on out-of-order calls), then performs the backend work
//! through the trusted wrappers of [`crate::gpu`]. GPU resources are a
//! derived cache of the artifact: texture edits rebuild only the affected
//! bind-group slot, and only an explicit `compile` (or a full `load`)
//! rebuilds the pipeline.

use crate::capture::{align_up, trim_image_buffer, CapturedImage};
use crate::clock::host_now_millis;
use crate::composer::concat_shader_frag;
use crate::data::{ArtifactModel, WgsData};
use crate::gpu;
use crate::state::{RuntimeError, RuntimeState};
use crate::texture::TextureModel;
use crate::uniform::UniformState;
use crate::viewport::Viewport;
use vstd::prelude::*;
use vstd::string::StringExecFns;

verus! {

/// A texture the backend can upload: its row of pixels fits the
/// backend's 32-bit row stride.
pub open spec fn spec_texture_rows_fit(t: TextureModel) -> bool {
    t.width * 4 <= u32::MAX
}

/// An artifact whose textures the backend can all upload.
pub open spec fn spec_gpu_ok(m: ArtifactModel) -> bool {
    forall|i: int| 0 <= i < m.textures.len() ==> spec_texture_rows_fit(#[trigger] m.textures[i])
}

/// Decides [`spec_gpu_ok`]: whether every texture of the artifact fits
/// the backend's 32-bit row stride, the condition [`Runtime::with_parts`]
/// and [`Runtime::load`] require. For callers handed an arbitrary
/// artifact — a freshly decoded file, say — this is the check to run
/// before constructing or loading.
pub fn wgs_gpu_ok(wgs: &WgsData) -> (r: bool)
    ensures
        r == spec_gpu_ok(wgs@),
{
    let n = wgs.textures.len();
    let mut i: usize = 0;
    while i < n
        invariant
            i <= n,
            n == wgs.textures@.len(),
            forall|k: int|
                0 <= k < i ==> spec_texture_rows_fit(#[trigger] wgs@.textures[k]),
        decreases n - i,
    {
        let t = &wgs.textures[i];
        if t.width > 0x3FFF_FFFF {
            proof {
                assert(t@ == wgs@.textures[i as int]);
                assert(!spec_texture_rows_fit(wgs@.textures[i as int]));
            }
            return false;
        }
        proof {
            assert(t@ == wgs@.textures[i as int]);
        }
        i = i + 1;
    }
    true
}

/// The rendering runtime over one presentation surface.
pub struct Runtime {
    /// The backend device.
    pub device: wgpu::Device,
    /// The backend queue.
    pub queue: wgpu::Queue,
    /// The presentation surface.
    pub surface: wgpu::Surface,
    /// The surface's current configuration; resize updates it in place.
    pub surface_configuration: wgpu::SurfaceConfiguration,
    /// The surface format the pipeline draws to.
    pub format: wgpu::TextureFormat,
    /// The compiled render pipeline: a derived cache of the artifact,
    /// rebuilt by `compile` and `load`.
    pub pipeline: wgpu::RenderPipeline,
    /// The sampler every texture bind group shares.
    pub sampler: wgpu::Sampler,
    /// The fixed vertex shader source.
    pub shader_vert: String,
    /// The GPU buffer the uniform block is written to each render.
    pub uniform_buffer: wgpu::Buffer,
    /// The uniform block's bind group layout (group 0).
    pub uniform_bind_group_layout: wgpu::BindGroupLayout,
    /// The uniform block's bind group (group 0).
    pub uniform_bind_group: wgpu::BindGroup,
    /// One (layout, bind group) pair per artifact texture, in order;
    /// texture `i` binds at group `i + 1`.
    pub texture_bind_groups: Vec<(wgpu::BindGroupLayout, wgpu::BindGroup)>,
    /// The drawable target of the active frame, if one is active.
    pub frame: Option<(wgpu::SurfaceTexture, wgpu::TextureView)>,
    /// The decision state machine.
    pub state: RuntimeState,
    /// The artifact being rendered.
    pub wgs: WgsData,
}

impl Runtime {
    /// The runtime's invariant: the decision state is well formed, the
    /// artifact is well formed and uploadable, there is one texture bind
    /// group per artifact texture, and a drawable target is held exactly
    /// while a frame is active.
    pub open spec fn wf(self) -> bool {
        &&& self.state.wf()
        &&& self.wgs.well_formed()
        &&& spec_gpu_ok(self.wgs@)
        &&& self.texture_bind_groups@.len() == self.wgs.textures@.len()
        &&& self.state.frame_active == (self.frame is Some)
    }

    /// Builds one texture bind group per artifact texture, in order.
    fn build_texture_bind_groups(
        device: &wgpu::Device,
        queue: &wgpu::Queue,
        sampler: &wgpu::Sampler,
        wgs: &WgsData,
    ) -> (r: Vec<(wgpu::BindGroupLayout, wgpu::BindGroup)>)
        requires
            wgs.well_formed(),
            spec_gpu_ok(wgs@),
        ensures
            r@.len() == wgs.textures@.len(),
    {
        let mut out: Vec<(wgpu::BindGroupLayout, wgpu::BindGroup)> = Vec::new();
        let n = wgs.textures.len();
        let mut i: usize = 0;
        while i < n
            invariant
                i <= n,
                n == wgs.textures@.len(),
                wgs.well_formed(),
                spec_gpu_ok(wgs@),
                out@.len() == i,
            decreases n - i,
        {
            let t = &wgs.textures[i];
            proof {
                assert(t@ == wgs@.textures[i as int]);
                assert(wgs@.textures[i as int].valid());
                assert(spec_texture_rows_fit(wgs@.textures[i as int]));
            }
            let layout = gpu::create_texture_bind_group_layout(device);
            let view = gpu::create_uploaded_texture_view(
                device,
                queue,
                t.width,
                t.height,
                t.data.as_slice(),
            );
            let bg = gpu::create_texture_bind_group(device, &layout, &view, sampler);
            out.push((layout, bg));
            i = i + 1;
        }
        out
    }

    /// Composes the fragment shader for the artifact's current body and
    /// texture count and builds the render pipeline over the uniform
    /// layout followed by one layout per texture.
    fn build_wgs_pipeline(
        device: &wgpu::Device,
        format: &wgpu::TextureFormat,
        shader_vert: &str,
        uniform_bind_group_layout: &wgpu::BindGroupLayout,
        texture_bind_groups: &Vec<(wgpu::BindGroupLayout, wgpu::BindGroup)>,
        wgs: &WgsData,
    ) -> wgpu::RenderPipeline {
        let shader_frag = concat_shader_frag(wgs_frag_str(wgs), wgs.textures.len());
        let fs = gpu::create_shader_module(device, shader_frag.as_str());
        let vs = gpu::create_shader_module(device, shader_vert);
        let mut layouts: Vec<&wgpu::BindGroupLayout> = Vec::new();
        layouts.push(uniform_bind_group_layout);
        let n = texture_bind_groups.len();
        let mut i: usize = 0;
        while i < n
            invariant
                i <= n,
                n == texture_bind_groups@.len(),
            decreases n - i,
        {
            let pair = &texture_bind_groups[i];
            layouts.push(&pair.0);
            i = i + 1;
        }
        let pipeline_layout = gpu::create_pipeline_layout(device, &layouts);
        gpu::create_render_pipeline(device, &pipeline_layout, &vs, &fs, format)
    }

    /// Creates a runtime from an already-acquired backend: device, queue,
    /// a presentation surface, and the surface's format. The clock starts
    /// at zero, unpaused, with no frame active and a 0-by-0 size; the
    /// surface is first configured by the first `resize` (or, deferred,
    /// by the first frame start after one). The initial resource build
    /// runs under a validation error scope: if the backend rejects the
    /// default pipeline or any resource, `PipelineRejected` is returned
    /// and no runtime is produced.
    pub fn with_parts(
        device: wgpu::Device,
        queue: wgpu::Queue,
        surface: wgpu::Surface,
        surface_configuration: wgpu::SurfaceConfiguration,
        format: wgpu::TextureFormat,
        wgs: WgsData,
        viewport: Option<Viewport>,
    ) -> (r: Result<Runtime, RuntimeError>)
        requires
            wgs.well_formed(),
            spec_gpu_ok(wgs@),
        ensures
            match r {
                Ok(rt) => {
                    &&& rt.wf()
                    &&& rt.wgs == wgs
                    &&& rt.frame is None
                    &&& !rt.state.frame_active
                    &&& !rt.state.is_paused
                    &&& rt.state.clock.spec_elapsed(rt.state.last_now) == 0
                    &&& rt.state.uniform == UniformState::spec_zero()
                    &&& rt.state.viewport == viewport
                    &&& rt.state.pending_capture is None
                    &&& rt.state.width == 0
                    &&& rt.state.height == 0
                    &&& !rt.state.surface_configured
                },
                Err(e) => e == RuntimeError::PipelineRejected,
            },
    {
        gpu::push_validation_scope(&device);
        gpu::push_validation_scope(&device);
        let sampler = gpu::create_sampler(&device);
        let raw = host_now_millis();
        let state = RuntimeState::new(raw, viewport);
        let uniform_bytes = state.uniform.to_bytes();
        let uniform_buffer = gpu::create_uniform_buffer(&device, &uniform_bytes);
        let uniform_bind_group_layout = gpu::create_uniform_bind_group_layout(&device);
        let uniform_bind_group = gpu::create_uniform_bind_group(
            &device,
            &uniform_bind_group_layout,
            &uniform_buffer,
        );
        let shader_vert = String::from_str(crate::VERT_DEFAULT);
        let texture_bind_groups = Self::build_texture_bind_groups(
            &device,
            &queue,
            &sampler,
            &wgs,
        );
        let pipeline = Self::build_wgs_pipeline(
            &device,
            &format,
            shader_vert.as_str(),
            &uniform_bind_group_layout,
            &texture_bind_groups,
            &wgs,
        );
        if gpu::pop_error_scope_blocking(&device).is_some() {
            return Err(RuntimeError::PipelineRejected);
        }
        Ok(
            Runtime {
                device,
                queue,
                surface,
                surface_configuration,
                format,
                pipeline,
                sampler,
                shader_vert,
                uniform_buffer,
                uniform_bind_group_layout,
                uniform_bind_group,
                texture_bind_groups,
                frame: None,
                state,
                wgs,
            },
        )
    }

    /// Recompiles the pipeline from the artifact's current body and
    /// texture set. The rebuild runs under a fresh validation error
    /// scope: if the backend rejects the composed shader or pipeline,
    /// `PipelineRejected` is returned and the previous, still-valid
    /// pipeline remains in use, with nothing else changed. On success the
    /// runtime restarts: clock to zero, cursor and mouse fields cleared,
    /// resolution kept, unpaused.
    pub fn compile(&mut self) -> (r: Result<(), RuntimeError>)
        requires
            old(self).wf(),
        ensures
            final(self).wf(),
            final(self).wgs == old(self).wgs,
            final(self).frame == old(self).frame,
            final(self).texture_bind_groups == old(self).texture_bind_groups,
            match r {
                Ok(()) => {
                    &&& !final(self).state.is_paused
                    &&& final(self).state.clock.spec_elapsed(final(self).state.last_now) == 0
                    &&& final(self).state.uniform == (UniformState {
                        resolution_x: old(self).state.uniform.resolution_x,
                        resolution_y: old(self).state.uniform.resolution_y,
                        ..UniformState::spec_zero()
                    })
                    &&& final(self).state == (RuntimeState {
                        is_paused: false,
                        clock: final(self).state.clock,
                        last_now: final(self).state.last_now,
                        uniform: final(self).state.uniform,
                        ..old(self).state
                    })
                },
                Err(e) => e == RuntimeError::PipelineRejected && *final(self) == *old(self),
            },
    {
        gpu::push_validation_scope(&self.device);
        let pipeline = Self::build_wgs_pipeline(
            &self.device,
            &self.format,
            self.shader_vert.as_str(),
            &self.uniform_bind_group_layout,
            &self.texture_bind_groups,
            &self.wgs,
        );
        if gpu::pop_error_scope_blocking(&self.device).is_some() {
            return Err(RuntimeError::PipelineRejected);
        }
        self.pipeline = pipeline;
        self.restart();
        Ok(())
    }

    /// Replaces the artifact wholesale: rebuilds the full texture
    /// resource set and the pipeline, then restarts. The rebuild runs
    /// under a fresh validation error scope: if the backend rejects any
    /// of it, `PipelineRejected` is returned and the old artifact,
    /// pipeline and texture resources all remain in use, with nothing
    /// else changed.
    pub fn load(&mut self, wgs: WgsData) -> (r: Result<(), RuntimeError>)
        requires
            old(self).wf(),
            wgs.well_formed(),
            spec_gpu_ok(wgs@),
        ensures
            final(self).wf(),
            final(self).frame == old(self).frame,
            match r {
                Ok(()) => {
                    &&& final(self).wgs == wgs
                    &&& !final(self).state.is_paused
                    &&& final(self).state.clock.spec_elapsed(final(self).state.last_now) == 0
                    &&& final(self).state.uniform == (UniformState {
                        resolution_x: old(self).state.uniform.resolution_x,
                        resolution_y: old(self).state.uniform.resolution_y,
                        ..UniformState::spec_zero()
                    })
                    &&& final(self).state == (RuntimeState {
                        is_paused: false,
                        clock: final(self).state.clock,
                        last_now: final(self).state.last_now,
                        uniform: final(self).state.uniform,
                        ..old(self).state
                    })
                },
                Err(e) => e == RuntimeError::PipelineRejected && *final(self) == *old(self),
            },
    {
        gpu::push_validation_scope(&self.device);
        let texture_bind_groups = Self::build_texture_bind_groups(
            &self.device,
            &self.queue,
            &self.sampler,
            &wgs,
        );
        let pipeline = Self::build_wgs_pipeline(
            &self.device,
            &self.format,
            self.shader_vert.as_str(),
            &self.uniform_bind_group_layout,
            &texture_bind_groups,
            &wgs,
        );
        if gpu::pop_error_scope_blocking(&self.device).is_some() {
            return Err(RuntimeError::PipelineRejected);
        }
        self.texture_bind_groups = texture_bind_groups;
        self.pipeline = pipeline;
        self.wgs = wgs;
        self.restart();
        Ok(())
    }

    /// Adds a texture to the artifact and eagerly creates its GPU bind
    /// group; the pipeline itself is only rebuilt by `compile`.
    pub fn add_texture(&mut self, width: u32, height: u32, buffer: Vec<u8>)
        requires
            old(self).wf(),
            old(self).wgs.textures@.len() < 255,
            buffer@.len() == width * height * 4,
            width * 4 <= u32::MAX,
        ensures
            final(self).wf(),
            final(self).wgs@.textures == old(self).wgs@.textures.push(
                TextureModel { width, height, data: buffer@ },
            ),
            final(self).wgs@.name == old(self).wgs@.name,
            final(self).wgs@.frag == old(self).wgs@.frag,
            final(self).wgs@.version == old(self).wgs@.version,
            final(self).state == old(self).state,
            final(self).frame == old(self).frame,
    {
        let layout = gpu::create_texture_bind_group_layout(&self.device);
        let view = gpu::create_uploaded_texture_view(
            &self.device,
            &self.queue,
            width,
            height,
            buffer.as_slice(),
        );
        let bg = gpu::create_texture_bind_group(&self.device, &layout, &view, &self.sampler);
        self.texture_bind_groups.push((layout, bg));
        self.wgs.add_texture(width, height, buffer);
        proof {
            assert(spec_gpu_ok(final(self).wgs@));
        }
    }

    /// Replaces the texture at the given index and eagerly rebuilds its
    /// GPU bind-group slot; the pipeline itself is only rebuilt by
    /// `compile`.
    pub fn change_texture(&mut self, index: usize, width: u32, height: u32, buffer: Vec<u8>)
        requires
            old(self).wf(),
            index < old(self).wgs.textures@.len(),
            buffer@.len() == width * height * 4,
            width * 4 <= u32::MAX,
        ensures
            final(self).wf(),
            final(self).wgs@.textures == old(self).wgs@.textures.update(
                index as int,
                TextureModel { width, height, data: buffer@ },
            ),
            final(self).wgs@.name == old(self).wgs@.name,
            final(self).wgs@.frag == old(self).wgs@.frag,
            final(self).wgs@.version == old(self).wgs@.version,
            final(self).state == old(self).state,
            final(self).frame == old(self).frame,
    {
        let layout = gpu::create_texture_bind_group_layout(&self.device);
        let view = gpu::create_uploaded_texture_view(
            &self.device,
            &self.queue,
            width,
            height,
            buffer.as_slice(),
        );
        let bg = gpu::create_texture_bind_group(&self.device, &layout, &view, &self.sampler);
        self.texture_bind_groups.set(index, (layout, bg));
        self.wgs.change_texture(index, width, height, buffer);
        proof {
            assert(spec_gpu_ok(final(self).wgs@));
        }
    }

    /// Removes the texture at the given index and its GPU bind-group
    /// slot; the pipeline itself is only rebuilt by `compile`.
    pub fn remove_texture(&mut self, index: usize)
        requires
            old(self).wf(),
            index < old(self).wgs.textures@.len(),
        ensures
            final(self).wf(),
            final(self).wgs@.textures == old(self).wgs@.textures.remove(index as int),
            final(self).wgs@.name == old(self).wgs@.name,
            final(self).wgs@.frag == old(self).wgs@.frag,
            final(self).wgs@.version == old(self).wgs@.version,
            final(self).state == old(self).state,
            final(self).frame == old(self).frame,
    {
        self.texture_bind_groups.remove(index);
        self.wgs.remove_texture(index);
        proof {
            assert(spec_gpu_ok(final(self).wgs@));
        }
    }

    /// Sets the editable fragment-shader body; the pipeline is not
    /// rebuilt until `compile`.
    pub fn set_wgs_frag(&mut self, shader_frag: &str)
        requires
            old(self).wf(),
            !shader_frag@.contains('\0'),
        ensures
            final(self).wf(),
            final(self).wgs@ == (ArtifactModel { frag: shader_frag@, ..old(self).wgs@ }),
            final(self).state == old(self).state,
            final(self).frame == old(self).frame,
            final(self).texture_bind_groups == old(self).texture_bind_groups,
    {
        self.wgs.set_frag(shader_frag);
    }

    /// Sets the artifact's display name.
    pub fn set_wgs_name(&mut self, name: &str)
        requires
            old(self).wf(),
            !name@.contains('\0'),
        ensures
            final(self).wf(),
            final(self).wgs@ == (ArtifactModel { name: name@, ..old(self).wgs@ }),
            final(self).state == old(self).state,
            final(self).frame == old(self).frame,
            final(self).texture_bind_groups == old(self).texture_bind_groups,
    {
        self.wgs.set_name(name);
    }

    /// Returns the artifact.
    pub fn wgs(&self) -> (r: &WgsData)
        ensures
            r == self.wgs,
    {
        &self.wgs
    }

    /// Whether the runtime is currently paused.
    pub fn is_paused(&self) -> (r: bool)
        ensures
            r == self.state.is_paused,
    {
        self.state.is_paused
    }

    /// Pauses the clock and suspends cursor and mouse tracking; a no-op
    /// while already paused.
    pub fn pause(&mut self)
        requires
            old(self).wf(),
        ensures
            final(self).wf(),
            final(self).state.is_paused,
            final(self).state.uniform == old(self).state.uniform,
            final(self).state.frame_active == old(self).state.frame_active,
            final(self).wgs == old(self).wgs,
            final(self).frame == old(self).frame,
            final(self).texture_bind_groups == old(self).texture_bind_groups,
            old(self).state.is_paused ==> *final(self) == *old(self),
    {
        let raw = host_now_millis();
        self.state.pause(raw);
    }

    /// Resumes the clock and tracking; a no-op while not paused. The
    /// paused span does not count toward the elapsed time.
    pub fn resume(&mut self)
        requires
            old(self).wf(),
        ensures
            final(self).wf(),
            !final(self).state.is_paused,
            final(self).state.uniform == old(self).state.uniform,
            final(self).state.frame_active == old(self).state.frame_active,
            final(self).wgs == old(self).wgs,
            final(self).frame == old(self).frame,
            final(self).texture_bind_groups == old(self).texture_bind_groups,
            !old(self).state.is_paused ==> *final(self) == *old(self),
            final(self).state.clock.spec_elapsed(final(self).state.last_now) == old(
                self,
            ).state.clock.spec_elapsed(old(self).state.last_now),
    {
        let raw = host_now_millis();
        self.state.resume(raw);
    }

    /// Resets the elapsed time to zero, clears cursor and mouse fields,
    /// un-pauses, and preserves the resolution.
    pub fn restart(&mut self)
        requires
            old(self).wf(),
        ensures
            final(self).wf(),
            !final(self).state.is_paused,
            final(self).state.clock.spec_elapsed(final(self).state.last_now) == 0,
            final(self).state.uniform == (UniformState {
                resolution_x: old(self).state.uniform.resolution_x,
                resolution_y: old(self).state.uniform.resolution_y,
                ..UniformState::spec_zero()
            }),
            final(self).state == (RuntimeState {
                is_paused: false,
                clock: final(self).state.clock,
                last_now: final(self).state.last_now,
                uniform: final(self).state.uniform,
                ..old(self).state
            }),
            final(self).wgs == old(self).wgs,
            final(self).frame == old(self).frame,
            final(self).texture_bind_groups == old(self).texture_bind_groups,
    {
        let raw = host_now_millis();
        self.state.restart(raw);
    }

    /// Records the new surface size and reconfigures the presentation
    /// surface to it. With a zero dimension, or while a frame is active,
    /// the backend accepts no reconfiguration, so it is deferred to the
    /// next frame start; the resolution uniform follows at the next
    /// render either way.
    pub fn resize(&mut self, width: u32, height: u32)
        requires
            old(self).wf(),
        ensures
            final(self).wf(),
            final(self).state == (RuntimeState {
                width,
                height,
                surface_configured: width >= 1 && height >= 1 && !old(self).state.frame_active,
                ..old(self).state
            }),
            final(self).wgs == old(self).wgs,
            final(self).frame == old(self).frame,
            final(self).texture_bind_groups == old(self).texture_bind_groups,
    {
        self.state.resize(width, height);
        if width >= 1 && height >= 1 && !self.state.frame_active {
            gpu::configure_surface(
                &self.surface,
                &self.device,
                &mut self.surface_configuration,
                width,
                height,
            );
            self.state.surface_configured = true;
        } else {
            self.state.surface_configured = false;
        }
    }

    /// Tracks the cursor, flipped to a bottom-left origin; discarded
    /// while paused.
    pub fn update_cursor(&mut self, x: u32, y: u32)
        requires
            old(self).wf(),
        ensures
            final(self).wf(),
            final(self).frame == old(self).frame,
            final(self).texture_bind_groups == old(self).texture_bind_groups,
            final(self).wgs == old(self).wgs,
            old(self).state.is_paused ==> *final(self) == *old(self),
            !old(self).state.is_paused ==> final(self).state == (RuntimeState {
                uniform: (UniformState {
                    cursor: (crate::uniform::PixelPos {
                        x: x as i64,
                        y: (old(self).state.uniform.resolution_y as i64 - y as i64) as i64,
                    }),
                    ..old(self).state.uniform
                }),
                ..old(self).state
            }),
    {
        self.state.update_cursor(x, y);
    }

    /// Latches a mouse press at the current cursor; discarded while
    /// paused.
    pub fn update_mouse_press(&mut self)
        requires
            old(self).wf(),
        ensures
            final(self).wf(),
            final(self).frame == old(self).frame,
            final(self).texture_bind_groups == old(self).texture_bind_groups,
            final(self).wgs == old(self).wgs,
            old(self).state.is_paused ==> *final(self) == *old(self),
            !old(self).state.is_paused ==> final(self).state == (RuntimeState {
                uniform: (UniformState {
                    mouse_down: true,
                    mouse_press: old(self).state.uniform.cursor,
                    ..old(self).state.uniform
                }),
                ..old(self).state
            }),
    {
        self.state.update_mouse_press();
    }

    /// Latches a mouse release at the current cursor; discarded while
    /// paused.
    pub fn update_mouse_release(&mut self)
        requires
            old(self).wf(),
        ensures
            final(self).wf(),
            final(self).frame == old(self).frame,
            final(self).texture_bind_groups == old(self).texture_bind_groups,
            final(self).wgs == old(self).wgs,
            old(self).state.is_paused ==> *final(self) == *old(self),
            !old(self).state.is_paused ==> final(self).state == (RuntimeState {
                uniform: (UniformState {
                    mouse_down: false,
                    mouse_release: old(self).state.uniform.cursor,
                    ..old(self).state.uniform
                }),
                ..old(self).state
            }),
    {
        self.state.update_mouse_release();
    }

    /// Stores a one-shot capture request for the given viewport; it is
    /// drained by the next `frame_finish`, and a second request before
    /// then replaces the first.
    pub fn request_capture_image(&mut self, viewport: &Viewport)
        requires
            old(self).wf(),
        ensures
            final(self).wf(),
            final(self).state == (RuntimeState {
                pending_capture: Some(*viewport),
                ..old(self).state
            }),
            final(self).wgs == old(self).wgs,
            final(self).frame == old(self).frame,
            final(self).texture_bind_groups == old(self).texture_bind_groups,
    {
        self.state.request_capture(*viewport);
    }

    /// Sets or clears the render viewport.
    pub fn set_viewport(&mut self, viewport: Option<Viewport>)
        requires
            old(self).wf(),
        ensures
            final(self).wf(),
            final(self).state == (RuntimeState { viewport, ..old(self).state }),
            final(self).wgs == old(self).wgs,
            final(self).frame == old(self).frame,
            final(self).texture_bind_groups == old(self).texture_bind_groups,
    {
        self.state.set_viewport(viewport);
    }

    /// Returns the backend device, for hosts that draw overlays of their
    /// own.
    pub fn device_ref(&self) -> &wgpu::Device {
        &self.device
    }

    /// Returns the backend queue, for hosts that draw overlays of their
    /// own.
    pub fn queue_ref(&self) -> &wgpu::Queue {
        &self.queue
    }

    /// Returns the surface format the pipeline draws to.
    pub fn format(&self) -> &wgpu::TextureFormat {
        &self.format
    }

    /// The maximum number of textures one pipeline can bind, from the
    /// device's bind-group limit.
    pub fn max_texture_count(&self) -> u32 {
        gpu::device_max_bind_groups(&self.device)
    }

    /// Pops the device's validation error scope, returning its oldest
    /// error, and pushes a fresh scope.
    pub fn pop_error_scope(&mut self) -> Option<wgpu::Error> {
        let error_scope = gpu::pop_error_scope_blocking(&self.device);
        gpu::push_validation_scope(&self.device);
        error_scope
    }

    /// Starts a new frame by acquiring a drawable surface target; a
    /// deferred surface reconfiguration is caught up first. Fails with
    /// `FrameInProgress`, changing nothing, if a frame is already active;
    /// fails with `SurfaceUnavailable` if the surface still has a zero
    /// dimension or the backend cannot supply a target (then only the
    /// configured flag may have changed).
    pub fn frame_start(&mut self) -> (r: Result<(), RuntimeError>)
        requires
            old(self).wf(),
        ensures
            final(self).wf(),
            final(self).wgs == old(self).wgs,
            final(self).texture_bind_groups == old(self).texture_bind_groups,
            old(self).state.frame_active ==> r == Err::<(), RuntimeError>(
                RuntimeError::FrameInProgress,
            ) && *final(self) == *old(self),
            !old(self).state.frame_active ==> match r {
                Ok(()) => final(self).state == (RuntimeState {
                    frame_active: true,
                    surface_configured: true,
                    ..old(self).state
                }) && final(self).frame is Some,
                Err(e) => {
                    &&& e == RuntimeError::SurfaceUnavailable
                    &&& final(self).frame == old(self).frame
                    &&& final(self).state == (RuntimeState {
                        surface_configured: final(self).state.surface_configured,
                        ..old(self).state
                    })
                },
            },
    {
        if self.frame.is_some() {
            return Err(RuntimeError::FrameInProgress);
        }
        if !self.state.surface_configured {
            let width = self.state.width;
            let height = self.state.height;
            if width >= 1 && height >= 1 {
                gpu::configure_surface(
                    &self.surface,
                    &self.device,
                    &mut self.surface_configuration,
                    width,
                    height,
                );
                self.state.surface_configured = true;
            } else {
                return Err(RuntimeError::SurfaceUnavailable);
            }
        }
        match gpu::surface_get_current(&self.surface) {
            Ok(surface_texture) => {
                let view = gpu::surface_texture_view(&surface_texture, &self.format);
                let begun = self.state.begin_frame();
                proof {
                    assert(begun is Ok);
                }
                self.frame = Some((surface_texture, view));
                Ok(())
            },
            Err(_) => Err(RuntimeError::SurfaceUnavailable),
        }
    }

    /// Renders the artifact to the active frame: writes the uniform block
    /// (resolution per the viewport rule, paused-adjusted time, cursor
    /// and mouse fields) to its GPU buffer and issues one full-screen
    /// triangle draw with the uniform bind group at group 0 and texture
    /// `i`'s bind group at group `i + 1`. Fails with `NoActiveFrame`,
    /// changing nothing, if no frame is active.
    pub fn render(&mut self) -> (r: Result<(), RuntimeError>)
        requires
            old(self).wf(),
        ensures
            final(self).wf(),
            !old(self).state.frame_active ==> r == Err::<(), RuntimeError>(
                RuntimeError::NoActiveFrame,
            ) && *final(self) == *old(self),
            old(self).state.frame_active ==> r is Ok && final(self).wgs == old(self).wgs
                && final(self).frame == old(self).frame && final(self).texture_bind_groups == old(
                self,
            ).texture_bind_groups && {
                &&& final(self).state.uniform.resolution_x == (match old(self).state.viewport {
                    Some(v) => v.width,
                    None => old(self).state.width,
                })
                &&& final(self).state.uniform.resolution_y == (match old(self).state.viewport {
                    Some(v) => v.height,
                    None => old(self).state.height,
                })
                &&& final(self).state.uniform.cursor == old(self).state.uniform.cursor
                &&& final(self).state.uniform.mouse_down == old(self).state.uniform.mouse_down
                &&& final(self).state.uniform.mouse_press == old(self).state.uniform.mouse_press
                &&& final(self).state.uniform.mouse_release == old(
                    self,
                ).state.uniform.mouse_release
                &&& final(self).state.frame_active
                &&& final(self).state.is_paused == old(self).state.is_paused
                &&& final(self).state.clock == old(self).state.clock
                &&& final(self).state.last_now >= old(self).state.last_now
                &&& final(self).state.uniform.time_millis == (if old(
                    self,
                ).state.clock.spec_elapsed(final(self).state.last_now)
                    > crate::state::TIME_MILLIS_CAP as int {
                    crate::state::TIME_MILLIS_CAP as int
                } else {
                    old(self).state.clock.spec_elapsed(final(self).state.last_now)
                })
                &&& final(self).state == (RuntimeState {
                    last_now: final(self).state.last_now,
                    uniform: final(self).state.uniform,
                    ..old(self).state
                })
            },
    {
        let raw = host_now_millis();
        match self.state.prepare_render(raw) {
            Err(e) => {
                return Err(e);
            },
            Ok(()) => {},
        }
        let uniform_bytes = self.state.uniform.to_bytes();
        gpu::write_buffer(&self.queue, &self.uniform_buffer, &uniform_bytes);
        let mut encoder = gpu::create_command_encoder(&self.device);
        match &self.frame {
            Some(pair) => {
                let mut pass = gpu::begin_wgs_pass(&mut encoder, &pair.1);
                match &self.state.viewport {
                    Some(vp) => {
                        let xb = crate::fbits::f32_bits_fixed(false, vp.x as u64 * 0x80_0000);
                        let yb = crate::fbits::f32_bits_fixed(false, vp.y as u64 * 0x80_0000);
                        let wb = crate::fbits::f32_bits_fixed(false, vp.width as u64 * 0x80_0000);
                        let hb = crate::fbits::f32_bits_fixed(false, vp.height as u64 * 0x80_0000);
                        gpu::pass_set_viewport(&mut pass, xb, yb, wb, hb);
                    },
                    None => {},
                }
                gpu::pass_set_pipeline(&mut pass, &self.pipeline);
                gpu::pass_set_bind_group(&mut pass, 0, &self.uniform_bind_group);
                let n = self.texture_bind_groups.len();
                let mut i: usize = 0;
                while i < n
                    invariant
                        i <= n,
                        n == self.texture_bind_groups@.len(),
                        n <= 255,
                    decreases n - i,
                {
                    let pair2 = &self.texture_bind_groups[i];
                    gpu::pass_set_bind_group(&mut pass, (i + 1) as u32, &pair2.1);
                    i = i + 1;
                }
                gpu::pass_draw_triangle(&mut pass);
            },
            None => {
                proof {
                    assert(false);
                }
                return Err(RuntimeError::NoActiveFrame);
            },
        }
        gpu::submit_encoder(&self.queue, encoder);
        Ok(())
    }

    /// Finishes the active frame and presents it, returning to idle. If a
    /// capture request is pending it is executed first, synchronously,
    /// and its image is returned; a capture failure loses the frame but
    /// still returns the runtime to idle. Fails with `NoActiveFrame`,
    /// changing nothing, if no frame is active.
    pub fn frame_finish(&mut self) -> (r: Result<Option<CapturedImage>, RuntimeError>)
        requires
            old(self).wf(),
        ensures
            final(self).wf(),
            !old(self).state.frame_active ==> r == Err::<Option<CapturedImage>, RuntimeError>(
                RuntimeError::NoActiveFrame,
            ) && *final(self) == *old(self),
            old(self).state.frame_active ==> {
                &&& !final(self).state.frame_active
                &&& final(self).frame is None
                &&& final(self).state.pending_capture is None
                &&& final(self).wgs == old(self).wgs
                &&& final(self).texture_bind_groups == old(self).texture_bind_groups
                &&& final(self).state == (RuntimeState {
                    frame_active: false,
                    pending_capture: None,
                    ..old(self).state
                })
                &&& (old(self).state.pending_capture is None ==> r == Ok::<
                    Option<CapturedImage>,
                    RuntimeError,
                >(None))
                &&& (match r {
                    Ok(Some(img)) => {
                        &&& old(self).state.pending_capture is Some
                        &&& img.width == old(self).state.pending_capture.unwrap().width
                        &&& img.height == old(self).state.pending_capture.unwrap().height
                        &&& img.data@.len() == img.width * img.height * 4
                    },
                    Ok(None) => old(self).state.pending_capture is None,
                    Err(e) => old(self).state.pending_capture is Some && (e
                        == RuntimeError::BufferMapFailed || e == RuntimeError::CaptureTooLarge),
                })
            },
    {
        let pending = match self.state.finish_frame() {
            Err(e) => {
                return Err(e);
            },
            Ok(p) => p,
        };
        let frame = self.frame.take();
        match frame {
            Some(pair) => {
                let (surface_texture, _view) = pair;
                let captured = match pending {
                    Some(vp) => {
                        match self.capture_image(&vp, &surface_texture) {
                            Ok(img) => Some(img),
                            Err(e) => {
                                return Err(e);
                            },
                        }
                    },
                    None => None,
                };
                gpu::present_surface_texture(surface_texture);
                Ok(captured)
            },
            None => {
                proof {
                    assert(false);
                }
                Err(RuntimeError::NoActiveFrame)
            },
        }
    }

    /// Renders host-drawn content (an overlay, a UI) on the active
    /// frame's target: hands the device, queue and the frame's view to
    /// the given closure. Fails with `NoActiveFrame`, without calling the
    /// closure, if no frame is active.
    pub fn render_with<F: FnOnce(
        &wgpu::Device,
        &wgpu::Queue,
        &wgpu::TextureView,
    ) -> Result<(), RuntimeError>>(&self, f: F) -> (r: Result<(), RuntimeError>)
        requires
            self.wf(),
            forall|d: &wgpu::Device, q: &wgpu::Queue, v: &wgpu::TextureView|
                call_requires(f, (d, q, v)),
        ensures
            !self.state.frame_active ==> r == Err::<(), RuntimeError>(RuntimeError::NoActiveFrame),
            self.state.frame_active ==> (exists|
                d: &wgpu::Device,
                q: &wgpu::Queue,
                v: &wgpu::TextureView,
            |
                call_ensures(f, (d, q, v), r)),
    {
        match &self.frame {
            Some(pair) => f(&self.device, &self.queue, &pair.1),
            None => Err(RuntimeError::NoActiveFrame),
        }
    }

    /// Reads back the requested sub-rectangle of the just-rendered
    /// surface: copies the surface into a stride-aligned buffer, waits
    /// for the GPU-to-CPU mapping, trims the stride padding, crops to the
    /// viewport and reorders channels to RGBA.
    fn capture_image(&self, viewport: &Viewport, st: &wgpu::SurfaceTexture) -> (r: Result<
        CapturedImage,
        RuntimeError,
    >)
        ensures
            match r {
                Ok(img) => {
                    &&& img.width == viewport.width
                    &&& img.height == viewport.height
                    &&& img.data@.len() == img.width * img.height * 4
                },
                Err(e) => e == RuntimeError::BufferMapFailed || e
                    == RuntimeError::CaptureTooLarge,
            },
    {
        let (raw_width, raw_height) = gpu::surface_texture_size(st);
        if raw_width > (u32::MAX - 255) / 4 {
            return Err(RuntimeError::CaptureTooLarge);
        }
        if viewport.x as u64 + viewport.width as u64 > raw_width as u64 || viewport.y as u64
            + viewport.height as u64 > raw_height as u64 {
            return Err(RuntimeError::CaptureTooLarge);
        }
        if viewport.y as u64 + viewport.height as u64 > usize::MAX as u64 {
            return Err(RuntimeError::CaptureTooLarge);
        }
        proof {
            assert((256u32 & 255u32) == 0) by (bit_vector);
        }
        let align_width = align_up(raw_width * 4, 256);
        proof {
            assert((align_width as u64) * (raw_height as u64) < u64::MAX) by (nonlinear_arith)
                requires
                    align_width <= u32::MAX,
                    raw_height <= u32::MAX,
            ;
        }
        let size: u64 = align_width as u64 * raw_height as u64;
        if size > usize::MAX as u64 {
            return Err(RuntimeError::CaptureTooLarge);
        }
        let output_buffer = gpu::create_read_buffer(&self.device, size);
        let mut encoder = gpu::create_command_encoder(&self.device);
        gpu::copy_surface_to_buffer(
            &mut encoder,
            st,
            &output_buffer,
            align_width,
            raw_width,
            raw_height,
        );
        gpu::submit_encoder(&self.queue, encoder);
        let data = match gpu::read_buffer_blocking(&self.device, &output_buffer) {
            Some(d) => d,
            None => {
                return Err(RuntimeError::BufferMapFailed);
            },
        };
        if (data.len() as u64) < size {
            return Err(RuntimeError::BufferMapFailed);
        }
        proof {
            assert((viewport.x + viewport.width) * 4 <= align_width as int) by (nonlinear_arith)
                requires
                    viewport.x + viewport.width <= raw_width,
                    raw_width * 4 <= align_width,
            ;
            assert((viewport.y + viewport.height) * align_width <= raw_height as int
                * align_width) by (nonlinear_arith)
                requires
                    viewport.y + viewport.height <= raw_height,
                    0 <= align_width,
            ;
            assert(raw_height as int * align_width == align_width as int * raw_height)
                by (nonlinear_arith);
        }
        let trimmed = trim_image_buffer(viewport, align_width as usize, data.as_slice());
        proof {
            assert(viewport.width * viewport.height * 4 == viewport.width as int
                * (viewport.height * 4)) by (nonlinear_arith);
        }
        Ok(CapturedImage { width: viewport.width, height: viewport.height, data: trimmed })
    }
}

/// The artifact's fragment body as a string slice.
fn wgs_frag_str(wgs: &WgsData) -> (r: &str)
    ensures
        r@ == wgs@.frag,
{
    wgs.frag.as_str()
}

} // verus!
