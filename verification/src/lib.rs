//! A library for authoring and playing single-fragment-shader visuals:
//! an artifact holds a name, an editable fragment-shader body and a flat
//! list of RGBA8 textures; it is persisted as one little-endian binary
//! stream and driven by a GPU runtime that feeds time, cursor and mouse
//! uniforms to the shader every frame.

use vstd::prelude::*;

pub mod capture;
pub mod clock;
pub mod composer;
pub mod data;
pub mod fbits;
pub mod format;
mod gpu;
pub mod meta;
pub mod runtime;
pub mod state;
pub mod texture;
pub mod uniform;
pub mod viewport;

pub use composer::concat_shader_frag;
pub use data::ArtifactModel;
pub use fbits::f32_bits_fixed;
pub use format::FormatError;
pub use meta::Meta;
pub use data::WgsData;
pub use capture::CapturedImage;
pub use capture::align_up;
pub use capture::trim_image_buffer;
pub use clock::PausableClock;
pub use runtime::Runtime;
pub use runtime::wgs_gpu_ok;
pub use state::RuntimeError;
pub use state::RuntimeState;
pub use state::TIME_MILLIS_CAP;
pub use viewport::Viewport;
pub use texture::Texture;
pub use uniform::PixelPos;
pub use uniform::UniformState;
pub use texture::TextureModel;

verus! {

/// The file extension conventionally used for saved artifacts.
pub const EXTENSION: &'static str = "wgs";

/// The format version written into every saved artifact.
pub const VERSION: u32 = 1;

/// The fixed preamble of every composed fragment shader: the per-frame
/// uniform block and its binding at group 0. Its field layout is the wire
/// contract with [`uniform::UniformState::to_bytes`] and must not change
/// independently of it.
pub const FRAG_PREFIX: &'static str = "struct Uniform {\n    resolution: vec2<f32>,\n    time: f32,\n    cursor: vec2<f32>,\n    mouse_down: u32,\n    mouse_press: vec2<f32>,\n    mouse_release: vec2<f32>,\n}\n@group(0) @binding(0)\nvar<uniform> u: Uniform;\n";

/// The fixed suffix of every composed fragment shader: the entry point
/// that hands the user's `main_image` a bottom-left-origin coordinate.
pub const FRAG_SUFFIX: &'static str = "@fragment\nfn main(@builtin(position) frag_coord: vec4<f32>) -> @location(0) vec4<f32> {\n    return main_image(vec2<f32>(frag_coord.x, u.resolution.y - frag_coord.y));\n}\n";

/// The default editable fragment-shader body of a fresh artifact.
pub const FRAG_DEFAULT: &'static str = "fn main_image(frag_coord: vec2<f32>) -> vec4<f32> {\n    let uv = frag_coord / u.resolution;\n    return vec4<f32>(uv.x, uv.y, 0.5 + 0.5 * sin(u.time), 1.0);\n}\n";

/// The fixed vertex shader: one full-screen triangle.
pub const VERT_DEFAULT: &'static str = "@vertex\nfn main(@builtin(vertex_index) vertex_index: u32) -> @builtin(position) vec4<f32> {\n    let x = f32(i32(vertex_index) / 2) * 4.0 - 1.0;\n    let y = f32(i32(vertex_index) % 2) * 4.0 - 1.0;\n    return vec4<f32>(x, y, 0.0, 1.0);\n}\n";

} // verus!

