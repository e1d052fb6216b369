//! The names that an application needs.

pub use crate::rendering::atomic_counter::AtomicCounter;
pub use crate::rendering::buffer::FixedSizeBuffer;
pub use crate::rendering::command::{Command, GlCommand, ObjectKind, UniformValue};
pub use crate::rendering::mesh::Mesh;
pub use crate::rendering::render_pass::Framebuffer;
pub use crate::rendering::shader::{ComputeShader, Shader, UniformInterface};
pub use crate::rendering::texture::{Texture, TextureFiltering, TextureFormat, TextureSettings};
pub use crate::rendering::{Drawable, RenderError, Renderer};
pub use crate::{
    after_turn, turn_for, Aftermath, App, Context, CullSide, EngineEvent, Event, Fullscreen, State,
    Turn, VideoMode,
};
