//! The logic of a thin OpenGL and GLFW convenience layer, verified with
//! Verus: the frame-scoped input state and frame pacing of a window, the
//! key and enum tables that tie it to the native layers, and the layout
//! and pixel computations behind meshes and textures.
//!
//! Nothing here opens a window or talks to the GPU. The caller owns the
//! native window, feeds its events to [`GlWindow::update`] and carries out
//! what comes back.

pub mod frame_clock;
pub mod gl_enums;
pub mod gl_types;
pub mod input;
pub mod key_set;
pub mod keys;
pub mod mesh;
pub mod render_state;
pub mod texture;
pub mod texture_image;
pub mod window;

pub use frame_clock::FrameClock;
pub use input::FrameEffect;
pub use input::KeySnapshot;
pub use input::ScrollDelta;
pub use input::TypedCharacterBuffer;
pub use input::WindowEvent;
pub use key_set::KeySet;
pub use keys::KeyAction;
pub use keys::WindowKey;
pub use mesh::AttributePointer;
pub use render_state::BlendFactor;
pub use render_state::BlendMode;
pub use render_state::BlendSetup;
pub use render_state::DepthType;
pub use render_state::RenderingType;
pub use texture::FilterMode;
pub use texture::MipmapType;
pub use texture::TextureFilters;
pub use texture_image::TextureContent;
pub use texture_image::TextureData;
pub use window::GlWindow;
pub use window::InputState;
pub use window::WindowConfig;
pub use window::WindowHints;
pub use window::WindowState;
