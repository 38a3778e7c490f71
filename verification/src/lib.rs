//! Verified core of a small Vulkan viewer.
//!
//! The viewer decodes an image, uploads it as a texture and draws it on a quad
//! in a loop with two frames in flight. Everything that can be said without a
//! GPU stands here: the shader words, the texture bytes, the descriptions of
//! the Vulkan objects, the recorded commands, the state machine of the frame
//! loop and the order of the teardown. The binary around this library hands the
//! descriptions to the driver and reports back what the driver answered.
pub mod command;
pub mod define;
pub mod descriptor;
pub mod frame;
pub mod handle;
pub mod pipeline;
pub mod setup;
pub mod shader;
pub mod sync;
pub mod teardown;
pub mod texture;
pub mod upload;
