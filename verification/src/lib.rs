//! A minimal host shell for software-rendered applications: a resizable raw
//! pixel surface, edge-detected mouse/keyboard state, and the per-frame state
//! machine that ties event draining, input sampling, resizing, timing and
//! presentation together. Platform services (window creation, the message
//! pump, blitting) live outside this crate and drive it through plain values.

pub mod bitmap;
pub mod frame;
pub mod input;

pub use bitmap::AllocationError;
pub use bitmap::Bitmap;
pub use bitmap::RawCanvas;
pub use frame::Event;
pub use frame::FrameLoop;
pub use input::Button;
pub use input::Input;
pub use input::Keyboard;
pub use input::Mouse;
