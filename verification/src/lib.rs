//! A bridge between a platform's window events and an engine's frame loop.
//!
//! The platform delivers one event at a time. For each, [`WindowBridge::dispatch`]
//! brings the logical window up to date, queues a [`ResizeEvent`] where the
//! window was resized, and answers with what the caller has to do next: keep
//! polling or stop, and whether to advance the engine by one frame. The loop
//! itself, the native window and the engine stay with the caller.

pub mod bridge;
pub mod event;
pub mod plugin;
pub mod run;
pub mod window;

pub use bridge::{BridgeModel, WindowBridge};
pub use event::{Action, Key, LoopControl, Outcome, PlatformEvent};
pub use plugin::WinitPlugin;
pub use window::{ResizeEvent, WindowConfig, WindowId, WindowModel, WindowState};
