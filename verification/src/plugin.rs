//! The name under which the bridge is registered with an engine.

use vstd::prelude::*;

verus! {

/// Marks the window bridge in an engine's list of plugins.
#[derive(Clone, Copy, Debug, Default, PartialEq, Eq, Structural)]
pub struct WinitPlugin;

impl WinitPlugin {
    /// The plugin's name: `Winit`.
    pub fn name(&self) -> (name: &'static str)
        ensures
            name@ == "Winit"@,
    {
        "Winit"
    }
}

} // verus!
