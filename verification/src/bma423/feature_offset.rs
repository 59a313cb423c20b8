//! Places in the feature configuration memory.

use vstd::prelude::*;

verus! {

/// Size in bytes of the configuration image that the device is loaded with.
pub const CONFIG_FILE_SIZE: usize = 0x1800;

/// Where the feature window starts: one port width before the end of the
/// configuration image, which is where the pointer stands once the image has
/// been loaded.
pub const START: usize = 0x17F8;

/// Offset in the feature window of the first byte of the step counter
/// settings word 26.
pub const STEP_COUNTER_SETTINGS_26: usize = 0x36;

} // verus!
