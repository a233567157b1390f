//! The network and processing settings of the bridge.

use vstd::prelude::*;

verus! {

/// The ports of the two links and the size of the frame buffers.
#[derive(Debug, Clone, Copy, PartialEq, Eq, Structural)]
pub struct NetworkConfig {
    pub ios_port: u16,
    pub blender_port: u16,
    pub buffer_size: usize,
}

/// The number of worker threads and the number of frames processed together.
#[derive(Debug, Clone, Copy, PartialEq, Eq, Structural)]
pub struct ProcessingConfig {
    pub threads: usize,
    pub batch_size: usize,
}

} // verus!
