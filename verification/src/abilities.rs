//! Capability flags from the driver's abilities snapshot: a bit mask copied
//! out of the driver at the moment of the call, with one boolean accessor
//! per declared capability.

use vstd::prelude::*;

verus! {

/// Capability bit: the device can capture an image.
pub const OP_CAPTURE_IMAGE: u32 = 1;

/// Capability bit: the device can capture video.
pub const OP_CAPTURE_VIDEO: u32 = 2;

/// Capability bit: the device can capture audio.
pub const OP_CAPTURE_AUDIO: u32 = 4;

/// Capability bit: the device can deliver capture previews.
pub const OP_CAPTURE_PREVIEW: u32 = 8;

/// Capability bit: the device exposes a configuration tree.
pub const OP_CONFIG: u32 = 16;

/// Capability bit: the device can trigger a capture without returning a
/// file path.
pub const OP_TRIGGER_CAPTURE: u32 = 32;

/// The device-wide operations a camera declares, as a read-only snapshot
/// of the driver's capability mask.
#[derive(Clone, Copy, Debug, PartialEq, Eq, Structural)]
pub struct CameraOperations {
    pub mask: u32,
}

impl CameraOperations {
    /// Whether the snapshot declares the given capability bit.
    pub open spec fn has(self, flag: u32) -> bool {
        self.mask & flag != 0
    }

    /// Whether the device can capture an image.
    pub fn capture_image(&self) -> (r: bool)
        ensures
            r == self.has(OP_CAPTURE_IMAGE),
    {
        self.mask & OP_CAPTURE_IMAGE != 0
    }

    /// Whether the device can capture video.
    pub fn capture_video(&self) -> (r: bool)
        ensures
            r == self.has(OP_CAPTURE_VIDEO),
    {
        self.mask & OP_CAPTURE_VIDEO != 0
    }

    /// Whether the device can capture audio.
    pub fn capture_audio(&self) -> (r: bool)
        ensures
            r == self.has(OP_CAPTURE_AUDIO),
    {
        self.mask & OP_CAPTURE_AUDIO != 0
    }

    /// Whether the device can deliver capture previews.
    pub fn capture_preview(&self) -> (r: bool)
        ensures
            r == self.has(OP_CAPTURE_PREVIEW),
    {
        self.mask & OP_CAPTURE_PREVIEW != 0
    }

    /// Whether the device exposes a configuration tree.
    pub fn config(&self) -> (r: bool)
        ensures
            r == self.has(OP_CONFIG),
    {
        self.mask & OP_CONFIG != 0
    }

    /// Whether the device can trigger a capture without returning a file
    /// path.
    pub fn trigger_capture(&self) -> (r: bool)
        ensures
            r == self.has(OP_TRIGGER_CAPTURE),
    {
        self.mask & OP_TRIGGER_CAPTURE != 0
    }
}

} // verus!
