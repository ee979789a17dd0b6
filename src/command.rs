//! The hardware operations that the controllers decide on, and the request
//! values they carry. Whoever owns the device handles carries them out in
//! order.

use vstd::prelude::*;
use crate::media::{LinkRequest, Sensor};

verus! {

/// Media-bus code of 8-bit Bayer samples in `B G / G R` order.
pub const BAYER_BGGR8_CODE: u32 = 0x3001;

/// Colorspace value for raw sensor data.
pub const COLORSPACE_RAW: u32 = 11;

/// `which` value that applies a subdevice format to the hardware.
pub const FORMAT_ACTIVE: u32 = 1;

/// The media-bus frame format of a subdevice pad.
#[derive(Clone, Copy, Debug, PartialEq, Eq, Structural)]
pub struct FrameFormat {
    pub width: u32,
    pub height: u32,
    pub code: u32,
    pub field: u32,
    pub colorspace: u32,
    pub quantization: u16,
    pub xfer_func: u16,
}

/// A format request or report for one pad of a subdevice.
#[derive(Clone, Copy, Debug, PartialEq, Eq, Structural)]
pub struct SubdevFormat {
    pub which: u32,
    pub pad: u32,
    pub format: FrameFormat,
}

impl SubdevFormat {
    /// The request that the sensors are given: the active format of pad 0,
    /// 8-bit `B G / G R` Bayer samples, no field order, raw colorspace.
    pub open spec fn spec_request(width: u32, height: u32) -> SubdevFormat {
        SubdevFormat {
            which: FORMAT_ACTIVE,
            pad: 0,
            format: FrameFormat {
                width,
                height,
                code: BAYER_BGGR8_CODE,
                field: 0,
                colorspace: COLORSPACE_RAW,
                quantization: 0,
                xfer_func: 0,
            },
        }
    }

    /// Builds the format request for a sensor of the given size.
    pub fn request(width: u32, height: u32) -> (r: SubdevFormat)
        ensures
            r == SubdevFormat::spec_request(width, height),
    {
        SubdevFormat {
            which: FORMAT_ACTIVE,
            pad: 0,
            format: FrameFormat {
                width,
                height,
                code: BAYER_BGGR8_CODE,
                field: 0,
                colorspace: COLORSPACE_RAW,
                quantization: 0,
                xfer_func: 0,
            },
        }
    }
}

/// One hardware operation.
#[derive(Clone, Copy, Debug, PartialEq, Eq, Structural)]
pub enum Command {
    /// Enable or disable a link of the media graph.
    SetupLink(LinkRequest),
    /// Set a sensor's pad format; the driver may adjust it.
    SetFormat(Sensor, SubdevFormat),
    /// Ask a sensor for a frame period of `numerator / denominator` seconds.
    SetInterval(Sensor, u32, u32),
    /// Mirror a sensor's image horizontally, or stop doing so.
    HFlip(Sensor, bool),
    /// Flip a sensor's image vertically, or stop doing so.
    VFlip(Sensor, bool),
    /// Turn a sensor's autofocus on or off.
    AutoFocus(Sensor, bool),
    /// Set the capture device to raw Bayer frames of this size, progressive,
    /// and read back the format that the driver chose.
    ConfigureCapture(u32, u32),
    /// Allocate this many memory-mapped buffers on the capture device.
    AllocateBuffers(u32),
    /// Hand the buffer with this index to the driver.
    QueueBuffer(u32),
    /// Start the worker that streams preview frames.
    StartWorker,
    /// Clear the shared streaming flag and release its lock.
    RequestStop,
    /// Wait until the worker has exited.
    JoinWorker,
    /// Wait this many milliseconds.
    Sleep(u32),
    /// Take one settled frame and hand it to persistence.
    CaptureFrame,
}

} // verus!
