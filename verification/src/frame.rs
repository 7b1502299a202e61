//! Captured image snapshots: fixed dimensions, a pixel format, and owned
//! backing bytes.

use vstd::prelude::*;

verus! {

/// How the bytes of a [`Frame`] are laid out: three packed channels per
/// pixel (blue, green, red, as capture devices deliver them) or a single
/// channel per pixel.
#[derive(Clone, Copy, PartialEq, Eq, Structural, Debug)]
pub enum PixelFormat {
    /// Three packed 8-bit channels per pixel, in blue-green-red order.
    Packed3,
    /// One 8-bit channel per pixel.
    Single,
}

impl PixelFormat {
    /// Number of bytes each pixel occupies in this format.
    pub open spec fn spec_channels(self) -> usize {
        match self {
            PixelFormat::Packed3 => 3,
            PixelFormat::Single => 1,
        }
    }

    /// Number of bytes each pixel occupies in this format.
    #[verifier::when_used_as_spec(spec_channels)]
    pub fn channels(self) -> (n: usize)
        ensures
            n == self.spec_channels(),
    {
        match self {
            PixelFormat::Packed3 => 3,
            PixelFormat::Single => 1,
        }
    }
}

/// The mathematical content of a frame: its dimensions, layout, and bytes.
pub struct FrameView {
    /// Width in pixels.
    pub width: nat,
    /// Height in pixels.
    pub height: nat,
    /// Byte layout.
    pub format: PixelFormat,
    /// The backing bytes, row-major, `format.channels()` bytes per pixel.
    pub data: Seq<u8>,
}

impl FrameView {
    /// A frame's bytes exactly fill its `width x height` grid.
    pub open spec fn wf(self) -> bool {
        self.data.len() == self.width * self.height * self.format.spec_channels()
    }

    /// The byte of channel `c` of the pixel at column `x`, row `y`.
    pub open spec fn at(self, x: int, y: int, c: int) -> u8 {
        self.data[(y * self.width + x) * self.format.spec_channels() + c]
    }
}

/// One captured image snapshot: an immutable record of the pixel data a
/// device handed over at one instant.
pub struct Frame {
    /// Width in pixels.
    pub width: usize,
    /// Height in pixels.
    pub height: usize,
    /// Byte layout of `data`.
    pub format: PixelFormat,
    /// Row-major backing bytes, `format.channels()` bytes per pixel.
    pub data: Vec<u8>,
}

impl View for Frame {
    type V = FrameView;

    open spec fn view(&self) -> FrameView {
        FrameView {
            width: self.width as nat,
            height: self.height as nat,
            format: self.format,
            data: self.data@,
        }
    }
}

impl Frame {
    /// A frame is well formed when its byte count matches its dimensions.
    pub open spec fn wf(self) -> bool {
        self@.wf()
    }

    /// Builds a frame from its parts, rejecting bytes that do not exactly
    /// fill the `width x height` grid.
    pub fn new(width: usize, height: usize, format: PixelFormat, data: Vec<u8>) -> (r: Option<
        Frame,
    >)
        ensures
            match r {
                Some(f) => {
                    &&& f.wf()
                    &&& f@ == (FrameView {
                        width: width as nat,
                        height: height as nat,
                        format,
                        data: data@,
                    })
                },
                None => data@.len() != width * height * format.spec_channels(),
            },
    {
        let channels = format.channels();
        let n = data.len();
        if let Some(area) = width.checked_mul(height) {
            if let Some(total) = area.checked_mul(channels) {
                if data.len() == total {
                    return Some(Frame { width, height, format, data });
                }
                return None;
            }
            return None;
        }
        proof {
            assert(width * height * channels >= width * height) by (nonlinear_arith)
                requires
                    channels >= 1,
                    width >= 0,
                    height >= 0,
            ;
        }
        None
    }

    /// Deep copy: frames are duplicated, never shared, when they cross
    /// from the coordinator to a worker.
    pub fn duplicate(&self) -> (r: Frame)
        ensures
            r@ == self@,
    {
        let mut data: Vec<u8> = Vec::new();
        let mut i: usize = 0;
        while i < self.data.len()
            invariant
                i <= self.data.len(),
                data@ =~= self.data@.subrange(0, i as int),
            decreases self.data.len() - i,
        {
            data.push(self.data[i]);
            i += 1;
        }
        proof {
            assert(data@ =~= self.data@);
        }
        Frame { width: self.width, height: self.height, format: self.format, data }
    }
}

} // verus!
