//! Pixel-format conversion for texture upload.
//!
//! A captured frame arrives in device layout: packed blue-green-red, or a
//! single channel, with column order as the sensor delivers it. The
//! destination wants four channels per pixel, red first, alpha opaque, and
//! the columns mirrored. The conversion is pure — the same bytes in always
//! give the same bytes out — and lossless: this module also proves, for the
//! packed and the single-channel layout alike, that restoring the device
//! layout reproduces the original frame byte for byte.

use vstd::arithmetic::div_mod::lemma_fundamental_div_mod;
use vstd::arithmetic::div_mod::lemma_fundamental_div_mod_converse;
use vstd::prelude::*;

use crate::frame::Frame;
use crate::frame::FrameView;
use crate::frame::PixelFormat;
use crate::worker::AsyncWorker;
use crate::worker::DispatchError;
use crate::worker::WorkerState;

verus! {

/// A flat byte buffer in upload-ready layout: four bytes per pixel, red,
/// green, blue, alpha, rows in capture order, columns mirrored.
pub struct UploadBuffer {
    /// Width in pixels.
    pub width: usize,
    /// Height in pixels.
    pub height: usize,
    /// The bytes, four per pixel.
    pub data: Vec<u8>,
}

impl UploadBuffer {
    /// An upload buffer's bytes exactly fill its grid, four per pixel.
    pub open spec fn wf(self) -> bool {
        self.data@.len() == 4 * self.width * self.height
    }
}

/// Byte `c` (red, green, blue, alpha) of the converted pixel at column `x`,
/// row `y`: the source pixel is read from the mirrored column, its channels
/// reversed from blue-green-red to red-green-blue — or spread across all
/// three colour channels for single-channel frames — and alpha is opaque.
pub open spec fn converted_byte(f: FrameView, x: int, y: int, c: int) -> u8 {
    if c == 3 {
        255u8
    } else {
        match f.format {
            PixelFormat::Packed3 => f.at(f.width - 1 - x, y, 2 - c),
            PixelFormat::Single => f.at(f.width - 1 - x, y, 0),
        }
    }
}

/// The whole converted buffer: four bytes per pixel, row-major.
pub open spec fn converted_bytes(f: FrameView) -> Seq<u8> {
    Seq::new(
        4 * f.width * f.height,
        |i: int| converted_byte(f, (i / 4) % f.width as int, (i / 4) / f.width as int, i % 4),
    )
}

/// Byte `c` (blue, green, red) of the restored pixel at column `x`, row
/// `y`, read back out of an upload buffer: the mirrored column again, and
/// the channel order reversed again.
pub open spec fn restored_byte(width: int, data: Seq<u8>, x: int, y: int, c: int) -> u8 {
    data[4 * (y * width + (width - 1 - x)) + (2 - c)]
}

/// The whole restored buffer: three packed bytes per pixel, row-major.
pub open spec fn restored_bytes(width: nat, height: nat, data: Seq<u8>) -> Seq<u8> {
    Seq::new(
        3 * width * height,
        |i: int| restored_byte(width as int, data, (i / 3) % width as int, (i / 3) / width as int, i % 3),
    )
}

/// Decomposing a flat index: any `i` below `g * w * h` names channel
/// `i % g` of the pixel at column `(i / g) % w`, row `(i / g) / w`.
proof fn lemma_flat_index(i: int, w: int, h: int, g: int)
    requires
        0 < g,
        0 <= w,
        0 <= h,
        0 <= i < g * w * h,
    ensures
        0 <= i % g < g,
        0 <= (i / g) % w < w,
        0 <= (i / g) / w < h,
        i == g * (((i / g) / w) * w + (i / g) % w) + i % g,
{
    assert(w > 0 && h > 0) by (nonlinear_arith)
        requires
            0 < g,
            0 <= w,
            0 <= h,
            0 <= i < g * w * h,
    ;
    lemma_fundamental_div_mod(i, g);
    assert(0 <= i % g < g);
    let q = i / g;
    assert(0 <= q < w * h) by (nonlinear_arith)
        requires
            0 < g,
            w > 0,
            h > 0,
            0 <= i < g * w * h,
            i == g * q + i % g,
            0 <= i % g < g,
    ;
    lemma_fundamental_div_mod(q, w);
    assert(0 <= q % w < w);
    let y = q / w;
    assert(0 <= y < h) by (nonlinear_arith)
        requires
            w > 0,
            h > 0,
            0 <= q < w * h,
            q == w * y + q % w,
            0 <= q % w < w,
    ;
    assert(i == g * (y * w + q % w) + i % g) by (nonlinear_arith)
        requires
            i == g * q + i % g,
            q == w * y + q % w,
    ;
}

/// Composing a flat index: channel `c` of the pixel at column `x`, row `y`
/// sits at `g * (y * w + x) + c`, inside the buffer, and decomposes back to
/// exactly these coordinates.
proof fn lemma_group_index(x: int, y: int, c: int, w: int, h: int, g: int)
    requires
        0 < g,
        0 <= x < w,
        0 <= y < h,
        0 <= c < g,
    ensures
        0 <= y * w + x < w * h,
        0 <= g * (y * w + x) + c < g * w * h,
        (g * (y * w + x) + c) / g == y * w + x,
        (g * (y * w + x) + c) % g == c,
        (y * w + x) / w == y,
        (y * w + x) % w == x,
{
    assert(0 <= y * w + x < w * h) by (nonlinear_arith)
        requires
            0 <= x < w,
            0 <= y < h,
    ;
    assert(0 <= g * (y * w + x) + c < g * w * h) by (nonlinear_arith)
        requires
            0 < g,
            0 <= c < g,
            0 <= y * w + x < w * h,
    ;
    lemma_fundamental_div_mod_converse(g * (y * w + x) + c, g, y * w + x, c);
    lemma_fundamental_div_mod_converse(y * w + x, w, y, x);
}

/// The converted buffer at the flat position of `(x, y, c)` is exactly the
/// converted byte for those coordinates.
pub proof fn lemma_converted_bytes_at(f: FrameView, x: int, y: int, c: int)
    requires
        0 <= x < f.width,
        0 <= y < f.height,
        0 <= c < 4,
    ensures
        0 <= 4 * (y * f.width + x) + c < converted_bytes(f).len(),
        converted_bytes(f)[4 * (y * f.width + x) + c] == converted_byte(f, x, y, c),
{
    lemma_group_index(x, y, c, f.width as int, f.height as int, 4);
    assert(4 * (f.width as int) * (f.height as int) == 4 * f.width * f.height) by (nonlinear_arith);
    assert(4 * (y * f.width + x) + c < 4 * (f.width as int) * (f.height as int)) by (nonlinear_arith)
        requires
            0 <= y * f.width + x < (f.width as int) * (f.height as int),
            0 <= c < 4,
    ;
}

/// Converts one frame to upload layout. Pure and deterministic: the output
/// is a function of the input bytes alone, pinned pointwise by
/// [`converted_bytes`].
pub fn convert_frame(frame: &Frame) -> (r: UploadBuffer)
    requires
        frame.wf(),
        4 * frame@.width * frame@.height <= usize::MAX,
    ensures
        r.width == frame.width,
        r.height == frame.height,
        r.wf(),
        r.data@ == converted_bytes(frame@),
{
    let w = frame.width;
    let h = frame.height;
    let mut data: Vec<u8> = Vec::new();
    let mut y: usize = 0;
    while y < h
        invariant
            w == frame.width,
            h == frame.height,
            frame.wf(),
            4 * (w as int) * (h as int) <= usize::MAX,
            y <= h,
            data@.len() == 4 * ((y as int) * w),
            forall|x0: int, y0: int, c0: int|
                0 <= x0 < w && 0 <= y0 < y && 0 <= c0 < 4 ==> data@[4 * (y0 * w + x0) + c0]
                    == converted_byte(frame@, x0, y0, c0),
        decreases h - y,
    {
        let mut x: usize = 0;
        while x < w
            invariant
                w == frame.width,
                h == frame.height,
                frame.wf(),
                4 * (w as int) * (h as int) <= usize::MAX,
                y < h,
                x <= w,
                data@.len() == 4 * ((y as int) * w + x),
                forall|x0: int, y0: int, c0: int|
                    0 <= x0 < w && 0 <= c0 < 4 && (0 <= y0 < y || (y0 == y && 0 <= x0 < x)) ==> data@[4
                        * (y0 * w + x0) + c0] == converted_byte(frame@, x0, y0, c0),
            decreases w - x,
        {
            let sx = w - 1 - x;
            proof {
                assert((y as int) * w + sx < (w as int) * h && ((y as int) * w + sx) * 3 + 2 < (
                w as int) * h * 3 && (w as int) * h * 3 <= 4 * (w as int) * (h as int) && (w as int)
                    * h <= 4 * (w as int) * (h as int) && 4 * ((y as int) * w + x) + 4 <= 4 * (
                w as int) * (h as int)) by (nonlinear_arith)
                    requires
                        0 <= sx < w,
                        0 <= x < w,
                        0 <= (y as int) < h,
                ;
            }
            let pixel = y * w + sx;
            let ghost data_before = data@;
            match frame.format {
                PixelFormat::Packed3 => {
                    let base = pixel * 3;
                    data.push(frame.data[base + 2]);
                    data.push(frame.data[base + 1]);
                    data.push(frame.data[base]);
                    data.push(255);
                },
                PixelFormat::Single => {
                    let v = frame.data[pixel];
                    data.push(v);
                    data.push(v);
                    data.push(v);
                    data.push(255);
                },
            }
            proof {
                let f = frame@;
                let ww = w as int;
                let xx = x as int;
                let yy = y as int;
                assert forall|x0: int, y0: int, c0: int|
                    0 <= x0 < w && 0 <= c0 < 4 && (0 <= y0 < y || (y0 == y && 0 <= x0 < xx
                        + 1)) implies data@[4 * (y0 * ww + x0) + c0] == converted_byte(
                    f,
                    x0,
                    y0,
                    c0,
                ) by {
                    if y0 == yy && x0 == xx {
                        assert(4 * (y0 * ww + x0) + c0 == data_before.len() + c0);
                    } else {
                        assert(4 * (y0 * ww + x0) + c0 < data_before.len()) by (nonlinear_arith)
                            requires
                                0 <= x0 < ww,
                                0 <= c0 < 4,
                                0 <= y0 < yy || (y0 == yy && 0 <= x0 < xx),
                                0 <= xx < ww,
                                data_before.len() == 4 * (yy * ww + xx),
                        ;
                    }
                }
            }
            x += 1;
        }
        proof {
            assert(4 * ((y as int) * w + w) == 4 * (((y as int) + 1) * w)) by (nonlinear_arith);
        }
        y += 1;
    }
    proof {
        let f = frame@;
        let ww = w as int;
        let hh = h as int;
        assert(data@.len() == 4 * (hh * ww));
        assert(4 * (hh * ww) == 4 * ww * hh) by (nonlinear_arith);
        assert(4 * f.width * f.height == 4 * ww * hh) by (nonlinear_arith)
            requires
                ww == f.width,
                hh == f.height,
        ;
        assert forall|i: int| 0 <= i < data@.len() implies data@[i] == converted_bytes(f)[i] by {
            lemma_flat_index(i, ww, hh, 4);
            let q = i / 4;
            let c = i % 4;
            let x0 = q % ww;
            let y0 = q / ww;
            assert(data@[4 * (y0 * ww + x0) + c] == converted_byte(f, x0, y0, c));
        }
        assert(data@ =~= converted_bytes(f));
    }
    UploadBuffer { width: w, height: h, data }
}

/// [`convert_frame`] behind its own input checks: converts any frame whose
/// bytes fill its grid and whose converted size fits the machine, and
/// returns nothing exactly otherwise.
pub fn try_convert_frame(frame: &Frame) -> (r: Option<UploadBuffer>)
    ensures
        match r {
            Some(b) => {
                &&& frame.wf()
                &&& 4 * frame@.width * frame@.height <= usize::MAX
                &&& b.width == frame.width
                &&& b.height == frame.height
                &&& b.wf()
                &&& b.data@ == converted_bytes(frame@)
            },
            None => !(frame.wf() && 4 * frame@.width * frame@.height <= usize::MAX),
        },
{
    let w = frame.width;
    let h = frame.height;
    let channels = frame.format.channels();
    let n = frame.data.len();
    if let Some(area) = w.checked_mul(h) {
        if let Some(_total4) = area.checked_mul(4) {
            if let Some(total) = area.checked_mul(channels) {
                if n == total {
                    proof {
                        assert(((w as int) * h) * channels == (w as int) * h * channels)
                            by (nonlinear_arith);
                        assert(((w as int) * h) * 4 == 4 * (w as int) * h) by (nonlinear_arith);
                    }
                    return Some(convert_frame(frame));
                }
                proof {
                    assert(((w as int) * h) * channels == (w as int) * h * channels)
                        by (nonlinear_arith);
                }
                return None;
            }
            proof {
                assert(((w as int) * h) * channels == (w as int) * h * channels)
                    by (nonlinear_arith);
            }
            return None;
        }
        proof {
            assert(((w as int) * h) * 4 == 4 * (w as int) * h) by (nonlinear_arith);
        }
        return None;
    }
    proof {
        assert((w as int) * h * channels >= (w as int) * h) by (nonlinear_arith)
            requires
                w >= 0,
                h >= 0,
                channels >= 1,
        ;
        assert(4 * (w as int) * h >= (w as int) * h) by (nonlinear_arith)
            requires
                w >= 0,
                h >= 0,
        ;
    }
    None
}

/// Restores the packed device layout from an upload buffer: the inverse of
/// [`convert_frame`] on packed frames. Returns nothing exactly when the
/// buffer's byte count does not fill its grid.
pub fn restore_packed(buf: &UploadBuffer) -> (r: Option<Frame>)
    ensures
        match r {
            Some(f) => {
                &&& buf.wf()
                &&& f.wf()
                &&& f@.width == buf.width
                &&& f@.height == buf.height
                &&& f@.format is Packed3
                &&& f@.data == restored_bytes(buf.width as nat, buf.height as nat, buf.data@)
            },
            None => !buf.wf(),
        },
{
    let w = buf.width;
    let h = buf.height;
    let n = buf.data.len();
    let area = match w.checked_mul(h) {
        Some(a) => a,
        None => {
            proof {
                assert(4 * (w as int) * h >= (w as int) * h) by (nonlinear_arith)
                    requires
                        w >= 0,
                        h >= 0,
                ;
            }
            return None;
        },
    };
    let total = match area.checked_mul(4) {
        Some(t) => t,
        None => {
            proof {
                assert(4 * (w as int) * h == ((w as int) * h) * 4) by (nonlinear_arith);
            }
            return None;
        },
    };
    if n != total {
        proof {
            assert(4 * (w as int) * h == ((w as int) * h) * 4) by (nonlinear_arith);
        }
        return None;
    }
    proof {
        assert(4 * (w as int) * h == ((w as int) * h) * 4) by (nonlinear_arith);
    }
    let mut data: Vec<u8> = Vec::new();
    let mut y: usize = 0;
    while y < h
        invariant
            w == buf.width,
            h == buf.height,
            buf.data@.len() == 4 * (w as int) * h,
            4 * (w as int) * h <= usize::MAX,
            y <= h,
            data@.len() == 3 * ((y as int) * w),
            forall|x0: int, y0: int, c0: int|
                0 <= x0 < w && 0 <= y0 < y && 0 <= c0 < 3 ==> data@[3 * (y0 * w + x0) + c0]
                    == restored_byte(w as int, buf.data@, x0, y0, c0),
        decreases h - y,
    {
        let mut x: usize = 0;
        while x < w
            invariant
                w == buf.width,
                h == buf.height,
                buf.data@.len() == 4 * (w as int) * h,
                4 * (w as int) * h <= usize::MAX,
                y < h,
                x <= w,
                data@.len() == 3 * ((y as int) * w + x),
                forall|x0: int, y0: int, c0: int|
                    0 <= x0 < w && 0 <= c0 < 3 && (0 <= y0 < y || (y0 == y && 0 <= x0 < x)) ==> data@[3
                        * (y0 * w + x0) + c0] == restored_byte(w as int, buf.data@, x0, y0, c0),
            decreases w - x,
        {
            let sx = w - 1 - x;
            proof {
                assert((y as int) * w + sx < (w as int) * h && ((y as int) * w + sx) * 4 + 3 < 4 * (
                w as int) * h && 3 * ((y as int) * w + x) + 3 <= 4 * (w as int) * h && (w as int) * h
                    <= 4 * (w as int) * h) by (nonlinear_arith)
                    requires
                        0 <= sx < w,
                        0 <= x < w,
                        0 <= (y as int) < h,
                ;
            }
            let base = (y * w + sx) * 4;
            let ghost data_before = data@;
            data.push(buf.data[base + 2]);
            data.push(buf.data[base + 1]);
            data.push(buf.data[base]);
            proof {
                let ww = w as int;
                let xx = x as int;
                let yy = y as int;
                assert forall|x0: int, y0: int, c0: int|
                    0 <= x0 < w && 0 <= c0 < 3 && (0 <= y0 < y || (y0 == y && 0 <= x0 < xx
                        + 1)) implies data@[3 * (y0 * ww + x0) + c0] == restored_byte(
                    ww,
                    buf.data@,
                    x0,
                    y0,
                    c0,
                ) by {
                    if y0 == yy && x0 == xx {
                        assert(3 * (y0 * ww + x0) + c0 == data_before.len() + c0);
                    } else {
                        assert(3 * (y0 * ww + x0) + c0 < data_before.len()) by (nonlinear_arith)
                            requires
                                0 <= x0 < ww,
                                0 <= c0 < 3,
                                0 <= y0 < yy || (y0 == yy && 0 <= x0 < xx),
                                0 <= xx < ww,
                                data_before.len() == 3 * (yy * ww + xx),
                        ;
                    }
                }
            }
            x += 1;
        }
        proof {
            assert(3 * ((y as int) * w + w) == 3 * (((y as int) + 1) * w)) by (nonlinear_arith);
        }
        y += 1;
    }
    proof {
        let ww = w as int;
        let hh = h as int;
        let rest = restored_bytes(w as nat, h as nat, buf.data@);
        assert(data@.len() == 3 * (hh * ww));
        assert(3 * (hh * ww) == 3 * ww * hh) by (nonlinear_arith);
        assert(rest.len() == 3 * (w as nat) * (h as nat));
        assert(3 * (w as nat) * (h as nat) == 3 * ww * hh) by (nonlinear_arith)
            requires
                ww == w as nat,
                hh == h as nat,
        ;
        assert forall|i: int| 0 <= i < data@.len() implies data@[i] == rest[i] by {
            lemma_flat_index(i, ww, hh, 3);
            let q = i / 3;
            let c = i % 3;
            let x0 = q % ww;
            let y0 = q / ww;
            assert(data@[3 * (y0 * ww + x0) + c] == restored_byte(ww, buf.data@, x0, y0, c));
        }
        assert(data@ =~= rest);
        assert((w as nat) * (h as nat) * 3 == 3 * ww * hh) by (nonlinear_arith)
            requires
                ww == w as nat,
                hh == h as nat,
        ;
    }
    Some(Frame { width: w, height: h, format: PixelFormat::Packed3, data })
}

/// Byte of the restored single-channel pixel at column `x`, row `y`: the
/// red channel of the mirrored column, where the conversion spread the
/// original value.
pub open spec fn restored_single_byte(width: int, data: Seq<u8>, x: int, y: int) -> u8 {
    data[4 * (y * width + (width - 1 - x))]
}

/// The whole restored single-channel buffer: one byte per pixel, row-major.
pub open spec fn restored_single_bytes(width: nat, height: nat, data: Seq<u8>) -> Seq<u8> {
    Seq::new(
        width * height,
        |i: int| restored_single_byte(width as int, data, i % width as int, i / width as int),
    )
}

/// Restores the single-channel device layout from an upload buffer: the
/// inverse of [`convert_frame`] on single-channel frames. Returns nothing
/// exactly when the buffer's byte count does not fill its grid.
pub fn restore_single(buf: &UploadBuffer) -> (r: Option<Frame>)
    ensures
        match r {
            Some(f) => {
                &&& buf.wf()
                &&& f.wf()
                &&& f@.width == buf.width
                &&& f@.height == buf.height
                &&& f@.format is Single
                &&& f@.data == restored_single_bytes(buf.width as nat, buf.height as nat, buf.data@)
            },
            None => !buf.wf(),
        },
{
    let w = buf.width;
    let h = buf.height;
    let n = buf.data.len();
    let area = match w.checked_mul(h) {
        Some(a) => a,
        None => {
            proof {
                assert(4 * (w as int) * h >= (w as int) * h) by (nonlinear_arith)
                    requires
                        w >= 0,
                        h >= 0,
                ;
            }
            return None;
        },
    };
    let total = match area.checked_mul(4) {
        Some(t) => t,
        None => {
            proof {
                assert(4 * (w as int) * h == ((w as int) * h) * 4) by (nonlinear_arith);
            }
            return None;
        },
    };
    if n != total {
        proof {
            assert(4 * (w as int) * h == ((w as int) * h) * 4) by (nonlinear_arith);
        }
        return None;
    }
    proof {
        assert(4 * (w as int) * h == ((w as int) * h) * 4) by (nonlinear_arith);
    }
    let mut data: Vec<u8> = Vec::new();
    let mut y: usize = 0;
    while y < h
        invariant
            w == buf.width,
            h == buf.height,
            buf.data@.len() == 4 * (w as int) * h,
            4 * (w as int) * h <= usize::MAX,
            y <= h,
            data@.len() == (y as int) * w,
            forall|x0: int, y0: int|
                0 <= x0 < w && 0 <= y0 < y ==> data@[y0 * w + x0] == restored_single_byte(
                    w as int,
                    buf.data@,
                    x0,
                    y0,
                ),
        decreases h - y,
    {
        let mut x: usize = 0;
        while x < w
            invariant
                w == buf.width,
                h == buf.height,
                buf.data@.len() == 4 * (w as int) * h,
                4 * (w as int) * h <= usize::MAX,
                y < h,
                x <= w,
                data@.len() == (y as int) * w + x,
                forall|x0: int, y0: int|
                    0 <= x0 < w && (0 <= y0 < y || (y0 == y && 0 <= x0 < x)) ==> data@[y0 * w + x0]
                        == restored_single_byte(w as int, buf.data@, x0, y0),
            decreases w - x,
        {
            let sx = w - 1 - x;
            proof {
                assert((y as int) * w + sx < (w as int) * h && 4 * ((y as int) * w + sx) < 4 * (
                w as int) * h && (y as int) * w + x + 1 <= (w as int) * h && (w as int) * h <= 4 * (
                w as int) * h) by (nonlinear_arith)
                    requires
                        0 <= sx < w,
                        0 <= x < w,
                        0 <= (y as int) < h,
                ;
            }
            let ghost data_before = data@;
            data.push(buf.data[(y * w + sx) * 4]);
            proof {
                let ww = w as int;
                let xx = x as int;
                let yy = y as int;
                assert forall|x0: int, y0: int|
                    0 <= x0 < w && (0 <= y0 < y || (y0 == y && 0 <= x0 < xx
                        + 1)) implies data@[y0 * ww + x0] == restored_single_byte(
                    ww,
                    buf.data@,
                    x0,
                    y0,
                ) by {
                    if y0 == yy && x0 == xx {
                        assert(y0 * ww + x0 == data_before.len());
                    } else {
                        assert(y0 * ww + x0 < data_before.len()) by (nonlinear_arith)
                            requires
                                0 <= x0 < ww,
                                0 <= y0 < yy || (y0 == yy && 0 <= x0 < xx),
                                0 <= xx < ww,
                                data_before.len() == yy * ww + xx,
                        ;
                    }
                }
            }
            x += 1;
        }
        proof {
            assert((y as int) * w + w == ((y as int) + 1) * w) by (nonlinear_arith);
        }
        y += 1;
    }
    proof {
        let ww = w as int;
        let hh = h as int;
        let rest = restored_single_bytes(w as nat, h as nat, buf.data@);
        assert(data@.len() == hh * ww);
        assert(hh * ww == ww * hh) by (nonlinear_arith);
        assert(rest.len() == (w as nat) * (h as nat));
        assert forall|i: int| 0 <= i < data@.len() implies data@[i] == rest[i] by {
            lemma_flat_index(i, ww, hh, 1);
            assert(i / 1 == i) by {
                lemma_fundamental_div_mod(i, 1);
            }
            let x0 = i % ww;
            let y0 = i / ww;
            assert(data@[y0 * ww + x0] == restored_single_byte(ww, buf.data@, x0, y0));
        }
        assert(data@ =~= rest);
        assert((w as nat) * (h as nat) * 1 == hh * ww) by (nonlinear_arith)
            requires
                ww == w as nat,
                hh == h as nat,
        ;
    }
    Some(Frame { width: w, height: h, format: PixelFormat::Single, data })
}

/// Round trip: converting a single-channel frame to upload layout and
/// restoring the single-channel layout reproduces the original frame's
/// bytes exactly.
pub proof fn lemma_upload_roundtrip_single(f: FrameView)
    requires
        f.wf(),
        f.format is Single,
    ensures
        restored_single_bytes(f.width, f.height, converted_bytes(f)) == f.data,
{
    let w = f.width as int;
    let h = f.height as int;
    let conv = converted_bytes(f);
    let rest = restored_single_bytes(f.width, f.height, conv);
    assert(rest.len() == w * h) by (nonlinear_arith)
        requires
            rest.len() == f.width * f.height,
            w == f.width,
            h == f.height,
    ;
    assert(f.data.len() == w * h) by (nonlinear_arith)
        requires
            f.data.len() == f.width * f.height * f.format.spec_channels(),
            f.format.spec_channels() == 1,
            w == f.width,
            h == f.height,
    ;
    assert forall|i: int| 0 <= i < rest.len() implies rest[i] == f.data[i] by {
        lemma_flat_index(i, w, h, 1);
        assert(i / 1 == i) by {
            lemma_fundamental_div_mod(i, 1);
        }
        let x = i % w;
        let y = i / w;
        assert(rest[i] == restored_single_byte(w, conv, x, y));
        lemma_converted_bytes_at(f, w - 1 - x, y, 0);
        assert(conv[4 * (y * w + (w - 1 - x)) + 0] == converted_byte(f, w - 1 - x, y, 0));
        assert(converted_byte(f, w - 1 - x, y, 0) == f.at(x, y, 0));
        assert(f.at(x, y, 0) == f.data[(y * w + x) * 1 + 0]);
        assert((y * w + x) * 1 + 0 == i) by (nonlinear_arith)
            requires
                i == 1 * (y * w + x) + 0,
        ;
    }
    assert(rest =~= f.data);
}

/// Round trip: converting a packed frame to upload layout and restoring the
/// packed layout reproduces the original frame's bytes exactly.
pub proof fn lemma_upload_roundtrip(f: FrameView)
    requires
        f.wf(),
        f.format is Packed3,
    ensures
        restored_bytes(f.width, f.height, converted_bytes(f)) == f.data,
{
    let w = f.width as int;
    let h = f.height as int;
    let conv = converted_bytes(f);
    let rest = restored_bytes(f.width, f.height, conv);
    assert(rest.len() == 3 * w * h) by (nonlinear_arith)
        requires
            rest.len() == 3 * f.width * f.height,
            w == f.width,
            h == f.height,
    ;
    assert(f.data.len() == 3 * w * h) by (nonlinear_arith)
        requires
            f.data.len() == f.width * f.height * f.format.spec_channels(),
            f.format.spec_channels() == 3,
            w == f.width,
            h == f.height,
    ;
    assert forall|i: int| 0 <= i < rest.len() implies rest[i] == f.data[i] by {
        lemma_flat_index(i, w, h, 3);
        let q = i / 3;
        let c = i % 3;
        let x = q % w;
        let y = q / w;
        assert(rest[i] == restored_byte(w, conv, x, y, c));
        lemma_converted_bytes_at(f, w - 1 - x, y, 2 - c);
        assert(conv[4 * (y * w + (w - 1 - x)) + (2 - c)] == converted_byte(f, w - 1 - x, y, 2 - c));
        assert(converted_byte(f, w - 1 - x, y, 2 - c) == f.at(x, y, c));
        assert(f.at(x, y, c) == f.data[(y * w + x) * 3 + c]);
        assert((y * w + x) * 3 + c == i) by (nonlinear_arith)
            requires
                i == 3 * (y * w + x) + c,
        ;
    }
    assert(rest =~= f.data);
}

/// Which conversion the uploader's thread runs.
#[derive(Clone, Copy, PartialEq, Eq, Structural, Debug)]
pub enum TextureType {
    /// Packed three-channel colour frames.
    Rgb,
    /// Single-channel frames.
    Gray,
}

/// The background texture uploader: an [`AsyncWorker`] whose requests are
/// frames and whose responses are upload-ready buffers, so the pixel-format
/// conversion runs off the render thread.
///
/// The conversion the worker thread performs is [`convert_frame`]; this side
/// only hands frames over and collects buffers, never blocking.
pub struct TextureUploader {
    worker: AsyncWorker<Frame, UploadBuffer>,
    texture_type: TextureType,
}

impl TextureUploader {
    /// Whether an upload is in flight.
    pub closed spec fn state(self) -> WorkerState {
        self.worker.state()
    }

    /// Requests handed to the conversion thread so far.
    pub closed spec fn accepted(self) -> nat {
        self.worker.accepted()
    }

    /// Buffers collected so far.
    pub closed spec fn completed(self) -> nat {
        self.worker.completed()
    }

    /// Whether the conversion thread was still reachable at the last use.
    pub closed spec fn connected(self) -> bool {
        self.worker.connected()
    }

    /// Which conversion this uploader was built for.
    pub closed spec fn texture_kind(self) -> TextureType {
        self.texture_type
    }

    /// The underlying worker's bookkeeping invariant.
    pub closed spec fn wf(self) -> bool {
        self.worker.wf()
    }

    /// Wraps the endpoints of a freshly spawned conversion thread.
    pub fn new(
        texture_type: TextureType,
        request_tx: std::sync::mpsc::Sender<Frame>,
        response_rx: std::sync::mpsc::Receiver<UploadBuffer>,
    ) -> (r: TextureUploader)
        ensures
            r.wf(),
            r.state() is Idle,
            r.accepted() == 0,
            r.completed() == 0,
            r.texture_kind() == texture_type,
    {
        TextureUploader { worker: AsyncWorker::new(request_tx, response_rx), texture_type }
    }

    /// Whether the uploader is ready for a new frame.
    pub fn is_finished(&self) -> (r: bool)
        ensures
            r == (self.state() is Idle),
    {
        self.worker.is_finished()
    }

    /// Hands a copy of the frame to the conversion thread, unless an upload
    /// is already in flight (`Busy`: nothing is submitted, the frame is
    /// simply skipped for this round) or the thread is gone (`Closed`).
    pub fn start_upload(&mut self, frame: &Frame) -> (r: Result<(), DispatchError>)
        requires
            old(self).wf(),
        ensures
            final(self).wf(),
            final(self).texture_kind() == old(self).texture_kind(),
            old(self).state() is Pending ==> {
                &&& r matches Err(e) && e is Busy
                &&& *final(self) == *old(self)
            },
            r is Ok ==> {
                &&& old(self).state() is Idle
                &&& final(self).state() is Pending
                &&& final(self).accepted() == old(self).accepted() + 1
            },
            old(self).state() is Idle && old(self).connected() ==> (r is Ok || (r matches Err(e)
                && e is Closed && !final(self).connected() && final(self).accepted() == old(
            self).accepted())),
            final(self).completed() == old(self).completed(),
            final(self).accepted() <= old(self).accepted() + 1,
    {
        self.worker.dispatch(frame.duplicate())
    }

    /// Collects the converted buffer if one is ready; never blocks. Once a
    /// buffer has been collected, further calls return nothing until the
    /// next upload is started.
    pub fn finish_upload(&mut self) -> (r: Option<UploadBuffer>)
        requires
            old(self).wf(),
        ensures
            final(self).wf(),
            final(self).texture_kind() == old(self).texture_kind(),
            old(self).state() is Idle ==> r is None && *final(self) == *old(self),
            r is Some ==> {
                &&& old(self).state() is Pending
                &&& final(self).state() is Idle
                &&& final(self).completed() == old(self).completed() + 1
            },
            r is None ==> final(self).state() == old(self).state() && final(self).completed()
                == old(self).completed(),
            final(self).accepted() == old(self).accepted(),
    {
        self.worker.poll()
    }
}

} // verus!
