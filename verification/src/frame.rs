//! A captured frame.

use vstd::prelude::*;
use crate::errors::{CameraError, CameraErrorView};

verus! {

/// Layout of the pixel buffer of a frame.
#[derive(Debug, Clone, Copy, PartialEq, Eq)]
pub enum PixelFormat {
    /// One byte per pixel: its brightness.
    Gray8,
    /// Three bytes per pixel: red, green, blue.
    Rgb24,
}

impl PixelFormat {
    /// Number of bytes that one pixel takes.
    pub open spec fn bytes_per_pixel(self) -> nat {
        match self {
            PixelFormat::Gray8 => 1,
            PixelFormat::Rgb24 => 3,
        }
    }

    /// Number of bytes that one pixel takes.
    pub fn pixel_size(&self) -> (size: u8)
        ensures
            size == self.bytes_per_pixel(),
    {
        match self {
            PixelFormat::Gray8 => 1,
            PixelFormat::Rgb24 => 3,
        }
    }
}

/// One frame of a camera: its size, its pixels row by row, the time of its capture, and
/// the generation of the capture handle that produced it.
#[derive(Debug, PartialEq, Eq)]
pub struct RawFrame {
    width: u32,
    height: u32,
    format: PixelFormat,
    pixels: Vec<u8>,
    timestamp_ms: u64,
    generation: u64,
}

/// Mathematical model of a [`RawFrame`].
pub struct FrameView {
    pub width: u32,
    pub height: u32,
    pub format: PixelFormat,
    pub pixels: Seq<u8>,
    pub timestamp_ms: u64,
    pub generation: u64,
}

impl FrameView {
    /// The frame has pixels, and its buffer holds exactly those.
    pub open spec fn wf(self) -> bool {
        &&& self.width > 0
        &&& self.height > 0
        &&& self.pixels.len() == self.width * self.height * self.format.bytes_per_pixel()
    }

    /// The brightness of each pixel of the frame, row by row.
    pub open spec fn luminance(self) -> Seq<u8> {
        match self.format {
            PixelFormat::Gray8 => self.pixels,
            PixelFormat::Rgb24 => luma_of_rgb(self.width, self.height, self.pixels),
        }
    }

    /// The same frame with one byte of brightness per pixel, as a detector wants it.
    pub open spec fn gray(self) -> FrameView {
        FrameView { format: PixelFormat::Gray8, pixels: self.luminance(), ..self }
    }
}

/// The brightness that the `image` crate computes for each pixel of a picture of `width`
/// by `height` pixels whose bytes, three per pixel, are `rgb`.
pub uninterp spec fn luma_of_rgb(width: u32, height: u32, rgb: Seq<u8>) -> Seq<u8>;

/// Converts a picture of three bytes per pixel into one of one byte per pixel by
/// `image::DynamicImage::to_luma8`, on a buffer made by `image::RgbImage::from_raw`.
/// The contract claims that the result is a function of the size and the bytes alone,
/// and that it holds one byte for each of the `width * height` pixels. `from_raw` takes
/// a buffer that holds at least three bytes for each pixel, which the precondition
/// provides.
#[verifier::external_body]
fn rgb_to_luma(width: u32, height: u32, rgb: &Vec<u8>) -> (luma: Vec<u8>)
    requires
        width > 0,
        height > 0,
        rgb@.len() == width * height * 3,
    ensures
        luma@ == luma_of_rgb(width, height, rgb@),
        luma@.len() == width * height,
{
    let picture = image::RgbImage::from_raw(width, height, rgb.clone()).unwrap();
    image::DynamicImage::ImageRgb8(picture).to_luma8().into_raw()
}

impl View for RawFrame {
    type V = FrameView;

    closed spec fn view(&self) -> FrameView {
        FrameView {
            width: self.width,
            height: self.height,
            format: self.format,
            pixels: self.pixels@,
            timestamp_ms: self.timestamp_ms,
            generation: self.generation,
        }
    }
}

impl RawFrame {
    #[verifier::type_invariant]
    spec fn inv(self) -> bool {
        self@.wf()
    }

    /// The frame with the given contents. What was read is a frame only if it has at
    /// least one pixel and `pixels` holds `width * height` pixels of the given format,
    /// no more and no less; anything else is a failed read.
    pub fn new(
        width: u32,
        height: u32,
        format: PixelFormat,
        pixels: Vec<u8>,
        timestamp_ms: u64,
        generation: u64,
    ) -> (frame: Result<RawFrame, CameraError>)
        ensures
            frame is Ok <==> (FrameView {
                width,
                height,
                format,
                pixels: pixels@,
                timestamp_ms,
                generation,
            }).wf(),
            frame matches Ok(f) ==> f@ == (FrameView {
                width,
                height,
                format,
                pixels: pixels@,
                timestamp_ms,
                generation,
            }),
            frame matches Err(e) ==> e@ == CameraErrorView::ReadFailed,
    {
        if width == 0 || height == 0 {
            return Err(CameraError::ReadFailed);
        }
        assert(width * height <= 0xffff_ffff * 0xffff_ffff) by (nonlinear_arith)
            requires
                width <= 0xffff_ffff,
                height <= 0xffff_ffff,
        ;
        let area: u128 = (width as u128) * (height as u128);
        let size: u128 = format.pixel_size() as u128;
        assert(area * size == width * height * format.bytes_per_pixel() && area * size
            <= 0xffff_ffff * 0xffff_ffff * 3) by (nonlinear_arith)
            requires
                area == width * height,
                area <= 0xffff_ffff * 0xffff_ffff,
                size == format.bytes_per_pixel(),
                size <= 3,
        ;
        let expected: u128 = area * size;
        if pixels.len() as u128 != expected {
            return Err(CameraError::ReadFailed);
        }
        Ok(RawFrame { width, height, format, pixels, timestamp_ms, generation })
    }

    /// Width in pixels; never 0.
    pub fn width(&self) -> (width: u32)
        ensures
            width == self@.width,
            width > 0,
    {
        proof {
            use_type_invariant(self);
        }
        self.width
    }

    /// Height in pixels; never 0.
    pub fn height(&self) -> (height: u32)
        ensures
            height == self@.height,
            height > 0,
    {
        proof {
            use_type_invariant(self);
        }
        self.height
    }

    /// Layout of the pixel buffer.
    pub fn format(&self) -> (format: PixelFormat)
        ensures
            format == self@.format,
    {
        self.format
    }

    /// The pixel buffer.
    pub fn pixels(&self) -> (pixels: &Vec<u8>)
        ensures
            pixels@ == self@.pixels,
            self@.wf(),
    {
        proof {
            use_type_invariant(self);
        }
        &self.pixels
    }

    /// The same frame with one byte of brightness per pixel, as a detector wants it. A
    /// frame that is gray already is copied as it is.
    pub fn to_gray(&self) -> (gray: RawFrame)
        ensures
            gray@ == self@.gray(),
            gray@.wf(),
    {
        proof {
            use_type_invariant(self);
        }
        let pixels = match self.format {
            PixelFormat::Gray8 => vstd::slice::slice_to_vec(self.pixels.as_slice()),
            PixelFormat::Rgb24 => rgb_to_luma(self.width, self.height, &self.pixels),
        };
        RawFrame {
            width: self.width,
            height: self.height,
            format: PixelFormat::Gray8,
            pixels,
            timestamp_ms: self.timestamp_ms,
            generation: self.generation,
        }
    }

    /// Time of the capture, in milliseconds.
    pub fn timestamp_ms(&self) -> (timestamp_ms: u64)
        ensures
            timestamp_ms == self@.timestamp_ms,
    {
        self.timestamp_ms
    }

    /// Generation of the capture handle that produced the frame.
    pub fn generation(&self) -> (generation: u64)
        ensures
            generation == self@.generation,
    {
        self.generation
    }
}

} // verus!
