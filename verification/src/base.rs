//! Images over borrowed frame data, and their owned copies.

use vstd::prelude::*;

verus! {

/// An image as a sensor returns it: its dimensions, and the samples of its
/// pixels, row by row, in a buffer that the frame owns.
#[derive(Debug, Clone, Copy)]
pub enum Rs2Image<'a> {
    /// Three samples of 8 bits for each pixel: blue, green, red.
    Bgr8 { width: u32, height: u32, data: &'a [u8] },
    /// Four samples of 8 bits for each pixel: blue, green, red, alpha.
    Bgra8 { width: u32, height: u32, data: &'a [u8] },
    /// Three samples of 8 bits for each pixel: red, green, blue.
    Rgb8 { width: u32, height: u32, data: &'a [u8] },
    /// Four samples of 8 bits for each pixel: red, green, blue, alpha.
    Rgba8 { width: u32, height: u32, data: &'a [u8] },
    /// One sample of 16 bits for each pixel.
    Luma16 { width: u32, height: u32, data: &'a [u16] },
}

/// An image that owns its samples.
#[derive(Debug, Clone, PartialEq, Eq)]
pub enum DynamicImage {
    /// Three samples of 8 bits for each pixel: blue, green, red.
    ImageBgr8 { width: u32, height: u32, data: Vec<u8> },
    /// Four samples of 8 bits for each pixel: blue, green, red, alpha.
    ImageBgra8 { width: u32, height: u32, data: Vec<u8> },
    /// Three samples of 8 bits for each pixel: red, green, blue.
    ImageRgb8 { width: u32, height: u32, data: Vec<u8> },
    /// Four samples of 8 bits for each pixel: red, green, blue, alpha.
    ImageRgba8 { width: u32, height: u32, data: Vec<u8> },
    /// One sample of 16 bits for each pixel.
    ImageLuma16 { width: u32, height: u32, data: Vec<u16> },
}

/// The number of samples in an image of `width` by `height` pixels with
/// `channels` samples each.
pub open spec fn sample_count(width: u32, height: u32, channels: nat) -> nat {
    width as nat * height as nat * channels
}

impl<'a> Rs2Image<'a> {
    /// The number of samples that the image's pixels take.
    pub open spec fn samples(&self) -> nat {
        match self {
            Rs2Image::Bgr8 { width, height, .. } => sample_count(*width, *height, 3),
            Rs2Image::Bgra8 { width, height, .. } => sample_count(*width, *height, 4),
            Rs2Image::Rgb8 { width, height, .. } => sample_count(*width, *height, 3),
            Rs2Image::Rgba8 { width, height, .. } => sample_count(*width, *height, 4),
            Rs2Image::Luma16 { width, height, .. } => sample_count(*width, *height, 1),
        }
    }

    /// The length of the image's buffer.
    pub open spec fn buffer_len(&self) -> nat {
        match self {
            Rs2Image::Bgr8 { data, .. } => data@.len(),
            Rs2Image::Bgra8 { data, .. } => data@.len(),
            Rs2Image::Rgb8 { data, .. } => data@.len(),
            Rs2Image::Rgba8 { data, .. } => data@.len(),
            Rs2Image::Luma16 { data, .. } => data@.len(),
        }
    }

    /// The buffer holds the samples of every pixel.
    pub open spec fn wf(&self) -> bool {
        self.samples() <= self.buffer_len()
    }

    /// The owned image that `to_owned` gives: of the same layout and
    /// dimensions, with the samples of the image's pixels and no more.
    pub open spec fn owned_spec(&self, owned: DynamicImage) -> bool {
        match (*self, owned) {
            (
                Rs2Image::Bgr8 { width, height, data },
                DynamicImage::ImageBgr8 { width: w, height: h, data: copy },
            ) => w == width && h == height && copy@ == data@.take(self.samples() as int),
            (
                Rs2Image::Bgra8 { width, height, data },
                DynamicImage::ImageBgra8 { width: w, height: h, data: copy },
            ) => w == width && h == height && copy@ == data@.take(self.samples() as int),
            (
                Rs2Image::Rgb8 { width, height, data },
                DynamicImage::ImageRgb8 { width: w, height: h, data: copy },
            ) => w == width && h == height && copy@ == data@.take(self.samples() as int),
            (
                Rs2Image::Rgba8 { width, height, data },
                DynamicImage::ImageRgba8 { width: w, height: h, data: copy },
            ) => w == width && h == height && copy@ == data@.take(self.samples() as int),
            (
                Rs2Image::Luma16 { width, height, data },
                DynamicImage::ImageLuma16 { width: w, height: h, data: copy },
            ) => w == width && h == height && copy@ == data@.take(self.samples() as int),
            _ => false,
        }
    }

    /// Creates an owned image by copying the underlying buffer.
    pub fn to_owned(&self) -> (owned: DynamicImage)
        requires
            self.wf(),
        ensures
            self.owned_spec(owned),
    {
        match *self {
            Rs2Image::Bgr8 { width, height, data } => DynamicImage::ImageBgr8 {
                width,
                height,
                data: copy_samples(data, width, height, 3),
            },
            Rs2Image::Bgra8 { width, height, data } => DynamicImage::ImageBgra8 {
                width,
                height,
                data: copy_samples(data, width, height, 4),
            },
            Rs2Image::Rgb8 { width, height, data } => DynamicImage::ImageRgb8 {
                width,
                height,
                data: copy_samples(data, width, height, 3),
            },
            Rs2Image::Rgba8 { width, height, data } => DynamicImage::ImageRgba8 {
                width,
                height,
                data: copy_samples(data, width, height, 4),
            },
            Rs2Image::Luma16 { width, height, data } => DynamicImage::ImageLuma16 {
                width,
                height,
                data: copy_samples(data, width, height, 1),
            },
        }
    }
}

/// Copies the samples of an image of `width` by `height` pixels out of
/// `data`.
fn copy_samples<T: Copy>(data: &[T], width: u32, height: u32, channels: usize) -> (copy: Vec<T>)
    requires
        1 <= channels <= 4,
        sample_count(width, height, channels as nat) <= data@.len(),
    ensures
        copy@ == data@.take(sample_count(width, height, channels as nat) as int),
{
    let ghost count = sample_count(width, height, channels as nat);
    let len = data.len();
    proof {
        assert(count <= len);
        assert(width as nat * height as nat <= width as nat * height as nat * channels as nat)
            by (nonlinear_arith)
            requires
                channels >= 1,
        ;
    }
    let pixels: usize = (width as usize) * (height as usize);
    let samples: usize = pixels * channels;
    let mut copy: Vec<T> = Vec::new();
    let mut i: usize = 0;
    while i < samples
        invariant
            i <= samples,
            samples == count,
            samples <= data@.len(),
            copy@ == data@.take(i as int),
        decreases samples - i,
    {
        copy.push(data[i]);
        i += 1;
    }
    copy
}

} // verus!
