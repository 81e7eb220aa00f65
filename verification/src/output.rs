//! What a game hands back to be displayed.

use vstd::pervasive::unreached;
use vstd::prelude::*;
use vstd::slice::slice_subrange;
use crate::endian::{le_u32, read_u32_le};

verus! {

/// An image as a mathematical value.
pub ghost struct ImageView {
    /// The number of horizontal pixels.
    pub width: i32,
    /// The number of vertical pixels.
    pub height: i32,
    /// The pixels, row after row from the top, each row from the left.
    pub pixels: Seq<u32>,
}

/// The pixels that `data` holds: `count` 32 bit RGBA values of four bytes
/// each, least significant byte first.
pub open spec fn pixels_of(data: Seq<u8>, count: nat) -> Seq<u32> {
    Seq::new(count, |i: int| le_u32(data.subrange(4 * i, 4 * i + 4)))
}

/// An image that can be displayed by the runtime.
///
/// Internally stores data as an array of 32 bit RGBA values.
#[derive(Debug)]
pub struct Image {
    width: i32,
    height: i32,
    data: Vec<u32>,
}

impl View for Image {
    type V = ImageView;

    closed spec fn view(&self) -> ImageView {
        ImageView { width: self.width, height: self.height, pixels: self.data@ }
    }
}

impl Image {
    /// Create a blank image.
    ///
    /// * `width` - the number of horizontal pixels
    /// * `height` - the number of vertical pixels
    /// * `rgba` - the initial color of all pixels in the image
    pub fn new(width: i32, height: i32, rgba: u32) -> (image: Image)
        requires
            0 <= width * height <= i32::MAX,
        ensures
            image@.width == width,
            image@.height == height,
            image@.pixels == Seq::new((width * height) as nat, |i: int| rgba),
    {
        let count = width * height;
        let mut data: Vec<u32> = Vec::new();
        let mut index: i32 = 0;
        while index < count
            invariant
                0 <= index <= count,
                data@ == Seq::new(index as nat, |i: int| rgba),
            decreases count - index,
        {
            data.push(rgba);
            index += 1;
            assert(data@ =~= Seq::new(index as nat, |i: int| rgba));
        }
        Image { width, height, data }
    }

    /// Create an image from a slice of existing data: four bytes for each
    /// pixel, least significant byte first.
    ///
    /// * `width` - the number of horizontal pixels
    /// * `height` - the number of vertical pixels
    /// * `data` - slice of existing data
    pub fn from_data(width: i32, height: i32, data: &[u8]) -> (image: Image)
        requires
            0 <= width * height <= i32::MAX,
            4 * (width * height) <= data@.len(),
        ensures
            image@.width == width,
            image@.height == height,
            image@.pixels == pixels_of(data@, (width * height) as nat),
    {
        let count = width * height;
        let mut pixels: Vec<u32> = Vec::new();
        let mut index: i32 = 0;
        while index < count
            invariant
                0 <= index <= count,
                4 * count <= data@.len(),
                pixels@ == pixels_of(data@, index as nat),
            decreases count - index,
        {
            assert(4 * index + 4 <= data.len());
            let start = index as usize * 4;
            let chunk = slice_subrange(data, start, start + 4);
            let pixel = match read_u32_le(chunk) {
                Some(pixel) => pixel,
                None => unreached(),
            };
            pixels.push(pixel);
            index += 1;
            assert(pixels@ =~= pixels_of(data@, index as nat));
        }
        Image { width, height, data: pixels }
    }

    /// Create an image that holds the pixels given, row after row.
    ///
    /// * `width` - the number of horizontal pixels
    /// * `height` - the number of vertical pixels
    /// * `pixels` - the 32 bit RGBA values of the pixels
    pub fn from_pixels(width: i32, height: i32, pixels: Vec<u32>) -> (image: Image)
        ensures
            image@ == (ImageView { width, height, pixels: pixels@ }),
    {
        Image { width, height, data: pixels }
    }

    /// Sets a pixel in the image to a specified color.
    ///
    /// * `x` - horizontal coordinate
    /// * `y` - vertical coordinate
    /// * `rgba` - color to set the pixel to
    pub fn set_pixel(&mut self, x: i32, y: i32, rgba: u32)
        requires
            i32::MIN <= y * old(self)@.width <= i32::MAX,
            0 <= y * old(self)@.width + x < old(self)@.pixels.len(),
            y * old(self)@.width + x <= i32::MAX,
        ensures
            final(self)@ == (ImageView {
                pixels: old(self)@.pixels.update(y * old(self)@.width + x, rgba),
                ..old(self)@
            }),
    {
        let index = (y * self.width + x) as usize;
        self.data.set(index, rgba);
    }

    /// Gets the number of horizontal pixels.
    pub fn width(&self) -> (width: i32)
        ensures
            width == self@.width,
    {
        self.width
    }

    /// Gets the number of vertical pixels.
    pub fn height(&self) -> (height: i32)
        ensures
            height == self@.height,
    {
        self.height
    }

    /// Gets a reference to the raw pixel buffer.
    pub fn pixels(&self) -> (pixels: &[u32])
        ensures
            pixels@ == self@.pixels,
    {
        self.data.as_slice()
    }

    /// Gets a mutable reference to the raw pixel buffer.
    pub fn pixels_mut(&mut self) -> (pixels: &mut [u32])
        ensures
            pixels@ == old(self)@.pixels,
            final(self)@ == (ImageView { pixels: final(pixels)@, ..old(self)@ }),
    {
        self.data.as_mut_slice()
    }
}

} // verus!
