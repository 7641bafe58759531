//! The raw pixel surface: a contiguous, exclusively owned buffer of packed
//! 32-bit color values with row-major layout, resizable in place.
//!
//! The buffer length is always exactly `width * height`, and both dimensions
//! always fit in an `i32`, because the presentation header that accompanies
//! the buffer stores them as 32-bit signed integers.

use vstd::prelude::*;

verus! {

/// A pixel buffer of the requested size could not be set up: the dimensions
/// overflow what the address space or the presentation header can carry.
#[derive(Clone, Copy, PartialEq, Eq, Structural, Debug)]
pub struct AllocationError;

/// The dimensions a pixel buffer can be given: each fits the presentation
/// header's 32-bit signed fields, and the buffer's byte size (4 bytes per
/// pixel) fits the allocator's limit of `isize::MAX` bytes.
pub open spec fn dims_ok(width: int, height: int) -> bool {
    &&& width <= i32::MAX as int
    &&& height <= i32::MAX as int
    &&& 4 * (width * height) <= isize::MAX as int
}

/// A resizable surface of packed 32-bit pixels that a render callback writes
/// into. Reads and writes are valid exactly for indices below
/// `width * height`; row 0 is the top scanline (the presentation header is
/// built with a negative height to keep this top-down order).
pub trait RawCanvas {
    /// The surface's well-formedness: the buffer holds exactly
    /// `width * height` pixels of dimensions that `dims_ok` admits.
    spec fn inv(&self) -> bool;

    spec fn width_spec(&self) -> usize;

    spec fn height_spec(&self) -> usize;

    /// The buffer's contents, row-major, top row first.
    spec fn pixels_spec(&self) -> Seq<u32>;

    fn width(&self) -> (r: usize)
        ensures
            r == self.width_spec(),
    ;

    fn height(&self) -> (r: usize)
        ensures
            r == self.height_spec(),
    ;

    fn get(&self, index: usize) -> (r: u32)
        requires
            self.inv(),
            index < self.width_spec() * self.height_spec(),
        ensures
            r == self.pixels_spec()[index as int],
    ;

    fn set(&mut self, index: usize, pixel: u32)
        requires
            old(self).inv(),
            index < old(self).width_spec() * old(self).height_spec(),
        ensures
            final(self).inv(),
            final(self).width_spec() == old(self).width_spec(),
            final(self).height_spec() == old(self).height_spec(),
            final(self).pixels_spec() == old(self).pixels_spec().update(index as int, pixel),
    ;
}

/// The owned pixel surface presented to the window each frame.
pub struct Bitmap {
    width: usize,
    height: usize,
    pixels: Vec<u32>,
}

impl RawCanvas for Bitmap {
    closed spec fn inv(&self) -> bool {
        &&& self.pixels@.len() == self.width * self.height
        &&& dims_ok(self.width as int, self.height as int)
    }

    closed spec fn width_spec(&self) -> usize {
        self.width
    }

    closed spec fn height_spec(&self) -> usize {
        self.height
    }

    closed spec fn pixels_spec(&self) -> Seq<u32> {
        self.pixels@
    }

    fn width(&self) -> (r: usize) {
        self.width
    }

    fn height(&self) -> (r: usize) {
        self.height
    }

    fn get(&self, index: usize) -> (r: u32) {
        self.pixels[index]
    }

    fn set(&mut self, index: usize, pixel: u32) {
        self.pixels.set(index, pixel);
    }
}

/// Writing a pixel and reading back the same index yields exactly the written
/// value, whatever the buffer held, at any in-bounds index; every other index
/// keeps what it held. `set` turns the buffer into `update(index, pixel)` of
/// its old contents and `get` reads the buffer, so this is the get/set
/// round trip.
pub proof fn lemma_pixel_round_trip(pixels: Seq<u32>, index: int, pixel: u32)
    requires
        0 <= index < pixels.len(),
    ensures
        pixels.update(index, pixel)[index] == pixel,
        pixels.update(index, pixel).len() == pixels.len(),
        forall|j: int|
            0 <= j < pixels.len() && j != index ==> pixels.update(index, pixel)[j] == pixels[j],
{
}

/// Relies on num_traits::cast::cast: a usize converts to i32 exactly when it
/// is at most i32::MAX, and the value is kept.
#[verifier::external_body]
fn cast_usize_to_i32(n: usize) -> (r: Option<i32>)
    ensures
        r is Some <==> n as int <= i32::MAX as int,
        r matches Some(v) ==> v as int == n as int,
{
    num_traits::cast(n)
}

/// A zeroed buffer of exactly `count` pixels.
fn zeroed_pixels(count: usize) -> (r: Vec<u32>)
    ensures
        r@.len() == count,
        forall|i: int| 0 <= i < count ==> r@[i] == 0u32,
{
    let mut pixels: Vec<u32> = Vec::new();
    while pixels.len() < count
        invariant
            pixels@.len() <= count,
            forall|i: int| 0 <= i < pixels@.len() ==> pixels@[i] == 0u32,
        decreases count - pixels@.len(),
    {
        pixels.push(0);
    }
    pixels
}

impl Bitmap {
    /// A surface of `width * height` zeroed pixels, or `AllocationError`
    /// exactly when the dimensions are out of range.
    pub fn with_size(width: usize, height: usize) -> (r: Result<Bitmap, AllocationError>)
        ensures
            r is Ok <==> dims_ok(width as int, height as int),
            r matches Ok(b) ==> {
                &&& b.inv()
                &&& b.width_spec() == width
                &&& b.height_spec() == height
                &&& b.pixels_spec().len() == width * height
                &&& forall|i: int| 0 <= i < b.pixels_spec().len() ==> b.pixels_spec()[i] == 0u32
            },
    {
        let count: usize = match Self::checked_pixel_count(width, height) {
            Some(c) => c,
            None => {
                return Err(AllocationError);
            },
        };
        Ok(Bitmap { width, height, pixels: zeroed_pixels(count) })
    }

    /// The pixel count `width * height` when `dims_ok` admits the dimensions,
    /// `None` otherwise.
    fn checked_pixel_count(width: usize, height: usize) -> (r: Option<usize>)
        ensures
            r is Some <==> dims_ok(width as int, height as int),
            r matches Some(c) ==> c == width * height,
    {
        if width > i32::MAX as usize || height > i32::MAX as usize {
            return None;
        }
        let count: usize = match width.checked_mul(height) {
            Some(c) => c,
            None => {
                return None;
            },
        };
        match count.checked_mul(4) {
            Some(bytes) => {
                if bytes <= isize::MAX as usize {
                    Some(count)
                } else {
                    None
                }
            },
            None => None,
        }
    }

    /// Reallocates the surface to the new dimensions, zeroing its contents;
    /// fails with `AllocationError` exactly when the dimensions are out of
    /// range, and then leaves the surface untouched.
    pub fn resize(&mut self, width: usize, height: usize) -> (r: Result<(), AllocationError>)
        requires
            old(self).inv(),
        ensures
            final(self).inv(),
            r is Ok <==> dims_ok(width as int, height as int),
            r is Ok ==> {
                &&& final(self).width_spec() == width
                &&& final(self).height_spec() == height
                &&& final(self).pixels_spec().len() == width * height
                &&& forall|i: int|
                    0 <= i < final(self).pixels_spec().len() ==> final(self).pixels_spec()[i]
                        == 0u32
            },
            r is Err ==> *final(self) == *old(self),
    {
        let count: usize = match Self::checked_pixel_count(width, height) {
            Some(c) => c,
            None => {
                return Err(AllocationError);
            },
        };
        self.pixels = zeroed_pixels(count);
        self.width = width;
        self.height = height;
        Ok(())
    }

    /// The number of addressable pixels, `width * height`.
    pub fn size(&self) -> (r: usize)
        requires
            self.inv(),
        ensures
            r == self.width_spec() * self.height_spec(),
    {
        self.width * self.height
    }

    /// The width as the presentation header carries it.
    pub fn width(&self) -> (r: i32)
        requires
            self.inv(),
        ensures
            r as int == self.width_spec() as int,
    {
        cast_usize_to_i32(self.width).unwrap()
    }

    /// The height as the presentation header carries it.
    pub fn height(&self) -> (r: i32)
        requires
            self.inv(),
        ensures
            r as int == self.height_spec() as int,
    {
        cast_usize_to_i32(self.height).unwrap()
    }

    /// The whole buffer, for the presenter to blit.
    pub fn data(&self) -> (r: &Vec<u32>)
        ensures
            r@ == self.pixels_spec(),
    {
        &self.pixels
    }
}

} // verus!
