//! Progressive frame accumulation buffer.
//!
//! `CustomImage` holds one channel value per color component — four per pixel,
//! in row-major order — and is blended into once per completed frame. The
//! blending arithmetic itself runs on floating-point channels outside the
//! verified library; what is proved here is everything else the accumulator
//! promises: the buffer always holds exactly `width * height * 4` values,
//! every access lands on the four channels of the addressed pixel, and a
//! coordinate or row outside the image is answered with an error instead of a
//! write, leaving the buffer untouched.

use vstd::prelude::*;

verus! {

/// Error reported when the accumulator is handed mismatched data or an
/// out-of-bounds position. Details are given in the `error` string.
#[derive(Debug)]
pub struct CustomImageError {
    pub error: String,
}

/// One pixel: four channel values standing for red, green, blue and alpha,
/// in order.
#[derive(Clone, Copy, Debug)]
pub struct Pixel<T> {
    pub r: T,
    pub g: T,
    pub b: T,
    pub a: T,
}

/// An image of `width * height` pixels whose channel values are stored in one
/// flat buffer, four values per pixel, row by row.
#[derive(Clone)]
pub struct CustomImage<T> {
    width: u32,
    height: u32,
    data: Vec<T>,
}

impl<T> View for CustomImage<T> {
    type V = Seq<T>;

    /// The flat channel buffer, row-major, four values per pixel.
    closed spec fn view(&self) -> Seq<T> {
        self.data@
    }
}

/// Bounds needed to address the four channels of pixel `(x, y)` in a buffer
/// of `len == width * height * 4` values: the row stride `width * 4` and the
/// channel position both stay below `len`, which itself fits the machine.
proof fn lemma_channel_index_fits(width: int, height: int, x: int, y: int, len: int)
    requires
        0 <= x < width,
        0 <= y < height,
        len == width * height * 4,
        len <= usize::MAX,
    ensures
        width * 4 <= len,
        (y * width + x) * 4 == y * (width * 4) + x * 4,
        y * (width * 4) + x * 4 + 3 < len,
{
    assert(width * 4 <= width * height * 4 && (y * width + x) * 4 == y * (width * 4) + x * 4 && y
        * (width * 4) + x * 4 + 3 < width * height * 4) by (nonlinear_arith)
        requires
            0 <= x < width,
            0 <= y < height,
    ;
}

impl<T: Copy> CustomImage<T> {
    /// The stated width of the image.
    pub closed spec fn spec_width(&self) -> u32 {
        self.width
    }

    /// The stated height of the image.
    pub closed spec fn spec_height(&self) -> u32 {
        self.height
    }

    /// Internal consistency: the buffer holds exactly four channel values for
    /// each of the `width * height` pixels.
    pub open spec fn wf(&self) -> bool {
        self@.len() == self.spec_width() * self.spec_height() * 4
    }

    /// Position of pixel `(x, y)`'s first channel value in the buffer.
    pub open spec fn spec_pixel_index(&self, x: int, y: int) -> int {
        (y * self.spec_width() + x) * 4
    }

    /// Whether `(x, y)` addresses a pixel of the image.
    pub open spec fn pixel_in_bounds(&self, x: int, y: int) -> bool {
        0 <= x < self.spec_width() && 0 <= y < self.spec_height()
    }

    /// Builds an image of the given size with every channel of every pixel
    /// set to `fill`.
    pub fn new(width: u32, height: u32, fill: T) -> (img: Self)
        requires
            width * height * 4 <= u32::MAX,
        ensures
            img.wf(),
            img.spec_width() == width,
            img.spec_height() == height,
            forall|i: int| 0 <= i < img@.len() ==> img@[i] == fill,
    {
        proof {
            assert((width as int) * (height as int) * 4 == (width as usize) * (height as usize)
                * 4) by (nonlinear_arith);
        }
        let n: usize = (width as usize) * (height as usize) * 4;
        let mut data: Vec<T> = Vec::new();
        let mut i: usize = 0;
        while i < n
            invariant
                i <= n,
                data@.len() == i,
                forall|j: int| 0 <= j < i ==> data@[j] == fill,
            decreases n - i,
        {
            data.push(fill);
            i = i + 1;
        }
        CustomImage { width, height, data }
    }

    /// Builds an image of the given size around an existing channel buffer.
    /// Answers an error if, and only if, the buffer length does not match the
    /// size: a valid image must hold exactly `width * height * 4` values.
    pub fn new_from_data(width: u32, height: u32, data: Vec<T>) -> (result: Result<
        Self,
        CustomImageError,
    >)
        requires
            width * height * 4 <= u32::MAX,
        ensures
            match result {
                Ok(img) => {
                    &&& data@.len() == width * height * 4
                    &&& img.wf()
                    &&& img.spec_width() == width
                    &&& img.spec_height() == height
                    &&& img@ == data@
                },
                Err(e) => {
                    &&& data@.len() != width * height * 4
                    &&& e.error@ == "Data length does not match given width and height!"@
                },
            },
    {
        proof {
            assert((width as int) * (height as int) * 4 == (width as usize) * (height as usize)
                * 4) by (nonlinear_arith);
        }
        let n: usize = (width as usize) * (height as usize) * 4;
        if data.len() != n {
            return Err(
                CustomImageError {
                    error: "Data length does not match given width and height!".to_owned(),
                },
            );
        }
        Ok(CustomImage { width, height, data })
    }

    /// Returns the image's width.
    pub fn get_width(&self) -> (w: u32)
        ensures
            w == self.spec_width(),
    {
        self.width
    }

    /// Returns the image's height.
    pub fn get_height(&self) -> (h: u32)
        ensures
            h == self.spec_height(),
    {
        self.height
    }

    /// Reads the four channel values of the pixel at `(x, y)`. Answers an
    /// error if, and only if, `(x, y)` lies outside the image.
    pub fn get_pixel(&self, x: usize, y: usize) -> (result: Result<Pixel<T>, CustomImageError>)
        requires
            self.wf(),
        ensures
            match result {
                Ok(p) => {
                    &&& self.pixel_in_bounds(x as int, y as int)
                    &&& p.r == self@[self.spec_pixel_index(x as int, y as int)]
                    &&& p.g == self@[self.spec_pixel_index(x as int, y as int) + 1]
                    &&& p.b == self@[self.spec_pixel_index(x as int, y as int) + 2]
                    &&& p.a == self@[self.spec_pixel_index(x as int, y as int) + 3]
                },
                Err(_) => !self.pixel_in_bounds(x as int, y as int),
            },
    {
        if x >= self.width as usize || y >= self.height as usize {
            return Err(CustomImageError { error: "Pixel position out of bounds!".to_owned() });
        }
        let buffer_length: usize = self.data.len();
        proof {
            lemma_channel_index_fits(
                self.width as int,
                self.height as int,
                x as int,
                y as int,
                buffer_length as int,
            );
        }
        let row_length: usize = (self.width as usize) * 4;
        let index: usize = y * row_length + x * 4;
        Ok(
            Pixel {
                r: self.data[index],
                g: self.data[index + 1],
                b: self.data[index + 2],
                a: self.data[index + 3],
            },
        )
    }

    /// Overwrites the four channel values of the pixel at `(x, y)`. Answers
    /// an error if, and only if, `(x, y)` lies outside the image; the buffer
    /// is then left unchanged. No other pixel is touched either way.
    pub fn set_pixel(&mut self, x: usize, y: usize, pixel: Pixel<T>) -> (result: Result<
        (),
        CustomImageError,
    >)
        requires
            old(self).wf(),
        ensures
            final(self).wf(),
            final(self).spec_width() == old(self).spec_width(),
            final(self).spec_height() == old(self).spec_height(),
            match result {
                Ok(()) => {
                    &&& old(self).pixel_in_bounds(x as int, y as int)
                    &&& final(self)@ == old(self)@.update(
                        old(self).spec_pixel_index(x as int, y as int),
                        pixel.r,
                    ).update(
                        old(self).spec_pixel_index(x as int, y as int) + 1,
                        pixel.g,
                    ).update(
                        old(self).spec_pixel_index(x as int, y as int) + 2,
                        pixel.b,
                    ).update(old(self).spec_pixel_index(x as int, y as int) + 3, pixel.a)
                },
                Err(_) => {
                    &&& !old(self).pixel_in_bounds(x as int, y as int)
                    &&& final(self)@ == old(self)@
                },
            },
    {
        if x >= self.width as usize || y >= self.height as usize {
            return Err(CustomImageError { error: "Pixel position out of bounds!".to_owned() });
        }
        let buffer_length: usize = self.data.len();
        proof {
            lemma_channel_index_fits(
                self.width as int,
                self.height as int,
                x as int,
                y as int,
                buffer_length as int,
            );
        }
        let row_length: usize = (self.width as usize) * 4;
        let index: usize = y * row_length + x * 4;
        self.data[index] = pixel.r;
        self.data[index + 1] = pixel.g;
        self.data[index + 2] = pixel.b;
        self.data[index + 3] = pixel.a;
        Ok(())
    }

    /// Hands the image's channel buffer over, for the one-way conversion to a
    /// displayable fixed-point image at presentation time.
    pub fn into_data(self) -> (data: Vec<T>)
        ensures
            data@ == self@,
    {
        self.data
    }

    /// Checks the arguments of a whole-row update: a row must bring exactly
    /// `width` pixels and name a row inside the image. Answers `Ok` if, and
    /// only if, both hold; the errors match the two ways the arguments can be
    /// wrong.
    pub fn row_args_ok(&self, row_length: usize, row_number: usize) -> (result: Result<
        (),
        CustomImageError,
    >)
        ensures
            result is Ok <==> (row_length == self.spec_width() && row_number
                < self.spec_height()),
    {
        if row_length != self.width as usize {
            return Err(CustomImageError { error: "Row too long or short!".to_owned() });
        }
        if row_number >= self.height as usize {
            return Err(CustomImageError { error: "Specified row number does not exist!".to_owned() });
        }
        Ok(())
    }
}

} // verus!
