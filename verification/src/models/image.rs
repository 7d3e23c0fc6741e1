use vstd::prelude::*;

use crate::models::pixel::Pixel;

verus! {

/// A raster of `height` rows and `width` columns, stored row by row.
#[derive(Debug)]
pub struct Image {
    height: usize,
    width: usize,
    pixels: Vec<Pixel>,
}

impl View for Image {
    type V = Seq<Pixel>;

    /// The pixels, row after row.
    closed spec fn view(&self) -> Seq<Pixel> {
        self.pixels@
    }
}

impl Image {
    pub closed spec fn spec_height(&self) -> usize {
        self.height
    }

    pub closed spec fn spec_width(&self) -> usize {
        self.width
    }

    /// The invariant of an image: it holds exactly `height * width` pixels.
    pub open spec fn well_formed(&self) -> bool {
        self@.len() == self.spec_height() * self.spec_width()
    }

    /// Whether `other` has the same number of rows and of columns.
    pub open spec fn same_size(&self, other: &Image) -> bool {
        self.spec_height() == other.spec_height() && self.spec_width() == other.spec_width()
    }

    /// The pixels of an image can be counted in a machine word.
    pub proof fn count_fits(&self)
        ensures
            self@.len() <= usize::MAX,
    {
        assert(self.pixels@.len() == self.pixels.len());
    }

    /// An image of the given size over the given pixels, row after row.
    pub fn new(height: usize, width: usize, pixels: Vec<Pixel>) -> (image: Self)
        requires
            pixels@.len() == height * width,
        ensures
            image.well_formed(),
            image.spec_height() == height,
            image.spec_width() == width,
            image@ == pixels@,
    {
        Self { height, width, pixels }
    }

    /// An image of the given size whose every pixel is a copy of `pixel`.
    pub fn blank(height: usize, width: usize, pixel: &Pixel) -> (image: Self)
        requires
            height * width <= usize::MAX,
        ensures
            image.well_formed(),
            image.spec_height() == height,
            image.spec_width() == width,
            image@ == Seq::new((height * width) as nat, |i: int| *pixel),
    {
        let size: usize = height * width;
        let mut pixels: Vec<Pixel> = Vec::new();
        let mut count: usize = 0;
        while count < size
            invariant
                count <= size,
                pixels@.len() == count,
                forall|i: int| 0 <= i < count ==> pixels@[i] == *pixel,
            decreases size - count,
        {
            pixels.push(*pixel);
            count += 1;
        }
        assert(pixels@ =~= Seq::new((height * width) as nat, |i: int| *pixel));
        Self { height, width, pixels }
    }

    /// The image of the given size whose pixels are given as one run of
    /// bytes: red, green, blue of the first pixel, then of the second, and so
    /// on. There is none where the run does not hold three bytes for each
    /// pixel of that size.
    pub fn from_raw_bytes(height: usize, width: usize, bytes: &[u8]) -> (image: Option<Self>)
        ensures
            image is Some <==> bytes@.len() == 3 * (height * width),
            image matches Some(image) ==> {
                &&& image.well_formed()
                &&& image.spec_height() == height
                &&& image.spec_width() == width
                &&& raw_bytes(image@) == bytes@
            },
    {
        let length: usize = bytes.len();
        let size: usize = match height.checked_mul(width) {
            Some(size) => size,
            None => {
                return None;
            },
        };
        if length % 3 != 0 || length / 3 != size {
            return None;
        }
        let mut pixels: Vec<Pixel> = Vec::new();
        let mut index: usize = 0;
        while index < size
            invariant
                index <= size,
                bytes@.len() == 3 * size,
                bytes@.len() <= usize::MAX,
                pixels@.len() == index,
                forall|i: int|
                    0 <= i < index ==> #[trigger] pixels@[i] == (Pixel {
                        r: bytes@[3 * i],
                        g: bytes@[3 * i + 1],
                        b: bytes@[3 * i + 2],
                    }),
            decreases size - index,
        {
            let pixel: Pixel = Pixel::new(
                bytes[3 * index],
                bytes[3 * index + 1],
                bytes[3 * index + 2],
            );
            pixels.push(pixel);
            index += 1;
        }
        assert(raw_bytes(pixels@) =~= bytes@);
        Some(Self { height, width, pixels })
    }

    #[verifier::when_used_as_spec(spec_width)]
    pub fn width(&self) -> (width: usize)
        ensures
            width == self.spec_width(),
    {
        self.width
    }

    #[verifier::when_used_as_spec(spec_height)]
    pub fn height(&self) -> (height: usize)
        ensures
            height == self.spec_height(),
    {
        self.height
    }

    pub fn pixels(&self) -> (pixels: &Vec<Pixel>)
        ensures
            pixels@ == self@,
    {
        &self.pixels
    }

    /// Whether the image holds as many pixels as its size asks for.
    pub fn is_complete(&self) -> (complete: bool)
        ensures
            complete == self.well_formed(),
    {
        proof {
            self.count_fits();
        }
        match self.height.checked_mul(self.width) {
            Some(size) => self.pixels.len() == size,
            None => false,
        }
    }

    /// The pixel at `index`, counted row after row.
    pub fn pixel(&self, index: usize) -> (pixel: Pixel)
        requires
            index < self@.len(),
        ensures
            pixel == self@[index as int],
    {
        self.pixels[index]
    }

    /// Replaces the pixel at `index`, counted row after row.
    pub fn set_pixel(&mut self, index: usize, pixel: Pixel)
        requires
            index < old(self)@.len(),
        ensures
            final(self)@ == old(self)@.update(index as int, pixel),
            final(self).same_size(old(self)),
            old(self).well_formed() ==> final(self).well_formed(),
    {
        self.pixels[index] = pixel;
    }

    /// The channels of all pixels in one run: red, green, blue of the first
    /// pixel, then of the second, and so on.
    pub fn as_raw_bytes(&self) -> (bytes: Vec<u8>)
        ensures
            bytes@ == raw_bytes(self@),
    {
        let mut bytes: Vec<u8> = Vec::new();
        let mut index: usize = 0;
        while index < self.pixels.len()
            invariant
                index <= self.pixels@.len(),
                bytes@.len() == 3 * index,
                forall|i: int|
                    0 <= i < index ==> {
                        &&& bytes@[3 * i] == self.pixels@[i].r
                        &&& bytes@[3 * i + 1] == self.pixels@[i].g
                        &&& bytes@[3 * i + 2] == self.pixels@[i].b
                    },
            decreases self.pixels@.len() - index,
        {
            let pixel: Pixel = self.pixels[index];
            bytes.push(pixel.get_r());
            bytes.push(pixel.get_g());
            bytes.push(pixel.get_b());
            index += 1;
        }
        assert(bytes@ =~= raw_bytes(self@));
        bytes
    }
}

/// The byte run of a pixel sequence: three bytes per pixel, in the order red,
/// green, blue.
pub open spec fn raw_bytes(pixels: Seq<Pixel>) -> Seq<u8> {
    Seq::new(
        3 * pixels.len(),
        |k: int|
            if k % 3 == 0 {
                pixels[k / 3].r
            } else if k % 3 == 1 {
                pixels[k / 3].g
            } else {
                pixels[k / 3].b
            },
    )
}

impl Clone for Image {
    fn clone(&self) -> (copy: Self)
        ensures
            copy@ == self@,
            copy.same_size(self),
            self.well_formed() ==> copy.well_formed(),
    {
        let pixels: Vec<Pixel> = self.pixels.clone();
        assert(pixels@ =~= self.pixels@);
        Self { height: self.height, width: self.width, pixels }
    }
}

} // verus!
