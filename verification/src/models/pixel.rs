use vstd::prelude::*;

verus! {

/// One picture element: three 8-bit colour channels.
#[derive(Debug, Clone, Copy, PartialEq, Eq, Structural)]
pub struct Pixel {
    pub r: u8,
    pub g: u8,
    pub b: u8,
}

impl Pixel {
    /// Whether the three channels hold the same value.
    pub open spec fn is_gray(self) -> bool {
        self.r == self.g && self.g == self.b
    }

    /// The pixel with every channel at its maximum.
    pub fn white() -> (pixel: Self)
        ensures
            pixel == (Pixel { r: 255, g: 255, b: 255 }),
    {
        Pixel::new(255, 255, 255)
    }

    /// The gray pixel of the given intensity.
    pub fn grayscale(grayscale: u8) -> (pixel: Self)
        ensures
            pixel == (Pixel { r: grayscale, g: grayscale, b: grayscale }),
            pixel.is_gray(),
    {
        Pixel::new(grayscale, grayscale, grayscale)
    }

    pub fn new(r: u8, g: u8, b: u8) -> (pixel: Self)
        ensures
            pixel == (Pixel { r, g, b }),
    {
        Pixel { r, g, b }
    }

    /// Sets the red channel.
    pub fn r(&mut self, r: u8)
        ensures
            *final(self) == (Pixel { r, ..*old(self) }),
    {
        self.r = r;
    }

    /// Sets the green channel.
    pub fn g(&mut self, g: u8)
        ensures
            *final(self) == (Pixel { g, ..*old(self) }),
    {
        self.g = g;
    }

    /// Sets the blue channel.
    pub fn b(&mut self, b: u8)
        ensures
            *final(self) == (Pixel { b, ..*old(self) }),
    {
        self.b = b;
    }

    pub fn get_r(&self) -> (r: u8)
        ensures
            r == self.r,
    {
        self.r
    }

    pub fn get_g(&self) -> (g: u8)
        ensures
            g == self.g,
    {
        self.g
    }

    pub fn get_b(&self) -> (b: u8)
        ensures
            b == self.b,
    {
        self.b
    }

    /// Sets all three channels to one intensity.
    pub fn set_grayscale(&mut self, grayscale: u8)
        ensures
            *final(self) == (Pixel { r: grayscale, g: grayscale, b: grayscale }),
            final(self).is_gray(),
    {
        self.r(grayscale);
        self.g(grayscale);
        self.b(grayscale);
    }

    /// The channels in the order red, green, blue.
    pub fn as_slice(&self) -> (channels: [u8; 3])
        ensures
            channels@ == seq![self.r, self.g, self.b],
    {
        let channels: [u8; 3] = [self.r, self.g, self.b];
        assert(channels@ =~= seq![self.r, self.g, self.b]);
        channels
    }
}

impl Default for Pixel {
    /// The black pixel.
    fn default() -> (pixel: Self)
        ensures
            pixel == (Pixel { r: 0, g: 0, b: 0 }),
    {
        Pixel { r: 0, g: 0, b: 0 }
    }
}

} // verus!
