//! The pixel grid that is sent to the panel, kept in an `image` buffer.

use image::{ImageBuffer, Rgb, RgbImage};
use vstd::prelude::*;

verus! {

/// Edge length of the square panel, in pixels.
pub const DISPLAY_SIZE: u32 = 16;

/// One pixel: red, green and blue.
pub type Color = (u8, u8, u8);

/// The colour of an unlit pixel.
pub open spec fn black() -> Color {
    (0u8, 0u8, 0u8)
}

/// The positions of a grid `width` columns wide and `height` rows high, each
/// as column and row.
pub open spec fn grid(width: int, height: int) -> Set<(int, int)> {
    Set::new(|p: (int, int)| 0 <= p.0 < width && 0 <= p.1 < height)
}

/// A grid of the given size with every pixel unlit.
pub open spec fn blank(width: int, height: int) -> Map<(int, int), Color> {
    Map::new(|p: (int, int)| grid(width, height).contains(p), |p: (int, int)| black())
}

/// The positions of the panel.
pub open spec fn panel() -> Set<(int, int)> {
    grid(DISPLAY_SIZE as int, DISPLAY_SIZE as int)
}

/// An `image::RgbImage`, whose pixels are only reached through the functions
/// below.
#[verifier::external_body]
pub struct PixelBuffer {
    image: RgbImage,
}

/// The pixels of a buffer, keyed by column and row. The map's domain is the
/// set of positions inside the buffer's width and height.
pub uninterp spec fn buffer_pixels(buffer: &PixelBuffer) -> Map<(int, int), Color>;

impl PixelBuffer {
    /// `ImageBuffer::new`: a buffer of the given width and height whose every
    /// pixel is zero in each channel. The outside function panics when the
    /// buffer's length overflows `usize`, which the precondition excludes.
    #[verifier::external_body]
    fn new(width: u32, height: u32) -> (buffer: PixelBuffer)
        requires
            3 * width * height <= usize::MAX,
        ensures
            buffer_pixels(&buffer) == blank(width as int, height as int),
    {
        PixelBuffer { image: ImageBuffer::new(width, height) }
    }

    /// `ImageBuffer::put_pixel`: overwrites the pixel at column `x`, row `y`
    /// and leaves every other pixel as it was. The outside function panics
    /// outside the buffer's bounds, which the precondition excludes.
    #[verifier::external_body]
    fn put_pixel(&mut self, x: u32, y: u32, color: Color)
        requires
            buffer_pixels(old(self)).dom().contains((x as int, y as int)),
        ensures
            buffer_pixels(final(self)) == buffer_pixels(old(self)).insert(
                (x as int, y as int),
                color,
            ),
        no_unwind
    {
        self.image.put_pixel(x, y, Rgb([color.0, color.1, color.2]));
    }

    /// `ImageBuffer::get_pixel`: the three channels of the pixel at column
    /// `x`, row `y`. The outside function panics outside the buffer's bounds,
    /// which the precondition excludes.
    #[verifier::external_body]
    fn get_pixel(&self, x: u32, y: u32) -> (color: Color)
        requires
            buffer_pixels(self).dom().contains((x as int, y as int)),
        ensures
            color == buffer_pixels(self)[(x as int, y as int)],
    {
        let pixel = self.image.get_pixel(x, y);
        (pixel.0[0], pixel.0[1], pixel.0[2])
    }
}

/// The image shown on the panel: `DISPLAY_SIZE` columns by `DISPLAY_SIZE`
/// rows of RGB pixels.
pub struct Frame {
    pixels: PixelBuffer,
}

impl View for Frame {
    type V = Map<(int, int), Color>;

    closed spec fn view(&self) -> Map<(int, int), Color> {
        buffer_pixels(&self.pixels)
    }
}

/// The byte of channel `channel` (0 red, 1 green, 2 blue) of a colour.
pub open spec fn channel_of(color: Color, channel: int) -> u8 {
    if channel == 0 {
        color.0
    } else if channel == 1 {
        color.1
    } else {
        color.2
    }
}

/// The pixels of a panel-sized grid as bytes: row by row from the top, left
/// to right within a row, three bytes per pixel.
pub open spec fn rgb_bytes(pixels: Map<(int, int), Color>) -> Seq<u8> {
    let width = DISPLAY_SIZE as int;
    Seq::new(
        (3 * DISPLAY_SIZE * DISPLAY_SIZE) as nat,
        |i: int| channel_of(pixels[((i / 3) % width, (i / 3) / width)], i % 3),
    )
}

impl Frame {
    /// Every frame covers exactly the panel.
    #[verifier::type_invariant]
    pub open spec fn panel_sized(self) -> bool {
        self@.dom() == panel()
    }

    /// A frame with every pixel unlit.
    pub fn new() -> (frame: Frame)
        ensures
            frame@ == blank(DISPLAY_SIZE as int, DISPLAY_SIZE as int),
    {
        let pixels = PixelBuffer::new(DISPLAY_SIZE, DISPLAY_SIZE);
        assert(buffer_pixels(&pixels).dom() =~= panel());
        Frame { pixels }
    }

    /// Sets the pixel at column `x`, row `y`. A position outside the panel is
    /// ignored.
    pub fn put_pixel(&mut self, x: u32, y: u32, color: Color)
        ensures
            final(self)@ == if panel().contains((x as int, y as int)) {
                old(self)@.insert((x as int, y as int), color)
            } else {
                old(self)@
            },
    {
        proof {
            use_type_invariant(&*self);
        }
        if x < DISPLAY_SIZE && y < DISPLAY_SIZE {
            assert(self@.insert((x as int, y as int), color).dom() =~= self@.dom());
            self.pixels.put_pixel(x, y, color);
        }
    }

    /// The frame as bytes: row by row from the top, left to right within a
    /// row, red, green and blue of each pixel.
    pub fn to_rgb_bytes(&self) -> (bytes: Vec<u8>)
        ensures
            bytes@ == rgb_bytes(self@),
    {
        proof {
            use_type_invariant(self);
        }
        let mut bytes: Vec<u8> = Vec::new();
        let mut y: u32 = 0;
        while y < DISPLAY_SIZE
            invariant
                y <= DISPLAY_SIZE,
                self@.dom() == panel(),
                bytes@ == rgb_bytes(self@).take(48 * (y as int)),
            decreases DISPLAY_SIZE - y,
        {
            let mut x: u32 = 0;
            while x < DISPLAY_SIZE
                invariant
                    y < DISPLAY_SIZE,
                    x <= DISPLAY_SIZE,
                    self@.dom() == panel(),
                    bytes@ == rgb_bytes(self@).take(48 * (y as int) + 3 * (x as int)),
                decreases DISPLAY_SIZE - x,
            {
                let color = self.pixels.get_pixel(x, y);
                bytes.push(color.0);
                bytes.push(color.1);
                bytes.push(color.2);
                x += 1;
            }
            y += 1;
        }
        bytes
    }

    /// The pixel at column `x`, row `y`; `None` outside the panel.
    pub fn get_pixel(&self, x: u32, y: u32) -> (color: Option<Color>)
        ensures
            color == if panel().contains((x as int, y as int)) {
                Some(self@[(x as int, y as int)])
            } else {
                None
            },
    {
        proof {
            use_type_invariant(self);
        }
        if x < DISPLAY_SIZE && y < DISPLAY_SIZE {
            Some(self.pixels.get_pixel(x, y))
        } else {
            None
        }
    }
}

} // verus!
