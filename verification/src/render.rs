//! Assembling the pixel buffer from escape counts and a palette.

use vstd::prelude::*;
use image::ImageBuffer;
use image::Rgb;

verus! {

/// An 8-bit colour: red, green, blue.
pub type Color = (u8, u8, u8);

/// A grid of RGB pixels, kept in an `image::ImageBuffer` with 8-bit channels.
#[verifier::external_body]
pub struct PixelBuffer {
    inner: ImageBuffer<Rgb<u8>, Vec<u8>>,
}

/// Width and height of a buffer, in pixels.
pub uninterp spec fn buffer_dimensions(buffer: PixelBuffer) -> (u32, u32);

/// The pixels of a buffer, row after row from the top, each row from the left.
pub uninterp spec fn buffer_pixels(buffer: PixelBuffer) -> Seq<Color>;

/// The channel values of a sequence of pixels, three for each pixel in turn.
pub open spec fn channels_of(pixels: Seq<Color>) -> Seq<u8> {
    Seq::new(
        3 * pixels.len(),
        |k: int|
            if k % 3 == 0 {
                pixels[k / 3].0
            } else if k % 3 == 1 {
                pixels[k / 3].1
            } else {
                pixels[k / 3].2
            },
    )
}

/// `ImageBuffer::new`: a buffer of the given size with every channel of every
/// pixel at zero. The call panics when the number of channel values,
/// `3 * width * height`, is more than a vector can hold, so such sizes are
/// left out.
#[verifier::external_body]
fn blank_buffer(width: u32, height: u32) -> (buffer: PixelBuffer)
    requires
        3 * width * height <= isize::MAX,
    ensures
        buffer_dimensions(buffer) == (width, height),
        buffer_pixels(buffer) == Seq::new((width * height) as nat, |i: int| (0u8, 0u8, 0u8)),
{
    PixelBuffer { inner: ImageBuffer::new(width, height) }
}

/// `ImageBuffer::put_pixel`: stores one pixel and leaves the others and the
/// size as they were. The pixel at column `x` of row `y` is number
/// `y * width + x` of the buffer. The call panics outside the image, so such
/// positions are left out.
#[verifier::external_body]
fn store_pixel(buffer: &mut PixelBuffer, x: u32, y: u32, color: Color)
    requires
        x < buffer_dimensions(*old(buffer)).0,
        y < buffer_dimensions(*old(buffer)).1,
    ensures
        buffer_dimensions(*final(buffer)) == buffer_dimensions(*old(buffer)),
        buffer_pixels(*final(buffer)) == buffer_pixels(*old(buffer)).update(
            y * buffer_dimensions(*old(buffer)).0 + x,
            color,
        ),
{
    buffer.inner.put_pixel(x, y, Rgb([color.0, color.1, color.2]));
}

/// `ImageBuffer::dimensions`: the width and the height that the buffer was made with.
#[verifier::external_body]
fn stored_dimensions(buffer: &PixelBuffer) -> (size: (u32, u32))
    ensures
        size == buffer_dimensions(*buffer),
{
    buffer.inner.dimensions()
}

/// `ImageBuffer::into_raw`: the vector behind the buffer, which holds the
/// red, green and blue value of each pixel in turn.
#[verifier::external_body]
fn stored_channels(buffer: PixelBuffer) -> (raw: Vec<u8>)
    ensures
        raw@ == channels_of(buffer_pixels(buffer)),
{
    buffer.inner.into_raw()
}

/// The pixels that a grid of escape counts yields under a palette: the pixel
/// of each point is the palette's entry for its count.
pub open spec fn rendered(counts: Seq<u32>, palette: Seq<Color>) -> Seq<Color> {
    Seq::new(counts.len(), |i: int| palette[counts[i] as int])
}

/// Whether the palette has an entry for every count.
pub open spec fn palette_covers(counts: Seq<u32>, palette: Seq<Color>) -> bool {
    forall|i: int| 0 <= i < counts.len() ==> #[trigger] counts[i] < palette.len()
}

impl PixelBuffer {
    /// Width and height in pixels.
    pub fn dimensions(&self) -> (size: (u32, u32))
        ensures
            size == buffer_dimensions(*self),
    {
        stored_dimensions(self)
    }

    /// Gives up the buffer for its channel values: red, green and blue of
    /// each pixel, row after row.
    pub fn into_raw(self) -> (raw: Vec<u8>)
        ensures
            raw@ == channels_of(buffer_pixels(self)),
            raw.len() == 3 * buffer_pixels(self).len(),
    {
        stored_channels(self)
    }
}

proof fn lemma_row_bounds(y: int, width: int, height: int)
    requires
        0 <= width,
        0 <= y < height,
    ensures
        0 <= y * width,
        (y + 1) * width == y * width + width,
        (y + 1) * width <= width * height,
{
    assert(0 <= y * width) by (nonlinear_arith)
        requires
            0 <= y,
            0 <= width,
    ;
    assert((y + 1) * width == y * width + width) by (nonlinear_arith);
    assert((y + 1) * width <= height * width) by (nonlinear_arith)
        requires
            y + 1 <= height,
            0 <= width,
    ;
    assert(height * width == width * height) by (nonlinear_arith);
}

/// Renders an image of `width` by `height` pixels. `counts` holds the escape
/// count of every pixel, row after row from the top and each row from the
/// left; `palette` holds the colour of every count. Every pixel of the result
/// is set, to the colour of its count.
pub fn generate_mandelbrot_img(
    width: u32,
    height: u32,
    counts: &Vec<u32>,
    palette: &Vec<Color>,
) -> (buffer: PixelBuffer)
    requires
        counts.len() == width * height,
        palette_covers(counts@, palette@),
        3 * width * height <= isize::MAX,
    ensures
        buffer_dimensions(buffer) == (width, height),
        buffer_pixels(buffer) == rendered(counts@, palette@),
{
    let mut buffer = blank_buffer(width, height);
    let ghost target = rendered(counts@, palette@);
    let mut y: u32 = 0;
    while y < height
        invariant
            y <= height,
            counts.len() == width * height,
            palette_covers(counts@, palette@),
            target == rendered(counts@, palette@),
            buffer_dimensions(buffer) == (width, height),
            buffer_pixels(buffer).len() == width * height,
            forall|i: int| 0 <= i < y * width ==> #[trigger] buffer_pixels(buffer)[i] == target[i],
        decreases height - y,
    {
        let mut x: u32 = 0;
        while x < width
            invariant
                x <= width,
                y < height,
                counts.len() == width * height,
                palette_covers(counts@, palette@),
                target == rendered(counts@, palette@),
                buffer_dimensions(buffer) == (width, height),
                buffer_pixels(buffer).len() == width * height,
                forall|i: int|
                    0 <= i < y * width + x ==> #[trigger] buffer_pixels(buffer)[i] == target[i],
            decreases width - x,
        {
            proof {
                lemma_row_bounds(y as int, width as int, height as int);
            }
            let index: usize = y as usize * width as usize + x as usize;
            let count: u32 = counts[index];
            let color: Color = palette[count as usize];
            store_pixel(&mut buffer, x, y, color);
            x += 1;
        }
        proof {
            lemma_row_bounds(y as int, width as int, height as int);
        }
        y += 1;
    }
    proof {
        assert(y * width == width * height) by (nonlinear_arith)
            requires
                y == height,
        ;
        assert(buffer_pixels(buffer) =~= target);
    }
    buffer
}

} // verus!
