//! A grid of RGBA pixels held in an image buffer of the `image` crate.

use image::codecs::png::{CompressionType, FilterType, PngEncoder};
use image::{ImageBuffer, Rgba, RgbaImage};
use vstd::prelude::*;
use crate::utils::Color;

verus! {

/// An image buffer of the `image` crate, eight bits per channel, RGBA.
#[verifier::external_body]
pub struct PixelBuffer {
    img: RgbaImage,
}

/// The pixels of an image buffer, each as its four channels red, green, blue, alpha.
pub uninterp spec fn image_pixels(img: PixelBuffer) -> Map<(u32, u32), Seq<u8>>;

/// The width and height of an image buffer.
pub uninterp spec fn image_dims(img: PixelBuffer) -> (u32, u32);

/// The PNG file that the `image` crate writes for the given pixels and dimensions,
/// with fast compression and adaptive filtering.
pub uninterp spec fn png_fast(pixels: Map<(u32, u32), Seq<u8>>, dims: (u32, u32)) -> Seq<u8>;

/// The positions of a grid of the given width and height.
pub open spec fn grid(width: u32, height: u32) -> Set<(u32, u32)> {
    Set::new(|p: (u32, u32)| p.0 < width && p.1 < height)
}

/// The channels of a color, in the order an image buffer holds them.
pub open spec fn color_bytes(c: Color) -> Seq<u8> {
    seq![c.r, c.g, c.b, c.a]
}

/// The color of a pixel given by its four channels.
pub open spec fn pixel_color(px: Seq<u8>) -> Color {
    Color { r: px[0], g: px[1], b: px[2], a: px[3] }
}

/// Relies on `ImageBuffer::from_pixel`: every pixel of a new `width` × `height`
/// buffer is `px`. It panics only when the buffer's byte length overflows `usize`.
#[verifier::external_body]
fn image_from_pixel(width: u32, height: u32, px: [u8; 4]) -> (img: PixelBuffer)
    requires
        size_fits(width, height),
    ensures
        image_dims(img) == (width, height),
        image_pixels(img).dom() == grid(width, height),
        forall|p: (u32, u32)| #[trigger] grid(width, height).contains(p) ==> image_pixels(img)[p] == px@,
{
    PixelBuffer { img: ImageBuffer::from_pixel(width, height, Rgba(px)) }
}

/// Relies on `ImageBuffer::dimensions`: the buffer's width and height, which
/// bound the positions it holds pixels for.
#[verifier::external_body]
fn image_dimensions(img: &PixelBuffer) -> (r: (u32, u32))
    ensures
        r == image_dims(*img),
        image_pixels(*img).dom() == grid(r.0, r.1),
{
    img.img.dimensions()
}

/// Relies on `ImageBuffer::get_pixel`, which panics outside the buffer.
#[verifier::external_body]
fn image_get_pixel(img: &PixelBuffer, x: u32, y: u32) -> (px: [u8; 4])
    requires
        x < image_dims(*img).0,
        y < image_dims(*img).1,
    ensures
        px@ == image_pixels(*img)[(x, y)],
{
    img.img.get_pixel(x, y).0
}

/// Relies on `ImageBuffer::put_pixel`, which panics outside the buffer and
/// changes no other pixel.
#[verifier::external_body]
fn image_put_pixel(img: &mut PixelBuffer, x: u32, y: u32, px: [u8; 4])
    requires
        x < image_dims(*old(img)).0,
        y < image_dims(*old(img)).1,
    ensures
        image_dims(*final(img)) == image_dims(*old(img)),
        image_pixels(*final(img)) == image_pixels(*old(img)).insert((x, y), px@),
{
    img.img.put_pixel(x, y, Rgba(px))
}

/// Relies on `ImageBuffer`'s `Clone`: the copy has the same dimensions and pixels.
#[verifier::external_body]
fn image_copy(img: &PixelBuffer) -> (r: PixelBuffer)
    ensures
        image_dims(r) == image_dims(*img),
        image_pixels(r) == image_pixels(*img),
{
    PixelBuffer { img: img.img.clone() }
}

/// Whether the PNG encoder takes an image of these dimensions: it refuses a zero
/// width or height, and the canvas is never larger than 4096 × 4096.
pub open spec fn png_encodable(dims: (u32, u32)) -> bool {
    1 <= dims.0 <= 4096 && 1 <= dims.1 <= 4096
}

/// Relies on `ImageBuffer::write_with_encoder` with the PNG encoder set to fast
/// compression and adaptive filtering; `None` when the encoder reports an error.
/// Writing into a `Vec` cannot fail, the buffer handed over always has the
/// length the encoder expects, and png's `Writer::init` refuses only a zero
/// width or height for 8-bit RGBA.
#[verifier::external_body]
fn image_encode_png(img: &PixelBuffer) -> (r: Option<Vec<u8>>)
    ensures
        r matches Some(bytes) ==> bytes@ == png_fast(image_pixels(*img), image_dims(*img)),
        png_encodable(image_dims(*img)) ==> r is Some,
{
    let mut out = Vec::new();
    let encoder = PngEncoder::new_with_quality(&mut out, CompressionType::Fast, FilterType::Adaptive);
    match img.img.write_with_encoder(encoder) {
        Ok(()) => Some(out),
        Err(_) => None,
    }
}

/// The four bytes that `raw`, read row by row with four bytes to a pixel, holds
/// for the pixel at `p`.
pub open spec fn raw_pixel(raw: Seq<u8>, width: u32, p: (u32, u32)) -> Seq<u8> {
    let start = 4 * (p.1 as int * width as int + p.0 as int);
    raw.subrange(start, start + 4)
}

/// Whether the byte length of a `width` × `height` image, and of one row of
/// it, fits a `usize`.
pub open spec fn size_fits(width: u32, height: u32) -> bool {
    width as int * 4 <= usize::MAX && width as int * height as int * 4 <= usize::MAX
}

/// Whether `len` bytes hold a `width` × `height` image whose size fits a `usize`.
pub open spec fn raw_fits(width: u32, height: u32, len: nat) -> bool {
    size_fits(width, height) && width as int * height as int * 4 <= len
}

/// Relies on `ImageBuffer::from_raw`: `None` unless `4 * width * height` is a
/// `usize` (computed as `4 * width`, then times `height`) and `raw` holds that
/// many bytes; the pixels are read row by row.
#[verifier::external_body]
fn image_from_raw(width: u32, height: u32, raw: Vec<u8>) -> (r: Option<PixelBuffer>)
    ensures
        r is Some <==> raw_fits(width, height, raw@.len()),
        r matches Some(img) ==> image_dims(img) == (width, height),
        r matches Some(img) ==> image_pixels(img).dom() == grid(width, height),
        r matches Some(img) ==> forall|p: (u32, u32)| #[trigger] grid(width, height).contains(p) ==> image_pixels(img)[p] == raw_pixel(raw@, width, p),
{
    ImageBuffer::from_raw(width, height, raw).map(|img| PixelBuffer { img })
}

/// Relies on `ImageBuffer::into_raw`: the bytes of the pixels, row by row.
#[verifier::external_body]
fn image_into_raw(img: PixelBuffer) -> (raw: Vec<u8>)
    ensures
        raw@.len() >= image_dims(img).0 as int * image_dims(img).1 as int * 4,
        forall|p: (u32, u32)| #[trigger] grid(image_dims(img).0, image_dims(img).1).contains(p) ==> image_pixels(img)[p] == raw_pixel(raw@, image_dims(img).0, p),
{
    img.img.into_raw()
}

/// Whether a draw at `(x, y)`, of one pixel or of a 2×2 block, covers `(i, j)`.
pub open spec fn covers(x: u32, y: u32, big: bool, i: u32, j: u32) -> bool {
    &&& (i == x || (big && i == x + 1))
    &&& (j == y || (big && j == y + 1))
}

/// The pixels after a draw at `(x, y)` in color `c`: each covered position of the
/// grid takes the color, every other pixel stays; positions off the grid are dropped.
pub open spec fn drawn(pixels: Map<(u32, u32), Seq<u8>>, x: u32, y: u32, c: Color, big: bool) -> Map<(u32, u32), Seq<u8>> {
    Map::new(
        |p: (u32, u32)| pixels.contains_key(p),
        |p: (u32, u32)| if covers(x, y, big, p.0, p.1) { color_bytes(c) } else { pixels[p] },
    )
}

/// A 2×2 draw at the last column and row of a grid changes only that corner
/// pixel: the other three positions lie off the grid and are dropped.
pub proof fn lemma_corner_draw(pixels: Map<(u32, u32), Seq<u8>>, width: u32, height: u32, c: Color)
    requires
        pixels.dom() == grid(width, height),
        width > 0,
        height > 0,
    ensures
        drawn(pixels, (width - 1) as u32, (height - 1) as u32, c, true)
            == pixels.insert(((width - 1) as u32, (height - 1) as u32), color_bytes(c)),
{
    assert(drawn(pixels, (width - 1) as u32, (height - 1) as u32, c, true)
        =~= pixels.insert(((width - 1) as u32, (height - 1) as u32), color_bytes(c)));
}

/// Two draws that cover no position in common lose nothing to each other: in
/// either order, every pixel one of them covers takes its color, and every
/// other pixel stays.
pub proof fn lemma_disjoint_draws(
    pixels: Map<(u32, u32), Seq<u8>>,
    x1: u32,
    y1: u32,
    c1: Color,
    big1: bool,
    x2: u32,
    y2: u32,
    c2: Color,
    big2: bool,
)
    requires
        forall|i: u32, j: u32| #![trigger covers(x1, y1, big1, i, j), covers(x2, y2, big2, i, j)]
            !(covers(x1, y1, big1, i, j) && covers(x2, y2, big2, i, j)),
    ensures
        drawn(drawn(pixels, x1, y1, c1, big1), x2, y2, c2, big2) == drawn(drawn(pixels, x2, y2, c2, big2), x1, y1, c1, big1),
        forall|p: (u32, u32)| #[trigger] pixels.contains_key(p) ==> drawn(drawn(pixels, x1, y1, c1, big1), x2, y2, c2, big2)[p] == if covers(x1, y1, big1, p.0, p.1) {
            color_bytes(c1)
        } else if covers(x2, y2, big2, p.0, p.1) {
            color_bytes(c2)
        } else {
            pixels[p]
        },
{
    let a = drawn(drawn(pixels, x1, y1, c1, big1), x2, y2, c2, big2);
    let b = drawn(drawn(pixels, x2, y2, c2, big2), x1, y1, c1, big1);
    assert forall|p: (u32, u32)| #[trigger] pixels.contains_key(p) implies a[p] == b[p] && a[p] == if covers(x1, y1, big1, p.0, p.1) {
        color_bytes(c1)
    } else if covers(x2, y2, big2, p.0, p.1) {
        color_bytes(c2)
    } else {
        pixels[p]
    } by {
        assert(!(covers(x1, y1, big1, p.0, p.1) && covers(x2, y2, big2, p.0, p.1)));
    }
    assert(a =~= b);
}

/// A grid of RGBA pixels.
pub struct Canvas {
    img: PixelBuffer,
}

impl Canvas {
    pub closed spec fn width(&self) -> u32 {
        image_dims(self.img).0
    }

    pub closed spec fn height(&self) -> u32 {
        image_dims(self.img).1
    }

    /// The pixels, one for each position of the grid.
    pub closed spec fn pixels(&self) -> Map<(u32, u32), Seq<u8>> {
        image_pixels(self.img)
    }

    /// A canvas holds a pixel for each position of its grid and no other.
    pub open spec fn wf(&self) -> bool {
        self.pixels().dom() == grid(self.width(), self.height())
    }

    /// A `width` × `height` canvas with every pixel `background`.
    pub fn new(width: u32, height: u32, background: Color) -> (c: Canvas)
        requires
            size_fits(width, height),
        ensures
            c.wf(),
            c.width() == width,
            c.height() == height,
            forall|p: (u32, u32)| grid(width, height).contains(p) ==> #[trigger] c.pixels()[p] == color_bytes(background),
    {
        let px = background.into_rgba();
        Canvas { img: image_from_pixel(width, height, px) }
    }

    /// A `width` × `height` canvas read from `raw`, four bytes to a pixel, row
    /// by row; `None` if `raw` is too short.
    pub fn from_raw(width: u32, height: u32, raw: Vec<u8>) -> (r: Option<Canvas>)
        ensures
            r is Some <==> raw_fits(width, height, raw@.len()),
            r matches Some(c) ==> c.wf() && c.width() == width && c.height() == height
                && forall|p: (u32, u32)| #[trigger] grid(width, height).contains(p) ==> c.pixels()[p] == raw_pixel(raw@, width, p),
    {
        match image_from_raw(width, height, raw) {
            Some(img) => Some(Canvas { img }),
            None => None,
        }
    }

    pub fn dimensions(&self) -> (r: (u32, u32))
        ensures
            r == (self.width(), self.height()),
    {
        image_dimensions(&self.img)
    }

    /// The color at `(x, y)`, or `None` off the grid.
    pub fn get_pixel(&self, x: u32, y: u32) -> (r: Option<Color>)
        requires
            self.wf(),
        ensures
            r is Some <==> x < self.width() && y < self.height(),
            r matches Some(c) ==> c == pixel_color(self.pixels()[(x, y)]),
    {
        let (w, h) = image_dimensions(&self.img);
        if x >= w || y >= h {
            return None;
        }
        let px = image_get_pixel(&self.img, x, y);
        Some(Color { r: px[0], g: px[1], b: px[2], a: px[3] })
    }

    fn put_checked(&mut self, x: u32, y: u32, px: [u8; 4])
        requires
            old(self).wf(),
        ensures
            final(self).wf(),
            final(self).width() == old(self).width(),
            final(self).height() == old(self).height(),
            final(self).pixels() == if x < old(self).width() && y < old(self).height() {
                old(self).pixels().insert((x, y), px@)
            } else {
                old(self).pixels()
            },
    {
        let (w, h) = image_dimensions(&self.img);
        if x < w && y < h {
            image_put_pixel(&mut self.img, x, y, px);
            assert(self.pixels().dom() =~= grid(w, h));
        }
    }

    /// Sets `(x, y)` to `color`, and with `big` also `(x + 1, y)`, `(x, y + 1)` and
    /// `(x + 1, y + 1)`. Writes that fall off the grid are dropped.
    pub fn put(&mut self, x: u32, y: u32, color: Color, big: bool)
        requires
            old(self).wf(),
        ensures
            final(self).wf(),
            final(self).width() == old(self).width(),
            final(self).height() == old(self).height(),
            final(self).pixels() == drawn(old(self).pixels(), x, y, color, big),
    {
        let ghost before = self.pixels();
        let (w, h) = image_dimensions(&self.img);
        if x >= w || y >= h {
            assert(self.pixels() =~= drawn(before, x, y, color, big));
            return;
        }
        let px = color.into_rgba();
        self.put_checked(x, y, px);
        if big {
            self.put_checked(x + 1, y, px);
            self.put_checked(x, y + 1, px);
            self.put_checked(x + 1, y + 1, px);
        }
        assert(self.pixels() =~= drawn(before, x, y, color, big));
    }

    /// A copy of the canvas.
    pub fn snapshot(&self) -> (c: Canvas)
        requires
            self.wf(),
        ensures
            c.wf(),
            c.width() == self.width(),
            c.height() == self.height(),
            c.pixels() == self.pixels(),
    {
        Canvas { img: image_copy(&self.img) }
    }

    /// The canvas as a PNG file, compressed for speed; `None` if the encoder
    /// fails, which it does not for a canvas of 1 to 4096 pixels each way.
    pub fn encode_png(&self) -> (r: Option<Vec<u8>>)
        ensures
            r matches Some(bytes) ==> bytes@ == png_fast(self.pixels(), (self.width(), self.height())),
            png_encodable((self.width(), self.height())) ==> r is Some,
    {
        image_encode_png(&self.img)
    }

    /// The pixels as bytes, four to a pixel, row by row.
    pub fn into_raw(self) -> (raw: Vec<u8>)
        ensures
            raw@.len() >= self.width() as int * self.height() as int * 4,
            forall|p: (u32, u32)| #[trigger] grid(self.width(), self.height()).contains(p)
                ==> self.pixels()[p] == raw_pixel(raw@, self.width(), p),
    {
        image_into_raw(self.img)
    }
}

} // verus!
