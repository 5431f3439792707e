//! A width x height grid of pixels held as one flat, row-major byte buffer.

use vstd::prelude::*;
use crate::pixel::Pixel;

verus! {

/// Why an operation on an [`Image`] was refused.
#[derive(Clone, Copy, Debug, PartialEq, Eq, Structural)]
pub enum ImageError {
    /// The number of channels per pixel is neither 3 nor 4.
    InvalidConfiguration,
    /// A pixel coordinate lies outside the grid.
    OutOfBounds,
    /// The image could not be written out.
    IoError,
}

/// How the bytes of one pixel are laid out.
#[derive(Clone, Copy, Debug, PartialEq, Eq, Structural)]
pub enum ColorMode {
    /// Three bytes: red, green, blue.
    Rgb,
    /// Four bytes: red, green, blue, alpha.
    Rgba,
}

/// The alpha byte written with every pixel of a four-channel image.
pub const OPAQUE: u8 = 255;

/// What an [`Image`] is, mathematically: its dimensions, the number of bytes
/// per pixel and the bytes themselves, row by row from the top.
pub struct ImageView {
    pub width: nat,
    pub height: nat,
    pub channels: nat,
    pub bytes: Seq<u8>,
}

impl ImageView {
    /// The channel count is 3 or 4 and there is exactly one group of
    /// `channels` bytes for each pixel.
    pub open spec fn wf(self) -> bool {
        &&& (self.channels == 3 || self.channels == 4)
        &&& self.bytes.len() == self.width * self.height * self.channels
    }

    /// `(x, y)` names a pixel of the grid.
    pub open spec fn in_bounds(self, x: nat, y: nat) -> bool {
        x < self.width && y < self.height
    }

    /// The index of the first byte of pixel `(x, y)`.
    pub open spec fn offset(self, x: nat, y: nat) -> int {
        ((y * self.width + x) * self.channels) as int
    }

    /// The colour stored at `(x, y)`.
    pub open spec fn pixel_at(self, x: nat, y: nat) -> Pixel {
        let off = self.offset(x, y);
        Pixel { red: self.bytes[off], green: self.bytes[off + 1], blue: self.bytes[off + 2] }
    }

    /// The image with `pixel` stored at `(x, y)`: red, green and blue go to
    /// the first three bytes of the pixel, and a fourth byte, where there is
    /// one, becomes opaque. Every other byte is kept.
    pub open spec fn with_pixel(self, x: nat, y: nat, pixel: Pixel) -> ImageView {
        let off = self.offset(x, y);
        let rgb = self.bytes.update(off, pixel.red).update(off + 1, pixel.green).update(
            off + 2,
            pixel.blue,
        );
        ImageView {
            bytes: if self.channels == 4 {
                rgb.update(off + 3, OPAQUE)
            } else {
                rgb
            },
            ..self
        }
    }

    /// The image with the pixels of `row` stored in row `y`, from column 0
    /// on: `row[x]` at `(x, y)`.
    pub open spec fn with_row(self, y: nat, row: Seq<Pixel>) -> ImageView
        decreases row.len(),
    {
        if row.len() == 0 {
            self
        } else {
            self.with_row(y, row.drop_last()).with_pixel((row.len() - 1) as nat, y, row.last())
        }
    }

    /// The byte layout that goes with the channel count.
    pub open spec fn mode(self) -> ColorMode {
        if self.channels == 4 {
            ColorMode::Rgba
        } else {
            ColorMode::Rgb
        }
    }

    /// The image of the given shape whose bytes are all zero.
    pub open spec fn blank(width: nat, height: nat, channels: nat) -> ImageView {
        ImageView {
            width,
            height,
            channels,
            bytes: Seq::new(width * height * channels, |i: int| 0u8),
        }
    }
}

/// A raster image that owns its pixel bytes.
pub struct Image {
    data: Vec<u8>,
    channel_size: u8,
    width: u32,
    height: u32,
}

impl View for Image {
    type V = ImageView;

    closed spec fn view(&self) -> ImageView {
        ImageView {
            width: self.width as nat,
            height: self.height as nat,
            channels: self.channel_size as nat,
            bytes: self.data@,
        }
    }
}

/// The pixel groups of a grid fit into its buffer: the group of an in-bounds
/// pixel ends no later than the buffer does.
pub proof fn lemma_offset_in_buffer(w: nat, h: nat, c: nat, x: nat, y: nat)
    requires
        x < w,
        y < h,
    ensures
        0 <= (y * w + x) * c,
        (y * w + x) * c + c <= w * h * c,
{
    assert(y * w + x + 1 <= h * w) by (nonlinear_arith)
        requires
            x < w,
            y < h,
    ;
    assert((y * w + x) * c + c <= w * h * c) by (nonlinear_arith)
        requires
            y * w + x + 1 <= h * w,
    ;
    assert(0 <= (y * w + x) * c) by (nonlinear_arith);
}

/// Two different pixels of a grid have different indices, so their byte
/// groups lie at least one whole group apart.
pub proof fn lemma_offsets_apart(w: nat, c: nat, x1: nat, y1: nat, x2: nat, y2: nat)
    requires
        x1 < w,
        x2 < w,
        x1 != x2 || y1 != y2,
    ensures
        (y1 * w + x1) * c + c <= (y2 * w + x2) * c || (y2 * w + x2) * c + c <= (y1 * w + x1) * c,
{
    let i = y1 * w + x1;
    let j = y2 * w + x2;
    if y1 < y2 {
        assert(i < j) by (nonlinear_arith)
            requires
                i == y1 * w + x1,
                j == y2 * w + x2,
                x1 < w,
                y1 < y2,
        ;
    } else if y2 < y1 {
        assert(j < i) by (nonlinear_arith)
            requires
                i == y1 * w + x1,
                j == y2 * w + x2,
                x2 < w,
                y2 < y1,
        ;
    }
    if i < j {
        assert(i * c + c <= j * c) by (nonlinear_arith)
            requires
                i < j,
        ;
    } else {
        assert(j < i);
        assert(j * c + c <= i * c) by (nonlinear_arith)
            requires
                j < i,
        ;
    }
}

/// Storing a pixel keeps the image valid, and reading the same place
/// afterwards gives the pixel that was stored.
pub proof fn lemma_stored_pixel_is_read(img: ImageView, x: nat, y: nat, pixel: Pixel)
    requires
        img.wf(),
        img.in_bounds(x, y),
    ensures
        img.with_pixel(x, y, pixel).wf(),
        img.with_pixel(x, y, pixel).pixel_at(x, y) == pixel,
{
    lemma_offset_in_buffer(img.width, img.height, img.channels, x, y);
}

/// Storing a pixel changes no other pixel of the image: each pixel has bytes
/// of its own.
pub proof fn lemma_other_pixels_kept(
    img: ImageView,
    x: nat,
    y: nat,
    pixel: Pixel,
    x2: nat,
    y2: nat,
)
    requires
        img.wf(),
        img.in_bounds(x, y),
        img.in_bounds(x2, y2),
        x != x2 || y != y2,
    ensures
        img.with_pixel(x, y, pixel).pixel_at(x2, y2) == img.pixel_at(x2, y2),
{
    lemma_offset_in_buffer(img.width, img.height, img.channels, x, y);
    lemma_offset_in_buffer(img.width, img.height, img.channels, x2, y2);
    lemma_offsets_apart(img.width, img.channels, x, y, x2, y2);
}

/// Storing a row keeps the image valid and its shape; afterwards each pixel
/// of that row's written part is the pixel given for it, and every other
/// pixel of the image is what it was.
pub proof fn lemma_stored_row_is_read(img: ImageView, y: nat, row: Seq<Pixel>, x2: nat, y2: nat)
    requires
        img.wf(),
        y < img.height,
        row.len() <= img.width,
        img.in_bounds(x2, y2),
    ensures
        img.with_row(y, row).wf(),
        img.with_row(y, row).width == img.width,
        img.with_row(y, row).height == img.height,
        img.with_row(y, row).channels == img.channels,
        img.with_row(y, row).pixel_at(x2, y2) == if y2 == y && x2 < row.len() {
            row[x2 as int]
        } else {
            img.pixel_at(x2, y2)
        },
    decreases row.len(),
{
    if row.len() > 0 {
        let last = (row.len() - 1) as nat;
        let before = img.with_row(y, row.drop_last());
        lemma_stored_row_is_read(img, y, row.drop_last(), x2, y2);
        lemma_stored_pixel_is_read(before, last, y, row.last());
        if x2 != last || y2 != y {
            lemma_other_pixels_kept(before, last, y, row.last(), x2, y2);
        }
    }
}

/// Every pixel of a blank image is black.
pub proof fn lemma_blank_is_black(width: nat, height: nat, channels: nat, x: nat, y: nat)
    requires
        channels == 3 || channels == 4,
        x < width,
        y < height,
    ensures
        ImageView::blank(width, height, channels).wf(),
        ImageView::blank(width, height, channels).pixel_at(x, y) == (Pixel {
            red: 0,
            green: 0,
            blue: 0,
        }),
{
    lemma_offset_in_buffer(width, height, channels, x, y);
}

impl Image {
    /// The validity of an image: see [`ImageView::wf`].
    pub open spec fn wf(&self) -> bool {
        self@.wf()
    }

    /// Creates a `width` x `height` image with `channel_size` bytes per pixel,
    /// all of them zero. A `channel_size` other than 3 or 4 is refused.
    pub fn new(width: u32, height: u32, channel_size: u8) -> (res: Result<Image, ImageError>)
        requires
            channel_size == 3 || channel_size == 4 ==> width * height * channel_size <= usize::MAX,
        ensures
            match res {
                Ok(img) => {
                    &&& channel_size == 3 || channel_size == 4
                    &&& img.wf()
                    &&& img@ == ImageView::blank(width as nat, height as nat, channel_size as nat)
                },
                Err(e) => e == ImageError::InvalidConfiguration && channel_size != 3
                    && channel_size != 4,
            },
    {
        if channel_size != 3 && channel_size != 4 {
            return Err(ImageError::InvalidConfiguration);
        }
        proof {
            assert(width * height <= width * height * channel_size) by (nonlinear_arith)
                requires
                    channel_size >= 1,
            ;
        }
        let pixels: usize = width as usize * height as usize;
        let len: usize = pixels * channel_size as usize;
        let data: Vec<u8> = vec![0u8; len];
        let img = Image { data, channel_size, width, height };
        proof {
            assert(img@.bytes =~= ImageView::blank(
                width as nat,
                height as nat,
                channel_size as nat,
            ).bytes);
        }
        Ok(img)
    }

    pub fn width(&self) -> (w: u32)
        ensures
            w == self@.width,
    {
        self.width
    }

    pub fn height(&self) -> (h: u32)
        ensures
            h == self@.height,
    {
        self.height
    }

    pub fn channel_size(&self) -> (c: u8)
        ensures
            c == self@.channels,
    {
        self.channel_size
    }

    pub fn color_mode(&self) -> (m: ColorMode)
        ensures
            m == self@.mode(),
    {
        if self.channel_size == 4 {
            ColorMode::Rgba
        } else {
            ColorMode::Rgb
        }
    }

    /// The pixel bytes, row by row from the top.
    pub fn data(&self) -> (bytes: &Vec<u8>)
        ensures
            bytes@ == self@.bytes,
    {
        &self.data
    }

    /// Stores the pixels of `row` in row `y`, from the left edge on. A row
    /// index at or beyond the height, or more pixels than the image is wide,
    /// is refused and leaves the image as it was.
    pub fn set_row(&mut self, y: u32, row: &Vec<Pixel>) -> (res: Result<(), ImageError>)
        requires
            old(self).wf(),
        ensures
            final(self).wf(),
            match res {
                Ok(_) => {
                    &&& y < old(self)@.height
                    &&& row@.len() <= old(self)@.width
                    &&& final(self)@ == old(self)@.with_row(y as nat, row@)
                },
                Err(e) => {
                    &&& e == ImageError::OutOfBounds
                    &&& (y >= old(self)@.height || row@.len() > old(self)@.width)
                    &&& final(self)@ == old(self)@
                },
            },
    {
        if y >= self.height || row.len() > self.width as usize {
            return Err(ImageError::OutOfBounds);
        }
        let ghost before = self@;
        let mut x: u32 = 0;
        assert(row@.take(0) =~= Seq::<Pixel>::empty());
        while (x as usize) < row.len()
            invariant
                self.wf(),
                x <= row@.len() <= self@.width,
                y < self@.height,
                self@.width == before.width,
                self@.height == before.height,
                self@ == before.with_row(y as nat, row@.take(x as int)),
            decreases row@.len() - x,
        {
            let written = self.set_pixel(x, y, row[x as usize]);
            proof {
                assert(written is Ok);
                let next = row@.take(x + 1);
                assert(next.drop_last() =~= row@.take(x as int));
                assert(next.last() == row@[x as int]);
                assert(self@ == before.with_row(y as nat, next));
            }
            x = x + 1;
        }
        assert(row@.take(x as int) =~= row@);
        Ok(())
    }

    /// Stores `pixel` at column `x` of row `y`. Coordinates at or beyond the
    /// width or the height are refused and leave the image as it was.
    pub fn set_pixel(&mut self, x: u32, y: u32, pixel: Pixel) -> (res: Result<(), ImageError>)
        requires
            old(self).wf(),
        ensures
            final(self).wf(),
            match res {
                Ok(_) => {
                    &&& old(self)@.in_bounds(x as nat, y as nat)
                    &&& final(self)@ == old(self)@.with_pixel(x as nat, y as nat, pixel)
                },
                Err(e) => {
                    &&& e == ImageError::OutOfBounds
                    &&& !old(self)@.in_bounds(x as nat, y as nat)
                    &&& final(self)@ == old(self)@
                },
            },
    {
        if x >= self.width || y >= self.height {
            return Err(ImageError::OutOfBounds);
        }
        proof {
            let w = self.width as int;
            let h = self.height as int;
            let c = self.channel_size as int;
            let xi = x as int;
            let yi = y as int;
            lemma_offset_in_buffer(w as nat, h as nat, c as nat, xi as nat, yi as nat);
            assert(self.data@.len() == w * h * c);
            assert((yi * w + xi) * c + c <= w * h * c);
            assert(0 <= yi * w <= yi * w + xi <= (yi * w + xi) * c) by (nonlinear_arith)
                requires
                    c >= 1,
                    0 <= xi,
                    0 <= yi,
                    0 <= w,
            ;
            assert(self.data.len() <= usize::MAX);
        }
        let index: usize = y as usize * self.width as usize + x as usize;
        let off: usize = index * self.channel_size as usize;
        self.data.set(off, pixel.red);
        self.data.set(off + 1, pixel.green);
        self.data.set(off + 2, pixel.blue);
        if self.channel_size == 4 {
            self.data.set(off + 3, OPAQUE);
        }
        Ok(())
    }
}

} // verus!
