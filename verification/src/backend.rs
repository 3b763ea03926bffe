//! The rendering backends: `rascii_art`, which draws a picture in ASCII, and
//! `termimage`, which draws it in ANSI true colour.
//!
//! Nothing here is proved about what the backends draw. What a call returns
//! is stated as a function of its arguments, and the rest of the library is
//! verified against that.
use crate::config_handler::RenderOptions;
use vstd::prelude::*;

verus! {

/// A decoded picture: `width` by `height` pixels of four 8-bit samples (red,
/// green, blue, alpha), row by row from the top left.
#[derive(Debug)]
pub struct Raster {
    width: u32,
    height: u32,
    pixels: Vec<u8>,
}

/// What a `Raster` holds, as mathematics.
pub struct Picture {
    pub width: u32,
    pub height: u32,
    pub pixels: Seq<u8>,
}

impl View for Raster {
    type V = Picture;

    closed spec fn view(&self) -> Picture {
        Picture { width: self.width, height: self.height, pixels: self.pixels@ }
    }
}

impl Raster {
    #[verifier::type_invariant]
    spec fn has_all_samples(self) -> bool {
        self.pixels@.len() == 4 * self.width * self.height
    }

    /// The picture of the given size whose samples are `pixels`, if there are
    /// exactly four for each pixel.
    pub fn new(width: u32, height: u32, pixels: Vec<u8>) -> (out: Option<Raster>)
        ensures
            out is Some <==> pixels@.len() == 4 * width * height,
            out matches Some(raster) ==> raster@ == (Picture { width, height, pixels: pixels@ }),
    {
        assert(width * height <= 0xFFFF_FFFF * 0xFFFF_FFFF) by (nonlinear_arith)
            requires
                width <= 0xFFFF_FFFF,
                height <= 0xFFFF_FFFF,
        ;
        assert(4 * width * height == 4 * (width * height)) by (nonlinear_arith);
        let pixel_count: u64 = (width as u64) * (height as u64);
        let samples: u128 = 4 * (pixel_count as u128);
        if pixels.len() as u128 == samples {
            Some(Raster { width, height, pixels })
        } else {
            None
        }
    }

    /// Width in pixels.
    pub fn width(&self) -> (width: u32)
        ensures
            width == self@.width,
    {
        self.width
    }

    /// Height in pixels.
    pub fn height(&self) -> (height: u32)
        ensures
            height == self@.height,
    {
        self.height
    }

    /// The samples, four for each pixel.
    pub fn pixels(&self) -> (pixels: &Vec<u8>)
        ensures
            pixels@ == self@.pixels,
            pixels@.len() == 4 * self@.width * self@.height,
    {
        proof {
            use_type_invariant(self);
        }
        &self.pixels
    }
}

/// The side that a request fixes, or the largest that the backend may derive
/// for one that it leaves open.
pub open spec fn side_bound(side: Option<u32>) -> nat {
    match side {
        Some(length) => length as nat,
        None => u32::MAX as nat,
    }
}

/// The most pixels that the ASCII backend may average into one character. It
/// adds their 8-bit samples up in 32 bits and rounds; with no more pixels than
/// this the sum cannot overflow.
pub const MAX_BLOCK: u32 = 0x00FF_FFFF;

/// Sides below this many pixels are scaled by the backend in numbers that are
/// exact to within a pixel.
pub const EXACT_SIDE: u32 = 0x0080_0000;

/// How far the run of pixels that goes into one character may exceed the
/// side divided by the number of characters, through rounding.
pub const BLOCK_SLACK: u32 = 4;

/// The most pixels along one side of the picture that the backend averages
/// into one character, for a side of `side` pixels drawn in `cells`
/// characters. No character means no pixels. The run is never longer than
/// the side; for a side below `EXACT_SIDE` it is also at most `side / cells`
/// and `BLOCK_SLACK` more. Where the number of characters is left to the
/// backend, the whole side is allowed for.
pub open spec fn block_side(side: u32, cells: Option<u32>) -> nat {
    match cells {
        Some(cells) => if cells == 0 {
            0
        } else if side < EXACT_SIDE && side / cells + BLOCK_SLACK < side {
            (side / cells + BLOCK_SLACK) as nat
        } else {
            side as nat
        },
        None => side as nat,
    }
}

/// Whether the ASCII backend can serve `options` for `picture` on this
/// machine: a side is fixed, no character takes more than `MAX_BLOCK` pixels,
/// and the scaled picture's samples can be counted and addressed whatever the
/// backend derives for a side that is left open.
pub open spec fn can_render(picture: Picture, options: RenderOptions) -> bool {
    &&& options.width is Some || options.height is Some
    &&& block_side(picture.width, options.width) * block_side(picture.height, options.height)
        <= MAX_BLOCK
    &&& 4 * side_bound(options.width) * side_bound(options.height) <= isize::MAX
}

/// The bytes that `rascii_art::render_image` writes for a picture of 8-bit
/// RGBA samples and a request for `columns` by `rows` characters from its
/// default character set, not inverted; `None` where it reports an error.
pub uninterp spec fn ascii_art(
    width: u32,
    height: u32,
    pixels: Seq<u8>,
    columns: Option<u32>,
    rows: Option<u32>,
    colored: bool,
) -> Option<Seq<u8>>;

/// The size that `termimage::ops::image_resized_size` gives for an image of
/// `width` by `height` pixels and a terminal of `columns` by `rows` cells when
/// it is to keep the image's proportions.
pub uninterp spec fn fitted_size(width: u32, height: u32, columns: u32, rows: u32) -> (u32, u32);

/// What the ASCII backend gives for `picture` and `options`: the bytes it
/// writes, or `None` where it cannot serve the request or reports an error.
pub open spec fn ascii_rendering(picture: Picture, options: RenderOptions) -> Option<Seq<u8>> {
    if can_render(picture, options) {
        ascii_art(
            picture.width,
            picture.height,
            picture.pixels,
            options.width,
            options.height,
            options.colored,
        )
    } else {
        None
    }
}

/// The bytes of a buffer that may be absent.
pub open spec fn bytes_of(buffer: Option<Vec<u8>>) -> Option<Seq<u8>> {
    match buffer {
        Some(bytes) => Some(bytes@),
        None => None,
    }
}

/// `image::ImageError`, the error of `rascii_art::render_image`. Nothing is
/// known of what it holds; it is only told apart from success.
#[verifier::external_type_specification]
#[verifier::external_body]
pub struct ExImageError(image::ImageError);

/// Calls `rascii_art::render_image` on the picture, with a byte buffer to
/// write to and the request's width, height and colour in otherwise default
/// options. The contract claims only that what comes back is a function of the
/// picture and the request. The backend panics where the request fixes neither
/// side, where the scaled picture has more samples than a buffer can hold, and,
/// in a build that checks arithmetic, where the 32-bit sum of the samples that
/// it averages into one character overflows; `requires` leaves all three out,
/// and asks for the four samples to a pixel without which the picture cannot
/// be handed over. The pixels of one character lie between two rounded
/// multiples of the side divided by the number of characters, computed in
/// 32-bit floating point; `block_side` bounds how many they are. Whether the
/// machine has the memory for the scaled picture is not part of the contract.
#[verifier::external_body]
fn render_ascii(picture: &Raster, options: &RenderOptions) -> (out: Result<
    Vec<u8>,
    image::ImageError,
>)
    requires
        picture@.pixels.len() == 4 * picture@.width * picture@.height,
        can_render(picture@, *options),
    ensures
        match out {
            Ok(bytes) => ascii_art(
                picture@.width,
                picture@.height,
                picture@.pixels,
                options.width,
                options.height,
                options.colored,
            ) == Some(bytes@),
            Err(_) => ascii_art(
                picture@.width,
                picture@.height,
                picture@.pixels,
                options.width,
                options.height,
                options.colored,
            ) is None,
        },
{
    let samples = image::RgbaImage::from_raw(picture.width, picture.height, picture.pixels.clone());
    let image = image::DynamicImage::ImageRgba8(samples.unwrap());
    let mut request = rascii_art::RenderOptions::new();
    request.width = options.width;
    request.height = options.height;
    request.colored = options.colored;
    let mut buffer: Vec<u8> = Vec::new();
    match rascii_art::render_image(&image, &mut buffer, &request) {
        Ok(()) => Ok(buffer),
        Err(error) => Err(error),
    }
}

/// Calls `termimage::ops::image_resized_size`. Without `preserve_aspect` the
/// result is the terminal's width and twice its height, two pixels to a cell;
/// with it the contract claims only that the result is a function of the two
/// sizes. `image_resized_size` doubles the terminal's height in `u32`, so
/// `requires` leaves out a height whose double does not fit.
#[verifier::external_body]
fn resized_size(image: (u32, u32), terminal: (u32, u32), preserve_aspect: bool) -> (out: (
    u32,
    u32,
))
    requires
        terminal.1 * 2 <= u32::MAX,
    ensures
        preserve_aspect ==> out == fitted_size(image.0, image.1, terminal.0, terminal.1),
        !preserve_aspect ==> out.0 == terminal.0 && out.1 == terminal.1 * 2,
{
    termimage::ops::image_resized_size(image, terminal, preserve_aspect)
}

/// The most pixels along one side of the picture that go into one
/// character, for a side of `side` pixels drawn in `cells` characters.
pub fn block_side_of(side: u32, cells: Option<u32>) -> (out: u32)
    ensures
        out == block_side(side, cells),
{
    match cells {
        Some(cells) => if cells == 0 {
            0
        } else if side < EXACT_SIDE && side / cells + BLOCK_SLACK < side {
            side / cells + BLOCK_SLACK
        } else {
            side
        },
        None => side,
    }
}

/// Whether the ASCII backend can serve `options` for `picture`.
pub fn is_renderable(picture: &Raster, options: &RenderOptions) -> (yes: bool)
    ensures
        yes == can_render(picture@, *options),
{
    let across = block_side_of(picture.width, options.width);
    let down = block_side_of(picture.height, options.height);
    assert(across * down <= 0xFFFF_FFFF * 0xFFFF_FFFF) by (nonlinear_arith)
        requires
            across <= 0xFFFF_FFFF,
            down <= 0xFFFF_FFFF,
    ;
    let block: u64 = (across as u64) * (down as u64);
    let width: u128 = match options.width {
        Some(width) => width as u128,
        None => u32::MAX as u128,
    };
    let height: u128 = match options.height {
        Some(height) => height as u128,
        None => u32::MAX as u128,
    };
    assert(4 * width * height <= 4 * 0xFFFF_FFFF * 0xFFFF_FFFF) by (nonlinear_arith)
        requires
            width <= 0xFFFF_FFFF,
            height <= 0xFFFF_FFFF,
    ;
    let samples: u128 = 4 * width * height;
    (options.width.is_some() || options.height.is_some()) && block <= MAX_BLOCK as u64 && samples
        <= isize::MAX as u128
}

/// Renders `picture` as ASCII art: the bytes that the backend writes, or
/// `None` where it cannot serve the request or reports an error.
pub fn ascii_art_of(picture: &Raster, options: &RenderOptions) -> (out: Option<Vec<u8>>)
    ensures
        bytes_of(out) == ascii_rendering(picture@, *options),
{
    if !is_renderable(picture, options) {
        return None;
    }
    proof {
        use_type_invariant(picture);
    }
    match render_ascii(picture, options) {
        Ok(bytes) => Some(bytes),
        Err(_) => None,
    }
}

/// The size in pixels to scale an image of `image` pixels to, so that it
/// fills a terminal of `columns` by `rows` cells as far as its proportions
/// allow; `None` where twice `rows` is more than a `u32` holds.
pub fn fit_to_terminal(image: (u32, u32), columns: u32, rows: u32) -> (out: Option<(u32, u32)>)
    ensures
        out == (if rows * 2 <= u32::MAX {
            Some(fitted_size(image.0, image.1, columns, rows))
        } else {
            None
        }),
{
    if rows > u32::MAX / 2 {
        None
    } else {
        Some(resized_size(image, (columns, rows), true))
    }
}

} // verus!
