//! From a drawn picture to the grayscale image that the panel shows.
//!
//! The panel takes an eight-bit grayscale image. A picture comes either as
//! an encoded image in colour or as a buffer of four bytes per pixel that
//! is to be turned by a quarter on the way.

use vstd::prelude::*;
use vstd::arithmetic::div_mod::lemma_fundamental_div_mod_converse;

verus! {

/// The gray of a pixel: the mean of its red, green and blue, rounded down.
pub open spec fn gray_of(red: u8, green: u8, blue: u8) -> u8 {
    ((red + green + blue) / 3) as u8
}

/// The grays of the first `pixels` pixels of a buffer of three bytes per
/// pixel.
pub open spec fn gray_image(rgb: Seq<u8>, pixels: nat) -> Seq<u8> {
    Seq::new(pixels, |i: int| gray_of(rgb[3 * i], rgb[3 * i + 1], rgb[3 * i + 2]))
}

/// The grays of a picture of `width` by `height` pixels at four bytes per
/// pixel, row by row, turned by a quarter: the result has `height` pixels
/// to the row, and its rows run through the columns of the picture from the
/// last to the first.
pub open spec fn turned_gray_image(rgba: Seq<u8>, width: int, height: int) -> Seq<u8> {
    Seq::new(
        (width * height) as nat,
        |k: int|
            {
                let x = width - 1 - k / height;
                let y = k % height;
                let at = 4 * (x + y * width);
                gray_of(rgba[at], rgba[at + 1], rgba[at + 2])
            },
    )
}

/// What `png` decodes from an encoded image with its default settings: the
/// bytes of the first frame, row by row; None where it rejects the image.
pub uninterp spec fn png_pixels(encoded: Seq<u8>) -> Option<Seq<u8>>;

/// What `png` encodes, with its default settings, from an image of `width`
/// by `height` pixels whose colour type and bit depth have the given numbers
/// of the format; None where it refuses.
pub uninterp spec fn png_encoding(
    width: u32,
    height: u32,
    color: u8,
    depth: u8,
    pixels: Seq<u8>,
) -> Option<Seq<u8>>;

/// The number that the format has for the colour type of the panel's
/// image: grayscale.
pub const GRAYSCALE: u8 = 0;

/// The bit depth of the panel's image.
pub const EIGHT_BITS: u8 = 8;

/// The samples that a pixel has in the colour type of the given number, and
/// 0 for a number that is no colour type of the format.
pub open spec fn png_samples(color: u8) -> int {
    if color == 0 || color == 3 {
        1
    } else if color == 2 {
        3
    } else if color == 4 {
        2
    } else if color == 6 {
        4
    } else {
        0
    }
}

/// The bytes that an image of whole bytes to the sample takes.
pub open spec fn png_bytes(width: u32, height: u32, color: u8, depth: u8) -> int {
    width * height * png_samples(color) * (depth / 8)
}

/// What the decoder of `png` says of an image that it rejects.
#[verifier::external_type_specification]
#[verifier::external_body]
pub struct ExDecodingError(png::DecodingError);

/// What the encoder of `png` says of an image that it refuses.
#[verifier::external_type_specification]
#[verifier::external_body]
pub struct ExEncodingError(png::EncodingError);

/// Decodes an image with `png::Decoder::read_info` and
/// `png::Reader::next_frame`, into a buffer of the size that the decoder
/// asks for. The bytes that come out are a matter of the encoded bytes
/// alone and go by the name `png_pixels`; nothing more is claimed of them.
#[verifier::external_body]
fn decode_png(encoded: &Vec<u8>) -> (frame: Result<Vec<u8>, png::DecodingError>)
    ensures
        frame is Ok <==> png_pixels(encoded@) is Some,
        frame is Ok ==> png_pixels(encoded@) == Some(frame->Ok_0@),
{
    let (info, mut reader) = png::Decoder::new(encoded.as_slice()).read_info()?;
    let mut frame: Vec<u8> = vec![0; info.buffer_size()];
    reader.next_frame(&mut frame)?;
    Ok(frame)
}

/// Encodes an image with `png::Encoder` and `png::Writer::write_image_data`
/// into memory; colour type and bit depth are given by their numbers in the
/// format, which `png::ColorType::from_u8` and `png::BitDepth::from_u8`
/// turn into the encoder's own values. Only depths of whole bytes are
/// handed in. Without a palette, which is never set, the encoder refuses the
/// indexed colour type; it refuses an image without width or height and one
/// whose buffer is not of the size of the image, and nothing else. The bytes
/// that it writes are a matter of its input alone and go by the name
/// `png_encoding`.
#[verifier::external_body]
fn encode_png(width: u32, height: u32, color: u8, depth: u8, pixels: &Vec<u8>) -> (encoded: Result<
    Vec<u8>,
    png::EncodingError,
>)
    requires
        png_samples(color) > 0,
        depth == 8 || depth == 16,
        png_bytes(width, height, color, depth) < usize::MAX,
    ensures
        encoded is Ok <==> png_encoding(width, height, color, depth, pixels@) is Some,
        encoded is Ok ==> png_encoding(width, height, color, depth, pixels@) == Some(
            encoded->Ok_0@,
        ),
        encoded is Ok <==> (width > 0 && height > 0 && color != 3 && pixels.len() == png_bytes(
            width,
            height,
            color,
            depth,
        )),
{
    let mut encoded: Vec<u8> = Vec::new();
    {
        let mut encoder = png::Encoder::new(&mut encoded, width, height);
        encoder.set_color(png::ColorType::from_u8(color).unwrap());
        encoder.set_depth(png::BitDepth::from_u8(depth).unwrap());
        encoder.write_header()?.write_image_data(pixels)?;
    }
    Ok(encoded)
}

/// An image of one sample to the pixel and one byte to the sample takes
/// one byte for each pixel.
proof fn lemma_gray_bytes(width: u32, height: u32)
    ensures
        png_bytes(width, height, GRAYSCALE, EIGHT_BITS) == width * height,
{
    assert(width * height * 1 * 1 == width * height) by (nonlinear_arith);
}

/// Why a picture could not be made into an image for the panel.
#[derive(Clone, Copy, Debug, PartialEq, Eq, Structural)]
pub enum ImageError {
    /// The encoded picture cannot be decoded.
    Undecodable,
    /// The buffer does not hold the pixels of the picture.
    WrongSize,
    /// The picture has no width or no height.
    Empty,
}

/// The image of the encoded picture of a drawing surface of `width` by
/// `height` pixels: the grays of its first pixels, encoded. The picture
/// must decode and hold three bytes for each pixel, and have pixels at all.
pub open spec fn surface_image(surface: Seq<u8>, width: u32, height: u32) -> Result<
    Seq<u8>,
    ImageError,
> {
    match png_pixels(surface) {
        None => Err(ImageError::Undecodable),
        Some(frame) => if frame.len() < 3 * (width * height) {
            Err(ImageError::WrongSize)
        } else if width == 0 || height == 0 {
            Err(ImageError::Empty)
        } else {
            match png_encoding(
                width,
                height,
                GRAYSCALE,
                EIGHT_BITS,
                gray_image(frame, (width * height) as nat),
            ) {
                Some(encoded) => Ok(encoded),
                None => Err(ImageError::Empty),
            }
        },
    }
}

/// The image of a picture of `width` by `height` pixels at four bytes per
/// pixel: its grays, turned by a quarter and encoded. The picture must have
/// pixels, and the buffer must hold just these.
pub open spec fn turned_image(rgba: Seq<u8>, width: u32, height: u32) -> Result<
    Seq<u8>,
    ImageError,
> {
    if width == 0 || height == 0 {
        Err(ImageError::Empty)
    } else if rgba.len() / 4 != width * height {
        Err(ImageError::WrongSize)
    } else {
        match png_encoding(
            height,
            width,
            GRAYSCALE,
            EIGHT_BITS,
            turned_gray_image(rgba, width as int, height as int),
        ) {
            Some(encoded) => Ok(encoded),
            None => Err(ImageError::Empty),
        }
    }
}

fn gray(red: u8, green: u8, blue: u8) -> (r: u8)
    ensures
        r == gray_of(red, green, blue),
{
    ((red as u16 + green as u16 + blue as u16) / 3) as u8
}

/// The grayscale image of the first `pixels` pixels of a buffer of three
/// bytes per pixel.
pub fn grayscale(rgb: &Vec<u8>, pixels: usize) -> (image: Vec<u8>)
    requires
        3 * pixels <= rgb.len(),
    ensures
        image@ == gray_image(rgb@, pixels as nat),
{
    let mut image: Vec<u8> = Vec::new();
    let mut i: usize = 0;
    while i < pixels
        invariant
            i <= pixels,
            3 * pixels <= rgb.len(),
            image@ == gray_image(rgb@, i as nat),
        decreases pixels - i,
    {
        image.push(gray(rgb[3 * i], rgb[3 * i + 1], rgb[3 * i + 2]));
        i = i + 1;
        assert(image@ =~= gray_image(rgb@, i as nat));
    }
    image
}

/// The grayscale image of a picture of `width` by `height` pixels at four
/// bytes per pixel, turned by a quarter.
pub fn turned_grayscale(rgba: &Vec<u8>, width: usize, height: usize) -> (image: Vec<u8>)
    requires
        4 * (width * height) <= rgba.len(),
    ensures
        image@ == turned_gray_image(rgba@, width as int, height as int),
{
    let mut image: Vec<u8> = Vec::new();
    if width == 0 || height == 0 {
        assert(width * height == 0) by (nonlinear_arith)
            requires
                width == 0 || height == 0,
        ;
        assert(image@ =~= turned_gray_image(rgba@, width as int, height as int));
        return image;
    }
    assert(width * height <= rgba.len());
    let pixels: usize = width * height;
    let mut k: usize = 0;
    while k < pixels
        invariant
            k <= pixels,
            pixels == width * height,
            width > 0,
            height > 0,
            4 * pixels <= rgba.len(),
            image@.len() == k,
            forall|j: int|
                0 <= j < k ==> image@[j] == turned_gray_image(
                    rgba@,
                    width as int,
                    height as int,
                )[j],
        decreases pixels - k,
    {
        let column: usize = k / height;
        let y: usize = k % height;
        assert(column < width && y + (width - 1 - column) * height < pixels && (width - 1 - column)
            + y * width < pixels) by (nonlinear_arith)
            requires
                column == (k as int) / (height as int),
                y == (k as int) % (height as int),
                k < width * height,
                pixels == width * height,
                height > 0,
        ;
        let x: usize = width - 1 - column;
        assert(y * width <= pixels) by (nonlinear_arith)
            requires
                y < height,
                pixels == width * height,
        ;
        let at: usize = 4 * (x + y * width);
        image.push(gray(rgba[at], rgba[at + 1], rgba[at + 2]));
        k = k + 1;
    }
    assert(image@ =~= turned_gray_image(rgba@, width as int, height as int));
    image
}

/// The turn is a quarter turn: the pixel in column `x` of row `y` of the
/// picture comes to stand in column `y` of row `width - 1 - x` of the image.
pub proof fn lemma_quarter_turn(rgba: Seq<u8>, width: int, height: int, x: int, y: int)
    requires
        0 <= x < width,
        0 <= y < height,
    ensures
        0 <= (width - 1 - x) * height + y < width * height,
        turned_gray_image(rgba, width, height)[(width - 1 - x) * height + y] == gray_of(
            rgba[4 * (x + y * width)],
            rgba[4 * (x + y * width) + 1],
            rgba[4 * (x + y * width) + 2],
        ),
{
    let row: int = width - 1 - x;
    let k: int = row * height + y;
    assert(0 <= k < width * height) by (nonlinear_arith)
        requires
            k == row * height + y,
            0 <= row < width,
            0 <= y < height,
    ;
    assert(k == height * row + y) by (nonlinear_arith)
        requires
            k == row * height + y,
    ;
    lemma_fundamental_div_mod_converse(k, height, row, y);
}

/// Turns the encoded picture of a drawing surface of `width` by `height`
/// pixels into the encoded grayscale image of the same size.
pub fn write_surface_to_png(surface: &Vec<u8>, width: u32, height: u32) -> (encoded: Result<
    Vec<u8>,
    ImageError,
>)
    ensures
        match encoded {
            Ok(bytes) => surface_image(surface@, width, height) == Ok::<Seq<u8>, ImageError>(
                bytes@,
            ),
            Err(error) => surface_image(surface@, width, height) == Err::<Seq<u8>, ImageError>(
                error,
            ),
        },
        encoded is Ok <==> width > 0 && height > 0 && png_pixels(surface@) is Some
            && png_pixels(surface@)->0.len() >= 3 * (width * height),
{
    let frame: Vec<u8> = match decode_png(surface) {
        Ok(frame) => frame,
        Err(_) => {
            return Err(ImageError::Undecodable);
        },
    };
    let held: usize = frame.len();
    let pixels: usize = match pixel_count(width, height) {
        Some(pixels) => pixels,
        None => {
            return Err(ImageError::WrongSize);
        },
    };
    if pixels > held / 3 {
        return Err(ImageError::WrongSize);
    }
    let image: Vec<u8> = grayscale(&frame, pixels);
    proof {
        lemma_gray_bytes(width, height);
    }
    match encode_png(width, height, GRAYSCALE, EIGHT_BITS, &image) {
        Ok(encoded) => Ok(encoded),
        Err(_) => Err(ImageError::Empty),
    }
}

/// Turns a picture of `width` by `height` pixels at four bytes per pixel by
/// a quarter and encodes it as a grayscale image, which has `height` pixels
/// to the row.
pub fn image_into_png(rgba: &Vec<u8>, width: u32, height: u32) -> (encoded: Result<
    Vec<u8>,
    ImageError,
>)
    ensures
        match encoded {
            Ok(bytes) => turned_image(rgba@, width, height) == Ok::<Seq<u8>, ImageError>(bytes@),
            Err(error) => turned_image(rgba@, width, height) == Err::<Seq<u8>, ImageError>(
                error,
            ),
        },
        encoded is Ok <==> width > 0 && height > 0 && rgba.len() / 4 == width * height,
{
    if width == 0 || height == 0 {
        return Err(ImageError::Empty);
    }
    let pixels: usize = match pixel_count(width, height) {
        Some(pixels) => pixels,
        None => {
            return Err(ImageError::WrongSize);
        },
    };
    if pixels != rgba.len() / 4 {
        return Err(ImageError::WrongSize);
    }
    let image: Vec<u8> = turned_grayscale(rgba, width as usize, height as usize);
    proof {
        assert(height * width == width * height) by (nonlinear_arith);
        lemma_gray_bytes(height, width);
    }
    match encode_png(height, width, GRAYSCALE, EIGHT_BITS, &image) {
        Ok(encoded) => Ok(encoded),
        Err(_) => Err(ImageError::Empty),
    }
}

/// The number of pixels of a picture, where a buffer of that many pixels
/// can exist at all.
fn pixel_count(width: u32, height: u32) -> (pixels: Option<usize>)
    ensures
        pixels is Some <==> width * height <= usize::MAX,
        pixels is Some ==> pixels->0 == width * height,
{
    (width as usize).checked_mul(height as usize)
}

} // verus!
