//! The image file: a frame as a PNG.
use vstd::prelude::*;

verus! {

/// The error of the PNG encoder. Nothing of what is inside is known here.
#[verifier::external_type_specification]
#[verifier::external_body]
pub struct ExEncodingError(png::EncodingError);

/// The step at which an image could not be written.
#[derive(Clone, Copy, Debug, PartialEq, Eq, Structural)]
pub enum ImageError {
    Header,
    Data,
}

/// The PNG file that the encoder makes of `width` x `height` pixels of 8-bit RGBA, if it accepts
/// the image data.
pub uninterp spec fn png_file(width: u32, height: u32, rgba: Seq<u8>) -> Option<Seq<u8>>;

/// The four bytes of `n`, the highest first.
pub open spec fn big_endian(n: u32) -> Seq<u8> {
    seq![
        (n / 0x100_0000) as u8,
        (n / 0x1_0000 % 0x100) as u8,
        (n / 0x100 % 0x100) as u8,
        (n % 0x100) as u8,
    ]
}

/// The first bytes of a PNG file of 8-bit RGBA: the signature, and of the header chunk its
/// length, its name, the size of the image, the bit depth and the colour type.
pub open spec fn png_start(width: u32, height: u32) -> Seq<u8> {
    seq![137u8, 80, 78, 71, 13, 10, 26, 10, 0, 0, 0, 13, 73, 72, 68, 82] + big_endian(width)
        + big_endian(height) + seq![8u8, 6]
}

/// `png::Encoder`, set to RGBA with eight bits per channel, writing into memory: `write_header`,
/// then `write_image_data`, then the drop of the `png::Writer`, which ends the file. The outer
/// result is that of `write_header`, the inner one that of `write_image_data`.
///
/// The header is refused exactly for a size with a zero, and the data exactly where its length is
/// not that of the image: compression and file stay in memory, where no write fails. What is
/// written goes by the name [`png_file`]; of its bytes only the first ones are stated.
///
/// The encoder multiplies the length of a row by the height in a `usize`, so the product has to
/// fit.
#[verifier::external_body]
fn encode_png(width: u32, height: u32, rgba: &Vec<u8>) -> (file: Result<
    Result<Vec<u8>, png::EncodingError>,
    png::EncodingError,
>)
    requires
        4 * width * height <= usize::MAX,
    ensures
        file is Err <==> width == 0 || height == 0,
        file matches Ok(Ok(_)) ==> rgba@.len() == 4 * width * height,
        file matches Ok(Err(_)) ==> rgba@.len() != 4 * width * height,
        file matches Ok(Err(_)) ==> png_file(width, height, rgba@) is None,
        file matches Ok(Ok(bytes)) ==> png_file(width, height, rgba@) == Some(bytes@),
        file matches Ok(Ok(bytes)) ==> png_start(width, height).is_prefix_of(bytes@),
{
    let mut file: Vec<u8> = Vec::new();
    let mut encoder = png::Encoder::new(&mut file, width, height);
    encoder.set_color(png::ColorType::Rgba);
    encoder.set_depth(png::BitDepth::Eight);
    let written = encoder.write_header().map(|mut writer| writer.write_image_data(rgba));
    written.map(|data| data.map(|()| file))
}

/// What becomes of an image: its file, or the step at which it was refused.
pub open spec fn encoded(width: u32, height: u32, rgba: Seq<u8>) -> Result<Seq<u8>, ImageError> {
    if width == 0 || height == 0 {
        Err(ImageError::Header)
    } else {
        match png_file(width, height, rgba) {
            Some(bytes) => Ok(bytes),
            None => Err(ImageError::Data),
        }
    }
}

/// The image as a PNG file.
pub fn encode_image(width: u32, height: u32, rgba: &Vec<u8>) -> (file: Result<Vec<u8>, ImageError>)
    requires
        4 * width * height <= usize::MAX,
    ensures
        (match file {
            Ok(bytes) => Ok(bytes@),
            Err(step) => Err::<Seq<u8>, ImageError>(step),
        }) == encoded(width, height, rgba@),
        file is Ok <==> width > 0 && height > 0 && rgba@.len() == 4 * width * height,
        file matches Ok(bytes) ==> png_file(width, height, rgba@) == Some(bytes@),
        width == 0 || height == 0 <==> file == Err::<Vec<u8>, ImageError>(ImageError::Header),
        width > 0 && height > 0 && rgba@.len() != 4 * width * height ==> file == Err::<
            Vec<u8>,
            ImageError,
        >(ImageError::Data),
        file matches Ok(bytes) ==> png_start(width, height).is_prefix_of(bytes@),
{
    match encode_png(width, height, rgba) {
        Ok(Ok(bytes)) => Ok(bytes),
        Ok(Err(_)) => Err(ImageError::Data),
        Err(_) => Err(ImageError::Header),
    }
}

/// The file of an image with a size is the one that the encoder makes of exactly its bytes, at
/// exactly its size; without such a file the data is what was refused, and without a size the
/// header.
pub proof fn law_encoded_is_png_of_the_bytes(
    width: u32,
    height: u32,
    rgba: Seq<u8>,
    bytes: Seq<u8>,
)
    ensures
        width > 0 && height > 0 ==> (encoded(width, height, rgba) == Ok::<Seq<u8>, ImageError>(
            bytes,
        ) <==> png_file(width, height, rgba) == Some(bytes)),
        width > 0 && height > 0 ==> (encoded(width, height, rgba) == Err::<Seq<u8>, ImageError>(
            ImageError::Data,
        ) <==> png_file(width, height, rgba) is None),
        encoded(width, height, rgba) == Err::<Seq<u8>, ImageError>(ImageError::Header) <==> width
            == 0 || height == 0,
{
}

/// The first bytes of a file say what it is: the signature, a header chunk of thirteen bytes, the
/// width and the height with the highest byte first, eight bits, and the colour type of RGBA.
pub proof fn law_png_start(width: u32, height: u32)
    ensures
        ({
            let start = png_start(width, height);
            &&& start.len() == 26
            &&& start.take(16) == seq![
                137u8, 80, 78, 71, 13, 10, 26, 10, 0, 0, 0, 13, 73, 72, 68, 82,
            ]
            &&& 0x100_0000 * start[16] + 0x1_0000 * start[17] + 0x100 * start[18] + start[19]
                == width
            &&& 0x100_0000 * start[20] + 0x1_0000 * start[21] + 0x100 * start[22] + start[23]
                == height
            &&& start[24] == 8
            &&& start[25] == 6
        }),
{
    assert(png_start(width, height).take(16) =~= seq![
        137u8, 80, 78, 71, 13, 10, 26, 10, 0, 0, 0, 13, 73, 72, 68, 82,
    ]);
}

} // verus!
