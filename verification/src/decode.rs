//! From the bytes of an image file to its pixels.

use vstd::prelude::*;
use vstd::utf8::{decode_utf8, valid_utf8};

use crate::path::{
    extension, law_extension_follows_the_last_dot, law_other_paths_have_no_extension, FilePath, Part,
};

verus! {

/// `image::ImageError`, the reason why an image could not be decoded. Only carried along.
#[verifier::external_type_specification]
#[verifier::external_body]
pub struct ExImageError(image::ImageError);

/// An image with four bytes for each pixel: red, green, blue and alpha, row by row from the top.
#[derive(Debug)]
pub struct RgbaImage {
    pub width: u32,
    pub height: u32,
    pub pixels: Vec<u8>,
}

impl RgbaImage {
    /// Every pixel has its four bytes, and nothing else is there.
    pub open spec fn wf(&self) -> bool {
        self.pixels@.len() == 4 * self.width * self.height
    }
}

/// Why there are no pixels.
#[derive(Debug)]
pub enum DecodeError {
    /// The file's name has no extension, or an empty one, so nothing says what format it has.
    UndeterminedFormat,
    /// The extension, which is not even text, is not that of a format.
    UnrecognizedExtension(Vec<u8>),
    /// The extension is not that of a format, or the content could not be decoded in its format.
    Undecodable(image::ImageError),
}

/// What `image` makes of the content of a file whose name ends in `extension`: the width, the
/// height and the pixels, or nothing where it refuses the content or does not know the extension.
pub uninterp spec fn decoded_rgba(content: Seq<u8>, extension: Seq<char>) -> Option<
    (u32, u32, Seq<u8>),
>;

/// `std::str::from_utf8`: bytes are text if and only if they are valid UTF-8, and the text is then
/// what they encode.
#[verifier::external_body]
fn utf8_text(bytes: &Vec<u8>) -> (text: Option<&str>)
    ensures
        text is Some <==> valid_utf8(bytes@),
        text is Some ==> text->0@ == decode_utf8(bytes@),
{
    std::str::from_utf8(bytes).ok()
}

/// `image::ImageReader::decode` on the content of a file, in the format that
/// `image::ImageFormat::from_extension` finds for the extension, and then
/// `image::DynamicImage::to_rgba8`. What comes out depends on the content and the extension alone;
/// the buffer holds exactly four bytes for each pixel. An extension without a format is an error
/// like a content that cannot be decoded.
#[verifier::external_body]
fn decode_rgba(content: &Vec<u8>, extension: &str) -> (decoded: Result<
    (u32, u32, Vec<u8>),
    image::ImageError,
>)
    ensures
        decoded is Ok <==> decoded_rgba(content@, extension@) is Some,
        decoded is Ok ==> decoded_rgba(content@, extension@) == Some(
            (decoded->Ok_0.0, decoded->Ok_0.1, decoded->Ok_0.2@),
        ),
        decoded is Ok ==> decoded->Ok_0.2@.len() == 4 * decoded->Ok_0.0 * decoded->Ok_0.1,
{
    let hint = image::error::ImageFormatHint::PathExtension(extension.into());
    let format = image::ImageFormat::from_extension(extension).ok_or(
        image::ImageError::Unsupported(hint.into()),
    )?;
    let reader = image::ImageReader::with_format(std::io::Cursor::new(content), format);
    let picture = reader.decode()?.to_rgba8();
    Ok((picture.width(), picture.height(), picture.into_raw()))
}

/// What the file at `path` with this content decodes to. Without an extension there is no format,
/// and an empty one or one that is not text is that of none.
pub open spec fn decoded_file(path: Seq<Part>, content: Seq<u8>) -> Option<(u32, u32, Seq<u8>)> {
    match extension(path) {
        Some(text) if text.len() > 0 && valid_utf8(text) => {
            decoded_rgba(content, decode_utf8(text))
        },
        _ => None,
    }
}

/// Nothing says what format the file has.
pub open spec fn is_undetermined(path: Seq<Part>) -> bool {
    match extension(path) {
        Some(text) => text.len() == 0,
        None => true,
    }
}

/// Decodes the content of the file at `path`. The format is the one that the extension of the
/// path stands for, whatever the content looks like.
pub fn decode_image(path: &FilePath, content: &Vec<u8>) -> (decoded: Result<RgbaImage, DecodeError>)
    ensures
        decoded is Ok <==> decoded_file(path@, content@) is Some,
        decoded is Ok ==> decoded->Ok_0.wf() && decoded_file(path@, content@) == Some(
            (decoded->Ok_0.width, decoded->Ok_0.height, decoded->Ok_0.pixels@),
        ),
        decoded matches Err(error) ==> match error {
            DecodeError::UndeterminedFormat => is_undetermined(path@),
            DecodeError::UnrecognizedExtension(text) => {
                &&& !is_undetermined(path@)
                &&& extension(path@) == Some(text@)
                &&& !valid_utf8(text@)
            },
            DecodeError::Undecodable(_) => {
                &&& !is_undetermined(path@)
                &&& valid_utf8(extension(path@)->0)
            },
        },
{
    let text: Vec<u8> = match path.extension() {
        Some(text) => text,
        None => return Err(DecodeError::UndeterminedFormat),
    };
    if text.is_empty() {
        return Err(DecodeError::UndeterminedFormat);
    }
    let decoded: Result<(u32, u32, Vec<u8>), image::ImageError> = match utf8_text(&text) {
        Some(name) => decode_rgba(content, name),
        None => return Err(DecodeError::UnrecognizedExtension(text)),
    };
    match decoded {
        Ok((width, height, pixels)) => Ok(RgbaImage { width, height, pixels }),
        Err(error) => Err(DecodeError::Undecodable(error)),
    }
}

/// The extension decides the format, and nothing else of the path does: a file with an extension that
/// is text decodes to what its content is in that format, whatever it is called and wherever it lies.
pub proof fn law_extension_decides_the_format(
    dir: Seq<Part>,
    stem: Seq<u8>,
    text: Seq<u8>,
    content: Seq<u8>,
)
    requires
        stem.len() > 0,
        forall|j: int| 0 <= j < text.len() ==> text[j] != 46,
    ensures
        ({
            let path = dir.push(Part::Normal(stem + seq![46u8] + text));
            &&& text.len() > 0 && valid_utf8(text) ==> decoded_file(path, content) == decoded_rgba(
                content,
                decode_utf8(text),
            )
            &&& text.len() == 0 || !valid_utf8(text) ==> decoded_file(path, content) is None
            &&& is_undetermined(path) <==> text.len() == 0
        }),
{
    law_extension_follows_the_last_dot(dir, stem, text);
}

/// A file without an extension is not decoded, whatever it holds, because nothing says what format it
/// has.
pub proof fn law_no_format_without_extension(
    dir: Seq<Part>,
    name: Seq<u8>,
    part: Part,
    content: Seq<u8>,
)
    requires
        forall|j: int| 0 < j < name.len() ==> name[j] != 46,
        !(part is Normal),
    ensures
        decoded_file(dir.push(Part::Normal(name)), content) is None,
        is_undetermined(dir.push(Part::Normal(name))),
        decoded_file(dir.push(part), content) is None,
        is_undetermined(dir.push(part)),
{
    law_other_paths_have_no_extension(dir, name, part);
}

} // verus!
