//! Bounded PNG images: application icons and launcher backgrounds.

use crate::framebuffer::Rgb8Pixel;
use crate::text::push_decimal;
use vstd::prelude::*;

verus! {

/// The largest icon file.
pub const MAX_APPLICATION_ICON_BYTES: u64 = 1_048_576;

/// The smallest edge of an icon.
pub const MIN_APPLICATION_ICON_EDGE: u32 = 64;

/// The largest edge of an icon.
pub const MAX_APPLICATION_ICON_EDGE: u32 = 512;

/// Width of the compact background that is scaled to the launcher surface.
pub const JACQUARD_WIDTH: u32 = 632;

/// Height of the compact background that is scaled to the launcher surface.
pub const JACQUARD_HEIGHT: u32 = 843;

/// The largest background file.
pub const MAX_BACKGROUND_PNG_BYTES: u64 = 1_048_576;

/// PNG color type of gray pixels.
pub const PNG_GRAYSCALE: u8 = 0;

/// PNG color type of RGB pixels.
pub const PNG_RGB: u8 = 2;

/// PNG color type of palette indices.
pub const PNG_INDEXED: u8 = 3;

/// PNG color type of gray pixels with transparency.
pub const PNG_GRAYSCALE_ALPHA: u8 = 4;

/// PNG color type of RGB pixels with transparency.
pub const PNG_RGBA: u8 = 6;

/// Decode without any transformation.
pub const PNG_IDENTITY: u32 = 0;

/// Decode to 8 bits per sample, with palettes and small depths expanded.
pub const PNG_COLOR8: u32 = 0x11;

// ---------------------------------------------------------------------------
// Outside types and calls
// ---------------------------------------------------------------------------
/// The error of decoding a PNG stream.
#[verifier::external_type_specification]
#[verifier::external_body]
pub struct ExDecodingError(png::DecodingError);

/// What the header of a PNG stream says. Color type and depth have their PNG
/// codes.
#[derive(Debug, Clone, Copy, PartialEq, Eq, Structural)]
pub struct PngHeader {
    /// Width in pixels.
    pub width: u32,
    /// Height in pixels.
    pub height: u32,
    /// Color type.
    pub color: u8,
    /// Bits per sample.
    pub depth: u8,
}

/// What `png::Decoder::read_info` finds in a stream, under the given
/// transformations and on a machine with the given word size, if it accepts
/// the stream.
pub uninterp spec fn png_header(
    input: Seq<u8>,
    transformations: u32,
    word_bits: u32,
) -> Option<PngHeader>;

/// Calls `png::Decoder::read_info` and returns width, height, color type and
/// depth of the image. The outcome is a function of the bytes, of the
/// transformations, and of the word size, which bounds the image size.
#[verifier::external_body]
fn read_png_header(input: &[u8], transformations: u32) -> (result: Result<
    PngHeader,
    png::DecodingError,
>)
    ensures
        match result {
            Ok(header) => png_header(input@, transformations, usize::BITS) == Some(header),
            Err(_) => png_header(input@, transformations, usize::BITS) is None,
        },
{
    let mut decoder = png::Decoder::new(std::io::Cursor::new(input));
    decoder.set_transformations(png::Transformations::from_bits_truncate(transformations));
    let reader = decoder.read_info()?;
    let info = reader.info();
    Ok(PngHeader {
        width: info.width,
        height: info.height,
        color: info.color_type as u8,
        depth: info.bit_depth as u8,
    })
}

/// What `png::Reader::output_buffer_size` says of a stream that
/// `png::Decoder::read_info` accepts.
pub uninterp spec fn png_output_size(
    input: Seq<u8>,
    transformations: u32,
    word_bits: u32,
) -> Option<Option<usize>>;

/// Calls `png::Reader::output_buffer_size` after the header was read: the bytes
/// of a decoded frame, or nothing when they do not fit into memory. The outcome
/// is a function of the bytes, of the transformations, and of the word size.
#[verifier::external_body]
fn read_png_output_size(input: &[u8], transformations: u32) -> (result: Result<
    Option<usize>,
    png::DecodingError,
>)
    ensures
        match result {
            Ok(size) => png_output_size(input@, transformations, usize::BITS) == Some(size),
            Err(_) => png_output_size(input@, transformations, usize::BITS) is None,
        },
{
    let mut decoder = png::Decoder::new(std::io::Cursor::new(input));
    decoder.set_transformations(png::Transformations::from_bits_truncate(transformations));
    Ok(decoder.read_info()?.output_buffer_size())
}

/// A decoded frame.
pub struct Frame {
    /// Color type.
    pub color: u8,
    /// Bits per sample.
    pub depth: u8,
    /// The pixel bytes.
    pub bytes: Seq<u8>,
}

/// A decoded frame.
#[derive(Debug, Clone, PartialEq, Eq)]
pub struct PngFrame {
    /// Color type.
    pub color: u8,
    /// Bits per sample.
    pub depth: u8,
    /// The pixel bytes.
    pub bytes: Vec<u8>,
}

impl View for PngFrame {
    type V = Frame;

    open spec fn view(&self) -> Frame {
        Frame { color: self.color, depth: self.depth, bytes: self.bytes@ }
    }
}

/// What `png::Reader::next_frame` decodes into a buffer of the given size, if
/// it accepts stream and buffer.
pub uninterp spec fn png_frame(
    input: Seq<u8>,
    transformations: u32,
    size: usize,
    word_bits: u32,
) -> Option<Frame>;

/// Calls `png::Reader::next_frame` with a buffer of `size` bytes and returns
/// color type, depth and the bytes of the frame. The outcome is a function of
/// the bytes, of the transformations, of the buffer size, and of the word size.
#[verifier::external_body]
fn decode_png_frame(input: &[u8], transformations: u32, size: usize) -> (result: Result<
    PngFrame,
    png::DecodingError,
>)
    requires
        size <= 0x20_0000,
    ensures
        match result {
            Ok(frame) => png_frame(input@, transformations, size, usize::BITS) == Some(frame@),
            Err(_) => png_frame(input@, transformations, size, usize::BITS) is None,
        },
{
    let mut decoder = png::Decoder::new(std::io::Cursor::new(input));
    decoder.set_transformations(png::Transformations::from_bits_truncate(transformations));
    let mut bytes = vec![0_u8; size];
    let frame = decoder.read_info()?.next_frame(bytes.as_mut_slice())?;
    bytes.truncate(frame.buffer_size());
    Ok(PngFrame { color: frame.color_type as u8, depth: frame.bit_depth as u8, bytes })
}

/// Formats a decoding error with its `Display` implementation. Nothing is said
/// of the text.
#[verifier::external_body]
fn decoding_error_text(error: &png::DecodingError) -> (text: String) {
    format!("{error}")
}

// ---------------------------------------------------------------------------
// Application icons
// ---------------------------------------------------------------------------
/// One pixel with transparency.
#[derive(Debug, Clone, Copy, PartialEq, Eq, Structural)]
pub struct Rgba8Pixel {
    /// Red channel.
    pub red: u8,
    /// Green channel.
    pub green: u8,
    /// Blue channel.
    pub blue: u8,
    /// Opacity.
    pub alpha: u8,
}

/// A package icon could not be safely inspected or decoded.
#[derive(Debug)]
pub enum ApplicationIconError {
    /// The path is missing, is not a regular file, or could not be read.
    Io(String),
    /// The encoded PNG is malformed or unsupported.
    Decode(png::DecodingError),
    /// The image is not a bounded square icon.
    InvalidDimensions { width: u32, height: u32 },
    /// The normalized decoder output has an unexpected layout.
    InvalidPixelLayout,
}

impl ApplicationIconError {
    /// Describes the error for an operator.
    pub fn message(&self) -> (message: String)
        ensures
            match self {
                ApplicationIconError::Io(error) => message@ == "cannot read application icon: "@
                    + error@,
                ApplicationIconError::Decode(_) => exists|detail: Seq<char>|
                    message@ == #[trigger] ("cannot decode application icon PNG: "@ + detail),
                ApplicationIconError::InvalidDimensions { width, height } => message@
                    == "application icon is "@ + crate::text::decimal(*width as nat) + "×"@
                    + crate::text::decimal(*height as nat)
                    + "; expected a square edge from 64 to 512 pixels"@,
                ApplicationIconError::InvalidPixelLayout => message@
                    == "application icon has an unsupported normalized pixel layout"@,
            },
    {
        let mut message: String = String::new();
        match self {
            ApplicationIconError::Io(error) => {
                message.append("cannot read application icon: ");
                message.append(error.as_str());
                assert(message@ =~= "cannot read application icon: "@ + error@);
            },
            ApplicationIconError::Decode(error) => {
                message.append("cannot decode application icon PNG: ");
                let detail: String = decoding_error_text(error);
                message.append(detail.as_str());
                assert(message@ =~= "cannot decode application icon PNG: "@ + detail@);
            },
            ApplicationIconError::InvalidDimensions { width, height } => {
                message.append("application icon is ");
                push_decimal(&mut message, *width as u64);
                message.append("×");
                push_decimal(&mut message, *height as u64);
                message.append("; expected a square edge from 64 to 512 pixels");
                assert(message@ =~= "application icon is "@ + crate::text::decimal(*width as nat)
                    + "×"@ + crate::text::decimal(*height as nat)
                    + "; expected a square edge from 64 to 512 pixels"@);
            },
            ApplicationIconError::InvalidPixelLayout => {
                message.append("application icon has an unsupported normalized pixel layout");
                assert(message@
                    =~= "application icon has an unsupported normalized pixel layout"@);
            },
        }
        message
    }
}

/// Whether an image file is a regular one of acceptable size.
pub fn check_image_file(is_regular: bool, length: u64, maximum: u64) -> (accepted: bool)
    ensures
        accepted == (is_regular && 0 < length <= maximum),
{
    is_regular && length > 0 && length <= maximum
}

/// An image file: what the file system says of it, and its bytes.
#[derive(Debug, Clone, PartialEq, Eq)]
pub struct ImageFile {
    /// Whether the path itself names a regular file.
    pub is_regular: bool,
    /// Length in bytes.
    pub length: u64,
    /// Contents.
    pub bytes: Vec<u8>,
}

/// Whether an icon is square, with an edge that is neither too small nor too
/// large.
pub open spec fn is_icon_size(width: u32, height: u32) -> bool {
    width == height && MIN_APPLICATION_ICON_EDGE <= width <= MAX_APPLICATION_ICON_EDGE
}

/// The number of bytes of one pixel, for the color types of icons.
pub open spec fn bytes_per_pixel(color: u8) -> Option<int> {
    if color == PNG_RGBA {
        Some(4)
    } else if color == PNG_RGB {
        Some(3)
    } else if color == PNG_GRAYSCALE_ALPHA {
        Some(2)
    } else if color == PNG_GRAYSCALE {
        Some(1)
    } else {
        None
    }
}

/// The pixel whose bytes begin at `at`.
pub open spec fn icon_pixel(color: u8, bytes: Seq<u8>, at: int) -> Rgba8Pixel {
    if color == PNG_RGBA {
        Rgba8Pixel {
            red: bytes[at],
            green: bytes[at + 1],
            blue: bytes[at + 2],
            alpha: bytes[at + 3],
        }
    } else if color == PNG_RGB {
        Rgba8Pixel { red: bytes[at], green: bytes[at + 1], blue: bytes[at + 2], alpha: 255 }
    } else if color == PNG_GRAYSCALE_ALPHA {
        Rgba8Pixel { red: bytes[at], green: bytes[at], blue: bytes[at], alpha: bytes[at + 1] }
    } else {
        Rgba8Pixel { red: bytes[at], green: bytes[at], blue: bytes[at], alpha: 255 }
    }
}

/// The pixels of a normalized frame; bytes after the last complete pixel are
/// left out. Palette indices are not pixels.
pub open spec fn icon_pixels(color: u8, bytes: Seq<u8>) -> Option<Seq<Rgba8Pixel>> {
    match bytes_per_pixel(color) {
        Some(size) => Some(
            Seq::new(
                (bytes.len() as int / size) as nat,
                |i: int| icon_pixel(color, bytes, i * size),
            ),
        ),
        None => None,
    }
}

/// Converts the bytes of a normalized frame into pixels.
pub fn convert_icon_pixels(color: u8, bytes: &[u8]) -> (pixels: Option<Vec<Rgba8Pixel>>)
    ensures
        match pixels {
            Some(pixels) => icon_pixels(color, bytes@) == Some(pixels@),
            None => icon_pixels(color, bytes@) is None,
        },
{
    let size: usize = if color == PNG_RGBA {
        4
    } else if color == PNG_RGB {
        3
    } else if color == PNG_GRAYSCALE_ALPHA {
        2
    } else if color == PNG_GRAYSCALE {
        1
    } else {
        return None;
    };
    let length: usize = bytes.len();
    let count: usize = length / size;
    let mut pixels: Vec<Rgba8Pixel> = Vec::new();
    let ghost all = icon_pixels(color, bytes@)->0;
    let mut at: usize = 0;
    for i in 0..count
        invariant
            bytes_per_pixel(color) == Some(size as int),
            1 <= size <= 4,
            length == bytes@.len(),
            count == length as int / size as int,
            at == i * size,
            all == icon_pixels(color, bytes@)->0,
            all.len() == count,
            pixels@ == all.take(i as int),
    {
        assert(at + size <= length) by (nonlinear_arith)
            requires
                size > 0,
                at == i * size,
                i < count,
                count == length as int / size as int,
        ;
        let red: u8 = bytes[at];
        let pixel: Rgba8Pixel = if color == PNG_RGBA {
            Rgba8Pixel { red, green: bytes[at + 1], blue: bytes[at + 2], alpha: bytes[at + 3] }
        } else if color == PNG_RGB {
            Rgba8Pixel { red, green: bytes[at + 1], blue: bytes[at + 2], alpha: 255 }
        } else if color == PNG_GRAYSCALE_ALPHA {
            Rgba8Pixel { red, green: red, blue: red, alpha: bytes[at + 1] }
        } else {
            Rgba8Pixel { red, green: red, blue: red, alpha: 255 }
        };
        assert(all[i as int] == pixel);
        pixels.push(pixel);
        assert(all.take(i + 1) =~= all.take(i as int).push(pixel));
        at = at + size;
        assert(at == (i + 1) * size) by (nonlinear_arith)
            requires
                at == i * size + size,
        ;
    }
    assert(all.take(count as int) =~= all);
    Some(pixels)
}

/// What becomes of an icon.
pub enum IconOutcome {
    /// It cannot be decoded.
    Undecodable,
    /// It is not a bounded square.
    WrongSize { width: u32, height: u32 },
    /// Its decoded layout is unexpected.
    WrongLayout,
    /// Its pixels, row by row.
    Pixels { width: u32, height: u32, pixels: Seq<Rgba8Pixel> },
}

/// What becomes of an icon with the given header, output size and frame.
pub open spec fn icon_outcome(
    header: Option<PngHeader>,
    size: Option<Option<usize>>,
    frame: Option<Frame>,
) -> IconOutcome {
    match header {
        None => IconOutcome::Undecodable,
        Some(header) => if !is_icon_size(header.width, header.height) {
            IconOutcome::WrongSize { width: header.width, height: header.height }
        } else {
            match size {
                None => IconOutcome::Undecodable,
                Some(None) => IconOutcome::WrongLayout,
                Some(Some(size)) => if size > MAX_APPLICATION_ICON_BYTES {
                    IconOutcome::WrongLayout
                } else {
                    match frame {
                        None => IconOutcome::Undecodable,
                        Some(frame) => match icon_pixels(frame.color, frame.bytes) {
                            None => IconOutcome::WrongLayout,
                            Some(pixels) => if pixels.len() != header.width * header.height {
                                IconOutcome::WrongLayout
                            } else {
                                IconOutcome::Pixels {
                                    width: header.width,
                                    height: header.height,
                                    pixels,
                                }
                            },
                        },
                    }
                },
            }
        },
    }
}

/// What becomes of an encoded icon.
pub open spec fn icon_of(input: Seq<u8>) -> IconOutcome {
    let size = png_output_size(input, PNG_COLOR8, usize::BITS);
    icon_outcome(
        png_header(input, PNG_COLOR8, usize::BITS),
        size,
        png_frame(input, PNG_COLOR8, size->0->0, usize::BITS),
    )
}

/// A decoded icon.
#[derive(Debug, Clone, PartialEq, Eq)]
pub struct ApplicationIcon {
    /// Width in pixels.
    pub width: u32,
    /// Height in pixels.
    pub height: u32,
    /// Pixels, row by row.
    pub pixels: Vec<Rgba8Pixel>,
}

impl ApplicationIcon {
    /// Whether a result is the given outcome.
    pub open spec fn is_outcome(
        result: Result<ApplicationIcon, ApplicationIconError>,
        outcome: IconOutcome,
    ) -> bool {
        match result {
            Ok(icon) => outcome == (IconOutcome::Pixels {
                width: icon.width,
                height: icon.height,
                pixels: icon.pixels@,
            }),
            Err(ApplicationIconError::Decode(_)) => outcome is Undecodable,
            Err(ApplicationIconError::InvalidDimensions { width, height }) => outcome == (
            IconOutcome::WrongSize { width, height }),
            Err(ApplicationIconError::InvalidPixelLayout) => outcome is WrongLayout,
            Err(ApplicationIconError::Io(_)) => false,
        }
    }
}

/// Puts an icon together from its header and its decoded frame.
pub fn assemble_icon(header: PngHeader, frame: &PngFrame) -> (result: Result<
    ApplicationIcon,
    ApplicationIconError,
>)
    requires
        is_icon_size(header.width, header.height),
    ensures
        ApplicationIcon::is_outcome(
            result,
            icon_outcome(Some(header), Some(Some(0usize)), Some(frame@)),
        ),
{
    let pixels: Vec<Rgba8Pixel> = match convert_icon_pixels(frame.color, frame.bytes.as_slice()) {
        Some(pixels) => pixels,
        None => {
            return Err(ApplicationIconError::InvalidPixelLayout);
        },
    };
    assert(header.width * header.height <= 512 * 512) by (nonlinear_arith)
        requires
            header.width <= 512,
            header.height <= 512,
    ;
    let expected: usize = header.width as usize * header.height as usize;
    if pixels.len() != expected {
        return Err(ApplicationIconError::InvalidPixelLayout);
    }
    Ok(ApplicationIcon { width: header.width, height: header.height, pixels })
}

/// Decodes a bounded square icon.
pub fn decode_application_icon(input: &[u8]) -> (result: Result<
    ApplicationIcon,
    ApplicationIconError,
>)
    ensures
        ApplicationIcon::is_outcome(result, icon_of(input@)),
{
    let header: PngHeader = match read_png_header(input, PNG_COLOR8) {
        Ok(header) => header,
        Err(error) => {
            return Err(ApplicationIconError::Decode(error));
        },
    };
    if header.width != header.height || header.width < MIN_APPLICATION_ICON_EDGE || header.width
        > MAX_APPLICATION_ICON_EDGE {
        return Err(
            ApplicationIconError::InvalidDimensions { width: header.width, height: header.height },
        );
    }
    let size: usize = match read_png_output_size(input, PNG_COLOR8) {
        Ok(Some(size)) => size,
        Ok(None) => {
            return Err(ApplicationIconError::InvalidPixelLayout);
        },
        Err(error) => {
            return Err(ApplicationIconError::Decode(error));
        },
    };
    if size as u64 > MAX_APPLICATION_ICON_BYTES {
        return Err(ApplicationIconError::InvalidPixelLayout);
    }
    match decode_png_frame(input, PNG_COLOR8, size) {
        Ok(frame) => assemble_icon(header, &frame),
        Err(error) => Err(ApplicationIconError::Decode(error)),
    }
}

/// Loads one bounded application icon.
pub fn load_application_icon(file: &ImageFile) -> (result: Result<
    ApplicationIcon,
    ApplicationIconError,
>)
    ensures
        if file.is_regular && 0 < file.length <= MAX_APPLICATION_ICON_BYTES {
            ApplicationIcon::is_outcome(result, icon_of(file.bytes@))
        } else {
            result matches Err(ApplicationIconError::Io(error)) && error@
                == "icon must be a non-empty regular file no larger than 1 MiB"@
        },
{
    if !check_image_file(file.is_regular, file.length, MAX_APPLICATION_ICON_BYTES) {
        return Err(
            ApplicationIconError::Io(
                "icon must be a non-empty regular file no larger than 1 MiB".to_owned(),
            ),
        );
    }
    decode_application_icon(file.bytes.as_slice())
}

// ---------------------------------------------------------------------------
// Launcher backgrounds
// ---------------------------------------------------------------------------
/// An optional launcher PNG failed its strict file or image contract.
#[derive(Debug)]
pub enum LauncherBackgroundImageError {
    /// The path is not a bounded regular file or could not be read.
    Io(String),
    /// The PNG stream is malformed.
    Decode(png::DecodingError),
    /// The PNG is not the exact reviewed 632×843 RGB8 shape.
    InvalidFormat,
}

impl LauncherBackgroundImageError {
    /// Describes the error for an operator.
    pub fn message(&self) -> (message: String)
        ensures
            match self {
                LauncherBackgroundImageError::Io(error) => message@
                    == "cannot read launcher background: "@ + error@,
                LauncherBackgroundImageError::Decode(_) => exists|detail: Seq<char>|
                    message@ == #[trigger] ("cannot decode launcher background: "@ + detail),
                LauncherBackgroundImageError::InvalidFormat => message@
                    == "launcher background must be an exact 632×843 eight-bit RGB PNG"@,
            },
    {
        let mut message: String = String::new();
        match self {
            LauncherBackgroundImageError::Io(error) => {
                message.append("cannot read launcher background: ");
                message.append(error.as_str());
                assert(message@ =~= "cannot read launcher background: "@ + error@);
            },
            LauncherBackgroundImageError::Decode(error) => {
                message.append("cannot decode launcher background: ");
                let detail: String = decoding_error_text(error);
                message.append(detail.as_str());
                assert(message@ =~= "cannot decode launcher background: "@ + detail@);
            },
            LauncherBackgroundImageError::InvalidFormat => {
                message.append("launcher background must be an exact 632×843 eight-bit RGB PNG");
                assert(message@
                    =~= "launcher background must be an exact 632×843 eight-bit RGB PNG"@);
            },
        }
        message
    }
}

/// Whether a header is that of a background.
pub open spec fn is_background_header(header: PngHeader) -> bool {
    header == (PngHeader {
        width: JACQUARD_WIDTH,
        height: JACQUARD_HEIGHT,
        color: PNG_RGB,
        depth: 8,
    })
}

/// The bytes of a decoded background.
pub const BACKGROUND_BYTES: usize = 1_598_328;

/// A background has three bytes for each of its pixels.
pub proof fn law_background_has_three_bytes_per_pixel()
    ensures
        BACKGROUND_BYTES == JACQUARD_WIDTH * JACQUARD_HEIGHT * 3,
{
    assert(JACQUARD_WIDTH * JACQUARD_HEIGHT == 532_776) by (nonlinear_arith)
        requires
            JACQUARD_WIDTH == 632,
            JACQUARD_HEIGHT == 843,
    ;
}

/// Whether the header of a background is acceptable.
pub fn validate_background_info(header: PngHeader) -> (result: Result<
    (),
    LauncherBackgroundImageError,
>)
    ensures
        match result {
            Ok(()) => is_background_header(header),
            Err(error) => !is_background_header(header) && error is InvalidFormat,
        },
{
    if header.width != JACQUARD_WIDTH || header.height != JACQUARD_HEIGHT || header.color
        != PNG_RGB || header.depth != 8 {
        return Err(LauncherBackgroundImageError::InvalidFormat);
    }
    Ok(())
}

/// Whether a result is that of checking the header of an encoded background.
pub open spec fn is_inspection_of(
    input: Seq<u8>,
    result: Result<(), LauncherBackgroundImageError>,
) -> bool {
    let header = png_header(input, PNG_IDENTITY, usize::BITS);
    match result {
        Ok(()) => header is Some && is_background_header(header->0),
        Err(LauncherBackgroundImageError::Decode(_)) => header is None,
        Err(LauncherBackgroundImageError::InvalidFormat) => header is Some
            && !is_background_header(header->0),
        Err(LauncherBackgroundImageError::Io(_)) => false,
    }
}

/// Whether an error refuses a background file unread.
pub open spec fn refuses_background_file(error: LauncherBackgroundImageError) -> bool {
    error matches LauncherBackgroundImageError::Io(detail) && detail@
        == "background must be a non-empty regular file no larger than 1 MiB"@
}

fn check_background_file(file: &ImageFile) -> (result: Result<(), LauncherBackgroundImageError>)
    ensures
        match result {
            Ok(()) => file.is_regular && 0 < file.length <= MAX_BACKGROUND_PNG_BYTES,
            Err(error) => !(file.is_regular && 0 < file.length <= MAX_BACKGROUND_PNG_BYTES)
                && refuses_background_file(error),
        },
{
    if check_image_file(file.is_regular, file.length, MAX_BACKGROUND_PNG_BYTES) {
        Ok(())
    } else {
        Err(
            LauncherBackgroundImageError::Io(
                "background must be a non-empty regular file no larger than 1 MiB".to_owned(),
            ),
        )
    }
}

/// Checks the path metadata and PNG header of one launcher background.
pub fn inspect_launcher_background_png(file: &ImageFile) -> (result: Result<
    (),
    LauncherBackgroundImageError,
>)
    ensures
        if file.is_regular && 0 < file.length <= MAX_BACKGROUND_PNG_BYTES {
            is_inspection_of(file.bytes@, result)
        } else {
            result is Err && refuses_background_file(result->Err_0)
        },
{
    match check_background_file(file) {
        Ok(()) => inspect_background_png(file.bytes.as_slice()),
        Err(error) => Err(error),
    }
}

/// Loads one exact bounded launcher background.
pub fn load_launcher_background_png(file: &ImageFile) -> (result: Result<
    Vec<Rgb8Pixel>,
    LauncherBackgroundImageError,
>)
    ensures
        if file.is_regular && 0 < file.length <= MAX_BACKGROUND_PNG_BYTES {
            is_background_of(file.bytes@, result)
        } else {
            result is Err && refuses_background_file(result->Err_0)
        },
{
    match check_background_file(file) {
        Ok(()) => decode_launcher_background_png(file.bytes.as_slice()),
        Err(error) => Err(error),
    }
}

/// Checks the header of an encoded background without decoding its pixels.
pub fn inspect_background_png(input: &[u8]) -> (result: Result<(), LauncherBackgroundImageError>)
    ensures
        is_inspection_of(input@, result),
{
    match read_png_header(input, PNG_IDENTITY) {
        Ok(header) => validate_background_info(header),
        Err(error) => Err(LauncherBackgroundImageError::Decode(error)),
    }
}

/// The pixels of a frame, if it is that of a background.
pub open spec fn background_pixels(frame: Frame) -> Option<Seq<Rgb8Pixel>> {
    if frame.bytes.len() != BACKGROUND_BYTES || frame.color != PNG_RGB || frame.depth != 8 {
        None
    } else {
        Some(
            Seq::new(
                (JACQUARD_WIDTH * JACQUARD_HEIGHT) as nat,
                |i: int|
                    Rgb8Pixel {
                        red: frame.bytes[i * 3],
                        green: frame.bytes[i * 3 + 1],
                        blue: frame.bytes[i * 3 + 2],
                    },
            ),
        )
    }
}

/// Converts the frame of a background into its pixels.
pub fn convert_background_pixels(frame: &PngFrame) -> (pixels: Option<Vec<Rgb8Pixel>>)
    ensures
        match pixels {
            Some(pixels) => background_pixels(frame@) == Some(pixels@),
            None => background_pixels(frame@) is None,
        },
{
    if frame.bytes.len() != BACKGROUND_BYTES || frame.color != PNG_RGB || frame.depth != 8 {
        return None;
    }
    proof {
        law_background_has_three_bytes_per_pixel();
    }
    let ghost all = background_pixels(frame@)->0;
    let mut pixels: Vec<Rgb8Pixel> = Vec::new();
    for i in 0..532_776usize
        invariant
            frame.bytes@.len() == BACKGROUND_BYTES,
            background_pixels(frame@) is Some,
            all == background_pixels(frame@)->0,
            all.len() == 532_776,
            pixels@ == all.take(i as int),
    {
        let pixel: Rgb8Pixel = Rgb8Pixel {
            red: frame.bytes[i * 3],
            green: frame.bytes[i * 3 + 1],
            blue: frame.bytes[i * 3 + 2],
        };
        assert(all[i as int] == pixel);
        pixels.push(pixel);
        assert(all.take(i + 1) =~= all.take(i as int).push(pixel));
    }
    assert(all.take(532_776) =~= all);
    Some(pixels)
}

/// What becomes of a background.
pub enum BackgroundOutcome {
    /// It cannot be decoded.
    Undecodable,
    /// It has the wrong shape.
    WrongFormat,
    /// Its pixels, row by row.
    Pixels { pixels: Seq<Rgb8Pixel> },
}

/// What becomes of an encoded background.
pub open spec fn background_of(input: Seq<u8>) -> BackgroundOutcome {
    let size = png_output_size(input, PNG_IDENTITY, usize::BITS);
    match png_header(input, PNG_IDENTITY, usize::BITS) {
        None => BackgroundOutcome::Undecodable,
        Some(header) => if !is_background_header(header) {
            BackgroundOutcome::WrongFormat
        } else {
            match size {
                None => BackgroundOutcome::Undecodable,
                Some(size) => if size != Some(BACKGROUND_BYTES) {
                    BackgroundOutcome::WrongFormat
                } else {
                    match png_frame(input, PNG_IDENTITY, BACKGROUND_BYTES, usize::BITS) {
                        None => BackgroundOutcome::Undecodable,
                        Some(frame) => match background_pixels(frame) {
                            None => BackgroundOutcome::WrongFormat,
                            Some(pixels) => BackgroundOutcome::Pixels { pixels },
                        },
                    }
                },
            }
        },
    }
}

/// Whether a result is that of decoding a background.
pub open spec fn is_background_of(
    input: Seq<u8>,
    result: Result<Vec<Rgb8Pixel>, LauncherBackgroundImageError>,
) -> bool {
    match result {
        Ok(pixels) => background_of(input) == (BackgroundOutcome::Pixels { pixels: pixels@ }),
        Err(LauncherBackgroundImageError::Decode(_)) => background_of(input) is Undecodable,
        Err(LauncherBackgroundImageError::InvalidFormat) => background_of(input) is WrongFormat,
        Err(LauncherBackgroundImageError::Io(_)) => false,
    }
}

/// Decodes one exact 632×843 RGB8 background.
pub fn decode_launcher_background_png(input: &[u8]) -> (result: Result<
    Vec<Rgb8Pixel>,
    LauncherBackgroundImageError,
>)
    ensures
        is_background_of(input@, result),
{
    match read_png_header(input, PNG_IDENTITY) {
        Ok(header) => {
            if let Err(error) = validate_background_info(header) {
                return Err(error);
            }
        },
        Err(error) => {
            return Err(LauncherBackgroundImageError::Decode(error));
        },
    }
    match read_png_output_size(input, PNG_IDENTITY) {
        Ok(Some(size)) => {
            if size != BACKGROUND_BYTES {
                return Err(LauncherBackgroundImageError::InvalidFormat);
            }
        },
        Ok(None) => {
            return Err(LauncherBackgroundImageError::InvalidFormat);
        },
        Err(error) => {
            return Err(LauncherBackgroundImageError::Decode(error));
        },
    }
    match decode_png_frame(input, PNG_IDENTITY, BACKGROUND_BYTES) {
        Ok(frame) => match convert_background_pixels(&frame) {
            Some(pixels) => Ok(pixels),
            None => Err(LauncherBackgroundImageError::InvalidFormat),
        },
        Err(error) => Err(LauncherBackgroundImageError::Decode(error)),
    }
}

// ---------------------------------------------------------------------------
// What images show
// ---------------------------------------------------------------------------
/// Icons are square, with an edge of 64 to 512 pixels.
pub proof fn law_icons_are_square(width: u32, height: u32)
    ensures
        is_icon_size(width, height) <==> width == height && 64 <= width && width <= 512,
{
}

/// A pixel of an icon has its bytes in turn: gray ones have one for all colours,
/// and those without transparency are opaque. Other kinds of pixels have none.
pub proof fn law_icon_pixels_have_their_bytes(color: u8, bytes: Seq<u8>, i: int)
    ensures
        icon_pixels(color, bytes) is Some <==> color == 0 || color == 2 || color == 4 || color == 6,
        icon_pixels(color, bytes) matches Some(pixels) ==> {
            let pixel = pixels[i];
            let told = (pixel.red, pixel.green, pixel.blue, pixel.alpha);
            &&& pixels.len() == (if color == 6 {
                bytes.len() as int / 4
            } else if color == 2 {
                bytes.len() as int / 3
            } else if color == 4 {
                bytes.len() as int / 2
            } else {
                bytes.len() as int
            })
            &&& 0 <= i < pixels.len() ==> told == (if color == 6 {
                (bytes[4 * i], bytes[4 * i + 1], bytes[4 * i + 2], bytes[4 * i + 3])
            } else if color == 2 {
                (bytes[3 * i], bytes[3 * i + 1], bytes[3 * i + 2], 255u8)
            } else if color == 4 {
                (bytes[2 * i], bytes[2 * i], bytes[2 * i], bytes[2 * i + 1])
            } else {
                (bytes[i], bytes[i], bytes[i], 255u8)
            })
        },
{
}

/// An icon is shown exactly when its header names an icon's size, its pixels need
/// at most a mebibyte, and exactly as many come out as its size asks for.
pub proof fn law_icons_are_shown_when_complete(
    header: Option<PngHeader>,
    size: Option<Option<usize>>,
    frame: Option<Frame>,
)
    ensures
        icon_outcome(header, size, frame) is Pixels <==> {
            &&& header is Some && is_icon_size(header->0.width, header->0.height)
            &&& size is Some && size->0 is Some && size->0->0 <= 1_048_576
            &&& frame is Some
            &&& icon_pixels(frame->0.color, frame->0.bytes) matches Some(pixels) && pixels.len()
                == header->0.width * header->0.height
        },
        icon_outcome(header, size, frame) matches IconOutcome::Pixels { width, height, pixels }
            ==> {
            &&& width == header->0.width && height == header->0.height
            &&& icon_pixels(frame->0.color, frame->0.bytes) == Some(pixels)
        },
        header is None ==> icon_outcome(header, size, frame) is Undecodable,
        header is Some && !is_icon_size(header->0.width, header->0.height) ==> icon_outcome(
            header,
            size,
            frame,
        ) == (IconOutcome::WrongSize { width: header->0.width, height: header->0.height }),
        icon_outcome(header, size, frame) is Undecodable ==> header is None || size is None
            || frame is None,
{
}

/// What is told of an icon is its outcome: pixels are given exactly where there
/// are some, and each failure is told as what it is.
pub proof fn law_icon_outcomes_are_told(
    result: Result<ApplicationIcon, ApplicationIconError>,
    outcome: IconOutcome,
)
    requires
        ApplicationIcon::is_outcome(result, outcome),
    ensures
        result is Ok <==> outcome is Pixels,
        outcome matches IconOutcome::Pixels { width, height, pixels } ==> {
            let icon = result->Ok_0;
            icon.width == width && icon.height == height && icon.pixels@ == pixels
        },
        outcome is Undecodable <==> result is Err && result->Err_0 is Decode,
        outcome is WrongLayout <==> result is Err && result->Err_0 is InvalidPixelLayout,
        outcome matches IconOutcome::WrongSize { width, height } ==> result is Err
            && result->Err_0 == (ApplicationIconError::InvalidDimensions { width, height }),
{
}

/// A background is 632 pixels wide and 843 high, in eight-bit colours, and its
/// pixels have three bytes each in turn.
pub proof fn law_backgrounds_have_one_format(header: PngHeader, frame: Frame, i: int)
    ensures
        is_background_header(header) <==> header.width == 632 && header.height == 843
            && header.color == 2 && header.depth == 8,
        background_pixels(frame) is Some <==> frame.color == 2 && frame.depth == 8
            && frame.bytes.len() == 632 * 843 * 3,
        background_pixels(frame) matches Some(pixels) ==> {
            let pixel = pixels[i];
            &&& pixels.len() == 632 * 843
            &&& 0 <= i < 632 * 843 ==> pixel.red == frame.bytes[3 * i] && pixel.green
                == frame.bytes[3 * i + 1] && pixel.blue == frame.bytes[3 * i + 2]
        },
{
}

/// What is told of a background is its outcome: inspecting it accepts exactly
/// what has the format, and decoding gives exactly the pixels that came out.
pub proof fn law_background_outcomes_are_told(
    input: Seq<u8>,
    inspected: Result<(), LauncherBackgroundImageError>,
    decoded: Result<Vec<Rgb8Pixel>, LauncherBackgroundImageError>,
)
    requires
        is_inspection_of(input, inspected),
        is_background_of(input, decoded),
    ensures
        decoded is Ok ==> inspected is Ok,
        inspected is Ok <==> (png_header(input, 0, usize::BITS) matches Some(header)
            && header.width == 632 && header.height == 843 && header.color == 2 && header.depth
            == 8),
        inspected is Err ==> (inspected->Err_0 is Decode <==> png_header(
            input,
            0,
            usize::BITS,
        ) is None),
        inspected is Err ==> inspected->Err_0 is Decode || inspected->Err_0 is InvalidFormat,
        decoded matches Ok(pixels) ==> {
            &&& png_output_size(input, 0, usize::BITS) == Some(Some(1_598_328usize))
            &&& png_frame(input, 0, 1_598_328usize, usize::BITS) matches Some(frame)
                && background_pixels(frame) == Some(pixels@)
        },
        inspected is Ok && decoded is Err ==> (decoded->Err_0 is Decode <==> png_output_size(
            input,
            0,
            usize::BITS,
        ) is None || png_output_size(input, 0, usize::BITS) == Some(Some(1_598_328usize))
            && png_frame(input, 0, 1_598_328usize, usize::BITS) is None),
        inspected is Err && decoded is Err ==> (decoded->Err_0 is Decode
            <==> inspected->Err_0 is Decode),
        decoded is Err ==> decoded->Err_0 is Decode || decoded->Err_0 is InvalidFormat,
{
}

/// A file that is no background is refused for being no regular file of at most
/// a mebibyte, and for nothing else.
pub proof fn law_background_files_are_refused_by_size(error: LauncherBackgroundImageError)
    requires
        refuses_background_file(error),
    ensures
        error is Io,
        error->Io_0@ == "background must be a non-empty regular file no larger than 1 MiB"@,
{
}

} // verus!
