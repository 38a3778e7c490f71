//! Images: decoding, widening to four channels, and their sizes in memory.
use vstd::prelude::*;

use crate::define::{
    PNG_COLOR_GRAYSCALE_ALPHA, PNG_COLOR_RGB, PNG_COLOR_RGBA, PNG_DEPTH_EIGHT,
};
use crate::shader::big_endian_word;

verus! {

/// Errors of the PNG decoder.
#[verifier::external_type_specification]
#[verifier::external_body]
pub struct ExDecodingError(png::DecodingError);

/// What the PNG decoder says of a frame that it wrote.
#[derive(Clone, Copy, Debug, PartialEq, Eq, Structural)]
pub struct OutputInfo {
    pub width: u32,
    pub height: u32,
    /// PNG code of the colour type.
    pub color_type: u8,
    /// Bits of a sample.
    pub bit_depth: u8,
    /// Bytes of a scan line.
    pub line_size: usize,
}

/// The word of the PNG file `bytes` at which the data of its header start, where
/// the length of the first chunk is the `i`th word. A chunk has its length and its
/// type before its data and a checksum after them, each one word long. A header
/// without data is passed over.
pub open spec fn header_word(bytes: Seq<u8>, i: int) -> int
    decreases bytes.len() - 4 * i,
{
    if 4 * (i + 3) <= bytes.len() && big_endian_word(bytes, i) == 0 {
        header_word(bytes, i + 3)
    } else {
        i + 2
    }
}

/// The word at which the data of the header start: the two words of the signature
/// come before the first chunk.
pub open spec fn header(bytes: Seq<u8>) -> int {
    header_word(bytes, 2)
}

/// The width that the header of the PNG file `bytes` gives.
pub open spec fn header_width(bytes: Seq<u8>) -> int {
    big_endian_word(bytes, header(bytes))
}

/// The height that the header of the PNG file `bytes` gives.
pub open spec fn header_height(bytes: Seq<u8>) -> int {
    big_endian_word(bytes, header(bytes) + 1)
}

/// The bits of a sample that the header of the PNG file `bytes` gives.
pub open spec fn header_bit_depth(bytes: Seq<u8>) -> u8 {
    bytes[4 * header(bytes) + 8]
}

/// The colour type that the header of the PNG file `bytes` gives.
pub open spec fn header_color_type(bytes: Seq<u8>) -> u8 {
    bytes[4 * header(bytes) + 9]
}

/// Samples of a pixel. An entry of a palette or a shade of grey is one sample.
pub open spec fn samples(color_type: u8) -> int {
    if color_type == PNG_COLOR_RGB {
        3
    } else if color_type == PNG_COLOR_GRAYSCALE_ALPHA {
        2
    } else if color_type == PNG_COLOR_RGBA {
        4
    } else {
        1
    }
}

/// Bytes of a scan line: its samples lie close together, and the last byte is
/// filled up.
pub open spec fn line_bytes(color_type: u8, bit_depth: u8, width: int) -> int {
    (samples(color_type) * bit_depth * width + 7) / 8
}

/// Bytes of the whole image that the header of the PNG file `bytes` describes.
pub open spec fn image_bytes(bytes: Seq<u8>) -> int {
    line_bytes(header_color_type(bytes), header_bit_depth(bytes), header_width(bytes))
        * header_height(bytes)
}

/// Whether `fcTL` stands at `at`: the type of the chunks that give a frame of an
/// animation a size of its own.
pub open spec fn names_frame_control(bytes: Seq<u8>, at: int) -> bool {
    bytes[at] == 0x66 && bytes[at + 1] == 0x63 && bytes[at + 2] == 0x54 && bytes[at + 3] == 0x4c
}

/// Whether some bytes of the file could begin a chunk that gives a frame a size of
/// its own. A still image has no such chunk.
pub open spec fn may_hold_frame_control(bytes: Seq<u8>) -> bool {
    exists|at: int| 0 <= at <= bytes.len() - 4 && #[trigger] names_frame_control(bytes, at)
}

/// Whether the frame that `info` describes is as large as the image of the PNG
/// file `bytes`.
pub open spec fn is_whole_image(info: OutputInfo, bytes: Seq<u8>) -> bool {
    info.width == header_width(bytes) && info.height == header_height(bytes)
}

/// Whether `info` describes a frame of the PNG file `bytes`: it has the samples of
/// the image, is not empty and lies within the image; without a size of its own it
/// is the whole image.
pub open spec fn is_frame_of(info: OutputInfo, bytes: Seq<u8>) -> bool {
    &&& info.color_type == header_color_type(bytes)
    &&& info.bit_depth == header_bit_depth(bytes)
    &&& info.line_size == line_bytes(info.color_type, info.bit_depth, info.width as int)
    &&& 0 < info.width <= header_width(bytes)
    &&& 0 < info.height <= header_height(bytes)
    &&& !may_hold_frame_control(bytes) ==> is_whole_image(info, bytes)
}

/// The size that `png::Reader::output_buffer_size` gives for the file `bytes`,
/// if `png::Decoder::read_info` accepts its header.
pub uninterp spec fn png_output_buffer_size(bytes: Seq<u8>) -> Option<usize>;

/// What `png::Reader::next_frame` makes of the buffer `buf` when it decodes the
/// first frame of the file `bytes`, and the description that it returns, if it
/// succeeds.
pub uninterp spec fn png_next_frame(bytes: Seq<u8>, buf: Seq<u8>) -> (
    Seq<u8>,
    Option<OutputInfo>,
);

/// Calls `png::Reader::output_buffer_size` on the reader that
/// `png::Decoder::read_info` makes of `bytes`.
///
/// Trusted: the answer depends on the bytes alone, and a size is that of the image
/// that the header describes.
#[verifier::external_body]
fn output_buffer_size(bytes: &[u8]) -> (size: Result<usize, png::DecodingError>)
    ensures
        match size {
            Ok(n) => png_output_buffer_size(bytes@) == Some(n),
            Err(_) => png_output_buffer_size(bytes@) is None,
        },
        size matches Ok(n) ==> n == image_bytes(bytes@),
{
    let reader = png::Decoder::new(bytes).read_info()?;
    Ok(reader.output_buffer_size())
}

/// Calls `png::Reader::next_frame` on the reader that `png::Decoder::read_info`
/// makes of `bytes`.
///
/// Trusted: what is written and returned depends on the bytes and on the buffer
/// alone; the buffer keeps its length; and the description is that of a frame of
/// the file, whose samples and greatest size the header gives. A chunk of the type
/// `fcTL` alone can make the first frame smaller than the image.
#[verifier::external_body]
fn next_frame(bytes: &[u8], buf: &mut Vec<u8>) -> (info: Result<OutputInfo, png::DecodingError>)
    ensures
        final(buf)@ == png_next_frame(bytes@, old(buf)@).0,
        final(buf)@.len() == old(buf)@.len(),
        match info {
            Ok(i) => png_next_frame(bytes@, old(buf)@).1 == Some(i),
            Err(_) => png_next_frame(bytes@, old(buf)@).1 is None,
        },
        info matches Ok(i) ==> is_frame_of(i, bytes@),
{
    let mut reader = png::Decoder::new(bytes).read_info()?;
    let info = reader.next_frame(buf)?;
    Ok(
        OutputInfo {
            width: info.width,
            height: info.height,
            color_type: info.color_type as u8,
            bit_depth: info.bit_depth as u8,
            line_size: info.line_size,
        },
    )
}

/// Why no texture could be made of a file.
#[derive(Debug)]
pub enum TextureError {
    /// The file is not a PNG that the decoder accepts.
    Decode(png::DecodingError),
    /// The pixels do not fit in memory.
    TooLarge,
    /// The pixels are not whole triples of bytes.
    NotRgb,
}

/// The kinds of `TextureError`.
pub enum TextureFault {
    Decode,
    TooLarge,
    NotRgb,
}

impl TextureError {
    /// The kind of this error.
    pub open spec fn fault(self) -> TextureFault {
        match self {
            TextureError::Decode(_) => TextureFault::Decode,
            TextureError::TooLarge => TextureFault::TooLarge,
            TextureError::NotRgb => TextureFault::NotRgb,
        }
    }
}

/// Errors of different kinds are told apart, and each is of its own kind.
pub proof fn errors_are_of_their_kind(error: TextureError)
    ensures
        error is Decode <==> error.fault() is Decode,
        error is TooLarge <==> error.fault() is TooLarge,
        error is NotRgb <==> error.fault() is NotRgb,
{
}

/// A buffer of `size` zero bytes.
pub open spec fn zeros(size: nat) -> Seq<u8> {
    Seq::new(size, |i: int| 0u8)
}

/// The pixels of the file `bytes`, decoded into a zeroed buffer of the size that
/// the decoder asks for.
pub open spec fn decoded_image(bytes: Seq<u8>) -> Result<(Seq<u8>, OutputInfo), TextureFault> {
    match png_output_buffer_size(bytes) {
        None => Err(TextureFault::Decode),
        Some(size) => if size > isize::MAX {
            Err(TextureFault::TooLarge)
        } else {
            let frame = png_next_frame(bytes, zeros(size as nat));
            match frame.1 {
                None => Err(TextureFault::Decode),
                Some(info) => Ok((frame.0, info)),
            }
        },
    }
}

/// Whether `info` describes eight-bit red, green and blue samples.
pub open spec fn is_rgb8(info: OutputInfo) -> bool {
    info.color_type == PNG_COLOR_RGB && info.bit_depth == PNG_DEPTH_EIGHT
}

/// Whether the frame that `info` describes lies within `len` bytes.
pub open spec fn frame_fits(info: OutputInfo, len: nat) -> bool {
    &&& info.line_size * info.height <= len
    &&& info.line_size == line_bytes(info.color_type, info.bit_depth, info.width as int)
}

/// Whether the frame that `info` describes takes all of `len` bytes. The first
/// frame of an animated file may be smaller than the image.
pub open spec fn frame_fills(info: OutputInfo, len: nat) -> bool {
    info.line_size * info.height == len
}

/// A scan line of byte-sized samples has three bytes for each pixel of red, green
/// and blue, and four with alpha.
pub proof fn byte_sized_samples_lie_side_by_side(width: int)
    requires
        0 <= width,
    ensures
        line_bytes(PNG_COLOR_RGB, PNG_DEPTH_EIGHT, width) == 3 * width,
        line_bytes(PNG_COLOR_RGBA, PNG_DEPTH_EIGHT, width) == 4 * width,
{
    assert(samples(PNG_COLOR_RGB) * PNG_DEPTH_EIGHT == 24);
    assert(samples(PNG_COLOR_RGBA) * PNG_DEPTH_EIGHT == 32);
}

/// Every frame of a file fits in the buffer of the whole image, and one that is as
/// large as the image fills it. With byte-sized samples of red, green and blue the
/// buffer holds whole pixels, and no smaller frame fills it.
pub proof fn frames_fit_in_the_image(info: OutputInfo, bytes: Seq<u8>)
    requires
        is_frame_of(info, bytes),
    ensures
        0 <= image_bytes(bytes),
        frame_fits(info, image_bytes(bytes) as nat),
        is_whole_image(info, bytes) ==> frame_fills(info, image_bytes(bytes) as nat),
        is_rgb8(info) ==> image_bytes(bytes) % 3 == 0,
        is_rgb8(info) ==> (frame_fills(info, image_bytes(bytes) as nat) <==> is_whole_image(
            info,
            bytes,
        )),
{
    let bits = samples(info.color_type) * info.bit_depth;
    let line = info.line_size as int;
    let whole_line = line_bytes(info.color_type, info.bit_depth, header_width(bytes));
    let (width, height) = (info.width as int, info.height as int);
    let (whole_width, whole_height) = (header_width(bytes), header_height(bytes));
    assert(0 <= bits) by (nonlinear_arith)
        requires
            bits == samples(info.color_type) * info.bit_depth,
            0 < samples(info.color_type),
    ;
    assert(0 <= bits * width <= bits * whole_width) by (nonlinear_arith)
        requires
            0 <= bits,
            0 < width <= whole_width,
    ;
    assert(0 <= line * height <= whole_line * whole_height) by (nonlinear_arith)
        requires
            0 <= line <= whole_line,
            0 < height <= whole_height,
    ;
    if is_rgb8(info) {
        byte_sized_samples_lie_side_by_side(width);
        byte_sized_samples_lie_side_by_side(whole_width);
        assert(whole_line * whole_height == 3 * (whole_width * whole_height)) by (nonlinear_arith)
            requires
                whole_line == 3 * whole_width,
        ;
        assert(line * height == whole_line * whole_height ==> width == whole_width && height
            == whole_height) by (nonlinear_arith)
            requires
                line == 3 * width,
                whole_line == 3 * whole_width,
                0 < width <= whole_width,
                0 < height <= whole_height,
        ;
    }
}

/// Decodes the first frame of the PNG file `bytes`.
///
/// The pixels are as many bytes as the image of the header needs. The frame lies
/// within them, and takes them all where it is as large as the image, as it is in
/// a still image.
pub fn read_img(bytes: &[u8]) -> (image: Result<(Vec<u8>, OutputInfo), TextureError>)
    ensures
        match image {
            Ok((pixels, info)) => decoded_image(bytes@) == Ok::<_, TextureFault>((pixels@, info)),
            Err(error) => decoded_image(bytes@) == Err::<(Seq<u8>, OutputInfo), _>(error.fault()),
        },
        image matches Ok((pixels, _)) ==> (png_output_buffer_size(bytes@) matches Some(n)
            && pixels@.len() == n && n == image_bytes(bytes@)),
        image matches Ok((pixels, info)) ==> is_frame_of(info, bytes@) && frame_fits(
            info,
            pixels@.len(),
        ),
        image matches Ok((pixels, info)) ==> (is_whole_image(info, bytes@) ==> frame_fills(
            info,
            pixels@.len(),
        )),
        image matches Ok((pixels, info)) ==> (!may_hold_frame_control(bytes@) ==> frame_fills(
            info,
            pixels@.len(),
        )),
        image matches Ok((pixels, info)) ==> (is_rgb8(info) ==> pixels@.len() % 3 == 0),
{
    let size: usize = match output_buffer_size(bytes) {
        Ok(size) => size,
        Err(error) => return Err(TextureError::Decode(error)),
    };
    if size > isize::MAX as usize {
        return Err(TextureError::TooLarge);
    }
    let mut buf: Vec<u8> = vec![0u8; size];
    assert(buf@ =~= zeros(size as nat));
    match next_frame(bytes, &mut buf) {
        Ok(info) => {
            proof {
                frames_fit_in_the_image(info, bytes@);
            }
            Ok((buf, info))
        },
        Err(error) => Err(TextureError::Decode(error)),
    }
}

/// Pixels of three channels with an opaque fourth channel put after each.
pub open spec fn with_alpha(rgb: Seq<u8>) -> Seq<u8> {
    Seq::new(
        rgb.len() / 3 * 4,
        |k: int|
            if k % 4 == 3 {
                255u8
            } else {
                rgb[k / 4 * 3 + k % 4]
            },
    )
}

/// Pixels of four channels with the fourth channel of each left out.
pub open spec fn without_alpha(rgba: Seq<u8>) -> Seq<u8> {
    Seq::new(rgba.len() / 4 * 3, |k: int| rgba[k / 3 * 4 + k % 3])
}

/// Widens pixels of three channels to four, the fourth being opaque.
pub fn rgb2rgba(rgb_vec: Vec<u8>) -> (rgba_vec: Vec<u8>)
    requires
        rgb_vec@.len() % 3 == 0,
        rgb_vec@.len() / 3 * 4 <= isize::MAX,
    ensures
        rgba_vec@ == with_alpha(rgb_vec@),
        3 * rgba_vec@.len() == 4 * rgb_vec@.len(),
        forall|pixel: int, channel: int|
            0 <= pixel < rgb_vec@.len() / 3 && 0 <= channel < 3 ==> #[trigger] rgba_vec@[4 * pixel
                + channel] == rgb_vec@[3 * pixel + channel],
        forall|pixel: int|
            0 <= pixel < rgb_vec@.len() / 3 ==> #[trigger] rgba_vec@[4 * pixel + 3] == 255,
{
    let count: usize = rgb_vec.len() / 3;
    let mut rgba_vec: Vec<u8> = vec![255u8; count * 4];
    let mut i: usize = 0;
    while i < count
        invariant
            i <= count,
            count * 3 == rgb_vec@.len(),
            count * 4 <= isize::MAX,
            rgba_vec@.len() == count * 4,
            forall|k: int| 0 <= k < 4 * i ==> rgba_vec@[k] == with_alpha(rgb_vec@)[k],
            forall|k: int| 4 * i <= k < 4 * count ==> rgba_vec@[k] == 255,
        decreases count - i,
    {
        rgba_vec.set(4 * i, rgb_vec[3 * i]);
        rgba_vec.set(4 * i + 1, rgb_vec[3 * i + 1]);
        rgba_vec.set(4 * i + 2, rgb_vec[3 * i + 2]);
        i += 1;
    }
    assert(rgba_vec@ =~= with_alpha(rgb_vec@));
    proof {
        widening_keeps_every_sample(rgb_vec@);
    }
    rgba_vec
}

/// No colour is lost when the fourth channel is added: leaving it out again
/// gives the pixels back.
pub proof fn alpha_can_be_dropped(rgb: Seq<u8>)
    requires
        rgb.len() % 3 == 0,
    ensures
        without_alpha(with_alpha(rgb)) == rgb,
{
    let rgba = with_alpha(rgb);
    assert forall|k: int| 0 <= k < rgb.len() implies without_alpha(rgba)[k] == rgb[k] by {
        let m = k / 3 * 4 + k % 3;
        assert(0 <= m < rgba.len());
        assert(m % 4 == k % 3 && m / 4 == k / 3);
    }
    assert(without_alpha(rgba) =~= rgb);
}

/// Every sample of every pixel is kept, in its place among the colours of the pixel,
/// and after the three of them comes full alpha.
pub proof fn widening_keeps_every_sample(rgb: Seq<u8>)
    requires
        rgb.len() % 3 == 0,
    ensures
        3 * with_alpha(rgb).len() == 4 * rgb.len(),
        forall|pixel: int, channel: int|
            0 <= pixel < rgb.len() / 3 && 0 <= channel < 3 ==> #[trigger] with_alpha(rgb)[4 * pixel
                + channel] == rgb[3 * pixel + channel],
        forall|pixel: int|
            0 <= pixel < rgb.len() / 3 ==> #[trigger] with_alpha(rgb)[4 * pixel + 3] == 255,
{
}

/// Pixels are widened one by one: those of two parts put together are the two
/// widened parts put together.
pub proof fn parts_are_widened_alike(first: Seq<u8>, second: Seq<u8>)
    requires
        first.len() % 3 == 0,
        second.len() % 3 == 0,
    ensures
        with_alpha(first + second) == with_alpha(first) + with_alpha(second),
{
    let both = with_alpha(first + second);
    let parts = with_alpha(first) + with_alpha(second);
    assert forall|k: int| 0 <= k < both.len() implies both[k] == parts[k] by {
        let len = with_alpha(first).len() as int;
        if k >= len {
            assert((k - len) % 4 == k % 4 && (k - len) / 4 == k / 4 - len / 4);
        }
    }
    assert(both =~= parts);
}

/// Every pixel is opaque, and there are as many pixels as before.
pub proof fn widened_pixels_are_opaque(rgb: Seq<u8>, pixel: int)
    requires
        rgb.len() % 3 == 0,
        0 <= pixel < rgb.len() / 3,
    ensures
        with_alpha(rgb).len() / 4 == rgb.len() / 3,
        with_alpha(rgb)[4 * pixel + 3] == 255,
{
}

/// An image of four channels, ready to be uploaded.
#[derive(Debug)]
pub struct Texture {
    pub pixels: Vec<u8>,
    pub info: OutputInfo,
}

impl Texture {
    /// Whether the pixels hold four bytes for each pixel of the image.
    pub open spec fn covers_extent(&self) -> bool {
        4 * (self.info.width * self.info.height) <= self.pixels@.len()
    }

    /// Whether the pixels are exactly four bytes for each pixel of the image.
    pub open spec fn fills_extent(&self) -> bool {
        4 * (self.info.width * self.info.height) == self.pixels@.len()
    }
}

/// Makes a texture of an image of three channels: the pixels are widened and the
/// colour type is set to match; the rest of the description stays.
pub fn rgba_texture(rgb_vec: Vec<u8>, info: OutputInfo) -> (texture: Texture)
    requires
        rgb_vec@.len() % 3 == 0,
        rgb_vec@.len() / 3 * 4 <= isize::MAX,
    ensures
        texture.pixels@ == with_alpha(rgb_vec@),
        texture.info == (OutputInfo { color_type: PNG_COLOR_RGBA, ..info }),
{
    Texture {
        pixels: rgb2rgba(rgb_vec),
        info: OutputInfo {
            width: info.width,
            height: info.height,
            color_type: PNG_COLOR_RGBA,
            bit_depth: info.bit_depth,
            line_size: info.line_size,
        },
    }
}

/// The pixels and the description of the texture made of a decoded image, if the
/// pixels are whole triples and fit in memory once they are widened.
pub open spec fn texture_of(rgb: Seq<u8>, info: OutputInfo) -> Result<
    (Seq<u8>, OutputInfo),
    TextureFault,
> {
    if rgb.len() % 3 != 0 {
        Err(TextureFault::NotRgb)
    } else if rgb.len() / 3 * 4 > isize::MAX {
        Err(TextureFault::TooLarge)
    } else {
        Ok((with_alpha(rgb), OutputInfo { color_type: PNG_COLOR_RGBA, ..info }))
    }
}

/// Makes a texture of a decoded image, whatever its pixels are.
///
/// A frame of eight-bit red, green and blue samples that lies within the pixels
/// gives a texture whose pixels cover the whole extent of the image, with none
/// left over exactly when the frame takes all of the pixels.
pub fn texture_from_image(rgb_vec: Vec<u8>, info: OutputInfo) -> (texture: Result<
    Texture,
    TextureError,
>)
    ensures
        match texture {
            Ok(t) => texture_of(rgb_vec@, info) == Ok::<_, TextureFault>((t.pixels@, t.info)),
            Err(error) => texture_of(rgb_vec@, info) == Err::<(Seq<u8>, OutputInfo), _>(
                error.fault(),
            ),
        },
        texture matches Ok(t) ==> (frame_fits(info, rgb_vec@.len()) && is_rgb8(info)
            ==> t.covers_extent() && (t.fills_extent() <==> frame_fills(info, rgb_vec@.len()))),
{
    if rgb_vec.len() % 3 != 0 {
        return Err(TextureError::NotRgb);
    }
    if rgb_vec.len() / 3 > isize::MAX as usize / 4 {
        return Err(TextureError::TooLarge);
    }
    proof {
        let width = info.width as int;
        let height = info.height as int;
        let line_size = info.line_size as int;
        byte_sized_samples_lie_side_by_side(width);
        assert(line_size == 3 * width ==> line_size * height == 3 * (width * height))
            by (nonlinear_arith);
    }
    Ok(rgba_texture(rgb_vec, info))
}

/// A whole frame of eight-bit red, green and blue samples that fits in memory
/// becomes the same image with four bytes for each pixel: its size stays, every
/// pixel is opaque, and the colours come back when alpha is left out.
pub proof fn whole_rgb_frame_becomes_rgba(rgb: Seq<u8>, info: OutputInfo)
    requires
        is_rgb8(info),
        frame_fits(info, rgb.len()),
        frame_fills(info, rgb.len()),
        rgb.len() / 3 * 4 <= isize::MAX,
    ensures
        texture_of(rgb, info) matches Ok((rgba, described)) && rgba.len() == 4 * (info.width
            * info.height) && described.width == info.width && described.height == info.height
            && described.color_type == PNG_COLOR_RGBA && described.bit_depth == PNG_DEPTH_EIGHT
            && (forall|pixel: int|
            0 <= pixel < info.width * info.height ==> #[trigger] rgba[4 * pixel + 3] == 255)
            && without_alpha(rgba) == rgb,
{
    let width = info.width as int;
    let height = info.height as int;
    let line_size = info.line_size as int;
    byte_sized_samples_lie_side_by_side(width);
    assert(line_size * height == 3 * (width * height)) by (nonlinear_arith)
        requires
            line_size == 3 * width,
    ;
    alpha_can_be_dropped(rgb);
}

/// The pixels and the description of the texture in the file `bytes`.
pub open spec fn loaded_texture(bytes: Seq<u8>) -> Result<(Seq<u8>, OutputInfo), TextureFault> {
    match decoded_image(bytes) {
        Err(fault) => Err(fault),
        Ok((rgb, info)) => texture_of(rgb, info),
    }
}

/// What is read of a file is what the decoder wrote to a zeroed buffer of the size
/// that it asked for, and its description; a file is refused where the decoder
/// refuses it or the buffer does not fit in memory, and nowhere else.
pub proof fn image_is_what_the_decoder_wrote(bytes: Seq<u8>)
    ensures
        match png_output_buffer_size(bytes) {
            None => decoded_image(bytes) matches Err(fault) && fault is Decode,
            Some(size) if size > isize::MAX => decoded_image(bytes) matches Err(fault)
                && fault is TooLarge,
            Some(size) => {
                let (written, described) = png_next_frame(
                    bytes,
                    Seq::new(size as nat, |i: int| 0u8),
                );
                match described {
                    None => decoded_image(bytes) matches Err(fault) && fault is Decode,
                    Some(info) => decoded_image(bytes) matches Ok((pixels, read)) && pixels
                        == written && read == info,
                }
            },
        },
{
    if let Some(size) = png_output_buffer_size(bytes) {
        assert(zeros(size as nat) =~= Seq::new(size as nat, |i: int| 0u8));
    }
}

/// A texture is made of every image of whole triples that fits in memory, and of no
/// other: its pixels are those of the image with alpha, and of the description
/// only the colour type changes.
pub proof fn texture_is_the_image_with_alpha(rgb: Seq<u8>, info: OutputInfo)
    ensures
        rgb.len() % 3 != 0 ==> (texture_of(rgb, info) matches Err(fault) && fault is NotRgb),
        rgb.len() % 3 == 0 && rgb.len() / 3 * 4 > isize::MAX ==> (texture_of(
            rgb,
            info,
        ) matches Err(fault) && fault is TooLarge),
        rgb.len() % 3 == 0 && rgb.len() / 3 * 4 <= isize::MAX ==> (texture_of(
            rgb,
            info,
        ) matches Ok((rgba, described)) && {
            &&& 3 * rgba.len() == 4 * rgb.len()
            &&& forall|pixel: int, channel: int|
                0 <= pixel < rgb.len() / 3 && 0 <= channel < 3 ==> #[trigger] rgba[4 * pixel
                    + channel] == rgb[3 * pixel + channel]
            &&& forall|pixel: int|
                0 <= pixel < rgb.len() / 3 ==> #[trigger] rgba[4 * pixel + 3] == 255
            &&& described.width == info.width
            &&& described.height == info.height
            &&& described.bit_depth == info.bit_depth
            &&& described.line_size == info.line_size
            &&& described.color_type == PNG_COLOR_RGBA
        }),
{
    if rgb.len() % 3 == 0 {
        widening_keeps_every_sample(rgb);
    }
}

/// The texture of a file shows the file: every colour is the sample that the decoder
/// wrote for it, every pixel is opaque, and the size is that of the frame. Where the
/// decoder writes whole triples that fit in memory, there is a texture.
pub proof fn texture_shows_the_file(bytes: Seq<u8>, size: usize, info: OutputInfo)
    requires
        png_output_buffer_size(bytes) == Some(size),
        size <= isize::MAX,
        png_next_frame(bytes, Seq::new(size as nat, |i: int| 0u8)).1 == Some(info),
        png_next_frame(bytes, Seq::new(size as nat, |i: int| 0u8)).0.len() % 3 == 0,
        png_next_frame(bytes, Seq::new(size as nat, |i: int| 0u8)).0.len() / 3 * 4 <= isize::MAX,
    ensures
        ({
            let written = png_next_frame(bytes, Seq::new(size as nat, |i: int| 0u8)).0;
            &&& loaded_texture(bytes) matches Ok((rgba, described))
            &&& 3 * rgba.len() == 4 * written.len()
            &&& forall|pixel: int, channel: int|
                0 <= pixel < written.len() / 3 && 0 <= channel < 3 ==> #[trigger] rgba[4 * pixel
                    + channel] == written[3 * pixel + channel]
            &&& forall|pixel: int|
                0 <= pixel < written.len() / 3 ==> #[trigger] rgba[4 * pixel + 3] == 255
            &&& described.width == info.width
            &&& described.height == info.height
            &&& described.bit_depth == info.bit_depth
            &&& described.line_size == info.line_size
            &&& described.color_type == PNG_COLOR_RGBA
        }),
{
    let written = png_next_frame(bytes, Seq::new(size as nat, |i: int| 0u8)).0;
    image_is_what_the_decoder_wrote(bytes);
    texture_is_the_image_with_alpha(written, info);
}

/// A file that cannot be read gives no texture, for the same reason; nor does one
/// whose pixels are not whole triples, or do not fit in memory with alpha.
pub proof fn textures_are_refused_for_a_reason(bytes: Seq<u8>)
    ensures
        match decoded_image(bytes) {
            Err(fault) => loaded_texture(bytes) matches Err(given) && given == fault,
            Ok((rgb, _)) => (loaded_texture(bytes) matches Err(fault) && fault is NotRgb <==> rgb.len()
                % 3 != 0) && (loaded_texture(bytes) matches Err(fault) && fault is TooLarge
                <==> rgb.len() % 3 == 0 && rgb.len() / 3 * 4 > isize::MAX) && !(loaded_texture(
                bytes,
            ) matches Err(fault) && fault is Decode),
        },
{
}

/// Whether the file `bytes` is decoded to eight-bit red, green and blue samples.
pub open spec fn holds_rgb8(bytes: Seq<u8>) -> bool {
    decoded_image(bytes) matches Ok((_, info)) && is_rgb8(info)
}

/// Makes a texture of the PNG file `bytes`.
///
/// A file with eight-bit red, green and blue samples is refused only where its
/// pixels do not fit in memory. They cover the whole extent of the first frame,
/// with none left over exactly when the frame is as large as the image of the
/// header, as it is in a still image.
pub fn load_texture(bytes: &[u8]) -> (texture: Result<Texture, TextureError>)
    ensures
        match texture {
            Ok(t) => loaded_texture(bytes@) == Ok::<_, TextureFault>((t.pixels@, t.info)),
            Err(error) => loaded_texture(bytes@) == Err::<(Seq<u8>, OutputInfo), _>(error.fault()),
        },
        holds_rgb8(bytes@) ==> (texture matches Err(error) ==> error.fault() is TooLarge),
        texture matches Ok(t) ==> (holds_rgb8(bytes@) ==> t.covers_extent() && (t.fills_extent()
            <==> is_whole_image(t.info, bytes@))),
        texture matches Ok(t) ==> (!may_hold_frame_control(bytes@) ==> is_whole_image(
            t.info,
            bytes@,
        )),
        texture matches Ok(t) ==> (holds_rgb8(bytes@) && !may_hold_frame_control(bytes@)
            ==> t.fills_extent()),
        texture matches Ok(t) ==> (png_output_buffer_size(bytes@) matches Some(size) && {
            let written = png_next_frame(bytes@, Seq::new(size as nat, |i: int| 0u8)).0;
            &&& 3 * t.pixels@.len() == 4 * written.len()
            &&& forall|pixel: int, channel: int|
                0 <= pixel < written.len() / 3 && 0 <= channel < 3 ==> #[trigger] t.pixels@[4
                    * pixel + channel] == written[3 * pixel + channel]
            &&& forall|pixel: int|
                0 <= pixel < written.len() / 3 ==> #[trigger] t.pixels@[4 * pixel + 3] == 255
        }),
{
    match read_img(bytes) {
        Ok((rgb_vec, info)) => {
            proof {
                frames_fit_in_the_image(info, bytes@);
                image_is_what_the_decoder_wrote(bytes@);
                texture_is_the_image_with_alpha(rgb_vec@, info);
            }
            texture_from_image(rgb_vec, info)
        },
        Err(error) => Err(error),
    }
}

/// Bytes of the pixels of all `textures` together.
pub open spec fn total_size(textures: Seq<Texture>) -> nat
    decreases textures.len(),
{
    if textures.len() == 0 {
        0
    } else {
        total_size(textures.drop_last()) + textures.last().pixels@.len()
    }
}

/// Leaving textures out does not make the total larger.
proof fn lemma_total_size_grows(textures: Seq<Texture>, count: int)
    requires
        0 <= count <= textures.len(),
    ensures
        total_size(textures.take(count)) <= total_size(textures),
    decreases textures.len(),
{
    if count == textures.len() {
        assert(textures.take(count) =~= textures);
    } else {
        assert(textures.drop_last().take(count) =~= textures.take(count));
        lemma_total_size_grows(textures.drop_last(), count);
    }
}

/// The total is the sum over the textures: each counts with its pixels, whatever
/// stands beside it.
pub proof fn total_is_the_sum_of_the_textures(first: Seq<Texture>, second: Seq<Texture>)
    ensures
        total_size(first + second) == total_size(first) + total_size(second),
        first.len() == 0 ==> total_size(first) == 0,
        first.len() == 1 ==> total_size(first) == first[0].pixels@.len(),
    decreases second.len(),
{
    reveal_with_fuel(total_size, 2);
    if second.len() == 0 {
        assert(first + second =~= first);
    } else {
        assert((first + second).drop_last() =~= first + second.drop_last());
        total_is_the_sum_of_the_textures(first, second.drop_last());
    }
}

/// Bytes of the pixels of all `textures` together.
pub fn img_mem_size(textures: &[Texture]) -> (size: u64)
    requires
        total_size(textures@) <= u64::MAX,
    ensures
        size == total_size(textures@),
{
    let mut size: u64 = 0;
    let mut i: usize = 0;
    while i < textures.len()
        invariant
            i <= textures@.len(),
            size == total_size(textures@.take(i as int)),
            total_size(textures@) <= u64::MAX,
        decreases textures@.len() - i,
    {
        proof {
            lemma_total_size_grows(textures@, i + 1);
            assert(textures@.take(i + 1).drop_last() =~= textures@.take(i as int));
        }
        size += textures[i].pixels.len() as u64;
        i += 1;
    }
    assert(textures@.take(i as int) =~= textures@);
    size
}

/// Bytes that the elements of `items` take in memory.
pub open spec fn bytes_of<T>(items: Seq<T>) -> nat {
    vstd::layout::size_of::<T>() * items.len()
}

/// Bytes that the elements of `slice` take in memory.
pub fn slice_size<T: Copy>(slice: &[T]) -> (size: usize)
    ensures
        size == bytes_of(slice@),
{
    broadcast use vstd::layout::layout_of_slices;

    proof {
        vstd::arithmetic::mul::lemma_mul_is_commutative(
            vstd::layout::size_of::<T>() as int,
            slice@.len() as int,
        );
    }
    std::mem::size_of_val(slice)
}

/// Wherever a slice is cut in two, its size is the sum of the sizes of the parts;
/// one element has the size of its type, and none has no size.
pub proof fn slice_size_is_the_sum_of_its_parts<T>(items: Seq<T>, k: int)
    requires
        0 <= k <= items.len(),
    ensures
        bytes_of(items) == bytes_of(items.take(k)) + bytes_of(items.skip(k)),
        items.len() == 1 ==> bytes_of(items) == vstd::layout::size_of::<T>(),
        items.len() == 0 ==> bytes_of(items) == 0,
{
    vstd::arithmetic::mul::lemma_mul_is_distributive_add(
        vstd::layout::size_of::<T>() as int,
        k,
        items.len() - k,
    );
    vstd::arithmetic::mul::lemma_mul_basics(vstd::layout::size_of::<T>() as int);
}

} // verus!
