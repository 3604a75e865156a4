//! Declarations of the image library's types and thin trusted wrappers
//! around decoding calls.
//!
//! What a decode yields depends on the bytes alone, so its outcome gets a
//! name: contracts elsewhere can then say that a layer contributes exactly
//! when its bytes decode, and that an animation's frames and delays are
//! those of its bytes, without writing the decoder out as a specification.
//! (The image library consults a process-global decoding-hook registry
//! before its built-in formats; nothing in this program registers a hook,
//! so the outcomes are functions of the bytes here.)

use image::AnimationDecoder;
use std::io::Cursor;
use vstd::prelude::*;

use crate::asset::animated::RawFrame;
use crate::asset::image::RawImage;

verus! {

#[verifier::external_type_specification]
#[verifier::external_body]
pub struct ExDynamicImage(image::DynamicImage);

/// The outcome of decoding bytes as a still image: the pixel dimensions of
/// its RGBA conversion, or nothing when the bytes do not decode.
pub uninterp spec fn spec_decoded_dims(data: Seq<u8>) -> Option<(nat, nat)>;

/// Whether a WebP stream declares an animation.
pub uninterp spec fn spec_webp_is_animated(data: Seq<u8>) -> bool;

/// The frames an animated WebP stream decodes to — pixel dimensions, RGBA
/// bytes and millisecond-fraction delays as plain data — or nothing when
/// the stream does not parse completely.
pub uninterp spec fn spec_webp_decoded(data: Seq<u8>) -> Option<Seq<RawFrame>>;

/// The frames a GIF stream decodes to, as plain data, or nothing when the
/// stream does not parse completely.
pub uninterp spec fn spec_gif_decoded(data: Seq<u8>) -> Option<Seq<RawFrame>>;

/// Whether the bytes decode to a still image the engine can upload: at
/// least one pixel and at most the texture limit on each side.
pub open spec fn spec_decodes_usable(data: Seq<u8>) -> bool {
    match spec_decoded_dims(data) {
        Some(dims) => 1 <= dims.0 <= crate::gpu::MAX_TEXTURE_DIMENSION && 1 <= dims.1
            <= crate::gpu::MAX_TEXTURE_DIMENSION,
        None => false,
    }
}

/// Relies on `image::load_from_memory` and `DynamicImage::to_rgba8`: a
/// successful decode yields a tightly packed RGBA8 buffer holding exactly
/// four bytes per pixel of the reported dimensions, and the result depends
/// on the bytes alone.
#[verifier::external_body]
pub fn decode_image(data: &Vec<u8>) -> (r: Option<RawImage>)
    ensures
        r matches Some(img) ==> img.wf(),
        match r {
            Some(img) => spec_decoded_dims(data@) == Some(
                (img.width as nat, img.height as nat),
            ),
            None => spec_decoded_dims(data@) is None,
        },
{
    let img = image::load_from_memory(data).ok()?;
    let rgba = img.to_rgba8();
    let (width, height) = rgba.dimensions();
    Some(RawImage { width, height, rgba: rgba.into_raw() })
}

/// Relies on `DynamicImage::to_rgba8`: the converted buffer holds exactly
/// four bytes per pixel of the reported dimensions.
#[verifier::external_body]
pub fn dynamic_to_raw(img: &image::DynamicImage) -> (r: RawImage)
    ensures
        r.wf(),
{
    let rgba = img.to_rgba8();
    let (width, height) = rgba.dimensions();
    RawImage { width, height, rgba: rgba.into_raw() }
}

/// Relies on `image::codecs::webp::WebPDecoder::has_animation`: whether the
/// container declares an animation, a function of the bytes alone. A header
/// that does not parse counts as not animated.
#[verifier::external_body]
pub fn webp_has_animation(data: &Vec<u8>) -> (r: bool)
    ensures
        r == spec_webp_is_animated(data@),
{
    match image::codecs::webp::WebPDecoder::new(Cursor::new(data)) {
        Ok(decoder) => decoder.has_animation(),
        Err(_) => false,
    }
}

/// Relies on `image::codecs::webp::WebPDecoder`,
/// `AnimationDecoder::into_frames`, `Frame::buffer` and
/// `Delay::numer_denom_ms`: all frames of an animated WebP stream as plain
/// data — each a tightly packed RGBA8 buffer of its dimensions with its
/// delay as a millisecond fraction — or nothing if the stream does not
/// parse completely; the outcome depends on the bytes alone.
#[verifier::external_body]
pub fn decode_webp_frames(data: &Vec<u8>) -> (r: Option<Vec<RawFrame>>)
    ensures
        match r {
            Some(frames) => spec_webp_decoded(data@) == Some(frames@) && forall|i: int|
                0 <= i < frames@.len() ==> (#[trigger] frames@[i]).image.wf(),
            None => spec_webp_decoded(data@) is None,
        },
{
    let decoder = image::codecs::webp::WebPDecoder::new(Cursor::new(data)).ok()?;
    let frames = decoder.into_frames().collect::<Result<Vec<_>, _>>().ok()?;
    Some(frames.iter().map(|frame| {
        let buffer = frame.buffer();
        let (width, height) = buffer.dimensions();
        let (delay_numer, delay_denom) = frame.delay().numer_denom_ms();
        let image = RawImage { width, height, rgba: buffer.as_raw().clone() };
        RawFrame { image, delay_numer, delay_denom }
    }).collect())
}

/// Relies on `image::codecs::gif::GifDecoder`,
/// `AnimationDecoder::into_frames`, `Frame::buffer` and
/// `Delay::numer_denom_ms`: all frames of a GIF stream as plain data, or
/// nothing if the stream does not parse completely; the outcome depends on
/// the bytes alone.
#[verifier::external_body]
pub fn decode_gif_frames(data: &Vec<u8>) -> (r: Option<Vec<RawFrame>>)
    ensures
        match r {
            Some(frames) => spec_gif_decoded(data@) == Some(frames@) && forall|i: int|
                0 <= i < frames@.len() ==> (#[trigger] frames@[i]).image.wf(),
            None => spec_gif_decoded(data@) is None,
        },
{
    let decoder = image::codecs::gif::GifDecoder::new(Cursor::new(data)).ok()?;
    let frames = decoder.into_frames().collect::<Result<Vec<_>, _>>().ok()?;
    Some(frames.iter().map(|frame| {
        let buffer = frame.buffer();
        let (width, height) = buffer.dimensions();
        let (delay_numer, delay_denom) = frame.delay().numer_denom_ms();
        let image = RawImage { width, height, rgba: buffer.as_raw().clone() };
        RawFrame { image, delay_numer, delay_denom }
    }).collect())
}

/// Relies on `DynamicImage::resize_exact` with Lanczos filtering: the result
/// has exactly the requested dimensions.
#[verifier::external_body]
pub fn resize_exact(img: &image::DynamicImage, width: u32, height: u32) -> (r: image::DynamicImage) {
    img.resize_exact(width, height, image::imageops::FilterType::Lanczos3)
}

} // verus!
