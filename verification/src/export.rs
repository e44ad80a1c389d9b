//! Snapshot export: encoding a captured bitmap to a lossless image.
//!
//! The canvas backend outside this crate captures the rendered picture as a
//! row-major RGBA byte buffer, four bytes per pixel. The runtime encodes it
//! to PNG here; writing the encoded bytes to their file is the caller's
//! I/O, outside the runtime.

use vstd::prelude::*;

use crate::error::{RuntimeError, RuntimeErrorModel};

verus! {

/// The PNG encoding of a `width` by `height` RGBA bitmap: what the encoder
/// of the `image` crate produces, a function of the dimensions and the
/// pixel bytes alone.
pub uninterp spec fn png_of(width: int, height: int, pixels: Seq<u8>) -> Seq<u8>;

/// Relies on `image::write_buffer_with_format` with the PNG format: encodes
/// an RGBA byte buffer into PNG bytes in memory, deterministically in its
/// arguments; the buffer must hold exactly four bytes per pixel, which the
/// encoder demands. With both dimensions positive the encoder succeeds: its
/// only error paths on this call are a zero width or height, and every byte
/// goes to an in-memory cursor, which cannot fail.
#[verifier::external_body]
fn encode_png_rgba(width: u32, height: u32, pixels: &Vec<u8>) -> (r: Result<Vec<u8>, String>)
    requires
        pixels@.len() == 4 * (width as int) * (height as int),
    ensures
        r matches Ok(b) ==> b@ == png_of(width as int, height as int, pixels@),
        width > 0 && height > 0 ==> r is Ok,
        width == 0 || height == 0 ==> r is Err,
{
    let mut cursor = std::io::Cursor::new(Vec::new());
    let outcome = image::write_buffer_with_format(
        &mut cursor,
        pixels.as_slice(),
        width,
        height,
        image::ExtendedColorType::Rgba8,
        image::ImageFormat::Png,
    );
    match outcome {
        Ok(()) => Ok(cursor.into_inner()),
        Err(e) => Err(e.to_string()),
    }
}

/// Encode a captured bitmap to PNG. A well-formed bitmap — positive
/// dimensions, exactly four bytes per pixel — encodes, and the result is
/// exactly its PNG encoding. A buffer of the wrong length is rejected as an
/// encode failure with a fixed message; an empty dimension is rejected by
/// the encoder.
pub fn encode_bitmap(width: u32, height: u32, pixels: &Vec<u8>) -> (r: Result<
    Vec<u8>,
    RuntimeError,
>)
    ensures
        width > 0 && height > 0 && pixels@.len() == 4 * (width as int) * (height as int) ==> (
        r matches Ok(b) && b@ == png_of(width as int, height as int, pixels@)),
        r matches Ok(b) ==> pixels@.len() == 4 * (width as int) * (height as int) && b@ == png_of(
            width as int,
            height as int,
            pixels@,
        ),
        r matches Err(e) ==> e@ is Encode,
        width == 0 || height == 0 ==> r is Err,
        pixels@.len() != 4 * (width as int) * (height as int) ==> (r matches Err(e) && e@
            == (RuntimeErrorModel::Encode {
            message: "bitmap length does not match its dimensions"@,
        })),
{
    proof {
        assert((width as int) * (height as int) <= 0xffffffff * 0xffffffff) by (nonlinear_arith)
            requires
                0 <= width as int <= 0xffffffff && 0 <= height as int <= 0xffffffff,
        ;
        assert(4 * ((width as int) * (height as int)) == 4 * (width as int) * (height as int))
            by (nonlinear_arith);
    }
    let pixel_count: u64 = (width as u64) * (height as u64);
    let expected: u128 = 4u128 * (pixel_count as u128);
    if (pixels.len() as u128) != expected {
        return Err(
            RuntimeError::Encode {
                message: "bitmap length does not match its dimensions".to_owned(),
            },
        );
    }
    match encode_png_rgba(width, height, pixels) {
        Ok(bytes) => Ok(bytes),
        Err(message) => Err(RuntimeError::Encode { message }),
    }
}

} // verus!
