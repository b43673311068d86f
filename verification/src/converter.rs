//! One conversion, end to end: validate the requested quality, have the
//! codec capability decode the input, enforce the resolution limit, strip
//! the row padding from the decoded pixels, and have the capability encode
//! the result.
//!
//! The pixel work itself is the external collaborator of this core: the
//! decoder and encoder are injected as plain functions, so every decision
//! around them — what is rejected, with which error, and what the encoder
//! is fed — is verified here for every behaviour of the codec.

use vstd::arithmetic::div_mod::lemma_fundamental_div_mod_converse;
use vstd::prelude::*;
use vstd::string::StringExecFns;

use crate::error::ConvertError;

verus! {

/// Conversion limits, handed read-only to every conversion.
#[derive(Debug, Clone)]
pub struct ConvertOptions {
    /// Maximum accepted width or height of the decoded image.
    pub max_resolution: u32,
    /// Lowest accepted JPEG quality.
    pub min_quality: u8,
    /// Highest accepted JPEG quality.
    pub max_quality: u8,
}

/// A decoded image as a decoder hands it back: interleaved RGB rows, each
/// occupying `stride` bytes of `data`, of which the first `3 * width`
/// bytes are pixels and the rest padding.
#[derive(Debug)]
pub struct RawImage {
    /// Width in pixels.
    pub width: u32,
    /// Height in pixels.
    pub height: u32,
    /// Bytes from the start of one row to the start of the next.
    pub stride: usize,
    /// The row-padded interleaved RGB bytes.
    pub data: Vec<u8>,
}

impl RawImage {
    /// The layout is consistent: rows are wide enough for their pixels and
    /// the buffer covers every row.
    pub open spec fn wf(&self) -> bool {
        &&& 3 * self.width <= self.stride
        &&& self.stride * self.height <= self.data@.len()
    }

    /// Runtime check of `wf`, so that nothing read from a decoder is
    /// trusted about its own layout.
    pub fn layout_ok(&self) -> (r: bool)
        ensures
            r == self.wf(),
    {
        let len: usize = self.data.len();
        match (self.width as usize).checked_mul(3) {
            Some(pixel_bytes) => {
                if pixel_bytes > self.stride {
                    return false;
                }
            },
            None => {
                return false;
            },
        }
        match self.stride.checked_mul(self.height as usize) {
            Some(row_bytes) => row_bytes <= len,
            None => false,
        }
    }
}

/// The decoded pixels with the row padding removed: byte `k` of the packed
/// buffer is byte `k % (3 * width)` of row `k / (3 * width)`.
pub open spec fn packed_pixels(img: RawImage) -> Seq<u8> {
    Seq::new(
        (3 * img.width * img.height) as nat,
        |k: int| img.data@[(k / (3 * img.width)) * img.stride + k % (3 * img.width)],
    )
}

/// Copy the pixels of every row, dropping the padding bytes at each row's
/// end: the packed buffer holds exactly `3 * width * height` bytes, row
/// after row.
pub fn pack_rows(img: &RawImage) -> (r: Vec<u8>)
    requires
        img.wf(),
    ensures
        r@ == packed_pixels(*img),
{
    let w3: usize = (img.width as usize) * 3;
    let h: usize = img.height as usize;
    let n: usize = img.data.len();
    let mut out: Vec<u8> = Vec::new();
    let mut y: usize = 0;
    while y < h
        invariant
            img.wf(),
            w3 == 3 * img.width,
            h == img.height,
            n == img.data@.len(),
            y <= h,
            out@.len() == y * w3,
            forall|k: int| 0 <= k < out@.len() ==> out@[k] == packed_pixels(*img)[k],
        decreases h - y,
    {
        let mut x: usize = 0;
        while x < w3
            invariant
                img.wf(),
                w3 == 3 * img.width,
                h == img.height,
                n == img.data@.len(),
                y < h,
                x <= w3,
                out@.len() == y * w3 + x,
                forall|k: int| 0 <= k < out@.len() ==> out@[k] == packed_pixels(*img)[k],
            decreases w3 - x,
        {
            proof {
                assert((y + 1) * img.stride <= img.height * img.stride && y * img.stride + x < (y
                    + 1) * img.stride && img.height * img.stride == img.stride * img.height)
                    by (nonlinear_arith)
                    requires
                        0 <= y,
                        y + 1 <= img.height,
                        img.stride >= 0,
                        0 <= x < w3,
                        w3 <= img.stride,
                ;
                assert(y * img.stride + x < img.data@.len());
            }
            let b: u8 = img.data[y * img.stride + x];
            out.push(b);
            proof {
                let k: int = (y as int) * w3 + x;
                assert((y as int) * w3 + x < h * w3) by (nonlinear_arith)
                    requires
                        0 <= y < h,
                        0 <= x < w3,
                ;
                assert(h * w3 == 3 * img.width * img.height) by (nonlinear_arith)
                    requires
                        w3 == 3 * img.width,
                        h == img.height,
                ;
                lemma_fundamental_div_mod_converse(k, w3 as int, y as int, x as int);
                assert(packed_pixels(*img)[k] == img.data@[(y as int) * img.stride + x]);
                assert(out@[k] == b);
                assert(out@[k] == packed_pixels(*img)[k]);
                assert((y as int) * w3 + (x + 1) == k + 1);
            }
            x += 1;
        }
        proof {
            assert(((y as int) + 1) * w3 == (y as int) * w3 + w3) by (nonlinear_arith);
        }
        y += 1;
    }
    proof {
        assert(h * w3 == 3 * img.width * img.height) by (nonlinear_arith)
            requires
                w3 == 3 * img.width,
                h == img.height,
        ;
        assert(out@ =~= packed_pixels(*img));
    }
    out
}

/// Whether `quality` lies within the configured bounds.
pub open spec fn quality_in_range(quality: u8, options: ConvertOptions) -> bool {
    options.min_quality <= quality && quality <= options.max_quality
}

/// `q` forced into `[lo, hi]`, biased to `lo` when the bounds cross.
pub open spec fn spec_clamp(q: u8, lo: u8, hi: u8) -> u8 {
    if q < lo {
        lo
    } else if q > hi {
        hi
    } else {
        q
    }
}

/// Force a quality into the configured bounds.
pub fn clamp_quality(quality: u8, lo: u8, hi: u8) -> (r: u8)
    ensures
        r == spec_clamp(quality, lo, hi),
{
    if quality < lo {
        lo
    } else if quality > hi {
        hi
    } else {
        quality
    }
}

/// What `convert` returns once the decoder has produced `raw`: the exact
/// oversize rejection when a dimension exceeds the limit, a decode error
/// when the decoder's layout is inconsistent, and otherwise whatever the
/// encoder returns for exactly the packed pixels at the validated quality.
pub open spec fn decoded_disposition<E: FnOnce(Vec<u8>, u32, u32, u8) -> Result<
    Vec<u8>,
    ConvertError,
>>(
    raw: RawImage,
    options: ConvertOptions,
    quality: u8,
    encode: E,
    r: Result<Vec<u8>, ConvertError>,
) -> bool {
    if raw.width > options.max_resolution || raw.height > options.max_resolution {
        r == Err::<Vec<u8>, ConvertError>(
            ConvertError::ImageTooLarge {
                width: raw.width,
                height: raw.height,
                max: options.max_resolution,
            },
        )
    } else if !raw.wf() {
        r matches Err(ConvertError::DecodeError(_))
    } else {
        exists|pv: Vec<u8>|
            pv@ == packed_pixels(raw) && #[trigger] call_ensures(
                encode,
                (pv, raw.width, raw.height, quality),
                r,
            )
    }
}

/// Convert one HEIC input to JPEG bytes through the injected codec
/// capability: reject a quality outside the configured bounds before any
/// pixel work, pass a decode failure on verbatim, reject an oversize
/// image exactly, and otherwise feed the encoder the packed pixels at the
/// requested quality.
pub fn convert<
    D: FnOnce(Vec<u8>) -> Result<RawImage, ConvertError>,
    E: FnOnce(Vec<u8>, u32, u32, u8) -> Result<Vec<u8>, ConvertError>,
>(
    heic_data: Vec<u8>,
    quality: u8,
    options: &ConvertOptions,
    decode: D,
    encode: E,
) -> (r: Result<Vec<u8>, ConvertError>)
    requires
        call_requires(decode, (heic_data,)),
        forall|a: (Vec<u8>, u32, u32, u8)| #[trigger] call_requires(encode, a),
    ensures
        !quality_in_range(quality, *options) ==> r == Err::<Vec<u8>, ConvertError>(
            ConvertError::InvalidQuality(quality),
        ),
        quality_in_range(quality, *options) ==> {
            ||| (exists|e: ConvertError|
                #[trigger] call_ensures(decode, (heic_data,), Err(e)) && r == Err::<
                    Vec<u8>,
                    ConvertError,
                >(e))
            ||| (exists|raw: RawImage|
                #[trigger] call_ensures(decode, (heic_data,), Ok(raw)) && decoded_disposition(
                    raw,
                    *options,
                    quality,
                    encode,
                    r,
                ))
        },
{
    if quality < options.min_quality || quality > options.max_quality {
        return Err(ConvertError::InvalidQuality(quality));
    }
    let raw = match decode(heic_data) {
        Ok(raw) => raw,
        Err(e) => {
            return Err(e);
        },
    };
    if raw.width > options.max_resolution || raw.height > options.max_resolution {
        return Err(
            ConvertError::ImageTooLarge {
                width: raw.width,
                height: raw.height,
                max: options.max_resolution,
            },
        );
    }
    if !raw.layout_ok() {
        return Err(
            ConvertError::DecodeError(String::from_str("decoded image layout is inconsistent")),
        );
    }
    let width = raw.width;
    let height = raw.height;
    let rgb = pack_rows(&raw);
    let q = clamp_quality(quality, options.min_quality, options.max_quality);
    let ghost packed_arg = rgb;
    let out = encode(rgb, width, height, q);
    proof {
        assert(q == quality);
        assert(packed_arg@ == packed_pixels(raw));
        assert(call_ensures(encode, (packed_arg, width, height, quality), out));
    }
    out
}

} // verus!
