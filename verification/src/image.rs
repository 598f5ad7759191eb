//! In-memory RGBA8 images: the pixel payload behind textures, and the one
//! place the library decodes an outside byte format.

use vstd::prelude::*;

verus! {

/// An RGBA8 image: `data` holds exactly `width * height * 4` bytes,
/// row-major, 4 bytes per pixel.
pub struct Image {
    pub data: Vec<u8>,
    pub width: u32,
    pub height: u32,
}

/// What the png crate decodes the given byte stream to: the raw frame
/// bytes, the frame width and the frame height; nothing if the stream is
/// not a decodable png.
pub uninterp spec fn png_decoded(data: Seq<u8>) -> Option<(Seq<u8>, u32, u32)>;

/// Relies on png's `Decoder`, `Reader::output_buffer_size` and
/// `Reader::next_frame`: decoding the first frame is a pure function of the
/// input bytes, yielding the frame's bytes and its dimensions.
#[verifier::external_body]
fn decode_png(data: &[u8]) -> (r: Option<(Vec<u8>, u32, u32)>)
    ensures
        match r {
            Some(out) => png_decoded(data@) == Some((out.0@, out.1, out.2)),
            None => png_decoded(data@) is None,
        },
{
    let decoder = png::Decoder::new(std::io::Cursor::new(data));
    let mut reader = decoder.read_info().ok()?;
    let size = reader.output_buffer_size()?;
    let mut buf = vec![0u8; size];
    let info = reader.next_frame(&mut buf).ok()?;
    buf.truncate(info.buffer_size());
    Some((buf, info.width, info.height))
}

impl Image {
    /// The pixel payload is exactly `width * height` RGBA pixels.
    pub open spec fn wf(self) -> bool {
        self.data@.len() == self.width * self.height * 4
    }

    /// Creates a default image of one white pixel.
    pub fn new() -> (r: Image)
        ensures
            r.data@ == seq![255u8, 255u8, 255u8, 255u8],
            r.width == 1,
            r.height == 1,
            r.wf(),
    {
        let data = vec![255, 255, 255, 255];
        proof {
            assert(data@ =~= seq![255u8, 255u8, 255u8, 255u8]);
        }
        Self { data, width: 1, height: 1 }
    }

    /// Creates an image from raw data.
    pub fn from_raw(data: &[u8], width: u32, height: u32) -> (r: Image)
        requires
            data@.len() == width * height * 4,
        ensures
            r.data@ == data@,
            r.width == width,
            r.height == height,
            r.wf(),
    {
        Self::from_vec(vstd::slice::slice_to_vec(data), width, height)
    }

    /// Creates an image from raw data as a vector.
    pub fn from_vec(data: Vec<u8>, width: u32, height: u32) -> (r: Image)
        requires
            data@.len() == width * height * 4,
        ensures
            r.data@ == data@,
            r.width == width,
            r.height == height,
            r.wf(),
    {
        Self { data, width, height }
    }

    /// Creates an image from png data: the decoded first frame, accepted
    /// exactly when the stream decodes and the decoded frame is RGBA8
    /// (4 bytes per pixel).
    pub fn from_png(png_data: &[u8]) -> (r: Option<Image>)
        ensures
            match png_decoded(png_data@) {
                Some(out) => {
                    if out.0.len() == out.1 * out.2 * 4 {
                        match r {
                            Some(img) => img.data@ == out.0 && img.width == out.1 && img.height
                                == out.2 && img.wf(),
                            None => false,
                        }
                    } else {
                        r is None
                    }
                },
                None => r is None,
            },
    {
        match decode_png(png_data) {
            Some((buf, w, h)) => {
                proof {
                    crate::fixed::lemma_mul_bound(w as int, h as int, u32::MAX as int, u32::MAX as int);
                }
                let need: u128 = (w as u128) * (h as u128) * 4;
                if buf.len() as u128 == need {
                    Some(Self::from_vec(buf, w, h))
                } else {
                    None
                }
            },
            None => None,
        }
    }
}

} // verus!
