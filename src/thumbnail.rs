//! Turns the bytes of a thumbnail stream into a cover, or into the "no cover" fallback.
use vstd::prelude::*;
use crate::media::{AlbumCover, Bitmap, CoverView};

verus! {

/// What the image decoder makes of a byte buffer, with the format told by the built-in
/// signatures: width, height and RGBA pixel bytes, or `None` where no built-in format is
/// recognised or the data does not decode.
pub uninterp spec fn rgba_decoded(data: Seq<u8>) -> Option<(u32, u32, Seq<u8>)>;

/// Relies on `image::guess_format` (built-in signatures only), `image::ImageReader::with_format`,
/// `decode` and `to_rgba8`: a built-in format never consults the registered hooks, and the
/// RGBA buffer holds four bytes per pixel.
#[verifier::external_body]
fn decode_rgba(data: &Vec<u8>) -> (r: Option<Bitmap>)
    ensures
        match r {
            Some(b) => rgba_decoded(data@) == Some((b.width, b.height, b.pixels@))
                && b.pixels@.len() == 4 * (b.width as int * b.height as int),
            None => rgba_decoded(data@) is None,
        },
{
    let format = image::guess_format(data).ok()?;
    let reader = image::ImageReader::with_format(std::io::Cursor::new(data.clone()), format);
    let img = reader.decode().ok()?.to_rgba8();
    Some(Bitmap { width: img.width(), height: img.height(), pixels: img.into_raw() })
}

/// The cover that a decoder outcome stands for.
pub open spec fn decoded_cover(decoded: Option<(u32, u32, Seq<u8>)>) -> CoverView {
    match decoded {
        Some((w, h, px)) => CoverView::Image(w, h, px),
        None => CoverView::NoCover,
    }
}

/// The cover that a thumbnail stream gives: the decoded image when the stream is readable,
/// delivered exactly its declared number of bytes and those bytes decode; else no cover.
pub open spec fn thumbnail_spec(readable: bool, declared_size: u64, data: Seq<u8>) -> CoverView {
    if !readable || data.len() != declared_size {
        CoverView::NoCover
    } else {
        decoded_cover(rgba_decoded(data))
    }
}

/// Makes a cover from what the decoder returned; a failed decode is the "no cover" fallback.
pub fn cover_from_decoded(decoded: Option<Bitmap>) -> (r: AlbumCover)
    ensures
        r@ == (match decoded {
            Some(b) => CoverView::Image(b.width, b.height, b.pixels@),
            None => CoverView::NoCover,
        }),
{
    match decoded {
        Some(b) => AlbumCover::Image(b),
        None => AlbumCover::NoCover,
    }
}

/// Reads a cover from a thumbnail stream: `readable` is what the stream reported,
/// `declared_size` the length it announced, and `data` the bytes that could be loaded.
/// An unreadable stream, a short or long read, or undecodable data gives `NoCover`.
pub fn read_thumbnail(readable: bool, declared_size: u64, data: Vec<u8>) -> (r: AlbumCover)
    ensures
        r@ == thumbnail_spec(readable, declared_size, data@),
        r matches AlbumCover::Image(b) ==> b.wf(),
{
    if !readable {
        return AlbumCover::NoCover;
    }
    if data.len() as u64 != declared_size {
        return AlbumCover::NoCover;
    }
    let decoded = decode_rgba(&data);
    cover_from_decoded(decoded)
}

} // verus!
