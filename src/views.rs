//! What the player window shows of the service's state, and the rounding of the cover image.
use vstd::prelude::*;
use vstd::arithmetic::div_mod::lemma_fundamental_div_mod_converse;
use crate::media::{Bitmap, MediaTrack};

verus! {

/// How far `coord` lies inside the rounded corner band of an axis of length `len`; zero
/// away from both ends.
pub open spec fn corner_distance(coord: int, len: int, radius: int) -> int {
    if coord < radius {
        radius - coord
    } else if coord >= len - radius {
        coord - (len - radius - 1)
    } else {
        0
    }
}

/// The alpha of pixel (`x`, `y`) of a `w` by `h` image with corners rounded by `radius`:
/// opaque inside the rounding circle (and away from the corners), transparent outside.
pub open spec fn rounded_alpha(x: int, y: int, w: int, h: int, radius: int) -> u8 {
    let dx = corner_distance(x, w, radius);
    let dy = corner_distance(y, h, radius);
    if dx * dx + dy * dy <= radius * radius || (dx == 0 && dy == 0) {
        255
    } else {
        0
    }
}

impl Bitmap {
    /// Four bytes for each of the `width * height` pixels.
    pub open spec fn wf(&self) -> bool {
        self.pixels@.len() == 4 * (self.width as int * self.height as int)
    }
}

fn corner_distance_exec(coord: u32, len: u32, radius: u32) -> (r: u32)
    requires
        coord < len,
    ensures
        r == corner_distance(coord as int, len as int, radius as int),
        r <= radius,
{
    if coord < radius {
        radius - coord
    } else if coord >= len - radius {
        coord - (len - radius - 1)
    } else {
        0
    }
}

/// Rounds the corners of `img` with `radius`: each pixel's alpha becomes `rounded_alpha`,
/// the colour bytes stay.
pub fn apply_border_radius(img: &mut Bitmap, radius: u32)
    requires
        old(img).wf(),
    ensures
        final(img).width == old(img).width,
        final(img).height == old(img).height,
        final(img).pixels@.len() == old(img).pixels@.len(),
        forall|i: int|
            0 <= i < old(img).pixels@.len() && i % 4 != 3 ==> #[trigger] final(img).pixels@[i]
                == old(img).pixels@[i],
        forall|p: int|
            0 <= p < old(img).width as int * old(img).height as int ==> #[trigger] final(img).pixels@[4
                * p + 3] == rounded_alpha(
                p % old(img).width as int,
                p / old(img).width as int,
                old(img).width as int,
                old(img).height as int,
                radius as int,
            ),
{
    let w = img.width;
    let h = img.height;
    let n = img.pixels.len();
    let ghost old_pixels = img.pixels@;
    assert(w as int * h as int <= 0xffff_ffff_ffff_ffff) by (nonlinear_arith)
        requires
            w <= 0xffff_ffff,
            h <= 0xffff_ffff,
    ;
    let total: u64 = w as u64 * h as u64;
    if total == 0 {
        return;
    }
    assert(w > 0 && h > 0 && 0 == 0 * w as int) by (nonlinear_arith)
        requires
            total == w as int * h as int,
            total != 0,
    ;
    let mut p: u64 = 0;
    let mut x: u32 = 0;
    let mut y: u32 = 0;
    while p < total
        invariant
            w == img.width,
            h == img.height,
            w > 0,
            total == w as int * h as int,
            n == img.pixels@.len(),
            n == 4 * total,
            n == old_pixels.len(),
            p <= total,
            p < total ==> x < w && y < h && p == y as int * w as int + x as int,
            forall|i: int| 0 <= i < n && i % 4 != 3 ==> #[trigger] img.pixels@[i] == old_pixels[i],
            forall|q: int|
                0 <= q < p ==> #[trigger] img.pixels@[4 * q + 3] == rounded_alpha(
                    q % (w as int),
                    q / (w as int),
                    w as int,
                    h as int,
                    radius as int,
                ),
        decreases total - p,
    {
        proof {
            lemma_fundamental_div_mod_converse(p as int, w as int, y as int, x as int);
        }
        let dx = corner_distance_exec(x, w, radius) as u128;
        let dy = corner_distance_exec(y, h, radius) as u128;
        let r = radius as u128;
        assert(dx * dx <= r * r && dy * dy <= r * r && r * r < 0x1_0000_0000_0000_0000)
            by (nonlinear_arith)
            requires
                dx <= r,
                dy <= r,
                r < 0x1_0000_0000,
        ;
        let is_inside = dx * dx + dy * dy <= r * r;
        let alpha: u8 = if is_inside || (dx == 0 && dy == 0) {
            255
        } else {
            0
        };
        let idx = (4 * p + 3) as usize;
        img.pixels.set(idx, alpha);
        if x + 1 < w {
            x = x + 1;
        } else {
            x = 0;
            y = y + 1;
            assert(y as int * w as int == (y - 1) as int * w as int + w as int) by (nonlinear_arith);
        }
        p = p + 1;
        if p < total {
            assert(y < h) by (nonlinear_arith)
                requires
                    p < total,
                    total == w as int * h as int,
                    p == y as int * w as int + x as int,
                    x >= 0,
            ;
        }
    }
}

/// The title and subtitle that the player shows: the track's title and artist, or a
/// placeholder when nothing plays.
pub fn track_display(track: Option<&MediaTrack>) -> (r: (String, String))
    ensures
        match track {
            Some(t) => r.0@ == t.title@ && r.1@ == t.artist@,
            None => r.0@ == "No Title"@ && r.1@ == "..."@,
        },
{
    match track {
        Some(t) => (t.title.clone(), t.artist.clone()),
        None => ("No Title".to_owned(), "...".to_owned()),
    }
}

} // verus!
