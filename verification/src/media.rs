//! Media-type classification of files, the size an image is shown at, and the
//! channel order of rendered pages.

use vstd::prelude::*;
use vstd::string::*;
use crate::text::same_text;

verus! {

/// Largest width an image is shown at.
pub const IMAGE_MAX_WIDTH: u32 = 800;

/// Largest height an image is shown at.
pub const IMAGE_MAX_HEIGHT: u32 = 600;

/// Width that the first page of a document is rendered at.
pub const PAGE_WIDTH: u32 = 800;

/// Quiet period before a media player is mounted, in milliseconds.
pub const VIDEO_DEBOUNCE_MS: u64 = 200;

/// How a file is previewed.
#[derive(Clone, Copy, Debug, PartialEq, Eq, Structural)]
pub enum FileKind {
    Image,
    Pdf,
    Text,
    Video,
    Generic,
}

/// The first media type that `new_mime_guess` associates with the extension of
/// a path, as its top-level type and its subtype; `None` where it knows none.
/// The extension is the one that a Unix build finds, with `/` between the
/// parts of a path.
pub uninterp spec fn guessed_media_type(path: Seq<char>) -> Option<(Seq<char>, Seq<char>)>;

/// A guess as plain sequences.
pub open spec fn guess_view(guess: Option<(String, String)>) -> Option<(Seq<char>, Seq<char>)> {
    match guess {
        Some(pair) => Some((pair.0@, pair.1@)),
        None => None,
    }
}

/// The preview that belongs to a guessed media type: images, PDF documents,
/// text and video each have their own, everything else and a missing guess
/// get the generic one.
pub open spec fn kind_of_media(guess: Option<(Seq<char>, Seq<char>)>) -> FileKind {
    match guess {
        None => FileKind::Generic,
        Some(pair) => {
            if pair.0 == "image"@ {
                FileKind::Image
            } else if pair.0 == "application"@ && pair.1 == "pdf"@ {
                FileKind::Pdf
            } else if pair.0 == "text"@ {
                FileKind::Text
            } else if pair.0 == "video"@ {
                FileKind::Video
            } else {
                FileKind::Generic
            }
        },
    }
}

/// Calls `new_mime_guess::from_path` and takes the `first` guess, handing out
/// the `type_` and `subtype` of the `mime::Mime` as strings. The lookup goes by
/// the path's extension in a table compiled into the crate and touches no
/// disk; the contract only names the result.
#[verifier::external_body]
fn guess_media_type(path: &str) -> (guess: Option<(String, String)>)
    ensures
        guess_view(guess) == guessed_media_type(path@),
{
    match new_mime_guess::from_path(path).first() {
        Some(m) => Some((m.type_().as_str().to_string(), m.subtype().as_str().to_string())),
        None => None,
    }
}

/// Picks the preview for a guessed media type.
pub fn classify_media(guess: &Option<(String, String)>) -> (kind: FileKind)
    ensures
        kind == kind_of_media(guess_view(*guess)),
{
    match guess {
        None => FileKind::Generic,
        Some(pair) => {
            if same_text(pair.0.as_str(), "image") {
                FileKind::Image
            } else if same_text(pair.0.as_str(), "application") && same_text(pair.1.as_str(), "pdf") {
                FileKind::Pdf
            } else if same_text(pair.0.as_str(), "text") {
                FileKind::Text
            } else if same_text(pair.0.as_str(), "video") {
                FileKind::Video
            } else {
                FileKind::Generic
            }
        },
    }
}

/// Picks the preview for a file by its path alone.
pub fn file_kind(path: &str) -> (kind: FileKind)
    ensures
        kind == kind_of_media(guessed_media_type(path@)),
{
    let guess = guess_media_type(path);
    classify_media(&guess)
}

/// The size an image of `w` by `h` pixels is shown at: its own where it fits
/// into 800 by 600, else the largest size of the same aspect ratio that fits,
/// rounded down. Either way it is at least one pixel each way.
pub open spec fn fitted_size(w: int, h: int) -> (int, int) {
    if w <= 800 && h <= 600 {
        (if w < 1 { 1 } else { w }, if h < 1 { 1 } else { h })
    } else if w * 600 >= h * 800 {
        (800, if h * 800 / w < 1 { 1 } else { h * 800 / w })
    } else {
        (if w * 600 / h < 1 { 1 } else { w * 600 / h }, 600)
    }
}

/// An image that is shown is at least one pixel and at most 800 by 600, keeps
/// its size where it fits, and is cut down on the side that binds: the other
/// side is the rounded-down share that keeps the aspect ratio.
pub proof fn lemma_fitted_size(w: int, h: int)
    requires
        0 <= w,
        0 <= h,
    ensures
        1 <= fitted_size(w, h).0 <= 800,
        1 <= fitted_size(w, h).1 <= 600,
        1 <= w ==> fitted_size(w, h).0 <= w,
        1 <= h ==> fitted_size(w, h).1 <= h,
        (1 <= w <= 800 && 1 <= h <= 600) ==> fitted_size(w, h) == (w, h),
        (w > 800 || h > 600) ==> (fitted_size(w, h).0 == 800 || fitted_size(w, h).1 == 600),
        (w > 800 || h > 600) && w * 600 >= h * 800 && h * 800 >= w ==> fitted_size(w, h).1 * w
            <= h * 800 < (fitted_size(w, h).1 + 1) * w,
        (w > 800 || h > 600) && w * 600 < h * 800 && w * 600 >= h ==> fitted_size(w, h).0 * h
            <= w * 600 < (fitted_size(w, h).0 + 1) * h,
{
    if w <= 800 && h <= 600 {
    } else if w * 600 >= h * 800 {
        let q = h * 800 / w;
        assert(w >= 1);
        assert(q * w <= h * 800 < (q + 1) * w && 0 <= q <= 600 && q <= h) by (nonlinear_arith)
            requires
                q == h * 800 / w,
                w >= 1,
                h >= 0,
                w * 600 >= h * 800,
                w > 800 || h > 600,
        ;
    } else {
        let q = w * 600 / h;
        assert(h > 600);
        assert(q * h <= w * 600 < (q + 1) * h && 0 <= q <= 800 && q <= w) by (nonlinear_arith)
            requires
                q == w * 600 / h,
                w >= 0,
                h > 600,
                w * 600 < h * 800,
        ;
    }
}

/// Computes the size at which a decoded image of `width` by `height` pixels is
/// shown.
pub fn fit_image(width: u32, height: u32) -> (size: (u32, u32))
    ensures
        (size.0 as int, size.1 as int) == fitted_size(width as int, height as int),
{
    if width <= IMAGE_MAX_WIDTH && height <= IMAGE_MAX_HEIGHT {
        return (if width < 1 { 1 } else { width }, if height < 1 { 1 } else { height });
    }
    let w: u64 = width as u64;
    let h: u64 = height as u64;
    if w * 600 >= h * 800 {
        assert(w >= 1);
        let q: u64 = h * 800 / w;
        assert(q <= 600) by (nonlinear_arith)
            requires
                q as int == (h as int * 800) / (w as int),
                w >= 1,
                w as int * 600 >= h as int * 800,
        ;
        (800, if q < 1 { 1 } else { q as u32 })
    } else {
        assert(h >= 1);
        let q: u64 = w * 600 / h;
        assert(q <= 800) by (nonlinear_arith)
            requires
                q as int == (w as int * 600) / (h as int),
                h >= 1,
                (w as int) * 600 < (h as int) * 800,
        ;
        (if q < 1 { 1 } else { q as u32 }, 600)
    }
}

/// A pixel buffer with the first and third byte of every whole group of four
/// exchanged; bytes behind the last whole group stay.
pub open spec fn swapped_channels(s: Seq<u8>) -> Seq<u8> {
    Seq::new(
        s.len(),
        |i: int|
            if i / 4 * 4 + 4 <= s.len() {
                if i % 4 == 0 {
                    s[i + 2]
                } else if i % 4 == 2 {
                    s[i - 2]
                } else {
                    s[i]
                }
            } else {
                s[i]
            },
    )
}

/// Exchanges the red and the blue channel of every pixel of four bytes.
pub fn swap_red_blue(data: &mut Vec<u8>)
    ensures
        final(data)@ == swapped_channels(old(data)@),
{
    let n: usize = data.len();
    let mut i: usize = 0;
    while n - i >= 4
        invariant
            i <= n,
            i % 4 == 0,
            data@.len() == n,
            n == old(data)@.len(),
            forall|j: int| 0 <= j < i ==> data@[j] == swapped_channels(old(data)@)[j],
            forall|j: int| i <= j < n ==> data@[j] == old(data)@[j],
        decreases n - i,
    {
        let red: u8 = data[i];
        let blue: u8 = data[i + 2];
        data.set(i, blue);
        data.set(i + 2, red);
        i += 4;
    }
    assert(data@ =~= swapped_channels(old(data)@));
}

} // verus!
