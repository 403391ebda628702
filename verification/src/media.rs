//! Spotify Desktop through the Windows media controls: picking Spotify's
//! session among the open media sessions, the track timeline, the result of
//! opening a `spotify:` URI through the shell, and decoding album art.
//!
//! The Windows calls themselves belong to the host application; what it
//! reads is handed here as plain values.

use vstd::prelude::*;
use crate::text::{chars_of, contains, contains_exec, lower, lowercase_chars};

verus! {

/// Title, artist and album of the track Spotify reports.
pub struct NowPlaying {
    pub title: String,
    pub artist: String,
    pub album: String,
}

impl Clone for NowPlaying {
    fn clone(&self) -> (out: Self)
        ensures
            out.title@ == self.title@,
            out.artist@ == self.artist@,
            out.album@ == self.album@,
    {
        NowPlaying {
            title: self.title.clone(),
            artist: self.artist.clone(),
            album: self.album.clone(),
        }
    }
}

/// A media session belongs to Spotify when its application id, lower-cased,
/// contains `spotify`.
pub open spec fn is_spotify_app(app_id: Seq<char>) -> bool {
    contains(lower(app_id), "spotify"@)
}

/// Whether the media session with application id `app_id` is Spotify's.
pub fn is_spotify_app_id(app_id: &str) -> (r: bool)
    ensures
        r == is_spotify_app(app_id@),
{
    let l = lowercase_chars(&chars_of(app_id));
    let pat = chars_of("spotify");
    contains_exec(&l, &pat)
}

/// Index of the first session, among the application ids of the open media
/// sessions, that is Spotify's; `None` when Spotify has no session.
pub fn spotify_session_index(app_ids: &Vec<String>) -> (r: Option<usize>)
    ensures
        r matches Some(i) ==> i < app_ids@.len() && is_spotify_app(app_ids@[i as int]@) && forall|
            k: int,
        |
            0 <= k < i ==> !is_spotify_app(#[trigger] app_ids@[k]@),
        r is None ==> forall|k: int|
            0 <= k < app_ids@.len() ==> !is_spotify_app(#[trigger] app_ids@[k]@),
{
    let mut i: usize = 0;
    while i < app_ids.len()
        invariant
            i <= app_ids.len(),
            forall|k: int| 0 <= k < i ==> !is_spotify_app(#[trigger] app_ids@[k]@),
        decreases app_ids.len() - i,
    {
        if is_spotify_app_id(app_ids[i].as_str()) {
            return Some(i);
        }
        i = i + 1;
    }
    None
}

/// Ticks (100 ns units, as in `TimeSpan::Duration`) per millisecond.
pub const TICKS_PER_MS: i64 = 10_000;

/// Position and length in milliseconds from a timeline given in ticks: no
/// timeline when the end is not positive; a negative position counts as 0;
/// values beyond `u32` wrap as `as u32` does.
pub open spec fn timeline_ms_of(position: i64, end: i64) -> Option<(u32, u32)> {
    if end <= 0 {
        None
    } else {
        let p: i64 = if position < 0 {
            0
        } else {
            position
        };
        Some(((p / TICKS_PER_MS) as u32, (end / TICKS_PER_MS) as u32))
    }
}

/// Converts the session's timeline (position and end, in ticks) into
/// milliseconds; `None` when the session reports no length.
pub fn timeline_from_ticks(position: i64, end: i64) -> (r: Option<(u32, u32)>)
    ensures
        r == timeline_ms_of(position, end),
{
    if end <= 0 {
        return None;
    }
    let p: i64 = if position < 0 {
        0
    } else {
        position
    };
    Some(((p / TICKS_PER_MS) as u32, (end / TICKS_PER_MS) as u32))
}

/// `ShellExecuteW` reports success with a value greater than 32; 32 or less
/// is an error code.
pub fn shell_execute_succeeded(code: isize) -> (ok: bool)
    ensures
        ok == (code > 32),
{
    code > 32
}

/// What the image decoder makes of the encoded bytes of a picture: its width,
/// height and RGBA pixels, or nothing when the bytes are not a picture it
/// can read.
pub uninterp spec fn decoded_rgba(bytes: Seq<u8>) -> Option<(u32, u32, Seq<u8>)>;

/// `image::load_from_memory` followed by `to_rgba8`. The result is the
/// decoder's reading of the bytes (named by `decoded_rgba`); the pixel buffer
/// holds exactly four bytes per pixel, row by row. How the decoder reads a
/// picture is left to the name.
#[verifier::external_body]
fn decode_rgba(bytes: &[u8]) -> (out: Option<(u32, u32, Vec<u8>)>)
    ensures
        match out {
            Some((w, h, px)) => decoded_rgba(bytes@) == Some((w, h, px@)) && px@.len() == 4 * w * h,
            None => decoded_rgba(bytes@) is None,
        },
{
    match image::load_from_memory(bytes) {
        Ok(img) => {
            let rgba = img.to_rgba8();
            let (w, h) = rgba.dimensions();
            Some((w, h, rgba.into_raw()))
        },
        Err(_) => None,
    }
}

/// The album art held in `bytes` (an encoded picture, as read from the
/// media session or downloaded), as width, height and RGBA pixels; nothing
/// when there are no bytes or they cannot be decoded.
pub fn decode_cover(bytes: &[u8]) -> (out: Option<(u32, u32, Vec<u8>)>)
    ensures
        bytes@.len() == 0 ==> out is None,
        bytes@.len() > 0 ==> match out {
            Some((w, h, px)) => decoded_rgba(bytes@) == Some((w, h, px@)) && px@.len() == 4 * w * h,
            None => decoded_rgba(bytes@) is None,
        },
{
    if bytes.len() == 0 {
        return None;
    }
    decode_rgba(bytes)
}

} // verus!
