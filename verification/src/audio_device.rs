//! Choosing the audio output device used by Spotify alone (not the Windows
//! default for everything), as the Windows sound settings do: recognizing
//! Spotify's audio session and spelling the endpoint id that the Windows
//! audio policy expects.
//!
//! The Windows calls themselves belong to the host application.

use vstd::prelude::*;
use crate::text::{chars_of, has_suffix, has_suffix_exec, lower, lowercase_chars, string_of};

verus! {

/// An active audio output device.
pub struct OutputDevice {
    pub id: String,
    /// Friendly name, or the id when Windows gives no name.
    pub name: String,
}

impl Clone for OutputDevice {
    fn clone(&self) -> (out: Self)
        ensures
            out.id@ == self.id@,
            out.name@ == self.name@,
    {
        OutputDevice { id: self.id.clone(), name: self.name.clone() }
    }
}

impl OutputDevice {
    /// A device with the given id, named by its friendly name when Windows
    /// has one and by its id otherwise.
    pub fn new(id: String, friendly_name: Option<String>) -> (d: OutputDevice)
        ensures
            d.id@ == id@,
            d.name@ == match friendly_name {
                Some(n) => n@,
                None => id@,
            },
    {
        let name = match friendly_name {
            Some(n) => n,
            None => id.clone(),
        };
        OutputDevice { id, name }
    }
}

/// A process image path is Spotify's when, lower-cased, it ends with
/// `spotify.exe`.
pub open spec fn is_spotify_image(path: Seq<char>) -> bool {
    has_suffix(lower(path), "spotify.exe"@)
}

/// Whether the process image at `path` is Spotify.
pub fn is_spotify_image_path(path: &str) -> (r: bool)
    ensures
        r == is_spotify_image(path@),
{
    let l = lowercase_chars(&chars_of(path));
    let suffix = chars_of("spotify.exe");
    has_suffix_exec(&l, &suffix)
}

/// Among the audio sessions, given as (process id, image path of the
/// process if it could be read), the index of the first one owned by a
/// Spotify process. Sessions of process 0 (the system) are skipped.
pub fn spotify_session_index(sessions: &Vec<(u32, Option<String>)>) -> (r: Option<usize>)
    ensures
        r matches Some(i) ==> i < sessions@.len() && is_spotify_session(sessions@[i as int])
            && forall|k: int| 0 <= k < i ==> !is_spotify_session(#[trigger] sessions@[k]),
        r is None ==> forall|k: int|
            0 <= k < sessions@.len() ==> !is_spotify_session(#[trigger] sessions@[k]),
{
    let mut i: usize = 0;
    while i < sessions.len()
        invariant
            i <= sessions.len(),
            forall|k: int| 0 <= k < i ==> !is_spotify_session(#[trigger] sessions@[k]),
        decreases sessions.len() - i,
    {
        let (pid, path) = &sessions[i];
        if *pid != 0 {
            match path {
                Some(p) => {
                    if is_spotify_image_path(p.as_str()) {
                        return Some(i);
                    }
                },
                None => {},
            }
        }
        i = i + 1;
    }
    None
}

/// An audio session (process id, image path) is Spotify's.
pub open spec fn is_spotify_session(session: (u32, Option<String>)) -> bool {
    session.0 != 0 && match session.1 {
        Some(p) => is_spotify_image(p@),
        None => false,
    }
}

/// The device interface path of an audio render endpoint with the given
/// raw id, as the audio policy takes it.
pub open spec fn endpoint_path(raw_id: Seq<char>) -> Seq<char> {
    "\\\\?\\SWD#MMDEVAPI#"@ + raw_id + "#{e6327cad-dcec-4949-ae8a-991e976a79d2}"@
}

/// Wraps a raw device id into the endpoint path the audio policy takes.
pub fn wrap_device_id(raw_id: &str) -> (out: String)
    ensures
        out@ == endpoint_path(raw_id@),
{
    let mut v = chars_of("\\\\?\\SWD#MMDEVAPI#");
    let mut mid = chars_of(raw_id);
    let mut tail = chars_of("#{e6327cad-dcec-4949-ae8a-991e976a79d2}");
    v.append(&mut mid);
    v.append(&mut tail);
    string_of(&v)
}

/// What to hand the audio policy for Spotify's process: the endpoint path
/// of the chosen device, or the empty string to go back to the system
/// default.
pub fn endpoint_for(device_id: Option<&str>) -> (out: String)
    ensures
        out@ == match device_id {
            Some(id) => endpoint_path(id@),
            None => Seq::<char>::empty(),
        },
{
    match device_id {
        Some(id) => wrap_device_id(id),
        None => String::new(),
    }
}

} // verus!
