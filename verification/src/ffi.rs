//! What the in-game panel (C++) receives and sends: fixed-size snapshots of
//! the shared state, playlist and device lists, album art, and command
//! codes. Text is copied into fixed buffers, cut so that no UTF-8 character
//! is split; the C++ side owns every buffer.

use vstd::prelude::*;
use vstd::utf8::{
    decode_utf8, encode_utf8, encode_utf8_decode_utf8, encode_utf8_valid_utf8,
    is_char_boundary, is_char_boundary_iff_not_is_continuation_byte,
    is_char_boundary_start_end_of_seq, is_continuation_byte, utf8_byte_ranges_bitwise,
    decode_utf8_split, valid_utf8, valid_utf8_split,
};
use crate::audio_device::OutputDevice;
use crate::config::{Config, Playlist};
use crate::state::{Command, UiState};

verus! {

pub const TITLE_CAP: usize = 128;
pub const ARTIST_CAP: usize = 96;
pub const STATUS_CAP: usize = 160;
pub const PLAYLIST_NAME_CAP: usize = 64;
pub const PLAYLIST_URI_CAP: usize = 160;
pub const DEVICE_ID_CAP: usize = 128;
pub const DEVICE_NAME_CAP: usize = 96;

/// A copy of the shared state for the panel to draw, without holding any
/// lock longer than a copy.
pub struct FfiSnapshot {
    pub electrics_on: u32,
    pub game_paused: u32,
    pub telemetry_connected: u32,
    pub has_track: u32,
    pub title_len: u32,
    pub artist_len: u32,
    pub title: [u8; TITLE_CAP],
    pub artist: [u8; ARTIST_CAP],
    /// Changes with every new cover; the panel rebuilds its texture only
    /// when it does.
    pub thumb_generation: u64,
    pub thumb_width: u32,
    pub thumb_height: u32,
    /// One-line status; `status_len == 0` means nothing to show.
    pub status_len: u32,
    pub status: [u8; STATUS_CAP],
    /// Volume, 0 to 100.
    pub volume: u32,
    /// Position and length of the track in milliseconds; `duration_ms == 0`
    /// means the length is unknown.
    pub position_ms: u32,
    pub duration_ms: u32,
}

/// A saved playlist, as the panel lists it.
pub struct FfiPlaylist {
    pub name_len: u32,
    pub uri_len: u32,
    pub name: [u8; PLAYLIST_NAME_CAP],
    pub uri: [u8; PLAYLIST_URI_CAP],
}

/// An audio output device, as the panel lists it.
pub struct FfiOutputDevice {
    pub id_len: u32,
    pub name_len: u32,
    pub id: [u8; DEVICE_ID_CAP],
    pub name: [u8; DEVICE_NAME_CAP],
}

// ---------------------------------------------------------------------------
// Cutting text to a buffer
// ---------------------------------------------------------------------------

/// Steps back from `n` over UTF-8 continuation bytes, so that the cut at
/// the result does not fall inside a character.
pub open spec fn back_to_boundary(bytes: Seq<u8>, n: int) -> int
    decreases n,
{
    if n <= 0 || n >= bytes.len() || !is_continuation_byte(bytes[n]) {
        n
    } else {
        back_to_boundary(bytes, n - 1)
    }
}

/// How many bytes of `bytes` go into a buffer of `cap` bytes: as many as fit,
/// less the start of a character that would not fit whole.
pub open spec fn fit_len(bytes: Seq<u8>, cap: int) -> int {
    back_to_boundary(
        bytes,
        if bytes.len() < cap {
            bytes.len() as int
        } else {
            cap
        },
    )
}

/// A buffer of `cap` bytes holding the part of `s` that fits, then zeros.
pub open spec fn field_bytes(s: Seq<char>, cap: int) -> Seq<u8> {
    let bytes = encode_utf8(s);
    let n = fit_len(bytes, cap);
    bytes.take(n) + Seq::new((cap - n) as nat, |i: int| 0u8)
}

proof fn lemma_back_to_boundary(bytes: Seq<u8>, n: int)
    requires
        0 <= n <= bytes.len(),
    ensures
        0 <= back_to_boundary(bytes, n) <= n,
        back_to_boundary(bytes, n) == 0 || back_to_boundary(bytes, n) == bytes.len()
            || !is_continuation_byte(bytes[back_to_boundary(bytes, n)]),
        forall|m: int|
            back_to_boundary(bytes, n) < m <= n && m < bytes.len() ==> is_continuation_byte(
                #[trigger] bytes[m],
            ),
    decreases n,
{
    if n <= 0 || n >= bytes.len() || !is_continuation_byte(bytes[n]) {
    } else {
        lemma_back_to_boundary(bytes, n - 1);
    }
}

/// Text cut to fit a buffer keeps whole characters only: the cut falls on a
/// character boundary, no later boundary would fit, and the bytes kept are
/// the UTF-8 encoding of a prefix of the text.
pub proof fn lemma_fit_keeps_whole_chars(s: Seq<char>, cap: int)
    requires
        0 <= cap,
    ensures
        ({
            let bytes = encode_utf8(s);
            let n = fit_len(bytes, cap);
            &&& 0 <= n <= cap
            &&& n <= bytes.len()
            &&& is_char_boundary(bytes, n)
            &&& forall|m: int|
                n < m <= cap && m <= bytes.len() ==> !is_char_boundary(bytes, m)
            &&& valid_utf8(bytes.subrange(0, n))
            &&& s.take(decode_utf8(bytes.subrange(0, n)).len() as int) == decode_utf8(
                bytes.subrange(0, n),
            )
        }),
{
    let bytes = encode_utf8(s);
    let top = if bytes.len() < cap {
        bytes.len() as int
    } else {
        cap
    };
    let n = fit_len(bytes, cap);
    encode_utf8_valid_utf8(s);
    encode_utf8_decode_utf8(s);
    is_char_boundary_start_end_of_seq(bytes);
    lemma_back_to_boundary(bytes, top);
    if 0 < n < bytes.len() {
        is_char_boundary_iff_not_is_continuation_byte(bytes, n);
    }
    assert forall|m: int| n < m <= cap && m <= bytes.len() implies !is_char_boundary(bytes, m) by {
        if m == bytes.len() {
            assert(top == bytes.len());
            assert(n == top);
        } else {
            assert(m <= top);
            assert(is_continuation_byte(bytes[m]));
            is_char_boundary_iff_not_is_continuation_byte(bytes, m);
        }
    }
    valid_utf8_split(bytes, n);
    decode_utf8_split(bytes, n);
    let d = decode_utf8(bytes.subrange(0, n));
    assert(s =~= d + decode_utf8(bytes.subrange(n, bytes.len() as int)));
    assert(s.take(d.len() as int) =~= d);
}

/// Copies as much of `s` as fits into `buf` without splitting a UTF-8
/// character, and returns how many bytes were copied; bytes of `buf` past
/// that are left as they were.
pub fn fill_truncated(buf: &mut [u8], s: &str) -> (n: usize)
    ensures
        n == fit_len(encode_utf8(s@), old(buf)@.len() as int),
        final(buf)@ == encode_utf8(s@).take(n as int) + old(buf)@.skip(n as int),
{
    let bytes = s.as_bytes();
    let mut n: usize = if bytes.len() < buf.len() {
        bytes.len()
    } else {
        buf.len()
    };
    let ghost top = n as int;
    while n > 0 && n < bytes.len() && (bytes[n] & 0xC0) == 0x80
        invariant
            n <= top,
            top <= bytes@.len(),
            top <= buf@.len(),
            bytes@ == encode_utf8(s@),
            buf@ == old(buf)@,
            back_to_boundary(bytes@, n as int) == back_to_boundary(bytes@, top),
        decreases n,
    {
        proof {
            utf8_byte_ranges_bitwise(bytes@[n as int]);
        }
        n = n - 1;
    }
    proof {
        if n > 0 && n < bytes@.len() {
            utf8_byte_ranges_bitwise(bytes@[n as int]);
        }
        assert(top == if bytes@.len() < old(buf)@.len() {
            bytes@.len() as int
        } else {
            old(buf)@.len() as int
        });
    }
    let mut i: usize = 0;
    while i < n
        invariant
            i <= n <= bytes@.len(),
            n <= old(buf)@.len(),
            buf@.len() == old(buf)@.len(),
            buf@ == bytes@.take(i as int) + old(buf)@.skip(i as int),
        decreases n - i,
    {
        buf[i] = bytes[i];
        i = i + 1;
        proof {
            assert(buf@ =~= bytes@.take(i as int) + old(buf)@.skip(i as int));
        }
    }
    n
}

// ---------------------------------------------------------------------------
// Snapshot
// ---------------------------------------------------------------------------

/// `1` for true, `0` for false.
pub open spec fn flag(b: bool) -> u32 {
    if b {
        1
    } else {
        0
    }
}

/// `snap` shows `ui`: the flags, the volume, the status line; and, when a
/// track plays, its title, artist, position, length and the size and
/// generation of its cover (all zero where there is none). Text fields hold
/// the part of the text that fits, then zeros.
pub open spec fn shows(snap: FfiSnapshot, ui: UiState) -> bool {
    &&& snap.electrics_on == flag(ui.electrics_on)
    &&& snap.game_paused == flag(ui.game_paused)
    &&& snap.telemetry_connected == flag(ui.telemetry_connected)
    &&& snap.has_track == flag(ui.now_playing is Some)
    &&& snap.volume == ui.volume
    &&& snap.status_len == fit_len(encode_utf8(ui.status@), STATUS_CAP as int)
    &&& snap.status@ == field_bytes(ui.status@, STATUS_CAP as int)
    &&& match ui.now_playing {
        Some(np) => {
            &&& snap.title_len == fit_len(encode_utf8(np.title@), TITLE_CAP as int)
            &&& snap.title@ == field_bytes(np.title@, TITLE_CAP as int)
            &&& snap.artist_len == fit_len(encode_utf8(np.artist@), ARTIST_CAP as int)
            &&& snap.artist@ == field_bytes(np.artist@, ARTIST_CAP as int)
            &&& snap.position_ms == np.position_ms
            &&& snap.duration_ms == np.duration_ms
            &&& match np.thumbnail {
                Some(t) => snap.thumb_generation == t.generation && snap.thumb_width == t.width
                    && snap.thumb_height == t.height,
                None => snap.thumb_generation == 0 && snap.thumb_width == 0 && snap.thumb_height
                    == 0,
            }
        },
        None => {
            &&& snap.title_len == 0
            &&& snap.artist_len == 0
            &&& snap.title@ == Seq::new(TITLE_CAP as nat, |i: int| 0u8)
            &&& snap.artist@ == Seq::new(ARTIST_CAP as nat, |i: int| 0u8)
            &&& snap.position_ms == 0
            &&& snap.duration_ms == 0
            &&& snap.thumb_generation == 0
            &&& snap.thumb_width == 0
            &&& snap.thumb_height == 0
        },
    }
}

/// A text field holds whole characters: its first `fit_len` bytes are the
/// UTF-8 encoding of a prefix of the text, the rest are zeros, and the length
/// never exceeds the buffer.
pub proof fn lemma_field_holds_prefix(s: Seq<char>, cap: int)
    requires
        0 <= cap,
    ensures
        ({
            let n = fit_len(encode_utf8(s), cap);
            let f = field_bytes(s, cap);
            &&& 0 <= n <= cap
            &&& f.len() == cap
            &&& valid_utf8(f.take(n))
            &&& s.take(decode_utf8(f.take(n)).len() as int) == decode_utf8(f.take(n))
            &&& forall|i: int| n <= i < cap ==> f[i] == 0
        }),
{
    lemma_fit_keeps_whole_chars(s, cap);
    let bytes = encode_utf8(s);
    let n = fit_len(bytes, cap);
    let f = field_bytes(s, cap);
    assert(f.take(n) =~= bytes.subrange(0, n));
}

/// A text field reads back as the start of its text, and as the whole text
/// when the text's encoding fits the buffer.
pub proof fn lemma_field_reads_back(s: Seq<char>, cap: int)
    requires
        0 <= cap,
    ensures
        ({
            let n = fit_len(encode_utf8(s), cap);
            let f = field_bytes(s, cap);
            &&& 0 <= n <= cap
            &&& valid_utf8(f.take(n))
            &&& s.take(decode_utf8(f.take(n)).len() as int) == decode_utf8(f.take(n))
            &&& encode_utf8(s).len() <= cap ==> n == encode_utf8(s).len() && decode_utf8(f.take(n))
                == s
        }),
{
    lemma_field_holds_prefix(s, cap);
    let bytes = encode_utf8(s);
    let n = fit_len(bytes, cap);
    let f = field_bytes(s, cap);
    if bytes.len() <= cap {
        assert(n == bytes.len());
        assert(f.take(n) =~= bytes);
        encode_utf8_decode_utf8(s);
    }
}

/// The snapshot's flags are those of the shared state: each is 1 exactly
/// when the matching field is set, and 0 otherwise; the volume is the
/// state's volume.
pub proof fn lemma_snapshot_flags(snap: FfiSnapshot, ui: UiState)
    requires
        shows(snap, ui),
    ensures
        snap.electrics_on <= 1 && (snap.electrics_on == 1 <==> ui.electrics_on),
        snap.game_paused <= 1 && (snap.game_paused == 1 <==> ui.game_paused),
        snap.telemetry_connected <= 1 && (snap.telemetry_connected == 1 <==> ui.telemetry_connected),
        snap.has_track <= 1 && (snap.has_track == 1 <==> ui.now_playing is Some),
        snap.volume == ui.volume,
{
}

/// The snapshot shows the state's own texts and numbers: the status line,
/// and the title and artist of the track that plays, each whole when it
/// fits its buffer; the track's position and length and its cover's size and
/// generation (zero without a cover); with no track, no text and zeros.
pub proof fn lemma_snapshot_shows_track(snap: FfiSnapshot, ui: UiState)
    requires
        shows(snap, ui),
    ensures
        encode_utf8(ui.status@).len() <= STATUS_CAP ==> snap.status_len == encode_utf8(
            ui.status@,
        ).len() && decode_utf8(snap.status@.take(snap.status_len as int)) == ui.status@,
        ui.now_playing matches Some(np) ==> {
            &&& snap.position_ms == np.position_ms
            &&& snap.duration_ms == np.duration_ms
            &&& encode_utf8(np.title@).len() <= TITLE_CAP ==> snap.title_len == encode_utf8(
                np.title@,
            ).len() && decode_utf8(snap.title@.take(snap.title_len as int)) == np.title@
            &&& encode_utf8(np.artist@).len() <= ARTIST_CAP ==> snap.artist_len == encode_utf8(
                np.artist@,
            ).len() && decode_utf8(snap.artist@.take(snap.artist_len as int)) == np.artist@
            &&& np.thumbnail matches Some(t) ==> snap.thumb_generation == t.generation
                && snap.thumb_width == t.width && snap.thumb_height == t.height
            &&& np.thumbnail is None ==> snap.thumb_generation == 0 && snap.thumb_width == 0
                && snap.thumb_height == 0
        },
        ui.now_playing is None ==> snap.title_len == 0 && snap.artist_len == 0
            && snap.position_ms == 0 && snap.duration_ms == 0 && snap.thumb_generation == 0
            && snap.thumb_width == 0 && snap.thumb_height == 0,
{
    lemma_field_reads_back(ui.status@, STATUS_CAP as int);
    match ui.now_playing {
        Some(np) => {
            lemma_field_reads_back(np.title@, TITLE_CAP as int);
            lemma_field_reads_back(np.artist@, ARTIST_CAP as int);
        },
        None => {},
    }
}

/// Every text in a snapshot fits its buffer and is a whole-character prefix
/// of the text in the shared state.
pub proof fn lemma_snapshot_text_fits(snap: FfiSnapshot, ui: UiState)
    requires
        shows(snap, ui),
    ensures
        snap.status_len <= STATUS_CAP,
        valid_utf8(snap.status@.take(snap.status_len as int)),
        ui.status@.take(decode_utf8(snap.status@.take(snap.status_len as int)).len() as int)
            == decode_utf8(snap.status@.take(snap.status_len as int)),
        snap.title_len <= TITLE_CAP,
        snap.artist_len <= ARTIST_CAP,
        ui.now_playing matches Some(np) ==> valid_utf8(snap.title@.take(snap.title_len as int))
            && np.title@.take(decode_utf8(snap.title@.take(snap.title_len as int)).len() as int)
            == decode_utf8(snap.title@.take(snap.title_len as int)) && valid_utf8(
            snap.artist@.take(snap.artist_len as int),
        ) && np.artist@.take(decode_utf8(snap.artist@.take(snap.artist_len as int)).len() as int)
            == decode_utf8(snap.artist@.take(snap.artist_len as int)),
{
    lemma_field_holds_prefix(ui.status@, STATUS_CAP as int);
    match ui.now_playing {
        Some(np) => {
            lemma_field_holds_prefix(np.title@, TITLE_CAP as int);
            lemma_field_holds_prefix(np.artist@, ARTIST_CAP as int);
        },
        None => {},
    }
}

proof fn lemma_field_after_fill(s: Seq<char>, cap: int, n: int, out: Seq<u8>)
    requires
        0 <= cap,
        n == fit_len(encode_utf8(s), cap),
        out == encode_utf8(s).take(n) + Seq::new(cap as nat, |i: int| 0u8).skip(n),
    ensures
        out == field_bytes(s, cap),
{
    lemma_fit_keeps_whole_chars(s, cap);
    assert(out =~= field_bytes(s, cap));
}

/// Fills a zeroed buffer of `cap` bytes with the part of `s` that fits.
fn fill_field(buf: &mut [u8], s: &str) -> (n: u32)
    requires
        old(buf)@ == Seq::new(old(buf)@.len(), |i: int| 0u8),
        old(buf)@.len() <= u32::MAX,
    ensures
        n == fit_len(encode_utf8(s@), old(buf)@.len() as int),
        final(buf)@ == field_bytes(s@, old(buf)@.len() as int),
{
    let n = fill_truncated(buf, s);
    proof {
        lemma_field_after_fill(s@, old(buf)@.len() as int, n as int, buf@);
        lemma_fit_keeps_whole_chars(s@, old(buf)@.len() as int);
    }
    n as u32
}

/// A copy of `ui` for the panel (see `shows`).
pub fn snapshot_of(ui: &UiState) -> (snap: FfiSnapshot)
    ensures
        shows(snap, *ui),
{
    let mut snap = FfiSnapshot {
        electrics_on: if ui.electrics_on { 1 } else { 0 },
        game_paused: if ui.game_paused { 1 } else { 0 },
        telemetry_connected: if ui.telemetry_connected { 1 } else { 0 },
        has_track: if ui.now_playing.is_some() { 1 } else { 0 },
        title_len: 0,
        artist_len: 0,
        title: [0u8; TITLE_CAP],
        artist: [0u8; ARTIST_CAP],
        thumb_generation: 0,
        thumb_width: 0,
        thumb_height: 0,
        status_len: 0,
        status: [0u8; STATUS_CAP],
        volume: ui.volume,
        position_ms: 0,
        duration_ms: 0,
    };
    proof {
        assert(snap.title@ =~= Seq::new(TITLE_CAP as nat, |i: int| 0u8));
        assert(snap.artist@ =~= Seq::new(ARTIST_CAP as nat, |i: int| 0u8));
        assert(snap.status@ =~= Seq::new(STATUS_CAP as nat, |i: int| 0u8));
    }
    match &ui.now_playing {
        Some(np) => {
            snap.title_len = fill_field(&mut snap.title, np.title.as_str());
            snap.artist_len = fill_field(&mut snap.artist, np.artist.as_str());
            snap.position_ms = np.position_ms;
            snap.duration_ms = np.duration_ms;
            match &np.thumbnail {
                Some(thumb) => {
                    snap.thumb_generation = thumb.generation;
                    snap.thumb_width = thumb.width;
                    snap.thumb_height = thumb.height;
                },
                None => {},
            }
        },
        None => {},
    }
    snap.status_len = fill_field(&mut snap.status, ui.status.as_str());
    snap
}

// ---------------------------------------------------------------------------
// Album art, commands, volume
// ---------------------------------------------------------------------------

/// The cover pixels to hand over: only when a cover is shown, its
/// generation is still `expect_generation` (the track did not change since
/// the snapshot), and its pixels fit in `buf_cap` bytes.
pub fn thumbnail_to_copy(ui: &UiState, expect_generation: u64, buf_cap: usize) -> (out: Option<
    &Vec<u8>,
>)
    ensures
        match ui.now_playing {
            Some(np) => match np.thumbnail {
                Some(t) => if t.generation == expect_generation && t.rgba@.len() <= buf_cap {
                    out matches Some(px) && px@ == t.rgba@
                } else {
                    out is None
                },
                None => out is None,
            },
            None => out is None,
        },
{
    match &ui.now_playing {
        Some(np) => match &np.thumbnail {
            Some(thumb) => {
                if thumb.generation != expect_generation || thumb.rgba.len() > buf_cap {
                    None
                } else {
                    Some(&thumb.rgba)
                }
            },
            None => None,
        },
        None => None,
    }
}

/// The command sent with code `kind` (the text is only used by `PlayUri`):
/// 0 play/pause, 1 next, 2 previous, 3 play a URI, 4 play, 5 pause; any
/// other code is refused.
pub open spec fn command_of(kind: u32, text: String) -> Option<Command> {
    if kind == 0 {
        Some(Command::PlayPause)
    } else if kind == 1 {
        Some(Command::Next)
    } else if kind == 2 {
        Some(Command::Previous)
    } else if kind == 3 {
        Some(Command::PlayUri(text))
    } else if kind == 4 {
        Some(Command::Play)
    } else if kind == 5 {
        Some(Command::Pause)
    } else {
        None
    }
}

/// Decodes a command code from the panel.
pub fn command_from_kind(kind: u32, text: String) -> (cmd: Option<Command>)
    ensures
        cmd == command_of(kind, text),
{
    match kind {
        0 => Some(Command::PlayPause),
        1 => Some(Command::Next),
        2 => Some(Command::Previous),
        3 => Some(Command::PlayUri(text)),
        4 => Some(Command::Play),
        5 => Some(Command::Pause),
        _ => None,
    }
}

/// The volume command for a requested percentage, capped at 100.
pub fn volume_command(percent: u32) -> (cmd: Command)
    ensures
        cmd == Command::SetVolume(if percent < 100 { percent } else { 100 }),
{
    Command::SetVolume(if percent < 100 { percent } else { 100 })
}

// ---------------------------------------------------------------------------
// Lists
// ---------------------------------------------------------------------------

/// `e` lists playlist `p`.
pub open spec fn lists_playlist(e: FfiPlaylist, p: Playlist) -> bool {
    &&& e.name_len == fit_len(encode_utf8(p.name@), PLAYLIST_NAME_CAP as int)
    &&& e.name@ == field_bytes(p.name@, PLAYLIST_NAME_CAP as int)
    &&& e.uri_len == fit_len(encode_utf8(p.uri@), PLAYLIST_URI_CAP as int)
    &&& e.uri@ == field_bytes(p.uri@, PLAYLIST_URI_CAP as int)
}

/// `e` lists device `d`.
pub open spec fn lists_device(e: FfiOutputDevice, d: OutputDevice) -> bool {
    &&& e.id_len == fit_len(encode_utf8(d.id@), DEVICE_ID_CAP as int)
    &&& e.id@ == field_bytes(d.id@, DEVICE_ID_CAP as int)
    &&& e.name_len == fit_len(encode_utf8(d.name@), DEVICE_NAME_CAP as int)
    &&& e.name@ == field_bytes(d.name@, DEVICE_NAME_CAP as int)
}

/// A listed device is named by its own id and its own name: each field
/// holds a whole-character start of the device's id (or name), and all of
/// it when it fits.
pub proof fn lemma_device_entry_names_device(e: FfiOutputDevice, d: OutputDevice)
    requires
        lists_device(e, d),
    ensures
        e.id_len <= DEVICE_ID_CAP,
        valid_utf8(e.id@.take(e.id_len as int)),
        d.id@.take(decode_utf8(e.id@.take(e.id_len as int)).len() as int) == decode_utf8(
            e.id@.take(e.id_len as int),
        ),
        encode_utf8(d.id@).len() <= DEVICE_ID_CAP ==> decode_utf8(e.id@.take(e.id_len as int))
            == d.id@,
        e.name_len <= DEVICE_NAME_CAP,
        valid_utf8(e.name@.take(e.name_len as int)),
        d.name@.take(decode_utf8(e.name@.take(e.name_len as int)).len() as int) == decode_utf8(
            e.name@.take(e.name_len as int),
        ),
        encode_utf8(d.name@).len() <= DEVICE_NAME_CAP ==> decode_utf8(
            e.name@.take(e.name_len as int),
        ) == d.name@,
{
    lemma_field_reads_back(d.id@, DEVICE_ID_CAP as int);
    lemma_field_reads_back(d.name@, DEVICE_NAME_CAP as int);
}

/// A listed playlist is named by its own name and URI: each field holds a
/// whole-character start of the playlist's name (or URI), and all of it
/// when it fits.
pub proof fn lemma_playlist_entry_names_playlist(e: FfiPlaylist, p: Playlist)
    requires
        lists_playlist(e, p),
    ensures
        e.name_len <= PLAYLIST_NAME_CAP,
        valid_utf8(e.name@.take(e.name_len as int)),
        p.name@.take(decode_utf8(e.name@.take(e.name_len as int)).len() as int) == decode_utf8(
            e.name@.take(e.name_len as int),
        ),
        encode_utf8(p.name@).len() <= PLAYLIST_NAME_CAP ==> decode_utf8(
            e.name@.take(e.name_len as int),
        ) == p.name@,
        e.uri_len <= PLAYLIST_URI_CAP,
        valid_utf8(e.uri@.take(e.uri_len as int)),
        p.uri@.take(decode_utf8(e.uri@.take(e.uri_len as int)).len() as int) == decode_utf8(
            e.uri@.take(e.uri_len as int),
        ),
        encode_utf8(p.uri@).len() <= PLAYLIST_URI_CAP ==> decode_utf8(e.uri@.take(e.uri_len as int))
            == p.uri@,
{
    lemma_field_reads_back(p.name@, PLAYLIST_NAME_CAP as int);
    lemma_field_reads_back(p.uri@, PLAYLIST_URI_CAP as int);
}

/// The smaller of `a` and `b`.
pub open spec fn min_len(a: int, b: int) -> int {
    if a < b {
        a
    } else {
        b
    }
}

/// A list handed to the panel never holds more entries than there are items
/// nor more than the panel has room for, and holds all of one of them.
pub proof fn lemma_list_len_fits(items: int, cap: int)
    ensures
        min_len(items, cap) <= items,
        min_len(items, cap) <= cap,
        min_len(items, cap) == items || min_len(items, cap) == cap,
{
}

/// The first `cap` saved playlists (all of them if there are fewer), as the
/// panel lists them.
pub fn playlist_entries(cfg: &Config, cap: usize) -> (out: Vec<FfiPlaylist>)
    ensures
        out@.len() == min_len(cfg.playlists@.len() as int, cap as int),
        forall|i: int| 0 <= i < out@.len() ==> lists_playlist(#[trigger] out@[i], cfg.playlists@[i]),
{
    let count = if cfg.playlists.len() < cap {
        cfg.playlists.len()
    } else {
        cap
    };
    let mut out: Vec<FfiPlaylist> = Vec::new();
    let mut i: usize = 0;
    while i < count
        invariant
            i <= count <= cfg.playlists@.len(),
            count == min_len(cfg.playlists@.len() as int, cap as int),
            out@.len() == i,
            forall|k: int| 0 <= k < i ==> lists_playlist(#[trigger] out@[k], cfg.playlists@[k]),
        decreases count - i,
    {
        let pl = &cfg.playlists[i];
        let mut item = FfiPlaylist {
            name_len: 0,
            uri_len: 0,
            name: [0u8; PLAYLIST_NAME_CAP],
            uri: [0u8; PLAYLIST_URI_CAP],
        };
        proof {
            assert(item.name@ =~= Seq::new(PLAYLIST_NAME_CAP as nat, |i: int| 0u8));
            assert(item.uri@ =~= Seq::new(PLAYLIST_URI_CAP as nat, |i: int| 0u8));
        }
        item.name_len = fill_field(&mut item.name, pl.name.as_str());
        item.uri_len = fill_field(&mut item.uri, pl.uri.as_str());
        out.push(item);
        i = i + 1;
    }
    out
}

/// The first `cap` devices (all of them if there are fewer), as the panel
/// lists them.
pub fn device_entries(devices: &Vec<OutputDevice>, cap: usize) -> (out: Vec<FfiOutputDevice>)
    ensures
        out@.len() == min_len(devices@.len() as int, cap as int),
        forall|i: int| 0 <= i < out@.len() ==> lists_device(#[trigger] out@[i], devices@[i]),
{
    let count = if devices.len() < cap {
        devices.len()
    } else {
        cap
    };
    let mut out: Vec<FfiOutputDevice> = Vec::new();
    let mut i: usize = 0;
    while i < count
        invariant
            i <= count <= devices@.len(),
            count == min_len(devices@.len() as int, cap as int),
            out@.len() == i,
            forall|k: int| 0 <= k < i ==> lists_device(#[trigger] out@[k], devices@[k]),
        decreases count - i,
    {
        let d = &devices[i];
        let mut item = FfiOutputDevice {
            id_len: 0,
            name_len: 0,
            id: [0u8; DEVICE_ID_CAP],
            name: [0u8; DEVICE_NAME_CAP],
        };
        proof {
            assert(item.id@ =~= Seq::new(DEVICE_ID_CAP as nat, |i: int| 0u8));
            assert(item.name@ =~= Seq::new(DEVICE_NAME_CAP as nat, |i: int| 0u8));
        }
        item.id_len = fill_field(&mut item.id, d.id.as_str());
        item.name_len = fill_field(&mut item.name, d.name.as_str());
        out.push(item);
        i = i + 1;
    }
    out
}

} // verus!
