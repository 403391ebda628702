//! The Spotify Connect backend's bookkeeping: converting between the panel's
//! volume scale (0 to 100) and the protocol's (0 to 65535), keeping the
//! shared state in step with the player's events, and choosing which cover
//! to download.
//!
//! The Connect session, the player and the downloads run in the host
//! application; each event it receives is handed here as a plain value.

use vstd::prelude::*;
use crate::state::{NowPlayingInfo, ThumbnailData, UiState};
use crate::text::{chars_of, join, join_offset, join_strings, lemma_join_layout, string_of, total_len};

verus! {

/// Top of the protocol's volume scale (`u16::MAX`).
pub const VOLUME_MAX: u32 = 65535;

/// The protocol volume for a panel percentage (capped at 100).
pub open spec fn raw_volume_of(percent: u32) -> u16 {
    let p: int = if percent < 100 {
        percent as int
    } else {
        100
    };
    (p * VOLUME_MAX / 100) as u16
}

/// The panel percentage for a protocol volume.
pub open spec fn percent_of(raw: u16) -> u32 {
    (raw * 100 / VOLUME_MAX as int) as u32
}

/// Converts a panel percentage (capped at 100) to the protocol's volume.
pub fn percent_to_raw(percent: u32) -> (raw: u16)
    ensures
        raw == raw_volume_of(percent),
{
    let p: u32 = if percent < 100 {
        percent
    } else {
        100
    };
    assert(p * VOLUME_MAX <= 100 * 65535) by (nonlinear_arith)
        requires
            p <= 100,
    ;
    assert(p * VOLUME_MAX / 100 <= 65535) by (nonlinear_arith)
        requires
            p * VOLUME_MAX <= 100 * 65535,
    ;
    (p * VOLUME_MAX / 100) as u16
}

/// Converts a protocol volume to a panel percentage.
pub fn raw_to_percent(raw: u16) -> (percent: u32)
    ensures
        percent == percent_of(raw),
        percent <= 100,
{
    let r = raw as u32;
    assert(r * 100 <= 65535 * 100) by (nonlinear_arith)
        requires
            r <= 65535,
    ;
    assert(r * 100 / 65535 <= 100) by (nonlinear_arith)
        requires
            r * 100 <= 65535 * 100,
    ;
    r * 100 / VOLUME_MAX
}

/// The two volume scales agree at both ends, percentages never exceed 100,
/// and a percentage sent to the player comes back as itself or one less
/// (the protocol scale is not a multiple of 100). Each conversion rounds
/// down: the protocol volume is the largest whose share of 65535 is at most
/// the percentage (any percentage above 100 counting as 100), and the
/// percentage the largest whose share of 100 is at most the volume.
pub proof fn lemma_volume_round_trip(percent: u32, raw: u16)
    ensures
        raw_volume_of(0) == 0,
        raw_volume_of(100) == 65535,
        percent_of(0) == 0,
        percent_of(65535) == 100,
        percent_of(raw) <= 100,
        percent <= 100 ==> percent_of(raw_volume_of(percent)) <= percent,
        percent <= 100 ==> percent_of(raw_volume_of(percent)) + 1 >= percent,
        percent >= 100 ==> raw_volume_of(percent) == 65535,
        percent <= 100 ==> raw_volume_of(percent) * 100 <= percent * 65535 < raw_volume_of(percent)
            * 100 + 100,
        percent_of(raw) * 65535 <= raw * 100 < percent_of(raw) * 65535 + 65535,
{
    let pr: int = raw * 100 / 65535;
    assert(0 <= pr <= 100 && pr * 65535 <= raw * 100 < pr * 65535 + 65535) by (nonlinear_arith)
        requires
            pr == raw * 100 / 65535,
            0 <= raw <= 65535,
    ;
    assert(raw * 100 / 65535 <= 100) by (nonlinear_arith)
        requires
            raw <= 65535,
    ;
    if percent <= 100 {
        let r: int = percent * 65535 / 100;
        assert(0 <= r <= 65535 && r * 100 <= percent * 65535 && percent * 65535 < r * 100 + 100)
            by (nonlinear_arith)
            requires
                r == percent * 65535 / 100,
                percent <= 100,
        ;
        assert(r as u16 as int == r);
        let q: int = r * 100 / 65535;
        assert(q <= percent && q + 1 >= percent) by (nonlinear_arith)
            requires
                q == r * 100 / 65535,
                0 <= r,
                r * 100 <= percent * 65535,
                percent * 65535 < r * 100 + 100,
        ;
    }
}

/// The status line while logging in: with saved credentials the session
/// reconnects; without them the browser opens for the OAuth login.
pub fn login_status(saved_login: bool) -> (out: String)
    ensures
        out@ == if saved_login {
            "Reconectando ao Spotify (login salvo)..."@
        } else {
            "Login necessario: abrindo o navegador para autorizar o Spotify..."@
        },
{
    if saved_login {
        string_of(&chars_of("Reconectando ao Spotify (login salvo)..."))
    } else {
        string_of(&chars_of("Login necessario: abrindo o navegador para autorizar o Spotify..."))
    }
}

/// The status line once the Connect device is up: whether it could make
/// itself the active device (`error` says why not).
pub fn activation_status(error: Option<&str>) -> (out: String)
    ensures
        out@ == match error {
            None => "Conectado como dispositivo Connect \"ETS2\"."@,
            Some(e) => "Conectado, mas nao foi possivel auto-ativar o dispositivo ("@ + e@
                + ") - escolha \"ETS2\" nos dispositivos do Spotify."@,
        },
{
    match error {
        None => string_of(&chars_of("Conectado como dispositivo Connect \"ETS2\".")),
        Some(e) => {
            let mut v = chars_of("Conectado, mas nao foi possivel auto-ativar o dispositivo (");
            let mut m = chars_of(e);
            let mut t = chars_of(") - escolha \"ETS2\" nos dispositivos do Spotify.");
            v.append(&mut m);
            v.append(&mut t);
            string_of(&v)
        },
    }
}

/// What the host learned from one player event.
pub enum PlayerEvent {
    /// A new track: its name, its artists and album when it is a music
    /// track (episodes have neither), and its length in milliseconds.
    TrackChanged { title: String, track: Option<(Vec<String>, String)>, duration_ms: u32 },
    /// Playback started, paused, moved, was corrected or sought to this
    /// position (milliseconds).
    Position { position_ms: u32 },
    /// The volume changed (protocol scale).
    VolumeChanged { volume: u16 },
    /// Playback stopped.
    Stopped,
    /// Any other event; nothing to update.
    Other,
}

/// The artist line of a track: the artists' names joined with `, `.
pub open spec fn artist_line(artists: Seq<String>) -> Seq<char> {
    join(artists.map_values(|s: String| s@), ", "@)
}

/// The artist line names every artist of the track, in order, separated by
/// `, `: its length is the names' total length plus two characters between
/// each two names; each name stands at its place (after the names before it
/// and a `, ` for each of them), and `, ` follows every name but the last.
pub proof fn lemma_artist_line_names_every_artist(artists: Seq<String>)
    ensures
        artists.len() == 0 ==> artist_line(artists).len() == 0,
        artists.len() > 0 ==> artist_line(artists).len() == total_len(
            artists.map_values(|s: String| s@),
        ) + 2 * (artists.len() - 1),
        forall|k: int|
            #![trigger artists[k]]
            0 <= k < artists.len() ==> artist_line(artists).subrange(
                total_len(artists.map_values(|s: String| s@).take(k)) + 2 * k,
                total_len(artists.map_values(|s: String| s@).take(k)) + 2 * k + artists[k]@.len(),
            ) == artists[k]@,
        forall|k: int|
            #![trigger artists[k]]
            0 <= k < artists.len() - 1 ==> artist_line(artists).subrange(
                total_len(artists.map_values(|s: String| s@).take(k)) + 2 * k + artists[k]@.len(),
                total_len(artists.map_values(|s: String| s@).take(k)) + 2 * k + artists[k]@.len() + 2,
            ) == ", "@,
{
    let names = artists.map_values(|s: String| s@);
    let sep = ", "@;
    reveal_strlit(", ");
    assert(sep.len() == 2);
    assert(artist_line(artists) == join(names, sep));
    lemma_join_layout(names, sep);
    assert forall|k: int|
        #![trigger artists[k]]
        0 <= k < artists.len() implies artist_line(artists).subrange(
            total_len(names.take(k)) + 2 * k,
            total_len(names.take(k)) + 2 * k + artists[k]@.len(),
        ) == artists[k]@ by {
        assert(names[k] == artists[k]@);
        assert(join_offset(names, sep, k) == total_len(names.take(k)) + 2 * k);
        assert(join(names, sep).subrange(
            join_offset(names, sep, k),
            join_offset(names, sep, k) + names[k].len(),
        ) == names[k]);
    }
    assert forall|k: int|
        #![trigger artists[k]]
        0 <= k < artists.len() - 1 implies artist_line(artists).subrange(
            total_len(names.take(k)) + 2 * k + artists[k]@.len(),
            total_len(names.take(k)) + 2 * k + artists[k]@.len() + 2,
        ) == sep by {
        assert(names[k] == artists[k]@);
        assert(join_offset(names, sep, k) == total_len(names.take(k)) + 2 * k);
        assert(join(names, sep).subrange(
            join_offset(names, sep, k) + names[k].len(),
            join_offset(names, sep, k) + names[k].len() + sep.len(),
        ) == sep);
    }
}

/// The fields of `ui` that player events leave alone are unchanged.
pub open spec fn rest_unchanged(a: UiState, b: UiState) -> bool {
    &&& a.electrics_on == b.electrics_on
    &&& a.game_paused == b.game_paused
    &&& a.telemetry_connected == b.telemetry_connected
    &&& a.log == b.log
    &&& a.status == b.status
}

/// Updates the shared state for one player event: a new track replaces what
/// is playing (no cover yet, position 0); position events move the position
/// of the current track; volume events set the volume; a stop clears what
/// is playing.
pub fn apply_player_event(ui: &mut UiState, event: PlayerEvent)
    ensures
        rest_unchanged(*final(ui), *old(ui)),
        match event {
            PlayerEvent::TrackChanged { title, track, duration_ms } => {
                &&& final(ui).volume == old(ui).volume
                &&& final(ui).now_playing matches Some(np) && np.title@ == title@
                    && np.artist@ == match track {
                    Some((artists, _)) => artist_line(artists@),
                    None => Seq::<char>::empty(),
                } && np.album@ == match track {
                    Some((_, album)) => album@,
                    None => Seq::<char>::empty(),
                } && np.thumbnail is None && np.position_ms == 0 && np.duration_ms == duration_ms
            },
            PlayerEvent::Position { position_ms } => {
                &&& final(ui).volume == old(ui).volume
                &&& match old(ui).now_playing {
                    Some(np) => final(ui).now_playing == Some(
                        NowPlayingInfo { position_ms, ..np },
                    ),
                    None => final(ui).now_playing is None,
                }
            },
            PlayerEvent::VolumeChanged { volume } => {
                &&& final(ui).volume == percent_of(volume)
                &&& final(ui).now_playing == old(ui).now_playing
            },
            PlayerEvent::Stopped => {
                &&& final(ui).volume == old(ui).volume
                &&& final(ui).now_playing is None
            },
            PlayerEvent::Other => {
                &&& final(ui).volume == old(ui).volume
                &&& final(ui).now_playing == old(ui).now_playing
            },
        },
{
    match event {
        PlayerEvent::TrackChanged { title, track, duration_ms } => {
            let (artist, album) = match track {
                Some((artists, album)) => (join_strings(&artists, ", "), album),
                None => (String::new(), String::new()),
            };
            ui.now_playing = Some(
                NowPlayingInfo {
                    title,
                    artist,
                    album,
                    thumbnail: None,
                    position_ms: 0,
                    duration_ms,
                },
            );
        },
        PlayerEvent::Position { position_ms } => {
            match ui.now_playing.take() {
                Some(np) => {
                    ui.now_playing = Some(NowPlayingInfo { position_ms, ..np });
                },
                None => {},
            }
        },
        PlayerEvent::VolumeChanged { volume } => {
            ui.volume = raw_to_percent(volume);
        },
        PlayerEvent::Stopped => {
            ui.now_playing = None;
        },
        PlayerEvent::Other => {},
    }
}

/// Index of the cover to download among the covers of a track (width,
/// height): the smallest in area among those with a positive width and
/// height, the first of them on a tie; none when no cover has a size.
pub fn smallest_cover(covers: &Vec<(i32, i32)>) -> (r: Option<usize>)
    ensures
        r matches Some(i) ==> i < covers@.len() && has_size(covers@[i as int]) && (forall|k: int|
            0 <= k < covers@.len() && has_size(#[trigger] covers@[k]) ==> area(covers@[i as int])
                <= area(covers@[k])) && (forall|k: int|
            0 <= k < i && has_size(#[trigger] covers@[k]) ==> area(covers@[i as int]) < area(
                covers@[k],
            )),
        r is None ==> forall|k: int| 0 <= k < covers@.len() ==> !has_size(#[trigger] covers@[k]),
{
    let mut best: Option<usize> = None;
    let mut best_area: i64 = 0;
    let mut i: usize = 0;
    while i < covers.len()
        invariant
            i <= covers@.len(),
            best matches Some(b) ==> b < i && has_size(covers@[b as int]) && best_area == area(
                covers@[b as int],
            ) && (forall|k: int|
                0 <= k < i && has_size(#[trigger] covers@[k]) ==> best_area <= area(covers@[k]))
                && (forall|k: int|
                0 <= k < b && has_size(#[trigger] covers@[k]) ==> best_area < area(covers@[k])),
            best is None ==> forall|k: int| 0 <= k < i ==> !has_size(#[trigger] covers@[k]),
        decreases covers.len() - i,
    {
        let (w, h) = covers[i];
        if w > 0 && h > 0 {
            assert((w as i64) * (h as i64) <= 0x7fff_ffff * 0x7fff_ffff) by (nonlinear_arith)
                requires
                    0 < w <= 0x7fff_ffff,
                    0 < h <= 0x7fff_ffff,
            ;
            let a = (w as i64) * (h as i64);
            match best {
                None => {
                    best = Some(i);
                    best_area = a;
                },
                Some(_) => {
                    if a < best_area {
                        best = Some(i);
                        best_area = a;
                    }
                },
            }
        }
        i = i + 1;
    }
    best
}

/// A cover has a positive width and height.
pub open spec fn has_size(cover: (i32, i32)) -> bool {
    cover.0 > 0 && cover.1 > 0
}

/// Area of a cover.
pub open spec fn area(cover: (i32, i32)) -> int {
    cover.0 * cover.1
}

/// Counter of the covers shown by this backend.
pub struct CoverCounter {
    pub generation: u64,
}

impl CoverCounter {
    /// No cover shown yet.
    pub fn new() -> (c: CoverCounter)
        ensures
            c.generation == 0,
    {
        CoverCounter { generation: 0 }
    }

    /// A cover was downloaded and decoded for the current track (`None`
    /// when either failed): it becomes the current track's thumbnail with
    /// the next generation, if a track is still playing.
    pub fn attach_cover(&mut self, ui: &mut UiState, cover: Option<(u32, u32, Vec<u8>)>)
        ensures
            rest_unchanged(*final(ui), *old(ui)),
            final(ui).volume == old(ui).volume,
            match cover {
                Some((w, h, px)) => {
                    &&& final(self).generation == old(self).generation.wrapping_add(1)
                    &&& match old(ui).now_playing {
                        Some(np) => final(ui).now_playing == Some(
                            NowPlayingInfo {
                                thumbnail: Some(
                                    ThumbnailData {
                                        width: w,
                                        height: h,
                                        rgba: px,
                                        generation: final(self).generation,
                                    },
                                ),
                                ..np
                            },
                        ),
                        None => final(ui).now_playing is None,
                    }
                },
                None => {
                    &&& final(self).generation == old(self).generation
                    &&& final(ui).now_playing == old(ui).now_playing
                },
            },
    {
        match cover {
            Some((w, h, px)) => {
                self.generation = self.generation.wrapping_add(1);
                match ui.now_playing.take() {
                    Some(np) => {
                        ui.now_playing = Some(
                            NowPlayingInfo {
                                thumbnail: Some(
                                    ThumbnailData {
                                        width: w,
                                        height: h,
                                        rgba: px,
                                        generation: self.generation,
                                    },
                                ),
                                ..np
                            },
                        );
                    },
                    None => {},
                }
            },
            None => {},
        }
    }
}

} // verus!
