//! The engine's decisions. The engine is the one loop that talks to Spotify
//! and to the game telemetry; the host application runs it (one tick every
//! 400 ms), performs the calls and hands each outcome to `Engine`, which
//! keeps the engine's memory, updates the shared `UiState` and says what to
//! do next.
//!
//! Neither Spotify nor the telemetry blocks the loop: each is retried on its
//! own, every `RETRY_EVERY_TICKS` ticks, while it is missing.

use vstd::prelude::*;
use crate::media::NowPlaying;
use crate::state::{lines, lines_after, push_log, NowPlayingInfo, ThumbnailData, UiState};
use crate::telemetry::GameState;
use crate::text::{chars_eq, chars_of, string_of};

verus! {

/// Every how many ticks (one tick is 400 ms) a missing resource is retried.
pub const RETRY_EVERY_TICKS: u32 = 5;

/// Retry schedule for one missing resource.
pub struct Reconnect {
    tick: u32,
}

impl Reconnect {
    #[verifier::type_invariant]
    spec fn tick_in_range(self) -> bool {
        self.tick < RETRY_EVERY_TICKS
    }

    /// Ticks since the last attempt, modulo `RETRY_EVERY_TICKS`.
    pub closed spec fn tick(self) -> u32 {
        self.tick
    }

    /// A schedule whose first tick is an attempt.
    pub fn new() -> (r: Reconnect)
        ensures
            r.tick() == 0,
    {
        Reconnect { tick: 0 }
    }

    /// Called once per tick while the resource is missing: whether to try
    /// to connect on this tick.
    pub fn due(&mut self) -> (attempt: bool)
        ensures
            attempt == (old(self).tick() == 0),
            final(self).tick() == next_tick(old(self).tick()),
            final(self).tick() < RETRY_EVERY_TICKS,
    {
        proof {
            use_type_invariant(&*self);
        }
        let attempt = self.tick == 0;
        self.tick = (self.tick + 1) % RETRY_EVERY_TICKS;
        attempt
    }
}

/// The tick that follows `t`.
pub open spec fn next_tick(t: u32) -> u32 {
    ((t + 1) % (RETRY_EVERY_TICKS as int)) as u32
}

/// How many of the `n` ticks starting at tick `t` are attempts.
pub open spec fn attempts(t: u32, n: nat) -> nat
    decreases n,
{
    if n == 0 {
        0
    } else {
        (if t == 0 {
            1nat
        } else {
            0nat
        }) + attempts(next_tick(t), (n - 1) as nat)
    }
}

/// While a resource stays missing, every `RETRY_EVERY_TICKS` consecutive
/// ticks hold exactly one connection attempt.
pub proof fn lemma_one_attempt_per_period(t: u32)
    requires
        t < RETRY_EVERY_TICKS,
    ensures
        attempts(t, RETRY_EVERY_TICKS as nat) == 1,
{
    reveal_with_fuel(attempts, 6);
    assert(next_tick(0) == 1);
    assert(next_tick(1) == 2);
    assert(next_tick(2) == 3);
    assert(next_tick(3) == 4);
    assert(next_tick(4) == 0);
}

/// What to do with playback after a telemetry reading.
#[derive(Debug, Clone, Copy, PartialEq, Eq, Structural)]
pub enum PlaybackAction {
    Nothing,
    Play,
    Pause,
}

/// The outcome of a telemetry poll.
#[derive(Debug, Clone, Copy, PartialEq, Eq, Structural)]
pub enum TelemetryOutcome {
    /// A reading arrived; apply this action to playback.
    Act(PlaybackAction),
    /// The reading failed (the game probably closed): drop the connection
    /// and retry later.
    Lost,
}

/// Playback follows the truck's electrics and the game's pause state.
/// On the first reading, playback starts if the electrics are on and the
/// game runs. Afterwards: electrics switched on, play; switched off, pause;
/// with the electrics on, the game paused, pause; resumed, play.
pub open spec fn playback_action(prev: Option<GameState>, gs: GameState) -> PlaybackAction {
    match prev {
        None => if gs.electrics_on && !gs.paused {
            PlaybackAction::Play
        } else {
            PlaybackAction::Nothing
        },
        Some(p) => if gs.electrics_on && !p.electrics_on {
            PlaybackAction::Play
        } else if !gs.electrics_on && p.electrics_on {
            PlaybackAction::Pause
        } else if gs.electrics_on && gs.paused && !p.paused {
            PlaybackAction::Pause
        } else if gs.electrics_on && !gs.paused && p.paused {
            PlaybackAction::Play
        } else {
            PlaybackAction::Nothing
        },
    }
}

/// The log line that goes with a telemetry reading, if any.
pub open spec fn playback_log(prev: Option<GameState>, gs: GameState) -> Option<Seq<char>> {
    match prev {
        None => if gs.electrics_on && !gs.paused {
            Some("Eletrica ja ligada ao iniciar - play."@)
        } else {
            None
        },
        Some(p) => if gs.electrics_on && !p.electrics_on {
            Some("Eletrica ligada - play."@)
        } else if !gs.electrics_on && p.electrics_on {
            Some("Eletrica desligada - pause."@)
        } else if gs.electrics_on && gs.paused && !p.paused {
            Some("Jogo pausado - pause."@)
        } else if gs.electrics_on && !gs.paused && p.paused {
            Some("Jogo despausado - play."@)
        } else {
            None
        },
    }
}

/// A reading identical to the previous one changes nothing; playback only
/// ever starts with the electrics on; it only pauses when the electrics go
/// off or the game pauses with the electrics on. Exactly: playback starts
/// when the electrics are on and either this is the first reading and the
/// game runs, or the electrics were off before, or the game was paused and
/// runs again; it pauses when the electrics were on and either go off or the
/// game pauses.
pub proof fn lemma_playback_follows_truck(prev: Option<GameState>, gs: GameState)
    ensures
        prev == Some(gs) ==> playback_action(prev, gs) == PlaybackAction::Nothing,
        playback_action(prev, gs) == PlaybackAction::Play ==> gs.electrics_on,
        playback_action(prev, gs) == PlaybackAction::Pause ==> prev is Some && ((
        prev->0.electrics_on && !gs.electrics_on) || (gs.electrics_on && gs.paused
            && !prev->0.paused)),
        prev matches Some(p) && gs.electrics_on && !p.electrics_on ==> playback_action(prev, gs)
            == PlaybackAction::Play,
        prev matches Some(p) && !gs.electrics_on && p.electrics_on ==> playback_action(prev, gs)
            == PlaybackAction::Pause,
        (playback_action(prev, gs) == PlaybackAction::Nothing) == (playback_log(prev, gs) is None),
        playback_action(prev, gs) == PlaybackAction::Play <==> gs.electrics_on && match prev {
            None => !gs.paused,
            Some(p) => !p.electrics_on || (p.paused && !gs.paused),
        },
        playback_action(prev, gs) == PlaybackAction::Pause <==> match prev {
            None => false,
            Some(p) => p.electrics_on && (!gs.electrics_on || (gs.paused && !p.paused)),
        },
{
}

/// Every new cover carries a generation different from the one before, so
/// the panel, which rebuilds its texture when the generation changes, never
/// misses a new cover.
pub proof fn lemma_new_cover_new_generation(generation: u64)
    ensures
        generation.wrapping_add(1) != generation,
{
}

/// The truck, telemetry, volume, status and now-playing fields of `a` and
/// `b` agree: what the engine's logging steps leave alone.
pub open spec fn panel_unchanged(a: UiState, b: UiState) -> bool {
    &&& a.electrics_on == b.electrics_on
    &&& a.game_paused == b.game_paused
    &&& a.telemetry_connected == b.telemetry_connected
    &&& a.volume == b.volume
    &&& a.status == b.status
    &&& a.now_playing == b.now_playing
}

/// Starting and then stopping the engine, with nothing in between, only
/// adds the two lines to the log: the truck, telemetry, volume, status and
/// now-playing fields are as they were.
pub proof fn lemma_start_then_stop(before: UiState, mid: UiState, after: UiState)
    requires
        lines(mid.log@) == lines_after(lines(before.log@), "Motor de integracao iniciado."@),
        panel_unchanged(mid, before),
        lines(after.log@) == lines_after(lines(mid.log@), "Motor de integracao encerrado."@),
        panel_unchanged(after, mid),
    ensures
        panel_unchanged(after, before),
        lines(after.log@) == lines_after(
            lines_after(lines(before.log@), "Motor de integracao iniciado."@),
            "Motor de integracao encerrado."@,
        ),
{
}

/// Key that identifies a track: artist, `|`, title.
pub open spec fn track_key(artist: Seq<char>, title: Seq<char>) -> Seq<char> {
    artist + seq!['|'] + title
}

/// Tracks are told apart by artist and title: two tracks whose artists hold
/// no `|` have the same key only when both their artists and their titles
/// are the same, so a change of either fetches a new cover.
pub proof fn lemma_track_key_tells_tracks_apart(
    artist1: Seq<char>,
    title1: Seq<char>,
    artist2: Seq<char>,
    title2: Seq<char>,
)
    requires
        forall|i: int| 0 <= i < artist1.len() ==> artist1[i] != '|',
        forall|i: int| 0 <= i < artist2.len() ==> artist2[i] != '|',
    ensures
        track_key(artist1, title1) == track_key(artist2, title2) <==> artist1 == artist2 && title1
            == title2,
{
    let k1 = track_key(artist1, title1);
    let k2 = track_key(artist2, title2);
    if k1 == k2 {
        if artist1.len() < artist2.len() {
            assert(k1[artist1.len() as int] == '|');
            assert(k2[artist1.len() as int] == artist2[artist1.len() as int]);
        } else if artist2.len() < artist1.len() {
            assert(k2[artist2.len() as int] == '|');
            assert(k1[artist2.len() as int] == artist1[artist2.len() as int]);
        } else {
            assert(artist1 =~= k1.take(artist1.len() as int));
            assert(artist2 =~= k2.take(artist2.len() as int));
            assert(title1 =~= k1.skip(artist1.len() as int + 1));
            assert(title2 =~= k2.skip(artist2.len() as int + 1));
        }
    }
}

/// The engine's memory between ticks.
pub struct Engine {
    pub media_retry: Reconnect,
    pub telemetry_retry: Reconnect,
    /// The "waiting for Spotify" line was already logged for the current
    /// outage.
    pub media_wait_logged: bool,
    /// The last telemetry reading since the telemetry (re)connected.
    pub prev_game_state: Option<GameState>,
    /// Generation of the last album art made.
    pub thumb_generation: u64,
    /// Key (see `track_key`) of the last track seen.
    pub last_track_key: Vec<char>,
}

/// Builds a `String` from a literal followed by more text.
fn message(lit: &str, tail: &str) -> (out: String)
    ensures
        out@ == lit@ + tail@,
{
    let mut v = chars_of(lit);
    let mut t = chars_of(tail);
    v.append(&mut t);
    string_of(&v)
}

/// Builds a `String` from a literal.
fn line(lit: &str) -> (out: String)
    ensures
        out@ == lit@,
{
    string_of(&chars_of(lit))
}

impl Engine {
    /// A fresh engine: no reading yet, both resources due at once.
    pub fn new() -> (e: Engine)
        ensures
            e.media_retry.tick() == 0,
            e.telemetry_retry.tick() == 0,
            !e.media_wait_logged,
            e.prev_game_state is None,
            e.thumb_generation == 0,
            e.last_track_key@.len() == 0,
    {
        Engine {
            media_retry: Reconnect::new(),
            telemetry_retry: Reconnect::new(),
            media_wait_logged: false,
            prev_game_state: None,
            thumb_generation: 0,
            last_track_key: Vec::new(),
        }
    }

    /// Logs that the engine started.
    pub fn started(ui: &mut UiState)
        ensures
            lines(final(ui).log@) == lines_after(
                lines(old(ui).log@),
                "Motor de integracao iniciado."@,
            ),
            panel_unchanged(*final(ui), *old(ui)),

    {
        push_log(ui, line("Motor de integracao iniciado."));
    }

    /// Logs that the engine stopped.
    pub fn stopped(ui: &mut UiState)
        ensures
            lines(final(ui).log@) == lines_after(
                lines(old(ui).log@),
                "Motor de integracao encerrado."@,
            ),
            panel_unchanged(*final(ui), *old(ui)),

    {
        push_log(ui, line("Motor de integracao encerrado."));
    }

    /// Spotify's media session was found.
    pub fn media_connected(&mut self, ui: &mut UiState)
        ensures
            lines(final(ui).log@) == lines_after(
                lines(old(ui).log@),
                "Conectado ao SMTC do Windows."@,
            ),
            !final(self).media_wait_logged,
            final(self).prev_game_state == old(self).prev_game_state,
            final(self).thumb_generation == old(self).thumb_generation,
            final(self).last_track_key == old(self).last_track_key,
            panel_unchanged(*final(ui), *old(ui)),
            final(self).media_retry == old(self).media_retry,
            final(self).telemetry_retry == old(self).telemetry_retry,
    {
        push_log(ui, line("Conectado ao SMTC do Windows."));
        self.media_wait_logged = false;
    }

    /// Spotify's media session could not be reached (`err` says why). The
    /// first failure of an outage is logged, later ones are not.
    pub fn media_connect_failed(&mut self, ui: &mut UiState, err: &str)
        ensures
            final(self).media_wait_logged,
            !old(self).media_wait_logged ==> lines(final(ui).log@) == lines_after(
                lines(old(ui).log@),
                "Aguardando SMTC do Windows (abra o Spotify): "@ + err@,
            ),
            old(self).media_wait_logged ==> final(ui).log == old(ui).log,
            final(self).prev_game_state == old(self).prev_game_state,
            final(self).thumb_generation == old(self).thumb_generation,
            final(self).last_track_key == old(self).last_track_key,
            panel_unchanged(*final(ui), *old(ui)),
            final(self).media_retry == old(self).media_retry,
            final(self).telemetry_retry == old(self).telemetry_retry,
    {
        if !self.media_wait_logged {
            push_log(ui, message("Aguardando SMTC do Windows (abra o Spotify): ", err));
            self.media_wait_logged = true;
        }
    }

    /// The game telemetry was (re)connected: the next reading counts as the
    /// first one.
    pub fn telemetry_connected(&mut self, ui: &mut UiState)
        ensures
            final(self).prev_game_state is None,
            lines(final(ui).log@) == lines_after(
                lines(old(ui).log@),
                "Conectado a telemetria do jogo."@,
            ),
            final(self).thumb_generation == old(self).thumb_generation,
            final(self).last_track_key == old(self).last_track_key,
            panel_unchanged(*final(ui), *old(ui)),
            final(self).media_retry == old(self).media_retry,
            final(self).telemetry_retry == old(self).telemetry_retry,
    {
        self.prev_game_state = None;
        push_log(ui, line("Conectado a telemetria do jogo."));
    }

    /// A command arrived from the panel: it runs only when the player is
    /// ready; otherwise it is dropped with a log line. Returns whether to
    /// run it.
    pub fn accept_command(ui: &mut UiState, player_ready: bool) -> (run: bool)
        ensures
            run == player_ready,
            player_ready ==> final(ui).log == old(ui).log,
            !player_ready ==> lines(final(ui).log@) == lines_after(
                lines(old(ui).log@),
                "Spotify ainda nao conectado - comando ignorado."@,
            ),
            panel_unchanged(*final(ui), *old(ui)),
    {
        if !player_ready {
            push_log(ui, line("Spotify ainda nao conectado - comando ignorado."));
        }
        player_ready
    }

    /// A command failed (`err` says why).
    pub fn command_failed(ui: &mut UiState, err: &str)
        ensures
            lines(final(ui).log@) == lines_after(
                lines(old(ui).log@),
                "Erro ao executar comando: "@ + err@,
            ),
            panel_unchanged(*final(ui), *old(ui)),
    {
        push_log(ui, message("Erro ao executar comando: ", err));
    }

    /// A telemetry poll: `Some` with the reading, or `None` when reading
    /// failed. Updates the panel's truck and connection state and the log,
    /// and says what to do with playback.
    pub fn on_telemetry(&mut self, ui: &mut UiState, reading: Option<GameState>) -> (out:
        TelemetryOutcome)
        ensures
            match reading {
                Some(gs) => {
                    &&& out == TelemetryOutcome::Act(playback_action(old(self).prev_game_state, gs))
                    &&& final(self).prev_game_state == Some(gs)
                    &&& final(ui).telemetry_connected
                    &&& final(ui).electrics_on == gs.electrics_on
                    &&& final(ui).game_paused == gs.paused
                    &&& match playback_log(old(self).prev_game_state, gs) {
                        Some(msg) => lines(final(ui).log@) == lines_after(lines(old(ui).log@), msg),
                        None => final(ui).log == old(ui).log,
                    }
                },
                None => {
                    &&& out == TelemetryOutcome::Lost
                    &&& final(self).prev_game_state is None
                    &&& !final(ui).telemetry_connected
                    &&& final(ui).electrics_on == old(ui).electrics_on
                    &&& final(ui).game_paused == old(ui).game_paused
                    &&& final(ui).log == old(ui).log
                },
            },
            final(self).thumb_generation == old(self).thumb_generation,
            final(self).last_track_key == old(self).last_track_key,
            final(self).media_wait_logged == old(self).media_wait_logged,
            final(ui).now_playing == old(ui).now_playing,
            final(ui).status == old(ui).status,
            final(ui).volume == old(ui).volume,
    {
        match reading {
            None => {
                self.prev_game_state = None;
                ui.telemetry_connected = false;
                TelemetryOutcome::Lost
            },
            Some(gs) => {
                let action = match self.prev_game_state {
                    None => {
                        if gs.electrics_on && !gs.paused {
                            push_log(ui, line("Eletrica ja ligada ao iniciar - play."));
                            PlaybackAction::Play
                        } else {
                            PlaybackAction::Nothing
                        }
                    },
                    Some(prev) => {
                        if gs.electrics_on && !prev.electrics_on {
                            push_log(ui, line("Eletrica ligada - play."));
                            PlaybackAction::Play
                        } else if !gs.electrics_on && prev.electrics_on {
                            push_log(ui, line("Eletrica desligada - pause."));
                            PlaybackAction::Pause
                        } else if gs.electrics_on && gs.paused && !prev.paused {
                            push_log(ui, line("Jogo pausado - pause."));
                            PlaybackAction::Pause
                        } else if gs.electrics_on && !gs.paused && prev.paused {
                            push_log(ui, line("Jogo despausado - play."));
                            PlaybackAction::Play
                        } else {
                            PlaybackAction::Nothing
                        }
                    },
                };
                self.prev_game_state = Some(gs);
                ui.telemetry_connected = true;
                ui.electrics_on = gs.electrics_on;
                ui.game_paused = gs.paused;
                TelemetryOutcome::Act(action)
            },
        }
    }

    /// Spotify reports `np`: whether its album art must be fetched, which is
    /// when the track (artist and title) differs from the last one seen.
    pub fn track_changed(&mut self, np: &NowPlaying) -> (fetch_cover: bool)
        ensures
            fetch_cover == (old(self).last_track_key@ != track_key(np.artist@, np.title@)),
            final(self).last_track_key@ == track_key(np.artist@, np.title@),
            final(self).thumb_generation == old(self).thumb_generation,
            final(self).prev_game_state == old(self).prev_game_state,
            final(self).media_wait_logged == old(self).media_wait_logged,
    {
        let mut key = chars_of(np.artist.as_str());
        key.push('|');
        let mut title = chars_of(np.title.as_str());
        key.append(&mut title);
        proof {
            assert(key@ =~= track_key(np.artist@, np.title@));
        }
        let changed = !chars_eq(&self.last_track_key, &key);
        self.last_track_key = key;
        changed
    }

    /// Publishes `np` as what is playing. `cover` is the album art decoded
    /// for a new track, if it was fetched and could be decoded: it becomes a
    /// thumbnail with the next generation; otherwise the thumbnail already
    /// shown is kept. `timeline` is the position and length in
    /// milliseconds, if the session reports them.
    pub fn publish_now_playing(
        &mut self,
        ui: &mut UiState,
        np: NowPlaying,
        cover: Option<(u32, u32, Vec<u8>)>,
        timeline: Option<(u32, u32)>,
    )
        ensures
            final(self).thumb_generation == if cover is Some {
                old(self).thumb_generation.wrapping_add(1)
            } else {
                old(self).thumb_generation
            },
            final(ui).now_playing matches Some(info) && {
                &&& info.title@ == np.title@
                &&& info.artist@ == np.artist@
                &&& info.album@ == np.album@
                &&& match timeline {
                    Some((p, d)) => info.position_ms == p && info.duration_ms == d,
                    None => info.position_ms == 0 && info.duration_ms == 0,
                }
                &&& match cover {
                    Some((w, h, px)) => info.thumbnail matches Some(t) && t.width == w && t.height
                        == h && t.rgba@ == px@ && t.generation == final(self).thumb_generation,
                    None => match old(ui).now_playing {
                        Some(prev) => info.thumbnail == prev.thumbnail,
                        None => info.thumbnail is None,
                    },
                }
            },
            final(self).last_track_key == old(self).last_track_key,
            final(self).prev_game_state == old(self).prev_game_state,
            final(ui).log == old(ui).log,
            final(ui).status == old(ui).status,
            final(ui).volume == old(ui).volume,
            final(ui).electrics_on == old(ui).electrics_on,
            final(ui).game_paused == old(ui).game_paused,
            final(ui).telemetry_connected == old(ui).telemetry_connected,
    {
        let thumbnail = match cover {
            Some((w, h, px)) => {
                self.thumb_generation = self.thumb_generation.wrapping_add(1);
                Some(ThumbnailData { width: w, height: h, rgba: px, generation: self.thumb_generation })
            },
            None => match ui.now_playing.take() {
                Some(prev) => prev.thumbnail,
                None => None,
            },
        };
        let (position_ms, duration_ms) = match timeline {
            Some((p, d)) => (p, d),
            None => (0, 0),
        };
        ui.now_playing = Some(
            NowPlayingInfo {
                title: np.title,
                artist: np.artist,
                album: np.album,
                thumbnail,
                position_ms,
                duration_ms,
            },
        );
    }
}

} // verus!
