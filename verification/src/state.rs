//! The state shared between the engine and the in-game panel: what is
//! playing, the truck's electrics, the game's pause state, a bounded log and
//! a one-line status; plus the commands the panel sends to the engine.

use vstd::prelude::*;
use crate::text::{chars_of, string_of};

verus! {

/// Most log lines kept; older ones are dropped first.
pub const LOG_CAPACITY: usize = 200;

/// Album art as RGBA pixels.
pub struct ThumbnailData {
    pub width: u32,
    pub height: u32,
    pub rgba: Vec<u8>,
    /// Increased with every new cover, so that the UI knows when to rebuild
    /// its texture instead of doing so every frame.
    pub generation: u64,
}

impl Clone for ThumbnailData {
    fn clone(&self) -> (out: Self)
        ensures
            out.width == self.width,
            out.height == self.height,
            out.rgba@ == self.rgba@,
            out.generation == self.generation,
    {
        ThumbnailData {
            width: self.width,
            height: self.height,
            rgba: self.rgba.clone(),
            generation: self.generation,
        }
    }
}

/// The track being played.
pub struct NowPlayingInfo {
    pub title: String,
    pub artist: String,
    pub album: String,
    pub thumbnail: Option<ThumbnailData>,
    /// Position in the track and its length, in milliseconds;
    /// `duration_ms == 0` means the length is unknown.
    pub position_ms: u32,
    pub duration_ms: u32,
}

impl Default for NowPlayingInfo {
    fn default() -> (out: Self)
        ensures
            out.title@.len() == 0,
            out.artist@.len() == 0,
            out.album@.len() == 0,
            out.thumbnail is None,
            out.position_ms == 0,
            out.duration_ms == 0,
    {
        NowPlayingInfo {
            title: String::new(),
            artist: String::new(),
            album: String::new(),
            thumbnail: None,
            position_ms: 0,
            duration_ms: 0,
        }
    }
}

/// Everything the panel shows.
pub struct UiState {
    pub now_playing: Option<NowPlayingInfo>,
    /// The truck's electrics are on (the engine need not be running).
    pub electrics_on: bool,
    pub game_paused: bool,
    pub telemetry_connected: bool,
    pub log: Vec<String>,
    /// One-line status message, overwritten as the backend changes phase
    /// (login pending, reconnecting, error); empty means nothing to show.
    pub status: String,
    /// Current volume, 0 to 100.
    pub volume: u32,
}

impl Default for UiState {
    fn default() -> (out: Self)
        ensures
            out.now_playing is None,
            !out.electrics_on,
            !out.game_paused,
            !out.telemetry_connected,
            out.log@.len() == 0,
            out.status@.len() == 0,
            out.volume == 0,
    {
        UiState {
            now_playing: None,
            electrics_on: false,
            game_paused: false,
            telemetry_connected: false,
            log: Vec::new(),
            status: String::new(),
            volume: 0,
        }
    }
}

/// Commands that the panel (clicks and in-game hotkeys) sends to the engine.
///
/// `Play` and `Pause` exist beside the `PlayPause` toggle because the
/// dedicated hotkeys must always reach the intended state.
pub enum Command {
    PlayPause,
    Play,
    Pause,
    Next,
    Previous,
    PlayUri(String),
    /// Absolute volume, 0 to 100.
    SetVolume(u32),
}

/// `a` and `b` are the same command (same variant, same text or volume).
pub open spec fn same_command(a: Command, b: Command) -> bool {
    match (a, b) {
        (Command::PlayUri(x), Command::PlayUri(y)) => x@ == y@,
        (Command::SetVolume(x), Command::SetVolume(y)) => x == y,
        (Command::PlayPause, Command::PlayPause) => true,
        (Command::Play, Command::Play) => true,
        (Command::Pause, Command::Pause) => true,
        (Command::Next, Command::Next) => true,
        (Command::Previous, Command::Previous) => true,
        _ => false,
    }
}

impl Clone for Command {
    fn clone(&self) -> (out: Self)
        ensures
            same_command(out, *self),
    {
        match self {
            Command::PlayPause => Command::PlayPause,
            Command::Play => Command::Play,
            Command::Pause => Command::Pause,
            Command::Next => Command::Next,
            Command::Previous => Command::Previous,
            Command::PlayUri(uri) => Command::PlayUri(uri.clone()),
            Command::SetVolume(v) => Command::SetVolume(*v),
        }
    }
}

/// The log after `line` is added: the line goes at the end, and the oldest
/// line is dropped when that makes the log longer than `LOG_CAPACITY`.
pub open spec fn log_after(log: Seq<String>, line: String) -> Seq<String> {
    let grown = log.push(line);
    if grown.len() > LOG_CAPACITY {
        grown.drop_first()
    } else {
        grown
    }
}

/// The text of each log entry.
pub open spec fn lines(log: Seq<String>) -> Seq<Seq<char>> {
    log.map_values(|s: String| s@)
}

/// `log_after` on the text of the entries.
pub open spec fn lines_after(lines: Seq<Seq<char>>, line: Seq<char>) -> Seq<Seq<char>> {
    let grown = lines.push(line);
    if grown.len() > LOG_CAPACITY {
        grown.drop_first()
    } else {
        grown
    }
}

/// A log within `LOG_CAPACITY` stays within it whatever line is added, and
/// keeps the added line as its last one; so every operation that logs
/// through `push_log` keeps the log bounded. Below the capacity nothing is
/// dropped; at the capacity only the oldest line is, the others staying in
/// order.
pub proof fn lemma_log_stays_bounded(lines: Seq<Seq<char>>, line: Seq<char>)
    requires
        lines.len() <= LOG_CAPACITY,
    ensures
        lines_after(lines, line).len() <= LOG_CAPACITY,
        lines_after(lines, line).last() == line,
        lines.len() < LOG_CAPACITY ==> lines_after(lines, line) == lines.push(line),
        lines.len() == LOG_CAPACITY ==> lines_after(lines, line) == lines.skip(1).push(line),
{
    if lines.len() == LOG_CAPACITY {
        assert(lines.push(line).drop_first() =~= lines.skip(1).push(line));
    }
}

/// Adds `line` to the log, dropping the oldest line past `LOG_CAPACITY`.
pub fn push_log(state: &mut UiState, line: String)
    ensures
        final(state).log@ == log_after(old(state).log@, line),
        lines(final(state).log@) == lines_after(lines(old(state).log@), line@),
        old(state).log@.len() <= LOG_CAPACITY ==> final(state).log@.len() <= LOG_CAPACITY,
        final(state).now_playing == old(state).now_playing,
        final(state).electrics_on == old(state).electrics_on,
        final(state).game_paused == old(state).game_paused,
        final(state).telemetry_connected == old(state).telemetry_connected,
        final(state).status == old(state).status,
        final(state).volume == old(state).volume,
{
    let ghost line_view = line@;
    state.log.push(line);
    proof {
        assert(lines(state.log@) =~= lines(old(state).log@).push(line_view));
    }
    if state.log.len() > LOG_CAPACITY {
        state.log.remove(0);
        proof {
            assert(state.log@ =~= old(state).log@.push(line).drop_first());
            assert(lines(state.log@) =~= lines(old(state).log@).push(line_view).drop_first());
        }
    }
}

/// The truck line of the desktop window: electrics, game and telemetry
/// state, in words.
pub open spec fn truck_status(electrics_on: bool, paused: bool, connected: bool) -> Seq<char> {
    "Eletrica: "@ + (if electrics_on {
        "ligada"@
    } else {
        "desligada"@
    }) + "   |   Jogo: "@ + (if paused {
        "pausado"@
    } else {
        "rodando"@
    }) + "   |   Telemetria: "@ + (if connected {
        "conectada"@
    } else {
        "sem conexao"@
    })
}

/// Writes the truck line of the desktop window.
pub fn truck_status_line(electrics_on: bool, paused: bool, connected: bool) -> (out: String)
    ensures
        out@ == truck_status(electrics_on, paused, connected),
{
    let mut v = chars_of("Eletrica: ");
    let mut a = if electrics_on { chars_of("ligada") } else { chars_of("desligada") };
    let mut b = chars_of("   |   Jogo: ");
    let mut c = if paused { chars_of("pausado") } else { chars_of("rodando") };
    let mut d = chars_of("   |   Telemetria: ");
    let mut e = if connected { chars_of("conectada") } else { chars_of("sem conexao") };
    v.append(&mut a);
    v.append(&mut b);
    v.append(&mut c);
    v.append(&mut d);
    v.append(&mut e);
    string_of(&v)
}

/// Replaces the status line.
pub fn set_status(state: &mut UiState, msg: String)
    ensures
        final(state).status == msg,
        final(state).log == old(state).log,
        final(state).now_playing == old(state).now_playing,
        final(state).electrics_on == old(state).electrics_on,
        final(state).game_paused == old(state).game_paused,
        final(state).telemetry_connected == old(state).telemetry_connected,
        final(state).volume == old(state).volume,
{
    state.status = msg;
}

} // verus!
