use ets2_spotify_core::engine::{Engine, PlaybackAction, Reconnect, TelemetryOutcome};
use ets2_spotify_core::media::NowPlaying;
use ets2_spotify_core::state::{push_log, set_status, truck_status_line, Command, UiState, LOG_CAPACITY};
use ets2_spotify_core::telemetry::{field_is_true, game_state_from_debug, GameState};

fn gs(electrics_on: bool, paused: bool) -> GameState {
    GameState { electrics_on, paused }
}

#[test]
fn log_keeps_last_lines() {
    let mut ui = UiState::default();
    for i in 0..(LOG_CAPACITY + 5) {
        push_log(&mut ui, format!("linha {i}"));
    }
    assert_eq!(ui.log.len(), LOG_CAPACITY);
    assert_eq!(ui.log[0], "linha 5");
    assert_eq!(ui.log[LOG_CAPACITY - 1], format!("linha {}", LOG_CAPACITY + 4));
}

#[test]
fn status_is_replaced() {
    let mut ui = UiState::default();
    set_status(&mut ui, "um".to_string());
    set_status(&mut ui, "dois".to_string());
    assert_eq!(ui.status, "dois");
}

#[test]
fn command_clone_keeps_text() {
    let c = Command::PlayUri("spotify:x".to_string());
    match c.clone() {
        Command::PlayUri(u) => assert_eq!(u, "spotify:x"),
        _ => panic!("wrong variant"),
    }
}

#[test]
fn field_is_true_reads_debug_text() {
    let debug = "TelemetryData { paused: false, truck: Truck { current: Current { electric_enabled: true, engine_enabled: false } } }";
    assert!(field_is_true(debug, "electric_enabled"));
    assert!(!field_is_true(debug, "engine_enabled"));
    assert!(!field_is_true(debug, "paused"));
    assert!(field_is_true("{\"paused\": true}", "paused"));
    assert!(!field_is_true("", "paused"));
}

#[test]
fn game_state_from_debug_text() {
    let on = game_state_from_debug("X { electric_enabled: true, paused: false }");
    assert_eq!(on, gs(true, false));
    let engine_only = game_state_from_debug("X { engine_enabled: true, paused: true }");
    assert_eq!(engine_only, gs(true, true));
    let off = game_state_from_debug("X { electric_enabled: false, paused: true }");
    assert_eq!(off, gs(false, true));
}

#[test]
fn retry_once_every_five_ticks() {
    let mut r = Reconnect::new();
    let attempts: Vec<bool> = (0..11).map(|_| r.due()).collect();
    assert_eq!(
        attempts,
        vec![true, false, false, false, false, true, false, false, false, false, true]
    );
}

#[test]
fn first_reading_with_electrics_on_plays() {
    let mut e = Engine::new();
    let mut ui = UiState::default();
    let out = e.on_telemetry(&mut ui, Some(gs(true, false)));
    assert_eq!(out, TelemetryOutcome::Act(PlaybackAction::Play));
    assert!(ui.telemetry_connected && ui.electrics_on && !ui.game_paused);
    assert_eq!(ui.log.last().unwrap(), "Eletrica ja ligada ao iniciar - play.");
}

#[test]
fn first_reading_paused_does_nothing() {
    let mut e = Engine::new();
    let mut ui = UiState::default();
    let out = e.on_telemetry(&mut ui, Some(gs(true, true)));
    assert_eq!(out, TelemetryOutcome::Act(PlaybackAction::Nothing));
    assert!(ui.log.is_empty());
}

#[test]
fn electrics_and_pause_transitions() {
    let mut e = Engine::new();
    let mut ui = UiState::default();
    assert_eq!(e.on_telemetry(&mut ui, Some(gs(false, false))), TelemetryOutcome::Act(PlaybackAction::Nothing));
    assert_eq!(e.on_telemetry(&mut ui, Some(gs(true, false))), TelemetryOutcome::Act(PlaybackAction::Play));
    assert_eq!(ui.log.last().unwrap(), "Eletrica ligada - play.");
    assert_eq!(e.on_telemetry(&mut ui, Some(gs(true, false))), TelemetryOutcome::Act(PlaybackAction::Nothing));
    assert_eq!(e.on_telemetry(&mut ui, Some(gs(true, true))), TelemetryOutcome::Act(PlaybackAction::Pause));
    assert_eq!(ui.log.last().unwrap(), "Jogo pausado - pause.");
    assert_eq!(e.on_telemetry(&mut ui, Some(gs(true, false))), TelemetryOutcome::Act(PlaybackAction::Play));
    assert_eq!(ui.log.last().unwrap(), "Jogo despausado - play.");
    assert_eq!(e.on_telemetry(&mut ui, Some(gs(false, false))), TelemetryOutcome::Act(PlaybackAction::Pause));
    assert_eq!(ui.log.last().unwrap(), "Eletrica desligada - pause.");
    // Pausing with the electrics off changes nothing.
    assert_eq!(e.on_telemetry(&mut ui, Some(gs(false, true))), TelemetryOutcome::Act(PlaybackAction::Nothing));
    // Electrics on while the game is paused still plays.
    assert_eq!(e.on_telemetry(&mut ui, Some(gs(true, true))), TelemetryOutcome::Act(PlaybackAction::Play));
}

#[test]
fn lost_telemetry_resets_first_reading() {
    let mut e = Engine::new();
    let mut ui = UiState::default();
    e.on_telemetry(&mut ui, Some(gs(true, false)));
    assert_eq!(e.on_telemetry(&mut ui, None), TelemetryOutcome::Lost);
    assert!(!ui.telemetry_connected);
    assert!(e.prev_game_state.is_none());
    e.telemetry_connected(&mut ui);
    assert_eq!(ui.log.last().unwrap(), "Conectado a telemetria do jogo.");
    assert_eq!(e.on_telemetry(&mut ui, Some(gs(true, false))), TelemetryOutcome::Act(PlaybackAction::Play));
}

#[test]
fn media_wait_logged_once() {
    let mut e = Engine::new();
    let mut ui = UiState::default();
    e.media_connect_failed(&mut ui, "sem sessao");
    e.media_connect_failed(&mut ui, "sem sessao");
    assert_eq!(ui.log.len(), 1);
    assert_eq!(ui.log[0], "Aguardando SMTC do Windows (abra o Spotify): sem sessao");
    e.media_connected(&mut ui);
    assert_eq!(ui.log[1], "Conectado ao SMTC do Windows.");
    e.media_connect_failed(&mut ui, "de novo");
    assert_eq!(ui.log.len(), 3);
}

#[test]
fn commands_need_a_ready_player() {
    let mut ui = UiState::default();
    assert!(!Engine::accept_command(&mut ui, false));
    assert_eq!(ui.log[0], "Spotify ainda nao conectado - comando ignorado.");
    assert!(Engine::accept_command(&mut ui, true));
    assert_eq!(ui.log.len(), 1);
    Engine::command_failed(&mut ui, "falhou");
    assert_eq!(ui.log[1], "Erro ao executar comando: falhou");
}

#[test]
fn start_and_stop_are_logged() {
    let mut ui = UiState::default();
    Engine::started(&mut ui);
    Engine::stopped(&mut ui);
    assert_eq!(ui.log, vec!["Motor de integracao iniciado.".to_string(), "Motor de integracao encerrado.".to_string()]);
}

fn np(artist: &str, title: &str) -> NowPlaying {
    NowPlaying { title: title.to_string(), artist: artist.to_string(), album: "Album".to_string() }
}

#[test]
fn cover_fetched_only_on_track_change() {
    let mut e = Engine::new();
    assert!(e.track_changed(&np("Artista", "Faixa")));
    assert!(!e.track_changed(&np("Artista", "Faixa")));
    assert!(e.track_changed(&np("Artista", "Outra")));
    // "a|b" + "c" and "a" + "b|c" give the same key.
    assert!(e.track_changed(&np("a|b", "c")));
    assert!(!e.track_changed(&np("a", "b|c")));
}

#[test]
fn publish_now_playing_numbers_covers() {
    let mut e = Engine::new();
    let mut ui = UiState::default();
    e.publish_now_playing(&mut ui, np("A", "T1"), Some((2, 1, vec![1, 2, 3, 4, 5, 6, 7, 8])), Some((1500, 200000)));
    let info = ui.now_playing.as_ref().unwrap();
    assert_eq!(info.title, "T1");
    assert_eq!(info.position_ms, 1500);
    assert_eq!(info.duration_ms, 200000);
    let t = info.thumbnail.as_ref().unwrap();
    assert_eq!((t.width, t.height, t.generation), (2, 1, 1));

    // Same track, no new cover: the thumbnail stays.
    e.publish_now_playing(&mut ui, np("A", "T1"), None, None);
    let info = ui.now_playing.as_ref().unwrap();
    assert_eq!(info.thumbnail.as_ref().unwrap().generation, 1);
    assert_eq!((info.position_ms, info.duration_ms), (0, 0));

    e.publish_now_playing(&mut ui, np("B", "T2"), Some((1, 1, vec![9, 9, 9, 9])), None);
    let info = ui.now_playing.as_ref().unwrap();
    assert_eq!(info.thumbnail.as_ref().unwrap().generation, 2);
    assert_eq!(e.thumb_generation, 2);
}

#[test]
fn truck_status_words() {
    assert_eq!(
        truck_status_line(true, false, true),
        "Eletrica: ligada   |   Jogo: rodando   |   Telemetria: conectada"
    );
    assert_eq!(
        truck_status_line(false, true, false),
        "Eletrica: desligada   |   Jogo: pausado   |   Telemetria: sem conexao"
    );
}
