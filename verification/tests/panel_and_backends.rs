use ets2_spotify_core::audio_device::{endpoint_for, is_spotify_image_path, spotify_session_index as audio_session_index, wrap_device_id, OutputDevice};
use ets2_spotify_core::config::Config;
use ets2_spotify_core::ffi::{
    command_from_kind, device_entries, fill_truncated, playlist_entries, snapshot_of,
    thumbnail_to_copy, volume_command, STATUS_CAP, TITLE_CAP,
};
use ets2_spotify_core::media::{
    decode_cover, is_spotify_app_id, shell_execute_succeeded, spotify_session_index, timeline_from_ticks,
};
use ets2_spotify_core::spotify_connect::{
    activation_status, apply_player_event, login_status, percent_to_raw, raw_to_percent, smallest_cover, CoverCounter, PlayerEvent,
};
use ets2_spotify_core::state::{Command, NowPlayingInfo, ThumbnailData, UiState};

#[test]
fn fill_truncated_copies_what_fits() {
    let mut buf = [0xAAu8; 8];
    assert_eq!(fill_truncated(&mut buf, "abc"), 3);
    assert_eq!(&buf[..4], &[b'a', b'b', b'c', 0xAA]);
    let mut small = [0u8; 2];
    assert_eq!(fill_truncated(&mut small, "abcdef"), 2);
    assert_eq!(&small, b"ab");
}

#[test]
fn fill_truncated_never_splits_a_character() {
    // "aé" is 61 C3 A9: two bytes of room keep only "a".
    let mut buf = [0u8; 2];
    assert_eq!(fill_truncated(&mut buf, "aé"), 1);
    assert_eq!(buf, [b'a', 0]);
    let mut buf3 = [0u8; 3];
    assert_eq!(fill_truncated(&mut buf3, "aé"), 3);
    assert_eq!(std::str::from_utf8(&buf3).unwrap(), "aé");
    // A four-byte character that does not fit is dropped whole.
    let mut buf4 = [0u8; 4];
    assert_eq!(fill_truncated(&mut buf4, "x🎵"), 1);
    let mut empty: [u8; 0] = [];
    assert_eq!(fill_truncated(&mut empty, "abc"), 0);
}

#[test]
fn snapshot_without_track() {
    let mut ui = UiState::default();
    ui.electrics_on = true;
    ui.volume = 42;
    ui.status = "Conectado".to_string();
    let s = snapshot_of(&ui);
    assert_eq!((s.electrics_on, s.game_paused, s.telemetry_connected, s.has_track), (1, 0, 0, 0));
    assert_eq!(s.volume, 42);
    assert_eq!(s.status_len, 9);
    assert_eq!(&s.status[..9], b"Conectado");
    assert_eq!(s.title_len, 0);
    assert_eq!(s.thumb_generation, 0);
}

#[test]
fn snapshot_with_track_and_long_title() {
    let mut ui = UiState::default();
    let long: String = "é".repeat(100); // 200 bytes
    ui.now_playing = Some(NowPlayingInfo {
        title: long.clone(),
        artist: "Artista".to_string(),
        album: String::new(),
        thumbnail: Some(ThumbnailData { width: 64, height: 32, rgba: vec![0; 64 * 32 * 4], generation: 7 }),
        position_ms: 10,
        duration_ms: 20,
    });
    let s = snapshot_of(&ui);
    assert_eq!(s.has_track, 1);
    assert_eq!(s.title_len as usize, TITLE_CAP);
    assert_eq!(std::str::from_utf8(&s.title[..s.title_len as usize]).unwrap(), "é".repeat(64));
    assert_eq!(s.artist_len, 7);
    assert_eq!((s.thumb_generation, s.thumb_width, s.thumb_height), (7, 64, 32));
    assert_eq!((s.position_ms, s.duration_ms), (10, 20));
    assert!(s.status_len as usize <= STATUS_CAP);
}

#[test]
fn thumbnail_copy_rules() {
    let mut ui = UiState::default();
    assert!(thumbnail_to_copy(&ui, 0, 1000).is_none());
    ui.now_playing = Some(NowPlayingInfo::default());
    assert!(thumbnail_to_copy(&ui, 0, 1000).is_none());
    ui.now_playing.as_mut().unwrap().thumbnail =
        Some(ThumbnailData { width: 1, height: 1, rgba: vec![1, 2, 3, 4], generation: 3 });
    assert_eq!(thumbnail_to_copy(&ui, 3, 4).unwrap(), &vec![1, 2, 3, 4]);
    assert!(thumbnail_to_copy(&ui, 2, 4).is_none());
    assert!(thumbnail_to_copy(&ui, 3, 3).is_none());
}

#[test]
fn command_codes() {
    assert!(matches!(command_from_kind(0, String::new()), Some(Command::PlayPause)));
    assert!(matches!(command_from_kind(1, String::new()), Some(Command::Next)));
    assert!(matches!(command_from_kind(2, String::new()), Some(Command::Previous)));
    match command_from_kind(3, "spotify:x".to_string()) {
        Some(Command::PlayUri(u)) => assert_eq!(u, "spotify:x"),
        _ => panic!("expected PlayUri"),
    }
    assert!(matches!(command_from_kind(4, String::new()), Some(Command::Play)));
    assert!(matches!(command_from_kind(5, String::new()), Some(Command::Pause)));
    assert!(command_from_kind(6, String::new()).is_none());
    assert!(matches!(volume_command(150), Command::SetVolume(100)));
    assert!(matches!(volume_command(37), Command::SetVolume(37)));
}

#[test]
fn playlist_and_device_lists() {
    let mut c = Config::default();
    assert!(c.add_playlist("Um".to_string(), "spotify:1"));
    assert!(c.add_playlist("Dois".to_string(), "spotify:2"));
    let all = playlist_entries(&c, 10);
    assert_eq!(all.len(), 2);
    assert_eq!(&all[1].name[..all[1].name_len as usize], b"Dois");
    assert_eq!(&all[1].uri[..all[1].uri_len as usize], b"spotify:2");
    assert_eq!(playlist_entries(&c, 1).len(), 1);
    assert_eq!(playlist_entries(&c, 0).len(), 0);

    let devices = vec![
        OutputDevice::new("{id-1}".to_string(), Some("Fones".to_string())),
        OutputDevice::new("{id-2}".to_string(), None),
    ];
    assert_eq!(devices[1].name, "{id-2}");
    let d = device_entries(&devices, 5);
    assert_eq!(d.len(), 2);
    assert_eq!(&d[0].name[..d[0].name_len as usize], b"Fones");
    assert_eq!(&d[1].id[..d[1].id_len as usize], b"{id-2}");
}

#[test]
fn spotify_app_ids() {
    assert!(is_spotify_app_id("Spotify.exe"));
    assert!(is_spotify_app_id("SpotifyAB.SpotifyMusic_zpdnekdrzrea0!Spotify"));
    assert!(!is_spotify_app_id("chrome.exe"));
    assert!(is_spotify_app_id("Música.SPOTIFY"));
    let ids = vec!["msedge".to_string(), "SPOTIFY.EXE".to_string(), "spotify".to_string()];
    assert_eq!(spotify_session_index(&ids), Some(1));
    assert_eq!(spotify_session_index(&vec!["vlc".to_string()]), None);
}

#[test]
fn timeline_conversion() {
    assert_eq!(timeline_from_ticks(15_000_000, 2_000_000_000), Some((1500, 200_000)));
    assert_eq!(timeline_from_ticks(-5, 10_000), Some((0, 1)));
    assert_eq!(timeline_from_ticks(100, 0), None);
    assert_eq!(timeline_from_ticks(100, -1), None);
}

#[test]
fn shell_execute_codes() {
    assert!(shell_execute_succeeded(33));
    assert!(!shell_execute_succeeded(32));
    assert!(!shell_execute_succeeded(2));
}

#[test]
fn decode_cover_reads_png() {
    let img = image::RgbaImage::from_pixel(2, 3, image::Rgba([10, 20, 30, 255]));
    let mut png: Vec<u8> = Vec::new();
    img.write_to(&mut std::io::Cursor::new(&mut png), image::ImageFormat::Png).unwrap();
    let (w, h, px) = decode_cover(&png).unwrap();
    assert_eq!((w, h), (2, 3));
    assert_eq!(px.len(), 24);
    assert_eq!(&px[..4], &[10, 20, 30, 255]);
    assert!(decode_cover(&[]).is_none());
    assert!(decode_cover(b"not a picture").is_none());
}

#[test]
fn decode_cover_converts_gray_to_rgba() {
    let img = image::GrayImage::from_pixel(3, 2, image::Luma([7]));
    let mut png: Vec<u8> = Vec::new();
    img.write_to(&mut std::io::Cursor::new(&mut png), image::ImageFormat::Png).unwrap();
    let (w, h, px) = decode_cover(&png).unwrap();
    assert_eq!((w, h), (3, 2));
    assert_eq!(px.len(), 4 * 3 * 2);
    assert_eq!(&px[..4], &[7, 7, 7, 255]);
}

#[test]
fn spotify_process_paths() {
    assert!(is_spotify_image_path("C:\\Users\\x\\AppData\\Roaming\\Spotify\\Spotify.exe"));
    assert!(!is_spotify_image_path("C:\\Windows\\explorer.exe"));
    assert!(is_spotify_image_path("D:\\Músicas\\SPOTIFY.EXE"));
    assert!(!is_spotify_image_path("D:\\Músicas\\spotify.exe.bak"));
    let sessions = vec![
        (0u32, Some("C:\\Spotify\\Spotify.exe".to_string())),
        (40, None),
        (41, Some("C:\\Program Files\\Game\\eurotrucks2.exe".to_string())),
        (42, Some("D:\\Apps\\SPOTIFY.EXE".to_string())),
    ];
    assert_eq!(audio_session_index(&sessions), Some(3));
}

#[test]
fn endpoint_paths() {
    assert_eq!(
        wrap_device_id("{0.0.0.00000000}.{abc}"),
        "\\\\?\\SWD#MMDEVAPI#{0.0.0.00000000}.{abc}#{e6327cad-dcec-4949-ae8a-991e976a79d2}"
    );
    assert_eq!(endpoint_for(None), "");
    assert_eq!(endpoint_for(Some("x")), wrap_device_id("x"));
}

#[test]
fn volume_scales() {
    assert_eq!(percent_to_raw(0), 0);
    assert_eq!(percent_to_raw(100), 65535);
    assert_eq!(percent_to_raw(250), 65535);
    assert_eq!(percent_to_raw(50), 32767);
    assert_eq!(raw_to_percent(65535), 100);
    assert_eq!(raw_to_percent(32767), 49);
    assert_eq!(raw_to_percent(0), 0);
    for p in 0..=100u32 {
        let back = raw_to_percent(percent_to_raw(p));
        assert!(back <= p && back + 1 >= p);
    }
}

#[test]
fn player_events_update_state() {
    let mut ui = UiState::default();
    apply_player_event(&mut ui, PlayerEvent::Position { position_ms: 5 });
    assert!(ui.now_playing.is_none());
    apply_player_event(
        &mut ui,
        PlayerEvent::TrackChanged {
            title: "Faixa".to_string(),
            track: Some((vec!["A".to_string(), "B".to_string()], "Disco".to_string())),
            duration_ms: 1000,
        },
    );
    let np = ui.now_playing.as_ref().unwrap();
    assert_eq!((np.title.as_str(), np.artist.as_str(), np.album.as_str()), ("Faixa", "A, B", "Disco"));
    assert_eq!((np.position_ms, np.duration_ms), (0, 1000));
    apply_player_event(&mut ui, PlayerEvent::Position { position_ms: 500 });
    assert_eq!(ui.now_playing.as_ref().unwrap().position_ms, 500);
    apply_player_event(&mut ui, PlayerEvent::VolumeChanged { volume: 65535 });
    assert_eq!(ui.volume, 100);
    apply_player_event(&mut ui, PlayerEvent::Other);
    assert!(ui.now_playing.is_some());
    apply_player_event(&mut ui, PlayerEvent::Stopped);
    assert!(ui.now_playing.is_none());
    apply_player_event(
        &mut ui,
        PlayerEvent::TrackChanged { title: "Episodio".to_string(), track: None, duration_ms: 0 },
    );
    assert_eq!(ui.now_playing.as_ref().unwrap().artist, "");
}

#[test]
fn smallest_cover_choice() {
    assert_eq!(smallest_cover(&vec![(640, 640), (64, 64), (300, 300), (64, 64)]), Some(1));
    assert_eq!(smallest_cover(&vec![(0, 0), (-1, 5), (10, 10)]), Some(2));
    assert_eq!(smallest_cover(&vec![(0, 10)]), None);
    assert_eq!(smallest_cover(&vec![]), None);
}

#[test]
fn covers_attach_with_next_generation() {
    let mut ui = UiState::default();
    let mut counter = CoverCounter::new();
    counter.attach_cover(&mut ui, Some((1, 1, vec![0, 0, 0, 0])));
    assert_eq!(counter.generation, 1);
    assert!(ui.now_playing.is_none());
    apply_player_event(&mut ui, PlayerEvent::TrackChanged { title: "T".to_string(), track: None, duration_ms: 1 });
    counter.attach_cover(&mut ui, Some((2, 2, vec![0; 16])));
    assert_eq!(ui.now_playing.as_ref().unwrap().thumbnail.as_ref().unwrap().generation, 2);
    counter.attach_cover(&mut ui, None);
    assert_eq!(counter.generation, 2);
}

#[test]
fn connect_status_lines() {
    assert_eq!(login_status(true), "Reconectando ao Spotify (login salvo)...");
    assert_eq!(login_status(false), "Login necessario: abrindo o navegador para autorizar o Spotify...");
    assert_eq!(activation_status(None), "Conectado como dispositivo Connect \"ETS2\".");
    assert_eq!(
        activation_status(Some("sem sessao")),
        "Conectado, mas nao foi possivel auto-ativar o dispositivo (sem sessao) - escolha \"ETS2\" nos dispositivos do Spotify."
    );
}
