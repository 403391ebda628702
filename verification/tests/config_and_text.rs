use ets2_spotify_core::config::{normalize_spotify_link, Backend, Config};
use ets2_spotify_core::hotkeys::{format_from_egui, key_letter, parse_hotkey, HotKey, KeyCode, Modifiers};

#[test]
fn normalize_keeps_spotify_uri() {
    assert_eq!(
        normalize_spotify_link("spotify:playlist:37i9dQZF1DXcBWIGoYBM5M"),
        "spotify:playlist:37i9dQZF1DXcBWIGoYBM5M"
    );
}

#[test]
fn normalize_converts_open_link() {
    assert_eq!(
        normalize_spotify_link("https://open.spotify.com/playlist/37i9dQZF1DX0SM0LYsmbMT"),
        "spotify:playlist:37i9dQZF1DX0SM0LYsmbMT"
    );
}

#[test]
fn normalize_drops_query() {
    assert_eq!(
        normalize_spotify_link("https://open.spotify.com/album/4aawyAB9vmqN3uQ7FjRGTy?si=abc123"),
        "spotify:album:4aawyAB9vmqN3uQ7FjRGTy"
    );
}

#[test]
fn normalize_takes_second_path_segment_as_id() {
    // Only the first two path segments are read.
    assert_eq!(
        normalize_spotify_link("https://open.spotify.com/track/abc/extra"),
        "spotify:track:abc"
    );
}

#[test]
fn normalize_leaves_other_text() {
    assert_eq!(normalize_spotify_link("minha playlist"), "minha playlist");
    assert_eq!(normalize_spotify_link("https://open.spotify.com/playlist"), "https://open.spotify.com/playlist");
    assert_eq!(normalize_spotify_link("https://open.spotify.com//abc"), "https://open.spotify.com//abc");
    assert_eq!(normalize_spotify_link(""), "");
}

#[test]
fn normalize_is_idempotent() {
    for s in [
        "https://open.spotify.com/playlist/xyz?si=1",
        "spotify:album:1",
        "nada",
        "https://open.spotify.com/",
    ] {
        let once = normalize_spotify_link(s);
        assert_eq!(normalize_spotify_link(&once), once);
    }
}

#[test]
fn config_default_is_connect_and_empty() {
    let c = Config::default();
    assert!(c.playlists.is_empty());
    assert!(c.preferred_output_device.is_none());
    assert!(c.backend == Backend::Connect);
    assert!(Backend::default() == Backend::Connect);
}

#[test]
fn add_playlist_trims_and_normalizes() {
    let mut c = Config::default();
    assert!(c.add_playlist("Rock".to_string(), "  https://open.spotify.com/playlist/abc?x=1 \n"));
    assert_eq!(c.playlists.len(), 1);
    assert_eq!(c.playlists[0].name, "Rock");
    assert_eq!(c.playlists[0].uri, "spotify:playlist:abc");
}

#[test]
fn add_playlist_refuses_empty_fields() {
    let mut c = Config::default();
    assert!(!c.add_playlist(String::new(), "spotify:playlist:abc"));
    assert!(!c.add_playlist("x".to_string(), ""));
    assert!(c.playlists.is_empty());
}

#[test]
fn remove_playlist_by_index() {
    let mut c = Config::default();
    assert!(c.add_playlist("a".to_string(), "spotify:a"));
    assert!(c.add_playlist("b".to_string(), "spotify:b"));
    assert!(!c.remove_playlist(2));
    assert_eq!(c.playlists.len(), 2);
    assert!(c.remove_playlist(0));
    assert_eq!(c.playlists.len(), 1);
    assert_eq!(c.playlists[0].name, "b");
}

#[test]
fn add_then_remove_restores_list() {
    let mut c = Config::default();
    assert!(c.add_playlist("a".to_string(), "spotify:a"));
    assert!(c.add_playlist("b".to_string(), "spotify:b"));
    let last = c.playlists.len() - 1;
    assert!(c.remove_playlist(last));
    assert_eq!(c.playlists.len(), 1);
    assert_eq!(c.playlists[0].uri, "spotify:a");
}

fn mods(ctrl: bool, alt: bool, shift: bool, meta: bool) -> Modifiers {
    Modifiers { ctrl, alt, shift, meta }
}

#[test]
fn parse_hotkey_basic() {
    assert_eq!(
        parse_hotkey("Ctrl+Alt+Space"),
        Some(HotKey { mods: mods(true, true, false, false), code: KeyCode::Space })
    );
    assert_eq!(
        parse_hotkey(" control + shift + F5 "),
        Some(HotKey { mods: mods(true, false, true, false), code: KeyCode::F5 })
    );
    assert_eq!(
        parse_hotkey("Win+k"),
        Some(HotKey { mods: mods(false, false, false, true), code: KeyCode::KeyK })
    );
    assert_eq!(
        parse_hotkey("Shift+7"),
        Some(HotKey { mods: mods(false, false, true, false), code: KeyCode::Digit7 })
    );
    assert_eq!(
        parse_hotkey("Alt+ArrowLeft"),
        Some(HotKey { mods: mods(false, true, false, false), code: KeyCode::ArrowLeft })
    );
}

#[test]
fn parse_hotkey_rejects() {
    assert_eq!(parse_hotkey(""), None);
    assert_eq!(parse_hotkey("   "), None);
    assert_eq!(parse_hotkey("Ctrl+Alt"), None);
    assert_eq!(parse_hotkey("Ctrl+Banana"), None);
    // The last non-modifier part decides, even when it names no key.
    assert_eq!(parse_hotkey("Space+Banana"), None);
}

#[test]
fn parse_hotkey_last_key_wins_and_skips_empty_parts() {
    assert_eq!(
        parse_hotkey("A++B"),
        Some(HotKey { mods: mods(false, false, false, false), code: KeyCode::KeyB })
    );
}

#[test]
fn format_from_egui_joins_with_plus() {
    assert_eq!(format_from_egui(mods(true, false, true, false), "Space"), "Ctrl+Shift+Space");
    assert_eq!(format_from_egui(mods(false, false, false, true), "F9"), "F9");
    assert_eq!(format_from_egui(mods(true, true, true, false), "A"), "Ctrl+Alt+Shift+A");
}

#[test]
fn format_then_parse_round_trip() {
    let text = format_from_egui(mods(true, true, false, false), "ArrowUp");
    assert_eq!(
        parse_hotkey(&text),
        Some(HotKey { mods: mods(true, true, false, false), code: KeyCode::ArrowUp })
    );
}

#[test]
fn form_playlist_defaults_name() {
    let mut c = Config::default();
    assert!(!c.add_playlist_from_form("Nome", "   "));
    assert!(c.add_playlist_from_form("  ", " https://open.spotify.com/playlist/q1 "));
    assert_eq!(c.playlists[0].name, "Sem nome");
    assert_eq!(c.playlists[0].uri, "spotify:playlist:q1");
    assert!(c.add_playlist_from_form(" Estrada ", "spotify:album:z"));
    assert_eq!(c.playlists[1].name, " Estrada ");
}

#[test]
fn key_letter_ignores_case() {
    assert_eq!(key_letter('q'), KeyCode::KeyQ);
    assert_eq!(key_letter('Q'), KeyCode::KeyQ);
    assert_eq!(key_letter('z'), KeyCode::KeyZ);
    assert_eq!(key_letter('a'), key_letter('A'));
    assert_ne!(key_letter('a'), key_letter('b'));
    assert_eq!(key_letter('7'), KeyCode::KeyA);
}

#[test]
fn egui_captures_read_back() {
    let keys = [
        ("Space", KeyCode::Space),
        ("ArrowLeft", KeyCode::ArrowLeft),
        ("ArrowRight", KeyCode::ArrowRight),
        ("ArrowUp", KeyCode::ArrowUp),
        ("ArrowDown", KeyCode::ArrowDown),
        ("Enter", KeyCode::Enter),
        ("Tab", KeyCode::Tab),
        ("Escape", KeyCode::Escape),
        ("Backspace", KeyCode::Backspace),
        ("Delete", KeyCode::Delete),
        ("F1", KeyCode::F1),
        ("F9", KeyCode::F9),
        ("F12", KeyCode::F12),
        ("A", KeyCode::KeyA),
        ("M", KeyCode::KeyM),
        ("Z", KeyCode::KeyZ),
    ];
    for (name, code) in keys {
        let text = format_from_egui(mods(false, true, true, true), name);
        assert_eq!(
            parse_hotkey(&text),
            Some(HotKey { mods: mods(false, true, true, false), code })
        );
    }
    // egui names the digit keys Num0 to Num9, which name no key.
    assert_eq!(parse_hotkey(&format_from_egui(mods(true, false, false, false), "Num5")), None);
}
