use base64::Engine;
use sone::commands::desktop::{
    on_shortcut, on_window_event, update_mpris_fullscreen, update_mpris_loop_status,
    update_mpris_metadata, update_mpris_playback_status, update_mpris_shuffle, DiscordCommand, Key,
    MprisCommand, MprisMetadata, WindowAction, WindowEvent,
};
use sone::commands::playback::{
    play_tidal_track, play_uri, quality_tiers, resolve_play_uri, video_quality, Cascade,
    CascadeStep, NormGain, StreamInfo,
};
use sone::error::SoneError;
use sone::state::{AppState, NO_DATA};

#[test]
fn ceiling_max_with_secret_is_full_cascade() {
    assert_eq!(
        quality_tiers("HI_RES_LOSSLESS", true),
        vec!["HI_RES_LOSSLESS", "HI_RES", "LOSSLESS", "HIGH"]
    );
}

#[test]
fn ceiling_max_without_secret_drops_hires() {
    assert_eq!(quality_tiers("HI_RES_LOSSLESS", false), vec!["LOSSLESS", "HIGH"]);
}

#[test]
fn ceiling_lossless_caps_below_hires() {
    assert_eq!(quality_tiers("LOSSLESS", true), vec!["LOSSLESS", "HIGH"]);
    assert_eq!(quality_tiers("LOSSLESS", false), vec!["LOSSLESS", "HIGH"]);
}

#[test]
fn ceiling_high_is_only_high() {
    assert_eq!(quality_tiers("HIGH", true), vec!["HIGH"]);
    assert_eq!(quality_tiers("HIGH", false), vec!["HIGH"]);
}

#[test]
fn unknown_ceiling_falls_back_to_max() {
    assert_eq!(
        quality_tiers("GARBAGE", true),
        vec!["HI_RES_LOSSLESS", "HI_RES", "LOSSLESS", "HIGH"]
    );
}

#[test]
fn always_includes_high_so_never_empty() {
    for ceiling in ["HI_RES_LOSSLESS", "LOSSLESS", "HIGH", "GARBAGE"] {
        for has_secret in [true, false] {
            let tiers = quality_tiers(ceiling, has_secret);
            assert!(tiers.contains(&"HIGH"), "ceiling={ceiling} secret={has_secret}");
        }
    }
}

#[test]
fn ceiling_hi_res_drops_only_the_highest() {
    assert_eq!(quality_tiers("HI_RES", true), vec!["HI_RES", "LOSSLESS", "HIGH"]);
    assert_eq!(quality_tiers("HI_RES", false), vec!["LOSSLESS", "HIGH"]);
}

fn stream() -> StreamInfo {
    StreamInfo {
        url: "https://cdn/track".into(),
        manifest: None,
        track_id: Some(7),
        audio_quality: None,
        audio_mode: Some("DOLBY_ATMOS".into()),
        asset_presentation: None,
        bit_depth: Some(16),
        sample_rate: Some(44100),
        codec: Some("flac".into()),
        track_replay_gain: Some((-7.5f64).to_bits()),
        album_replay_gain: Some((-8.25f64).to_bits()),
        track_peak_amplitude: None,
        album_peak_amplitude: Some(0.5f64.to_bits()),
    }
}

fn refused(tier: &str) -> Result<StreamInfo, SoneError> {
    Err(SoneError::Api(tier.into()))
}

#[test]
fn a_cascade_goes_on_after_a_refusal() {
    let mut c = Cascade::new("HI_RES_LOSSLESS", "");
    assert_eq!(c.tier(), "LOSSLESS");
    assert!(matches!(c.on_reply(refused("LOSSLESS")), CascadeStep::Try("HIGH")));
    assert_eq!(c.tier(), "HIGH");
    match c.on_reply(Ok(stream())) {
        CascadeStep::Served(info) => assert_eq!(info.url, "https://cdn/track"),
        other => panic!("{other:?}"),
    }
}

#[test]
fn a_cascade_fails_with_the_last_error() {
    let mut c = Cascade::new("LOSSLESS", "secret");
    c.on_reply(refused("LOSSLESS"));
    match c.on_reply(refused("HIGH")) {
        CascadeStep::Failed(SoneError::Api(tier)) => assert_eq!(tier, "HIGH"),
        other => panic!("{other:?}"),
    }
}

#[test]
fn a_failing_network_ends_a_cascade() {
    let mut c = Cascade::new("HI_RES_LOSSLESS", "secret");
    assert_eq!(c.tier(), "HI_RES_LOSSLESS");
    match c.on_reply(Err(SoneError::Network("down".into()))) {
        CascadeStep::Failed(error) => assert!(error.is_network()),
        other => panic!("{other:?}"),
    }
}

#[test]
fn dash_manifests_become_data_uris() {
    let mut info = stream();
    assert_eq!(play_uri(&info), "https://cdn/track");
    let mpd = "<MPD>\u{e9}?>~</MPD>";
    info.manifest = Some(mpd.into());
    let encoded = base64::engine::general_purpose::STANDARD.encode(mpd.as_bytes());
    assert_eq!(play_uri(&info), format!("data:application/dash+xml;base64,{encoded}"));
    info.manifest = Some("<M>".into());
    assert_eq!(play_uri(&info), "data:application/dash+xml;base64,PE0+");
}

#[test]
fn gains_follow_the_playback_context() {
    let mut state = AppState::new(&None, None);
    state.volume_normalization = true;
    let album = resolve_play_uri(&mut state, 5, false, stream(), 10);
    assert_eq!(f64::from_bits(album.replay_gain), -8.25);
    assert_eq!(f64::from_bits(album.peak_amplitude), 0.5);
    assert!(!album.is_dash);
    let track = resolve_play_uri(&mut state, 5, true, stream(), 10);
    assert_eq!(f64::from_bits(track.replay_gain), -7.5);
    assert_eq!(f64::from_bits(track.peak_amplitude), 0.5);
    assert_eq!(
        track.gain,
        NormGain::Normalized {
            replay_gain: Some((-7.5f64).to_bits()),
            peak_amplitude: Some(0.5f64.to_bits())
        }
    );
    // Resolving stores no gains; playing does.
    assert_eq!(state.last_replay_gain, NO_DATA);
    play_tidal_track(&mut state, &track);
    assert_eq!(f64::from_bits(state.last_replay_gain), -7.5);
    assert_eq!(f64::from_bits(state.last_peak_amplitude), 0.5);
}

#[test]
fn streams_without_gains_have_no_data() {
    let mut state = AppState::new(&None, None);
    let mut info = stream();
    info.track_replay_gain = None;
    info.album_replay_gain = None;
    info.album_peak_amplitude = None;
    info.manifest = Some("x".into());
    let resolved = resolve_play_uri(&mut state, 5, true, info, 10);
    assert!(f64::from_bits(resolved.replay_gain).is_nan());
    assert!(f64::from_bits(resolved.peak_amplitude).is_nan());
    assert_eq!(resolved.gain, NormGain::Unity);
    assert!(resolved.is_dash);
}

#[test]
fn resolved_streams_are_noted_for_reporting() {
    let mut state = AppState::new(&None, None);
    resolve_play_uri(&mut state, 5, true, stream(), 10);
    assert!(state.tidal_reporter.pending_meta.is_empty());
    state.tidal_reporter.set_enabled(true);
    resolve_play_uri(&mut state, 5, true, stream(), 10);
    let meta = &state.tidal_reporter.pending_meta[&5];
    assert_eq!(meta.actual_product_id, Some(7));
    assert_eq!(meta.quality, "LOSSLESS");
    assert_eq!(meta.audio_mode, "DOLBY_ATMOS");
    assert_eq!(meta.presentation, "FULL");
    assert_eq!(meta.at_ms, 10_000);
}

#[test]
fn videos_default_to_high() {
    assert_eq!(video_quality(None), "HIGH");
    assert_eq!(video_quality(Some("LOW".into())), "LOW");
}

fn metadata(url: &str) -> MprisMetadata {
    MprisMetadata {
        track_id: 3,
        title: "t".into(),
        artist: "a".into(),
        album: "b".into(),
        art_url: "art".into(),
        duration_secs: 12.5f64.to_bits(),
        url: url.into(),
        quality_text: "q".into(),
        album_artist: Some("aa".into()),
        track_number: Some(1),
        disc_number: None,
        content_created: None,
        user_rating: Some(1.0f64.to_bits()),
    }
}

#[test]
fn an_empty_url_is_none_for_the_media_controls() {
    match update_mpris_metadata(metadata("")) {
        (MprisCommand::SetMetadata { url, title, .. }, DiscordCommand::SetMetadata { url: u, .. }) => {
            assert_eq!(url, None);
            assert_eq!(title, "t");
            assert_eq!(u, "");
        }
        other => panic!("{other:?}"),
    }
    match update_mpris_metadata(metadata("https://x")) {
        (
            MprisCommand::SetMetadata { url, album_artist, user_rating, .. },
            DiscordCommand::SetMetadata { quality_text, duration_secs, .. },
        ) => {
            assert_eq!(url.as_deref(), Some("https://x"));
            assert_eq!(album_artist.as_deref(), Some("aa"));
            assert_eq!(user_rating, Some(1.0f64.to_bits()));
            assert_eq!(quality_text, "q");
            assert_eq!(f64::from_bits(duration_secs), 12.5);
        }
        other => panic!("{other:?}"),
    }
}

#[test]
fn a_position_that_is_not_known_is_the_start() {
    match update_mpris_playback_status(true, None) {
        (
            MprisCommand::SetPlaybackStatus { is_playing: true },
            DiscordCommand::SetPlaying { is_playing: true, position_secs },
        ) => assert_eq!(f64::from_bits(position_secs), 0.0),
        other => panic!("{other:?}"),
    }
    match update_mpris_playback_status(false, Some(4.5f64.to_bits())) {
        (_, DiscordCommand::SetPlaying { is_playing: false, position_secs }) => {
            assert_eq!(f64::from_bits(position_secs), 4.5)
        }
        other => panic!("{other:?}"),
    }
    assert!(matches!(update_mpris_shuffle(true), MprisCommand::SetShuffle { enabled: true }));
    assert!(matches!(
        update_mpris_fullscreen(false),
        MprisCommand::SetFullscreen { fullscreen: false }
    ));
    assert!(matches!(update_mpris_loop_status(2), MprisCommand::SetLoopStatus { mode: 2 }));
}

#[test]
fn windows_are_told_apart_by_their_label() {
    let on = on_window_event;
    assert_eq!(on(WindowEvent::CloseRequested, "main", true), WindowAction::HideInTray);
    assert_eq!(on(WindowEvent::CloseRequested, "main", false), WindowAction::Nothing);
    assert_eq!(on(WindowEvent::CloseRequested, "miniplayer", true), WindowAction::MiniplayerClosed);
    assert_eq!(on(WindowEvent::CloseRequested, "pkce-login", true), WindowAction::Nothing);
    assert_eq!(on(WindowEvent::Destroyed, "miniplayer", false), WindowAction::MiniplayerClosed);
    assert_eq!(on(WindowEvent::Destroyed, "pkce-login", false), WindowAction::LoginClosed);
    assert_eq!(on(WindowEvent::Destroyed, "main", true), WindowAction::Nothing);
    assert_eq!(on(WindowEvent::Focused, "miniplayer", true), WindowAction::SetShadow);
    assert_eq!(on(WindowEvent::Focused, "main", true), WindowAction::Nothing);
    assert_eq!(on(WindowEvent::Other, "miniplayer", true), WindowAction::Nothing);
}

#[test]
fn media_keys_act_when_they_go_down() {
    assert_eq!(on_shortcut(Key::MediaPlayPause, true), Some("tray:toggle-play"));
    assert_eq!(on_shortcut(Key::MediaTrackNext, true), Some("tray:next-track"));
    assert_eq!(on_shortcut(Key::MediaTrackPrevious, true), Some("tray:prev-track"));
    assert_eq!(on_shortcut(Key::MediaPlayPause, false), None);
    assert_eq!(on_shortcut(Key::Other, true), None);
}
