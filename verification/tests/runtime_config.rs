use open_arpg::config::{
    audio_enabled_from_env, display_server_label, display_vars_present, env_flag_value,
    parse_asset_mode, parse_cli_args, parse_render_profile, parse_smoke_frames, runtime_config,
    should_fallback_to_headless_smoke, startup_window_backend_label, startup_window_diagnostic,
    AssetMode, CliArgs, EnvSettings, RenderProfile, RuntimeConfig, UserSettings, WindowBackend,
};

/// The engine feature summary that the game prints with its startup line.
const FEATURE_AUDIT: &str = "profiles=3d+ui+scene+picking+audio-all-formats; animation=gltf_animation+morph_animation; ui=bevy_ui+widgets+input-focus; assets=processor+gltf+ktx2+basis+webp+hdr+audio-codecs; render=hdr+bloom+smaa+dof+fog+area-lights+pcss+contact-shadows; post_process=hdr+bloom+smaa+dof+fog; picking=mesh+ui; platform=x11+wayland+accesskit+gamepad+clipboard+system-fonts; tools=settings+remote-opt-in+ui-debug+reflect_docs=5/5 settings fields+reflect_functions=4 helpers+settings=on; omitted=http/https+solari+dlss+meshlet+hotpatching+zstd_c; deferred=feathers+clipboard_image+pan_camera; dev_tools=off";

/// The environment with the given headless switch and nothing else set.
fn env_with_headless(headless: Option<&str>) -> EnvSettings {
    EnvSettings {
        audio_enabled: audio_enabled_from_env(None),
        debug_visuals: env_flag_value(None),
        headless_smoke: env_flag_value(headless),
        remote_enabled: env_flag_value(None).unwrap_or(false),
        smoke_frames: parse_smoke_frames(None),
        asset_mode: parse_asset_mode(None),
        render_profile: parse_render_profile(None),
    }
}

fn config_from(args: &[&str], env: EnvSettings) -> RuntimeConfig {
    let args: Vec<String> = args.iter().map(|a| a.to_string()).collect();
    runtime_config(parse_cli_args(&args), env)
}

fn runtime_config_for_test(headless_smoke: bool) -> RuntimeConfig {
    RuntimeConfig {
        audio_enabled: true,
        audio_locked: false,
        debug_visuals: false,
        debug_visuals_locked: false,
        headless_smoke,
        remote_enabled: false,
        smoke_frames: 30,
        asset_mode: AssetMode::Unprocessed,
        render_profile: None,
        window_backend: None,
        explicit_windowed_request: false,
    }
}

fn diagnostic(
    config: RuntimeConfig,
    display: Option<&str>,
    wayland: Option<&str>,
    winit: Option<&str>,
    present: bool,
    socket: Option<&str>,
) -> String {
    startup_window_diagnostic(config, display, wayland, winit, present, socket, FEATURE_AUDIT)
}

#[test]
fn runtime_defaults_to_windowed_when_no_display_server_is_not_explicitly_overridden() {
    let config = config_from(&["--window-title=unused"], env_with_headless(None));
    assert!(!config.headless_smoke);
    assert!(config.window_backend.is_none());

    let config = config_from(&["--windowed"], env_with_headless(None));
    assert!(!config.headless_smoke);
    assert!(config.window_backend.is_none());
}

#[test]
fn implicit_windowing_request_falls_back_to_headless_when_no_display() {
    let config = runtime_config_for_test(false);
    assert!(should_fallback_to_headless_smoke(config, false));
    assert!(!should_fallback_to_headless_smoke(config, true));
}

#[test]
fn explicit_windowed_request_blocks_headless_fallback() {
    let mut config = runtime_config_for_test(false);
    config.explicit_windowed_request = true;
    assert!(!should_fallback_to_headless_smoke(config, false));
}

#[test]
fn explicit_windowed_request_is_not_headless_when_no_display_is_detected() {
    let config = config_from(&["--windowed"], env_with_headless(None));

    assert!(!config.headless_smoke);
    assert!(config.explicit_windowed_request);
    assert!(diagnostic(config, None, None, None, false, None).contains(
        "A graphical display server was not detected, but windowed mode was requested",
    ));
}

#[test]
fn headless_smoke_env_is_obeyed_even_without_display() {
    let config = config_from(&["--window-title=unused"], env_with_headless(Some("off")));
    assert!(!config.headless_smoke);

    let config = config_from(&["--window-title=unused"], env_with_headless(Some("1")));
    assert!(config.headless_smoke);

    let config = config_from(&["--windowed"], env_with_headless(Some("1")));
    assert!(!config.headless_smoke);
}

#[test]
fn render_profile_aliases_pick_expected_wgpu_priority() {
    assert_eq!(parse_render_profile(Some("compat")), Some(RenderProfile::Compatibility));
    assert_eq!(parse_render_profile(Some("FUNCTIONALITY")), Some(RenderProfile::Functionality));
    assert_eq!(parse_render_profile(Some("webgl2")), Some(RenderProfile::WebGl2));
    assert_eq!(parse_render_profile(Some("unknown")), None);
    assert_eq!(parse_render_profile(None), None);
}

#[test]
fn cli_args_override_audio_smoke_render_and_window_backend() {
    let args: Vec<String> = [
        "--no-audio",
        "--headless-smoke",
        "--smoke-frames=24",
        "--render-profile=gl",
        "--asset-mode=processed",
        "--x11",
        "--remote",
    ]
    .iter()
    .map(|a| a.to_string())
    .collect();
    let args = parse_cli_args(&args);

    assert_eq!(args.audio_enabled, Some(false));
    assert_eq!(args.headless_smoke, Some(true));
    assert_eq!(args.smoke_frames, Some(24));
    assert_eq!(args.render_profile, Some(RenderProfile::Gl));
    assert_eq!(args.asset_mode, Some(AssetMode::Processed));
    assert_eq!(args.window_backend, Some(WindowBackend::X11));
    assert_eq!(args.remote_enabled, Some(true));

    let config = config_from(
        &[
            "--no-audio",
            "--headless-smoke",
            "--smoke-frames=999",
            "--render-profile=compat",
            "--wayland",
        ],
        env_with_headless(None),
    );
    assert!(!config.audio_enabled);
    assert!(config.headless_smoke);
    assert_eq!(config.smoke_frames, 600);
    assert_eq!(config.render_profile, Some(RenderProfile::Compatibility));
    assert_eq!(config.window_backend, Some(WindowBackend::Wayland));
}

#[test]
fn user_settings_export_runtime_feature_preferences() {
    let config = config_from(
        &["--no-audio", "--debug-gizmos", "--remote", "--asset-mode=processed", "--render-profile=compat"],
        env_with_headless(None),
    );
    let settings = UserSettings::from_config(config);

    assert!(!settings.audio_enabled);
    assert!(settings.debug_visuals);
    assert!(settings.remote_enabled);
    assert_eq!(settings.asset_mode, "processed");
    assert_eq!(settings.render_profile, "compatibility");
}

#[test]
fn asset_mode_parser_defaults_safe_and_accepts_processed_aliases() {
    assert_eq!(parse_asset_mode(None), AssetMode::Unprocessed);
    assert_eq!(parse_asset_mode(Some("unprocessed")), AssetMode::Unprocessed);
    assert_eq!(parse_asset_mode(Some("processed")), AssetMode::Processed);
    assert_eq!(parse_asset_mode(Some(" IMPORTED_ASSETS ")), AssetMode::Processed);
    assert_eq!(parse_asset_mode(Some("bad")), AssetMode::Unprocessed);
}

#[test]
fn display_detection_accepts_x11_or_wayland_socket() {
    assert!(display_vars_present(Some(":0"), None, None));
    assert!(display_vars_present(None, Some("wayland-0"), None));
    assert!(display_vars_present(Some("  :1  "), Some(""), None));
    assert!(display_vars_present(None, None, Some("wayland-0")));
    assert!(!display_vars_present(None, None, None));
    assert!(!display_vars_present(Some(" "), Some(""), Some("")));

    assert_eq!(display_server_label(Some(":0"), None, None), "x11");
    assert_eq!(display_server_label(None, Some("wayland-0"), None), "wayland");
    assert_eq!(display_server_label(Some(":0"), Some("wayland-0"), None), "x11+wayland");
    assert_eq!(display_server_label(Some(":0"), None, Some("wayland-socket")), "x11+socket");
    assert_eq!(display_server_label(None, Some("wayland-0"), Some("socket")), "wayland+socket");
    assert_eq!(display_server_label(None, None, Some("socket")), "socket");
    assert_eq!(display_server_label(None, None, None), "none");
}

#[test]
fn headless_smoke_uses_no_primary_window_and_clamped_frame_budget() {
    assert_eq!(parse_smoke_frames(None), 12);
    assert_eq!(parse_smoke_frames(Some("0")), 1);
    assert_eq!(parse_smoke_frames(Some("3")), 3);
    assert_eq!(parse_smoke_frames(Some("9999")), 600);
    assert_eq!(parse_smoke_frames(Some("bad")), 12);
}

#[test]
fn startup_window_diagnostic_reports_window_backend_and_render_profile() {
    let mut config = runtime_config_for_test(false);
    config.render_profile = Some(RenderProfile::Compatibility);
    config.window_backend = Some(WindowBackend::X11);

    let diagnostic = diagnostic(config, Some(":0"), None, Some("wayland"), true, None);

    assert!(diagnostic.contains("window=enabled"));
    assert!(diagnostic.contains("title=\"Bevy Open ARPG\""));
    assert!(diagnostic.contains("size=1280x720"));
    assert!(diagnostic.contains("display=x11"));
    assert!(diagnostic.contains("backend=x11(forced)"));
    assert!(diagnostic.contains("render=compatibility"));
    assert!(diagnostic.contains("retry `cargo run -- --x11 --render-profile=compat`"));
    assert!(diagnostic.contains("Feature audit: profiles=3d+ui+scene+picking+audio-all-formats"));
    assert!(diagnostic.contains("reflect_docs=5/5 settings fields"));
}

#[test]
fn startup_window_diagnostic_explains_headless_no_popup_mode() {
    let mut config = runtime_config_for_test(true);
    config.audio_enabled = false;
    config.asset_mode = AssetMode::Processed;

    let diagnostic = diagnostic(config, Some(":0"), None, None, true, None);

    assert!(diagnostic.contains("window=disabled(headless-smoke)"));
    assert!(diagnostic.contains("audio=off"));
    assert!(diagnostic.contains("asset_mode=processed"));
    assert!(diagnostic.contains("run `cargo run -- --windowed`"));
    assert!(diagnostic.contains("Feature audit: profiles=3d+ui+scene+picking+audio-all-formats"));
    assert!(diagnostic.contains("reflect_docs=5/5 settings fields"));
    assert!(!diagnostic.contains("No DISPLAY or WAYLAND_DISPLAY"));
}

#[test]
fn startup_window_diagnostic_explains_missing_display_server() {
    let config = runtime_config_for_test(false);

    let diagnostic = diagnostic(config, None, Some(" "), None, false, None);

    assert!(diagnostic.contains("display=none"));
    assert!(diagnostic.contains("A graphical display server was not detected"));
    assert!(diagnostic.contains("Verify `DISPLAY`/`WAYLAND_DISPLAY`"));
    assert!(diagnostic.contains("Feature audit: profiles=3d+ui+scene+picking+audio-all-formats"));
    assert!(diagnostic.contains("reflect_docs=5/5 settings fields"));
}

#[test]
fn backend_label_prefers_forced_then_environment() {
    assert_eq!(startup_window_backend_label(Some(WindowBackend::Wayland), Some("x11")), "wayland(forced)");
    assert_eq!(startup_window_backend_label(None, Some(" x11 ")), "x11(env)");
    assert_eq!(startup_window_backend_label(None, Some("  ")), "auto");
    assert_eq!(startup_window_backend_label(None, None), "auto");
}

#[test]
fn later_switches_override_earlier_ones() {
    let args: Vec<String> =
        ["--no-audio", "--audio", "--x11", "--wayland"].iter().map(|a| a.to_string()).collect();
    let parsed = parse_cli_args(&args);
    assert_eq!(parsed.audio_enabled, Some(true));
    assert_eq!(parsed.window_backend, Some(WindowBackend::Wayland));
    let empty: Vec<String> = Vec::new();
    assert_eq!(parse_cli_args(&empty), CliArgs::default());
}
