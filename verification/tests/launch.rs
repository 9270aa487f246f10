use halley_session::ids::{ClusterId, SurfaceId};
use halley_session::session::autostart::{Autostart, OnceState};
use halley_session::session::environment::{
    cursor_assignments, publish_cursor, session_variables, Assignment, LaunchEnvironment,
};
use halley_session::session::process::{
    parse_u32, process_environment_value, process_parent, AncestorSearch,
};
use halley_session::session::settings::{RuntimeConfig, RuntimeSettings, Section};
use halley_session::session::spawn::{
    detached_process, managed_process, Detachment, LaunchSpec,
};
use halley_session::session::startup_clusters::{
    place_startup_clusters, startup_launch, startup_layout, startup_offset, Attribution,
    ClusterLayout, PendingLaunch, StartupClusters, LAUNCH_CONTEXT_SECONDS, LAUNCH_ID_ENV,
};
use halley_session::session::focus::ClusterWorkspaceLayoutKind;
use halley_session::time::Duration;

fn assignment(name: &str, value: &str) -> Assignment {
    Assignment {
        name: name.to_string(),
        value: value.to_string(),
    }
}

fn variable(spec: &LaunchSpec, name: &str) -> Option<Option<String>> {
    spec.environment.get(name).cloned()
}

#[test]
fn once_can_only_be_armed_and_run_once() {
    let environment = LaunchEnvironment::default();
    let mut autostart = Autostart::enabled();
    autostart.arm_once("wayland-9", Vec::new());
    autostart.arm_once("wayland-9", vec!["sleep 30".to_string()]);
    assert!(autostart.run_once(None, 24, &environment).is_empty());
    assert!(autostart.run_once(None, 24, &environment).is_empty());

    assert!(matches!(autostart.once, OnceState::Finished));
}

#[test]
fn nested_policy_suppresses_once_and_reload_commands() {
    let environment = LaunchEnvironment::default();
    let mut autostart = Autostart::disabled();
    autostart.arm_once("wayland-9", vec!["sleep 30".to_string()]);
    assert!(autostart.run_once(None, 24, &environment).is_empty());
    assert!(autostart
        .run_reload(&vec!["sleep 30".to_string()], None, 24, &environment)
        .is_empty());

    assert!(matches!(autostart.once, OnceState::Finished));
}

#[test]
fn reload_does_not_consume_once() {
    let environment = LaunchEnvironment::default();
    let mut autostart = Autostart::enabled();
    autostart.arm_once("wayland-9", Vec::new());
    let started = autostart.run_reload(&vec!["true".to_string()], None, 24, &environment);
    assert_eq!(started.len(), 1);

    assert!(matches!(autostart.once, OnceState::Pending(_)));
}

#[test]
fn blank_commands_are_not_started() {
    let environment = LaunchEnvironment::default();
    let mut autostart = Autostart::enabled();
    autostart.arm_once(
        "wayland-9",
        vec![" \t".to_string(), "  foot \n".to_string(), String::new()],
    );
    let started = autostart.run_once(None, 24, &environment);
    assert_eq!(started.len(), 1);
    assert_eq!(started[0].args, ["-c", "foot"]);
    assert_eq!(started[0].detachment, Detachment::Fork);
}

#[test]
fn activation_exports_portal_and_wayland_identity() {
    let exported = session_variables();
    for required in ["WAYLAND_DISPLAY", "XDG_CURRENT_DESKTOP", "XDG_SESSION_TYPE"] {
        assert!(exported.iter().any(|name| name == required));
    }
}

#[test]
fn cursor_assignments_use_the_validated_runtime_config() {
    assert_eq!(
        cursor_assignments("Breeze", 32),
        ["XCURSOR_THEME=Breeze", "XCURSOR_SIZE=32"]
    );
}

#[test]
fn a_changed_cursor_is_told_to_helpers() {
    let commands = publish_cursor(true, "Breeze", 32);
    assert!(commands
        .iter()
        .all(|command| command.args.iter().any(|arg| arg == "XCURSOR_SIZE=32")));
    assert!(!commands.is_empty());
}

#[test]
fn launch_environment_keeps_live_reload_values_until_restart() {
    let mut environment = LaunchEnvironment::new(&vec![assignment("FIRST", "one")]);
    environment.reload(&vec![assignment("SECOND", "two")]);

    let spec = detached_process("true", "wayland-1", None, 24, &environment);
    assert_eq!(variable(&spec, "FIRST"), Some(Some("one".to_string())));
    assert_eq!(variable(&spec, "SECOND"), Some(Some("two".to_string())));
    let entries = environment
        .entries()
        .into_iter()
        .map(|entry| (entry.name, entry.value))
        .collect::<Vec<_>>();
    assert_eq!(
        entries,
        [
            ("FIRST".to_string(), "one".to_string()),
            ("SECOND".to_string(), "two".to_string()),
        ]
    );
}

#[test]
fn variables_come_in_the_order_of_their_names() {
    let environment = LaunchEnvironment::new(&vec![
        assignment("b", "1"),
        assignment("AB", "2"),
        assignment("\u{e9}", "3"),
        assignment("A", "4"),
        assignment("b", "5"),
    ]);
    let names = environment
        .entries()
        .into_iter()
        .map(|entry| (entry.name, entry.value))
        .collect::<Vec<_>>();
    assert_eq!(
        names,
        [
            ("A".to_string(), "4".to_string()),
            ("AB".to_string(), "2".to_string()),
            ("b".to_string(), "5".to_string()),
            ("\u{e9}".to_string(), "3".to_string()),
        ]
    );
}

#[test]
fn configured_path_overrides_the_ambient_path() {
    let environment = LaunchEnvironment::new(&vec![assignment("PATH", "/configured/bin")]);

    assert_eq!(
        environment.path(Some("/ambient/bin".to_string())).as_deref(),
        Some("/configured/bin")
    );
    assert_eq!(
        LaunchEnvironment::default()
            .path(Some("/ambient/bin".to_string()))
            .as_deref(),
        Some("/ambient/bin")
    );
}

#[test]
fn command_lines_use_a_shell_and_halley_display() {
    let process = detached_process(
        "grim -g \"$(slurp)\" ~/shot.png",
        "wayland-9",
        Some(":12"),
        32,
        &LaunchEnvironment::default(),
    );
    assert_eq!(process.program, "sh");
    assert_eq!(process.args, ["-c", "grim -g \"$(slurp)\" ~/shot.png"]);
    assert_eq!(
        variable(&process, "WAYLAND_DISPLAY"),
        Some(Some("wayland-9".to_string()))
    );
    assert_eq!(
        variable(&process, "DISPLAY"),
        Some(Some(":12".to_string()))
    );
    assert_eq!(
        variable(&process, "XCURSOR_SIZE"),
        Some(Some("32".to_string()))
    );
}

#[test]
fn unavailable_xwayland_removes_ambient_display() {
    let process = detached_process("foot", "wayland-2", None, 24, &LaunchEnvironment::default());
    assert_eq!(variable(&process, "DISPLAY"), Some(None));
}

#[test]
fn configured_environment_is_inherited_but_session_values_win() {
    let environment = LaunchEnvironment::new(&vec![
        assignment("CUSTOM", "value"),
        assignment("DISPLAY", ":99"),
        assignment("WAYLAND_DISPLAY", "wrong"),
        assignment("XCURSOR_SIZE", "99"),
    ]);
    let process = detached_process("true", "wayland-4", Some(":8"), 24, &environment);

    assert_eq!(
        variable(&process, "CUSTOM"),
        Some(Some("value".to_string()))
    );
    assert_eq!(
        variable(&process, "WAYLAND_DISPLAY"),
        Some(Some("wayland-4".to_string()))
    );
    assert_eq!(variable(&process, "DISPLAY"), Some(Some(":8".to_string())));
    assert_eq!(
        variable(&process, "XCURSOR_SIZE"),
        Some(Some("24".to_string()))
    );
}

#[test]
fn managed_commands_lead_a_group_of_their_own() {
    let process = managed_process("true", "wayland-4", None, 24, &LaunchEnvironment::default());
    assert_eq!(process.detachment, Detachment::ProcessGroup);
}

#[test]
fn visual_change_detection_ignores_non_visual_settings() {
    let section = Section { raw: 0 };
    let config = RuntimeConfig {
        overlays: section,
        apogee: section,
        input: section,
        decorations: section,
        font: section,
        effects: section,
        background: section,
        field: section,
        zoom: section,
        screenshot: section,
        layer_rules: section,
    };
    let mut settings = RuntimeSettings::new(&config, config.input);
    let mut changed = config;
    changed.screenshot = Section { raw: 1 };

    assert!(!settings.visuals_changed(&changed));

    changed.decorations = Section { raw: 1 };
    assert!(settings.visuals_changed(&changed));

    settings.reload_non_input(&changed);
    assert!(!settings.visuals_changed(&changed));
}

#[test]
fn context_matches_only_explicit_launch_identifier() {
    let mut launches = StartupClusters::default();
    let now = Duration::from_secs(10);
    let cluster = ClusterId::new(7);
    let id = launches.begin_launch(41, cluster, "foot".into(), now);

    assert_eq!(id, "41-10000000000-1");
    assert_eq!(launches.match_launch(&id), Some(cluster));
    assert_eq!(launches.match_launch("unrelated"), None);
}

#[test]
fn context_expires_without_claiming_later_windows() {
    let mut launches = StartupClusters::default();
    let now = Duration::from_secs(10);
    let cluster = ClusterId::new(7);
    let id = launches.begin_launch(41, cluster, "foot".into(), now);

    let lost = launches.expire(now.plus(Duration::from_secs(LAUNCH_CONTEXT_SECONDS)));
    assert_eq!(launches.match_launch(&id), None);
    assert_eq!(lost.len(), 1);
    assert_eq!(lost[0].command, "foot");
}

#[test]
fn current_process_environment_parser_is_safe_for_missing_marker() {
    let environment = b"PATH=/bin\0\xff\xfe=1\0HOME=/root\0".to_vec();
    assert_eq!(
        process_environment_value(&environment, "HALLEY_TEST_MISSING_MARKER"),
        None
    );
}

#[test]
fn environments_are_read_entry_by_entry() {
    let environment = b"\xffHOME=/no\0NOHOME=/x\0HOME=/r\xc3\xb6\0HOME=/later\0LAST=end".to_vec();
    assert_eq!(
        process_environment_value(&environment, "HOME").as_deref(),
        Some("/r\u{f6}")
    );
    assert_eq!(
        process_environment_value(&environment, "LAST").as_deref(),
        Some("end")
    );
    assert_eq!(process_environment_value(&environment, "HOM"), None);
}

#[test]
fn parents_are_read_from_a_status() {
    assert_eq!(
        process_parent("Name:\tfoot\nPPid:\t812 \r\nPid: 3\n"),
        Some(812)
    );
    assert_eq!(process_parent("PPid:\tnone\nPPid: +7"), Some(7));
    assert_eq!(process_parent("Name: PPid: 3\n"), None);
    assert_eq!(parse_u32("4294967295"), Some(u32::MAX));
    assert_eq!(parse_u32("4294967296"), None);
    assert_eq!(parse_u32("+"), None);
    assert_eq!(parse_u32("-1"), None);
}

#[test]
fn ancestors_are_followed_a_bounded_way() {
    let mut search = AncestorSearch::new(500);
    let mut seen = 0;
    while let Some(pid) = search.inspect() {
        seen += 1;
        search.advance(Some(pid + 1));
    }
    assert_eq!(seen, 32);

    let mut orphan = AncestorSearch::new(500);
    orphan.advance(None);
    assert_eq!(orphan.inspect(), None);
    let mut own = AncestorSearch::new(500);
    own.advance(Some(500));
    assert_eq!(own.inspect(), None);
    assert_eq!(AncestorSearch::new(0).inspect(), None);
}

#[test]
fn launches_are_found_by_surface_then_client_then_process() {
    let mut launches = StartupClusters::default();
    let now = Duration::from_secs(10);
    let first = launches.begin_launch(41, ClusterId::new(7), "foot".into(), now);
    let second = launches.begin_launch(41, ClusterId::new(8), "mpv".into(), now);
    assert_ne!(first, second);

    let (cluster, lost) =
        launches.remember_activation(SurfaceId::new(1), Some(30), &first, now);
    assert_eq!(cluster, Some(ClusterId::new(7)));
    assert!(lost.is_empty());
    assert_eq!(
        launches.cluster_for_wayland_surface(SurfaceId::new(1), Some(99), now).0,
        Attribution::Known(Some(ClusterId::new(7)))
    );
    assert_eq!(
        launches.cluster_for_wayland_surface(SurfaceId::new(2), Some(30), now).0,
        Attribution::Known(Some(ClusterId::new(7)))
    );
    assert_eq!(
        launches.cluster_for_wayland_surface(SurfaceId::new(2), Some(31), now).0,
        Attribution::AskProcess(31)
    );
    assert_eq!(
        launches.cluster_for_client_process(31, Some(&second)),
        Some(ClusterId::new(8))
    );
    assert_eq!(
        launches.cluster_for_wayland_surface(SurfaceId::new(2), Some(31), now).0,
        Attribution::Known(Some(ClusterId::new(8)))
    );
    assert_eq!(
        launches.cluster_for_pid(Some("elsewhere"), now).0,
        None
    );

    let later = now.plus(Duration::from_secs(LAUNCH_CONTEXT_SECONDS));
    let (cluster, lost) = launches.cluster_for_pid(Some(&first), later);
    assert_eq!(cluster, None);
    assert!(lost.is_empty());
    assert_eq!(
        launches.cluster_for_wayland_surface(SurfaceId::new(1), Some(30), later).0,
        Attribution::AskProcess(30)
    );
}

#[test]
fn queued_commands_are_taken_once() {
    let mut launches = StartupClusters::default();
    launches.queue(ClusterId::new(3), "foot".to_string());
    let pending = launches.take_pending();
    assert_eq!(pending.len(), 1);
    assert_eq!(pending[0].cluster, ClusterId::new(3));
    assert!(launches.take_pending().is_empty());
}

#[test]
fn launches_are_marked_in_their_environment() {
    let launch = PendingLaunch {
        cluster: ClusterId::new(3),
        command: "foot".to_string(),
    };
    let spec = startup_launch(
        &launch,
        "41-5-1",
        "token",
        "wayland-1",
        None,
        24,
        &LaunchEnvironment::default(),
    );
    assert_eq!(spec.args, ["-c", "foot"]);
    assert_eq!(
        variable(&spec, LAUNCH_ID_ENV),
        Some(Some("41-5-1".to_string()))
    );
    assert_eq!(
        variable(&spec, "XDG_ACTIVATION_TOKEN"),
        Some(Some("token".to_string()))
    );
}

#[test]
fn declared_clusters_stand_in_a_row_on_their_outputs() {
    let outputs = vec![
        None,
        Some("DP-2".to_string()),
        Some("DP-9".to_string()),
        Some("DP-1".to_string()),
    ];
    let placed = place_startup_clusters(
        &outputs,
        "DP-1",
        &vec!["DP-1".to_string(), "DP-2".to_string()],
    );
    let found = placed
        .iter()
        .map(|one| (one.declaration, one.output.as_str(), one.index, one.total))
        .collect::<Vec<_>>();
    assert_eq!(
        found,
        [(0, "DP-1", 0, 2), (1, "DP-2", 0, 1), (3, "DP-1", 1, 2)]
    );
    assert_eq!(startup_offset(0, 1), 0);
    assert_eq!(startup_offset(0, 2), -46);
    assert_eq!(startup_offset(2, 3), 92);
    assert_eq!(
        startup_layout(None, ClusterLayout::Stacking),
        ClusterWorkspaceLayoutKind::Stacking
    );
    assert_eq!(
        startup_layout(Some(ClusterLayout::Tiling), ClusterLayout::Stacking),
        ClusterWorkspaceLayoutKind::Tiling
    );
}
