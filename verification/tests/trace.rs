use halley_session::ids::SurfaceId;
use halley_session::session::pointer::constraints::ConstraintKind;
use halley_session::session::trace::{
    bounded_single_line, selector_matches, Observed, WindowTrace, X11Window, MAX_EVENTS,
};
use halley_session::session::trace_state::{
    diagnostic, pointer_route_state, process_labels, runtime_state, trace_output,
    EnforcedConstraint, FocusedSurface, ProtocolConstraint, RouteFacts, RouteTarget, WindowFacts,
};
use halley_session::time::Duration;

const MAX_DETAIL_BYTES: usize = 8_192;

#[test]
fn selector_matching_is_case_insensitive_and_supports_process_paths() {
    assert!(selector_matches(
        "tf_linux64",
        "/games/Team Fortress 2/tf_linux64 -steam"
    ));
    assert!(selector_matches("TF_LINUX64", "tf_linux64"));
    assert!(!selector_matches("tf_linux64", "steamwebhelper"));
}

#[test]
fn trace_details_are_single_line_and_bounded() {
    let value = format!("first\n{}", "x".repeat(MAX_DETAIL_BYTES + 10));
    let bounded = bounded_single_line(&value);
    assert!(!bounded.contains('\n'));
    assert!(bounded.len() <= MAX_DETAIL_BYTES + '…'.len_utf8());
}

#[test]
fn long_details_are_cut_between_characters() {
    let value = "ö".repeat(MAX_DETAIL_BYTES);
    let bounded = bounded_single_line(&value);
    assert_eq!(bounded.len(), MAX_DETAIL_BYTES + '…'.len_utf8());
    assert!(bounded.ends_with('…'));
    assert_eq!(bounded_single_line("a\r\nb"), "a  b");
    assert_eq!(bounded_single_line(&bounded), bounded);
}

fn window(label: &str) -> X11Window {
    X11Window {
        xid: 7,
        pid: Some(12),
        instance: "i".to_string(),
        class: "c".to_string(),
        title: "a \"b\"".to_string(),
        labels: vec![label.to_string(), "x".to_string()],
    }
}

#[test]
fn a_trace_stops_for_good() {
    let mut trace = WindowTrace::from_env(Some("Foot"));
    let mut lines = 0;
    let mut stops = 0;
    for index in 0..MAX_EVENTS + 20 {
        let emission = trace.emit(7, "map", &index.to_string(), Duration::zero());
        lines += u64::from(emission.line.is_some());
        stops += u64::from(emission.stops);
        assert_eq!(trace.enabled(), index + 1 < MAX_EVENTS);
        if index == 100 {
            trace.forget(7);
        }
    }
    assert_eq!((lines, stops), (MAX_EVENTS, 1));
    let mut blank = WindowTrace::from_env(Some(" "));
    assert!(blank.emit(7, "map", "x", Duration::zero()).line.is_none());
    assert_eq!(blank.selector(), None);
    assert_eq!(trace.selector(), Some("Foot"));
}

#[test]
fn a_trace_follows_windows_that_match_and_repeats_nothing() {
    let mut trace = WindowTrace::from_env(Some("  Foot "));
    assert!(trace.enabled());
    assert!(matches!(
        trace.observe_x11(&window("mpv"), Duration::zero()).observed,
        Observed::Ignored
    ));
    let registered = trace.observe_x11(&window("/usr/bin/foot"), Duration::zero());
    assert_eq!(registered.observed, Observed::Registered);
    assert_eq!(
        registered.emission.unwrap().line,
        Some((
            1,
            "pid=Some(12) instance=\"i\" class=\"c\" title=\"a \\\"b\\\"\" \
             process=[\"/usr/bin/foot\", \"x\"]"
                .to_string()
        ))
    );
    assert!(matches!(
        trace.observe_x11(&window("mpv"), Duration::zero()).observed,
        Observed::Known
    ));
    assert!(trace.is_tracked(7));

    let first = trace.emit(7, "map", "details", Duration::zero());
    assert_eq!(first.line, Some((2, "details".to_string())));
    assert_eq!(trace.emit(7, "map", "details", Duration::zero()).line, None);
    assert_eq!(
        trace
            .emit_sampled(7, "map", "other", Duration::from_millis(49))
            .line,
        None
    );
    assert_eq!(
        trace
            .emit_sampled(7, "map", "other", Duration::from_millis(50))
            .line,
        Some((3, "other".to_string()))
    );
    trace.forget(7);
    assert!(!trace.is_tracked(7));

    assert!(!WindowTrace::from_env(Some(" \t")).enabled());
    assert!(!WindowTrace::from_env(None).enabled());
}

#[test]
fn processes_go_by_program_name_and_command_line() {
    assert_eq!(
        process_labels(
            Some("/usr/bin/foot"),
            Some("foot\n"),
            Some(&b"foot\0\0-e\0\xffsh\0".to_vec()),
        ),
        ["/usr/bin/foot", "foot", "foot -e \u{fffd}sh"]
    );
    assert!(process_labels(None, None, Some(&b"\0\0".to_vec())).is_empty());
}

fn text(value: &str) -> String {
    value.to_string()
}

fn facts() -> WindowFacts {
    WindowFacts {
        root: SurfaceId::new(5),
        protocol_id: 31,
        pid: Some(77),
        app: text("APP"),
        title: text("TITLE"),
        mapped: true,
        has_buffer: false,
        buffer_size: text("BUFFER"),
        drawable: text("DRAWABLE"),
        window_geometry: text("WINDOW"),
        location: text("LOCATION"),
        geometry: text("GEOMETRY"),
        bbox: text("BBOX"),
        output_geometry: text("OUTPUT"),
        node: text("NODE"),
        record_geometry: text("RECORD"),
        collapsed: Some(false),
        attached: None,
        cluster: text("CLUSTER"),
        cluster_active: text("ACTIVE"),
        layout: text("LAYOUT"),
        metadata_layout: text("METADATA"),
        cluster_target: text("TARGET"),
        opening: false,
        fullscreen: true,
        fullscreen_x11: false,
        maximized: false,
        maximized_x11: true,
        camera: text("CAMERA"),
        visual: text("VISUAL"),
        presented_source: text("SOURCE"),
        presented_visual: text("SHOWN"),
        presented_hit: text("HIT"),
        compositor_focus: Some(FocusedSurface {
            surface: SurfaceId::new(5),
            protocol_id: 31,
        }),
        keyboard_focus: None,
        pointer_focus: Some(FocusedSurface {
            surface: SurfaceId::new(6),
            protocol_id: 32,
        }),
        pointer_position: text("POSITION"),
    }
}

#[test]
fn a_trace_tells_the_state_of_a_window() {
    let constraint = diagnostic(
        Some(ProtocolConstraint {
            resource: text("lock"),
            kind: ConstraintKind::Locked,
            active: true,
        }),
        Some(EnforcedConstraint {
            root: SurfaceId::new(9),
            kind: ConstraintKind::Confined,
            protocol_id: 33,
        }),
        SurfaceId::new(5),
    );
    let output = trace_output(None, Some("DP-2"), "DP-1");
    assert_eq!(
        runtime_state(&facts(), &output, &constraint, "none"),
        concat_parts(&[
            "identity={pid:Some(77),app:APP,title:TITLE} ",
            "surface={wl:31,mapped:true,buffer:false,buffer_size:BUFFER,drawable:DRAWABLE,",
            "window:WINDOW} ",
            "space={location:LOCATION,geometry:GEOMETRY,bbox:BBOX,output:\"DP-2\",",
            "output_geometry:OUTPUT} ",
            "node={id:NODE,record_geometry:RECORD,collapsed:Some(false),attached:None} ",
            "cluster={id:CLUSTER,active:ACTIVE,layout:LAYOUT,metadata_layout:METADATA,",
            "target:TARGET} ",
            "lifecycle={opening:false,fullscreen_halley:true,fullscreen_x11:false,",
            "maximize_halley:false,maximize_x11:true} ",
            "camera=CAMERA visual=VISUAL presentation={source:SOURCE,visual:SHOWN,hit:HIT} ",
            "focus={compositor:Some(31),keyboard:None,pointer:Some(32),",
            "owns_compositor:true,owns_keyboard:false,owns_pointer:false} ",
            "pointer={screen:POSITION,route:none} ",
            "constraint={resource:Some(\"lock\"),kind:Some(\"locked\"),protocol_active:true,",
            "halley_tracked:false,tracked_kind:None,tracked_surface:None}",
        ])
    );
}

fn concat_parts(parts: &[&str]) -> String {
    parts.concat()
}

#[test]
fn a_trace_tells_where_the_pointer_leads() {
    assert_eq!(pointer_route_state(&None), "none");
    let route = |target: RouteTarget| {
        pointer_route_state(&Some(RouteFacts {
            output: text("DP-1"),
            target,
            location: text("LOCATION"),
            local: text("LOCAL"),
            visual: text("VISUAL"),
        }))
    };
    assert_eq!(
        route(RouteTarget::Window { xid: Some(12) }),
        "{output:\"DP-1\",target:xid:12,location:LOCATION,local:LOCAL,visual:VISUAL}"
    );
    assert!(route(RouteTarget::Window { xid: None }).contains("target:wayland-window,"));
    assert!(route(RouteTarget::Layer).contains("target:layer,"));
    assert!(route(RouteTarget::Background).contains("target:background,"));
    assert!(route(RouteTarget::Decoration {
        xid: Some(4),
        hit: text("Title")
    })
    .contains("target:xid:4-decoration:Title,"));
    assert!(route(RouteTarget::Decoration {
        xid: None,
        hit: text("Title")
    })
    .contains("target:wayland-decoration:Title,"));
    assert_eq!(trace_output(Some("DP-3"), Some("DP-2"), "DP-1"), "DP-3");
    assert_eq!(trace_output(None, None, "DP-1"), "DP-1");
}
