use halley_session::geometry::{Point, Size};
use halley_session::session::output::{
    validate_complete_configuration, ConfigurationError, Mode, OutputConfiguration, OutputId,
    OutputState, Transform,
};

const MODE: Mode = Mode {
    size: Size { w: 1920, h: 1080 },
    refresh: 60_000,
};

fn state(raw: u64) -> OutputState {
    OutputState {
        output: OutputId { raw },
        enabled: true,
        mode: MODE,
        location: Point::new(0, 0),
        transform: Transform::Normal,
        scale_bits: 1.0_f64.to_bits(),
        adaptive_sync: false,
        adaptive_sync_supported: true,
    }
}

fn configuration(state: &OutputState, name: &str) -> OutputConfiguration {
    OutputConfiguration {
        output: state.output,
        name: name.to_string(),
        modes: vec![MODE],
        enabled: state.enabled,
        mode: state.mode,
        location: state.location,
        transform: state.transform,
        scale_bits: state.scale_bits,
        adaptive_sync: state.adaptive_sync,
    }
}

#[test]
fn requires_every_output_once_and_one_enabled() {
    let states = vec![state(1), state(2)];

    assert!(validate_complete_configuration(&states, &vec![]).is_err());
    let duplicate = vec![
        configuration(&states[0], "DP-1"),
        configuration(&states[0], "DP-1"),
    ];
    assert!(validate_complete_configuration(&states, &duplicate).is_err());

    let mut disabled = vec![
        configuration(&states[0], "DP-1"),
        configuration(&states[1], "DP-2"),
    ];
    disabled
        .iter_mut()
        .for_each(|config| config.enabled = false);
    assert!(validate_complete_configuration(&states, &disabled).is_err());
}

#[test]
fn rejects_non_unit_scale_and_unsupported_vrr() {
    let mut state = state(1);
    state.adaptive_sync_supported = false;
    let states = vec![state];

    let mut config = configuration(&states[0], "DP-1");
    config.scale_bits = 1.25_f64.to_bits();
    assert!(matches!(
        validate_complete_configuration(&states, &vec![config]),
        Err(ConfigurationError::Scale(name)) if name == "DP-1"
    ));

    let mut config = configuration(&states[0], "DP-1");
    config.adaptive_sync = true;
    assert!(matches!(
        validate_complete_configuration(&states, &vec![config]),
        Err(ConfigurationError::AdaptiveSync(name)) if name == "DP-1"
    ));
}

#[test]
fn each_fault_of_a_configuration_has_its_error() {
    let states = vec![state(1)];
    assert!(matches!(
        validate_complete_configuration(&states, &vec![]),
        Err(ConfigurationError::Incomplete)
    ));

    let mut disabled = configuration(&states[0], "DP-1");
    disabled.enabled = false;
    assert!(matches!(
        validate_complete_configuration(&states, &vec![disabled]),
        Err(ConfigurationError::NothingEnabled)
    ));

    let mut elsewhere = configuration(&states[0], "DP-9");
    elsewhere.output = OutputId { raw: 9 };
    assert!(matches!(
        validate_complete_configuration(&states, &vec![elsewhere]),
        Err(ConfigurationError::NotConnected(name)) if name == "DP-9"
    ));

    let mut unknown = configuration(&states[0], "DP-1");
    unknown.mode.refresh = 75_000;
    assert!(matches!(
        validate_complete_configuration(&states, &vec![unknown]),
        Err(ConfigurationError::UnadvertisedMode(name)) if name == "DP-1"
    ));

    let two = vec![state(1), state(2)];
    let twice = vec![configuration(&two[0], "DP-1"), configuration(&two[1], "DP-1")];
    let error = validate_complete_configuration(&two, &twice).unwrap_err();
    assert!(error.message().contains("\"DP-1\""));
    assert!(matches!(error, ConfigurationError::Duplicate(name) if name == "DP-1"));
}

#[test]
fn the_doubles_next_to_one_are_unit_scales() {
    let states = vec![state(1)];
    for (scale, accepted) in [
        (1.0 + f64::EPSILON, true),
        (1.0 - f64::EPSILON, true),
        (1.0 + 2.0 * f64::EPSILON, false),
        (1.0 - 2.0 * f64::EPSILON, false),
        (-1.0, false),
        (f64::NAN, false),
    ] {
        let mut config = configuration(&states[0], "DP-1");
        config.scale_bits = f64::to_bits(scale);
        assert_eq!(
            validate_complete_configuration(&states, &vec![config]).is_ok(),
            accepted
        );
    }
}

#[test]
fn complete_configurations_are_accepted() {
    let states = vec![state(1), state(2)];
    let requested = vec![
        configuration(&states[1], "DP-2"),
        configuration(&states[0], "DP-1"),
    ];
    assert!(validate_complete_configuration(&states, &requested).is_ok());
}
