//! Settings of a running session.

use vstd::prelude::*;

verus! {

/// The value of a section of the configuration. Sections with the same number hold the
/// same settings.
#[derive(Clone, Copy, Debug, PartialEq, Eq, Structural)]
pub struct Section {
    pub raw: u64,
}

/// A configuration as it was read.
#[derive(Clone, Copy, Debug, PartialEq, Eq, Structural)]
pub struct RuntimeConfig {
    pub overlays: Section,
    pub apogee: Section,
    pub input: Section,
    pub decorations: Section,
    pub font: Section,
    pub effects: Section,
    pub background: Section,
    pub field: Section,
    /// The part of the field's settings that is about zooming.
    pub zoom: Section,
    pub screenshot: Section,
    pub layer_rules: Section,
}

/// Settings that are applied, whatever backend the session runs on.
#[derive(Clone, Copy, Debug, PartialEq, Eq, Structural)]
pub struct RuntimeSettings {
    pub overlays: Section,
    pub apogee: Section,
    pub input: Section,
    pub decorations: Section,
    pub font: Section,
    pub effects: Section,
    pub background: Section,
    pub field: Section,
    pub zoom: Section,
    pub screenshot: Section,
    pub layer_rules: Section,
}

/// The settings are those of the configuration, but for the input.
pub open spec fn follows(settings: RuntimeSettings, config: RuntimeConfig) -> bool {
    &&& settings.overlays == config.overlays
    &&& settings.apogee == config.apogee
    &&& settings.decorations == config.decorations
    &&& settings.font == config.font
    &&& settings.effects == config.effects
    &&& settings.background == config.background
    &&& settings.field == config.field
    &&& settings.zoom == config.zoom
    &&& settings.screenshot == config.screenshot
    &&& settings.layer_rules == config.layer_rules
}

/// Something that is drawn looks different under the configuration.
pub open spec fn looks_different(settings: RuntimeSettings, config: RuntimeConfig) -> bool {
    ||| settings.decorations != config.decorations
    ||| settings.font != config.font
    ||| settings.effects != config.effects
    ||| settings.background != config.background
    ||| settings.zoom != config.zoom
    ||| settings.overlays != config.overlays
    ||| settings.layer_rules != config.layer_rules
}

impl RuntimeSettings {
    pub fn new(config: &RuntimeConfig, applied_input: Section) -> (settings: Self)
        ensures
            follows(settings, *config),
            settings.input == applied_input,
    {
        RuntimeSettings {
            overlays: config.overlays,
            apogee: config.apogee,
            input: applied_input,
            decorations: config.decorations,
            font: config.font,
            effects: config.effects,
            background: config.background,
            field: config.field,
            zoom: config.zoom,
            screenshot: config.screenshot,
            layer_rules: config.layer_rules,
        }
    }

    pub fn visuals_changed(&self, config: &RuntimeConfig) -> (r: bool)
        ensures
            r == looks_different(*self, *config),
    {
        self.decorations != config.decorations || self.font != config.font || self.effects
            != config.effects || self.background != config.background || self.zoom != config.zoom
            || self.overlays != config.overlays || self.layer_rules != config.layer_rules
    }

    /// Replaces settings that need nothing else to be applied. Input is applied
    /// separately, so that a keyboard map that fails to load leaves the last one.
    pub fn reload_non_input(&mut self, config: &RuntimeConfig)
        ensures
            follows(*final(self), *config),
            final(self).input == old(self).input,
    {
        self.apogee = config.apogee;
        self.decorations = config.decorations;
        self.font = config.font;
        self.effects = config.effects;
        self.background = config.background;
        self.field = config.field;
        self.overlays = config.overlays;
        self.zoom = config.zoom;
        self.screenshot = config.screenshot;
        self.layer_rules = config.layer_rules;
    }
}

/// A configuration that has been applied looks no different.
pub proof fn applied_settings_look_the_same(settings: RuntimeSettings, config: RuntimeConfig)
    requires
        follows(settings, config),
    ensures
        !looks_different(settings, config),
{
}

/// Settings that follow a configuration have its every section, and look different from it
/// where one that is drawn differs: decorations, font, effects, background, zoom, overlays or
/// the rules of layers.
pub proof fn settings_follow_every_section(settings: RuntimeSettings, config: RuntimeConfig)
    ensures
        follows(settings, config) ==> settings == (RuntimeSettings {
            overlays: config.overlays,
            apogee: config.apogee,
            input: settings.input,
            decorations: config.decorations,
            font: config.font,
            effects: config.effects,
            background: config.background,
            field: config.field,
            zoom: config.zoom,
            screenshot: config.screenshot,
            layer_rules: config.layer_rules,
        }),
        !looks_different(settings, config) <==> settings.decorations == config.decorations
            && settings.font == config.font && settings.effects == config.effects
            && settings.background == config.background && settings.zoom == config.zoom
            && settings.overlays == config.overlays && settings.layer_rules == config.layer_rules,
{
}

} // verus!
