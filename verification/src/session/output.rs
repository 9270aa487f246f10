//! Configurations of the outputs that clients ask for.

use vstd::prelude::*;

use crate::geometry::{Point, Size};
use crate::steps;
use crate::text::{joined, quoted, quoted_text, same_text};

verus! {

/// An output of the session.
#[derive(Clone, Copy, Debug, PartialEq, Eq, Structural)]
pub struct OutputId {
    pub raw: u64,
}

/// A size and the rate at which it is shown, in thousandths of a hertz.
#[derive(Clone, Copy, Debug, PartialEq, Eq, Structural)]
pub struct Mode {
    pub size: Size,
    pub refresh: i32,
}

/// How an output is turned, and whether it is mirrored first.
#[derive(Clone, Copy, Debug, PartialEq, Eq, Structural)]
pub enum Transform {
    Normal,
    _90,
    _180,
    _270,
    Flipped,
    Flipped90,
    Flipped180,
    Flipped270,
}

/// The compositor-visible state of one connected output.
#[derive(Debug)]
pub struct OutputState {
    pub output: OutputId,
    pub enabled: bool,
    pub mode: Mode,
    pub location: Point,
    pub transform: Transform,
    /// The bits of the scale.
    pub scale_bits: u64,
    pub adaptive_sync: bool,
    pub adaptive_sync_supported: bool,
}

/// What a client asks of one output.
#[derive(Debug)]
pub struct OutputConfiguration {
    pub output: OutputId,
    pub name: String,
    /// The modes that the output advertises.
    pub modes: Vec<Mode>,
    pub enabled: bool,
    pub mode: Mode,
    pub location: Point,
    pub transform: Transform,
    /// The bits of the scale.
    pub scale_bits: u64,
    pub adaptive_sync: bool,
}

/// Why a configuration is refused. All but the first two name the output.
#[derive(Debug)]
pub enum ConfigurationError {
    Incomplete,
    NothingEnabled,
    Duplicate(String),
    NotConnected(String),
    UnadvertisedMode(String),
    Scale(String),
    AdaptiveSync(String),
}

/// The scale is one, or the double next to it in either direction; below one the steps
/// are half as long.
pub open spec fn is_unit_scale(bits: u64) -> bool {
    0x3FEF_FFFF_FFFF_FFFE <= bits <= 0x3FF0_0000_0000_0001
}

/// `index` is the first state of the output.
pub open spec fn is_state_of(current: Seq<OutputState>, output: OutputId, index: int) -> bool {
    &&& 0 <= index < current.len()
    &&& current[index].output == output
    &&& forall|i: int| 0 <= i < index ==> (#[trigger] current[i]).output != output
}

/// The output is connected.
pub open spec fn is_connected(current: Seq<OutputState>, output: OutputId) -> bool {
    exists|i: int| 0 <= i < current.len() && (#[trigger] current[i]).output == output
}

/// The output can show frames when they are ready.
pub open spec fn supports_adaptive_sync(current: Seq<OutputState>, output: OutputId) -> bool {
    exists|i: int| #[trigger]
        is_state_of(current, output, i) && current[i].adaptive_sync_supported
}

/// An output that was named before is named again.
pub open spec fn is_repeated(requested: Seq<OutputConfiguration>, index: int) -> bool {
    exists|i: int| 0 <= i < index && (#[trigger] requested[i]).name@ == requested[index].name@
}

/// The text that an error names.
pub open spec fn error_text(error: ConfigurationError) -> (int, Seq<char>) {
    match error {
        ConfigurationError::Incomplete => (0, Seq::empty()),
        ConfigurationError::NothingEnabled => (1, Seq::empty()),
        ConfigurationError::Duplicate(name) => (2, name@),
        ConfigurationError::NotConnected(name) => (3, name@),
        ConfigurationError::UnadvertisedMode(name) => (4, name@),
        ConfigurationError::Scale(name) => (5, name@),
        ConfigurationError::AdaptiveSync(name) => (6, name@),
    }
}

/// What is wrong with one part of a configuration, the first of the faults that it has.
pub open spec fn fault_of(
    current: Seq<OutputState>,
    requested: Seq<OutputConfiguration>,
    index: int,
) -> Option<(int, Seq<char>)> {
    let config = requested[index];
    if is_repeated(requested, index) {
        Some((2, config.name@))
    } else if !is_connected(current, config.output) {
        Some((3, config.name@))
    } else if !config.modes@.contains(config.mode) {
        Some((4, config.name@))
    } else if !is_unit_scale(config.scale_bits) {
        Some((5, config.name@))
    } else if config.adaptive_sync && !supports_adaptive_sync(current, config.output) {
        Some((6, config.name@))
    } else {
        None
    }
}

/// Some output stays on.
pub open spec fn some_enabled(requested: Seq<OutputConfiguration>) -> bool {
    exists|i: int| 0 <= i < requested.len() && (#[trigger] requested[i]).enabled
}

/// The configuration is refused for this reason.
pub open spec fn is_refused(
    current: Seq<OutputState>,
    requested: Seq<OutputConfiguration>,
    error: (int, Seq<char>),
) -> bool {
    if requested.len() != current.len() {
        error == (0int, Seq::<char>::empty())
    } else if !some_enabled(requested) {
        error == (1int, Seq::<char>::empty())
    } else {
        exists|k: int| #[trigger]
            fault_of(current, requested, k) == Some(error) && 0 <= k < requested.len() && forall|
                j: int,
            |
                0 <= j < k ==> #[trigger] fault_of(current, requested, j) is None
    }
}

/// The configuration is sound.
pub open spec fn is_complete(current: Seq<OutputState>, requested: Seq<OutputConfiguration>)
    -> bool {
    &&& requested.len() == current.len()
    &&& some_enabled(requested)
    &&& forall|k: int|
        0 <= k < requested.len() ==> #[trigger] fault_of(current, requested, k) is None
}

fn any_enabled(requested: &Vec<OutputConfiguration>) -> (r: bool)
    ensures
        r == some_enabled(requested@),
{
    let mut index: usize = 0;
    while index < requested.len()
        invariant
            index <= requested@.len(),
            forall|i: int| 0 <= i < index ==> !(#[trigger] requested@[i]).enabled,
        decreases requested@.len() - index,
    {
        if requested[index].enabled {
            assert(requested@[index as int].enabled);
            return true;
        }
        index += 1;
    }
    false
}

fn repeated(requested: &Vec<OutputConfiguration>, index: usize) -> (r: bool)
    requires
        index < requested@.len(),
    ensures
        r == is_repeated(requested@, index as int),
{
    let mut i: usize = 0;
    while i < index
        invariant
            i <= index,
            index < requested@.len(),
            forall|j: int|
                0 <= j < i ==> (#[trigger] requested@[j]).name@ != requested@[index as int].name@,
        decreases index - i,
    {
        if same_text(requested[i].name.as_str(), requested[index].name.as_str()) {
            assert(requested@[i as int].name@ == requested@[index as int].name@);
            return true;
        }
        i += 1;
    }
    false
}

fn find_state(current: &Vec<OutputState>, output: OutputId) -> (found: Option<usize>)
    ensures
        match found {
            Some(index) => is_state_of(current@, output, index as int),
            None => !is_connected(current@, output),
        },
{
    let mut index: usize = 0;
    while index < current.len()
        invariant
            index <= current@.len(),
            forall|i: int| 0 <= i < index ==> (#[trigger] current@[i]).output != output,
        decreases current@.len() - index,
    {
        if current[index].output == output {
            return Some(index);
        }
        index += 1;
    }
    None
}

fn advertises(modes: &Vec<Mode>, mode: Mode) -> (r: bool)
    ensures
        r == modes@.contains(mode),
{
    let mut index: usize = 0;
    while index < modes.len()
        invariant
            index <= modes@.len(),
            forall|i: int| 0 <= i < index ==> #[trigger] modes@[i] != mode,
        decreases modes@.len() - index,
    {
        if modes[index] == mode {
            assert(modes@[index as int] == mode);
            return true;
        }
        index += 1;
    }
    false
}

/// A configuration names every connected output once, leaves one on, and asks of each
/// what it can do.
pub fn validate_complete_configuration(
    current: &Vec<OutputState>,
    requested: &Vec<OutputConfiguration>,
) -> (result: Result<(), ConfigurationError>)
    ensures
        match result {
            Ok(_) => is_complete(current@, requested@),
            Err(error) => is_refused(current@, requested@, error_text(error)),
        },
{
    if requested.len() != current.len() {
        return Err(ConfigurationError::Incomplete);
    }
    if !any_enabled(requested) {
        return Err(ConfigurationError::NothingEnabled);
    }
    let mut index: usize = 0;
    while index < requested.len()
        invariant
            index <= requested@.len(),
            requested@.len() == current@.len(),
            some_enabled(requested@),
            forall|k: int| 0 <= k < index ==> #[trigger] fault_of(current@, requested@, k) is None,
        decreases requested@.len() - index,
    {
        let config = &requested[index];
        let ghost fault = fault_of(current@, requested@, index as int);
        if repeated(requested, index) {
            assert(fault == Some((2int, config.name@)));
            return Err(ConfigurationError::Duplicate(config.name.clone()));
        }
        let state = match find_state(current, config.output) {
            Some(state) => state,
            None => {
                assert(fault == Some((3int, config.name@)));
                return Err(ConfigurationError::NotConnected(config.name.clone()));
            },
        };
        assert(is_connected(current@, config.output));
        if !advertises(&config.modes, config.mode) {
            assert(fault == Some((4int, config.name@)));
            return Err(ConfigurationError::UnadvertisedMode(config.name.clone()));
        }
        if config.scale_bits < 0x3FEF_FFFF_FFFF_FFFE || config.scale_bits > 0x3FF0_0000_0000_0001 {
            assert(fault == Some((5int, config.name@)));
            return Err(ConfigurationError::Scale(config.name.clone()));
        }
        proof {
            assert forall|i: int| #[trigger]
                is_state_of(current@, config.output, i) implies i == state by {
                if i < state {
                    assert(current@[i].output != config.output);
                }
                if i > state {
                    assert(current@[state as int].output != config.output);
                }
            }
        }
        if config.adaptive_sync && !current[state].adaptive_sync_supported {
            assert(fault == Some((6int, config.name@)));
            return Err(ConfigurationError::AdaptiveSync(config.name.clone()));
        }
        assert(current@[state as int].adaptive_sync_supported ==> supports_adaptive_sync(
            current@,
            config.output,
        )) by {
            assert(is_state_of(current@, config.output, state as int));
        }
        index += 1;
    }
    Ok(())
}

/// A configuration is sound or refused, never both.
pub proof fn configurations_are_decided(
    current: Seq<OutputState>,
    requested: Seq<OutputConfiguration>,
    error: (int, Seq<char>),
)
    requires
        is_complete(current, requested),
    ensures
        !is_refused(current, requested, error),
{
}

impl ConfigurationError {
    /// The error in words.
    pub fn message(&self) -> (text: String)
        ensures
            text@ == (match *self {
                ConfigurationError::Incomplete =>
                    "configuration must include every connected output exactly once"@,
                ConfigurationError::NothingEnabled =>
                    "configuration must leave at least one output enabled"@,
                ConfigurationError::Duplicate(name) => "output "@ + quoted_text(name@)
                    + " is configured more than once"@,
                ConfigurationError::NotConnected(name) => "output "@ + quoted_text(name@)
                    + " is not connected"@,
                ConfigurationError::UnadvertisedMode(name) => "output "@ + quoted_text(name@)
                    + " requested an unadvertised mode"@,
                ConfigurationError::Scale(name) => "output "@ + quoted_text(name@)
                    + " only supports scale 1.0"@,
                ConfigurationError::AdaptiveSync(name) => "output "@ + quoted_text(name@)
                    + " does not support adaptive sync"@,
            }),
    {
        match self {
            ConfigurationError::Incomplete =>
                "configuration must include every connected output exactly once".to_owned(),
            ConfigurationError::NothingEnabled =>
                "configuration must leave at least one output enabled".to_owned(),
            ConfigurationError::Duplicate(name) => joined(
                joined("output ", quoted(name.as_str()).as_str()).as_str(),
                " is configured more than once",
            ),
            ConfigurationError::NotConnected(name) => joined(
                joined("output ", quoted(name.as_str()).as_str()).as_str(),
                " is not connected",
            ),
            ConfigurationError::UnadvertisedMode(name) => joined(
                joined("output ", quoted(name.as_str()).as_str()).as_str(),
                " requested an unadvertised mode",
            ),
            ConfigurationError::Scale(name) => joined(
                joined("output ", quoted(name.as_str()).as_str()).as_str(),
                " only supports scale 1.0",
            ),
            ConfigurationError::AdaptiveSync(name) => joined(
                joined("output ", quoted(name.as_str()).as_str()).as_str(),
                " does not support adaptive sync",
            ),
        }
    }
}

/// What a configuration changed of an output.
#[derive(Clone, Copy, Debug, PartialEq, Eq, Structural)]
pub struct OutputChange {
    pub output: OutputId,
    pub was_enabled: bool,
    pub enabled: bool,
    pub mode_changed: bool,
    pub transform_changed: bool,
}

#[derive(Clone, Copy, Debug, PartialEq, Eq, Structural)]
pub enum ApplyStep {
    /// The output is put in its place, its layers are arranged, and clients see it.
    Place(OutputId),
    /// The camera starts over, and windows that fill the output get its size.
    ResetCamera(OutputId),
    Redraw(OutputId),
    /// Gamma and copies of the screen end, with what they had set.
    ReleaseControls(OutputId),
    /// The windows of the output go to another.
    MoveWindows { from: OutputId, to: OutputId },
    /// The output leaves the layout, clients no longer see it, and its camera is gone.
    Unmap(OutputId),
    /// The layout is looked at again.
    RefreshLayout,
    ConfigureLock,
    SyncKeyboard,
    UpdatePointer,
}

pub open spec fn apply_steps_of(change: OutputChange, fallback: OutputId) -> Seq<ApplyStep> {
    if change.enabled {
        seq![ApplyStep::Place(change.output)] + steps::when(
            change.mode_changed || change.transform_changed || !change.was_enabled,
            seq![ApplyStep::ResetCamera(change.output)],
        ) + seq![ApplyStep::Redraw(change.output)]
    } else {
        steps::when(
            change.was_enabled,
            seq![
                ApplyStep::ReleaseControls(change.output),
                ApplyStep::MoveWindows { from: change.output, to: fallback },
                ApplyStep::Unmap(change.output),
            ],
        )
    }
}

pub open spec fn all_apply_steps(changes: Seq<OutputChange>, fallback: OutputId) -> Seq<ApplyStep>
    decreases changes.len(),
{
    if changes.len() == 0 {
        Seq::empty()
    } else {
        all_apply_steps(changes.drop_last(), fallback) + apply_steps_of(changes.last(), fallback)
    }
}

/// The first change that leaves its output on.
pub open spec fn first_enabled(changes: Seq<OutputChange>) -> Option<OutputId>
    decreases changes.len(),
{
    if changes.len() == 0 {
        None
    } else if changes[0].enabled {
        Some(changes[0].output)
    } else {
        first_enabled(changes.drop_first())
    }
}

/// The output that windows of a disabled one go to: one that was just changed and is
/// on, else any that is.
pub open spec fn fallback_of(changes: Seq<OutputChange>, enabled: Option<OutputId>) -> Option<
    OutputId,
> {
    match first_enabled(changes) {
        Some(output) => Some(output),
        None => enabled,
    }
}

fn find_enabled(changes: &Vec<OutputChange>) -> (found: Option<OutputId>)
    ensures
        found == first_enabled(changes@),
{
    let mut index: usize = 0;
    assert(changes@.skip(0) =~= changes@);
    while index < changes.len()
        invariant
            index <= changes@.len(),
            first_enabled(changes@) == first_enabled(changes@.skip(index as int)),
        decreases changes@.len() - index,
    {
        let change = changes[index];
        proof {
            let rest = changes@.skip(index as int);
            assert(rest[0] == change);
            assert(rest.drop_first() =~= changes@.skip(index as int + 1));
        }
        if change.enabled {
            return Some(change.output);
        }
        index += 1;
    }
    None
}

/// Follows a configuration that was applied. `enabled` is the first output that is on
/// now. Without one there is nowhere for windows to go: `None`.
pub fn apply_wayland_output_configuration(changes: &Vec<OutputChange>, enabled: Option<OutputId>)
    -> (list: Option<Vec<ApplyStep>>)
    ensures
        match list {
            Some(list) => if changes@.len() == 0 {
                list@.len() == 0
            } else {
                &&& fallback_of(changes@, enabled) is Some
                &&& list@ == all_apply_steps(changes@, fallback_of(changes@, enabled)->0) + seq![
                    ApplyStep::RefreshLayout,
                    ApplyStep::ConfigureLock,
                    ApplyStep::SyncKeyboard,
                    ApplyStep::UpdatePointer,
                ]
            },
            None => changes@.len() > 0 && fallback_of(changes@, enabled) is None,
        },
{
    let mut list: Vec<ApplyStep> = Vec::new();
    if changes.len() == 0 {
        return Some(list);
    }
    let fallback = match find_enabled(changes) {
        Some(output) => output,
        None => match enabled {
            Some(output) => output,
            None => {
                return None;
            },
        },
    };
    let mut index: usize = 0;
    while index < changes.len()
        invariant
            index <= changes@.len(),
            list@ == all_apply_steps(changes@.take(index as int), fallback),
        decreases changes@.len() - index,
    {
        let change = changes[index];
        let ghost before = list@;
        if change.enabled {
            list.push(ApplyStep::Place(change.output));
            if change.mode_changed || change.transform_changed || !change.was_enabled {
                list.push(ApplyStep::ResetCamera(change.output));
            }
            list.push(ApplyStep::Redraw(change.output));
        } else if change.was_enabled {
            list.push(ApplyStep::ReleaseControls(change.output));
            list.push(ApplyStep::MoveWindows { from: change.output, to: fallback });
            list.push(ApplyStep::Unmap(change.output));
        }
        proof {
            let longer = changes@.take(index as int + 1);
            assert(list@ =~= before + apply_steps_of(change, fallback));
            assert(longer.drop_last() =~= changes@.take(index as int));
            assert(longer.last() == change);
        }
        index += 1;
    }
    assert(changes@.take(index as int) =~= changes@);
    list.push(ApplyStep::RefreshLayout);
    list.push(ApplyStep::ConfigureLock);
    list.push(ApplyStep::SyncKeyboard);
    list.push(ApplyStep::UpdatePointer);
    assert(list@ =~= all_apply_steps(changes@, fallback) + seq![
        ApplyStep::RefreshLayout,
        ApplyStep::ConfigureLock,
        ApplyStep::SyncKeyboard,
        ApplyStep::UpdatePointer,
    ]);
    Some(list)
}

/// Only a scale of one is accepted, or what rounding makes of one: the numbers next to it,
/// of which those below stand half as far apart.
pub proof fn only_a_scale_of_one_is_accepted(bits: u64)
    ensures
        is_unit_scale(0x3FF0_0000_0000_0000),
        is_unit_scale(0x3FF0_0000_0000_0001),
        is_unit_scale(0x3FEF_FFFF_FFFF_FFFF),
        is_unit_scale(0x3FEF_FFFF_FFFF_FFFE),
        bits > 0x3FF0_0000_0000_0001 ==> !is_unit_scale(bits),
        bits < 0x3FEF_FFFF_FFFF_FFFE ==> !is_unit_scale(bits),
{
}

/// The state of an output is the first that is listed for it, and an output is connected
/// exactly where it has one.
pub proof fn connected_outputs_have_a_state(
    current: Seq<OutputState>,
    output: OutputId,
    i: int,
    first: int,
)
    requires
        0 <= i < current.len(),
        current[i].output == output,
        is_state_of(current, output, first),
    ensures
        is_connected(current, output),
        current[first].output == output,
        first <= i,
{
}

/// Each fault is named as what it is, with the name of its output.
pub proof fn errors_name_their_output(name: String)
    ensures
        error_text(ConfigurationError::Duplicate(name)).1 == name@,
        error_text(ConfigurationError::NotConnected(name)).1 == name@,
        error_text(ConfigurationError::UnadvertisedMode(name)).1 == name@,
        error_text(ConfigurationError::Scale(name)).1 == name@,
        error_text(ConfigurationError::AdaptiveSync(name)).1 == name@,
        error_text(ConfigurationError::Incomplete).0 != error_text(
            ConfigurationError::NothingEnabled,
        ).0,
{
}

/// A part of a configuration is refused as a duplicate exactly where an earlier part has its
/// name, as not connected exactly where it is none and its output has no state, and then for
/// its mode, its scale and its adaptive sync, in this order.
pub proof fn faults_are_found_in_order(
    current: Seq<OutputState>,
    requested: Seq<OutputConfiguration>,
    index: int,
    error: ConfigurationError,
)
    requires
        0 <= index < requested.len(),
        fault_of(current, requested, index) == Some(error_text(error)),
    ensures
        error is Duplicate <==> exists|i: int|
            0 <= i < index && (#[trigger] requested[i]).name@ == requested[index].name@,
        error is NotConnected ==> forall|i: int|
            0 <= i < current.len() ==> (#[trigger] current[i]).output != requested[index].output,
        error is UnadvertisedMode ==> !requested[index].modes@.contains(requested[index].mode),
        error is Scale ==> requested[index].modes@.contains(requested[index].mode)
            && !is_unit_scale(requested[index].scale_bits),
        error is AdaptiveSync ==> requested[index].adaptive_sync && is_unit_scale(
            requested[index].scale_bits,
        ) && !(exists|i: int| #[trigger]
            is_state_of(current, requested[index].output, i) && current[i].adaptive_sync_supported),
        !(error is Incomplete) && !(error is NothingEnabled),
{
}

/// A sound configuration has a part for each connected output and leaves one on. Its parts
/// have different names, and each asks a connected output for a mode that it has, for a scale
/// of one, and for adaptive sync only where it has that.
pub proof fn sound_configurations_ask_for_what_there_is(
    current: Seq<OutputState>,
    requested: Seq<OutputConfiguration>,
    a: int,
    b: int,
)
    requires
        is_complete(current, requested),
        0 <= a < b < requested.len(),
    ensures
        requested.len() == current.len(),
        exists|i: int| 0 <= i < requested.len() && (#[trigger] requested[i]).enabled,
        requested[a].name@ != requested[b].name@,
        exists|i: int|
            0 <= i < current.len() && (#[trigger] current[i]).output == requested[b].output,
        requested[b].modes@.contains(requested[b].mode),
        0x3FEF_FFFF_FFFF_FFFE <= requested[b].scale_bits <= 0x3FF0_0000_0000_0001,
        requested[b].adaptive_sync ==> exists|i: int| #[trigger]
            is_state_of(current, requested[b].output, i) && current[i].adaptive_sync_supported,
{
    assert(fault_of(current, requested, b) is None);
    let earlier = requested[a];
}

/// A configuration that has no part for each output is incomplete, before anything else is
/// said of it, and one that leaves nothing on is refused for that next.
pub proof fn incomplete_configurations_are_refused_first(
    current: Seq<OutputState>,
    requested: Seq<OutputConfiguration>,
    error: ConfigurationError,
)
    requires
        is_refused(current, requested, error_text(error)),
    ensures
        error is Incomplete <==> requested.len() != current.len(),
        error is NothingEnabled <==> requested.len() == current.len() && forall|i: int|
            0 <= i < requested.len() ==> !(#[trigger] requested[i]).enabled,
{
    if requested.len() == current.len() && some_enabled(requested) {
        let k = choose|k: int| #[trigger]
            fault_of(current, requested, k) == Some(error_text(error)) && 0 <= k < requested.len();
        let i = choose|i: int| 0 <= i < requested.len() && (#[trigger] requested[i]).enabled;
    }
}

/// An output that is on is put in its place and drawn; its camera starts over exactly where
/// its size or turn changed or it was off. One that goes off sends its windows to the other
/// output before it leaves. One that was off and stays off is left alone.
pub proof fn outputs_follow_their_configuration(change: OutputChange, fallback: OutputId)
    ensures
        apply_steps_of(change, fallback).contains(ApplyStep::Place(change.output))
            <==> change.enabled,
        apply_steps_of(change, fallback).contains(ApplyStep::Redraw(change.output))
            <==> change.enabled,
        apply_steps_of(change, fallback).contains(ApplyStep::ResetCamera(change.output))
            <==> change.enabled && (change.mode_changed || change.transform_changed
            || !change.was_enabled),
        !change.enabled && change.was_enabled ==> apply_steps_of(change, fallback) == seq![
            ApplyStep::ReleaseControls(change.output),
            ApplyStep::MoveWindows { from: change.output, to: fallback },
            ApplyStep::Unmap(change.output),
        ],
        !change.enabled && !change.was_enabled ==> apply_steps_of(change, fallback).len() == 0,
        change.enabled ==> !apply_steps_of(change, fallback).contains(
            ApplyStep::Unmap(change.output),
        ),
{
    broadcast use steps::group_steps;

}

/// The steps of every change are taken, each change after those before it.
pub proof fn every_change_is_applied(changes: Seq<OutputChange>, last: OutputChange, to: OutputId)
    ensures
        all_apply_steps(Seq::<OutputChange>::empty(), to).len() == 0,
        all_apply_steps(changes.push(last), to) == all_apply_steps(changes, to) + apply_steps_of(
            last,
            to,
        ),
{
    assert(changes.push(last).drop_last() =~= changes);
}

/// Windows go to the first output that was changed and is on, and only where there is none
/// to another that is on.
pub proof fn windows_go_to_an_output_that_is_on(
    changes: Seq<OutputChange>,
    enabled: Option<OutputId>,
    i: int,
)
    requires
        0 <= i < changes.len(),
        changes[i].enabled,
        forall|j: int| 0 <= j < i ==> !(#[trigger] changes[j]).enabled,
    ensures
        fallback_of(changes, enabled) == Some(changes[i].output),
    decreases i,
{
    if i > 0 {
        let rest = changes.drop_first();
        assert(!changes[0].enabled);
        assert forall|j: int| 0 <= j < i - 1 implies !(#[trigger] rest[j]).enabled by {
            assert(rest[j] == changes[j + 1]);
        }
        assert(rest[i - 1] == changes[i]);
        windows_go_to_an_output_that_is_on(rest, enabled, i - 1);
    }
}

/// Where no changed output is on, windows go to another that is, if there is one.
pub proof fn windows_go_elsewhere_if_all_changed_outputs_are_off(
    changes: Seq<OutputChange>,
    enabled: Option<OutputId>,
)
    requires
        forall|j: int| 0 <= j < changes.len() ==> !(#[trigger] changes[j]).enabled,
    ensures
        fallback_of(changes, enabled) == enabled,
    decreases changes.len(),
{
    if changes.len() > 0 {
        let rest = changes.drop_first();
        assert(!changes[0].enabled);
        assert forall|j: int| 0 <= j < rest.len() implies !(#[trigger] rest[j]).enabled by {
            assert(rest[j] == changes[j + 1]);
        }
        windows_go_elsewhere_if_all_changed_outputs_are_off(rest, enabled);
    }
}

/// An output is placed before its camera is reset, and drawn at last; one that goes lets go of
/// its controls, then of its windows, before it is unmapped.
#[verifier::rlimit(50)]
pub proof fn outputs_are_placed_before_they_are_drawn(change: OutputChange, fallback: OutputId)
    ensures
        steps::comes_before(apply_steps_of(change, fallback), ApplyStep::Place(change.output), ApplyStep::ResetCamera(change.output)),
        steps::comes_before(apply_steps_of(change, fallback), ApplyStep::Place(change.output), ApplyStep::Redraw(change.output)),
        steps::comes_before(apply_steps_of(change, fallback), ApplyStep::ResetCamera(change.output), ApplyStep::Redraw(change.output)),
        steps::comes_before(apply_steps_of(change, fallback), ApplyStep::ReleaseControls(change.output), ApplyStep::MoveWindows { from: change.output, to: fallback }),
        steps::comes_before(apply_steps_of(change, fallback), ApplyStep::ReleaseControls(change.output), ApplyStep::Unmap(change.output)),
        steps::comes_before(apply_steps_of(change, fallback), ApplyStep::MoveWindows { from: change.output, to: fallback }, ApplyStep::Unmap(change.output)),
{
    broadcast use {steps::group_steps, steps::group_orders};

}

/// Changes are applied one after the other, each wholly before the next.
pub proof fn outputs_are_changed_one_by_one(
    first: Seq<OutputChange>,
    second: Seq<OutputChange>,
    fallback: OutputId,
)
    ensures
        all_apply_steps(first + second, fallback) == all_apply_steps(first, fallback)
            + all_apply_steps(second, fallback),
    decreases second.len(),
{
    if second.len() == 0 {
        assert(first + second =~= first);
        assert(all_apply_steps(first, fallback) + all_apply_steps(second, fallback)
            =~= all_apply_steps(first, fallback));
    } else {
        assert((first + second).drop_last() =~= first + second.drop_last());
        outputs_are_changed_one_by_one(first, second.drop_last(), fallback);
        assert(all_apply_steps(first + second, fallback) =~= all_apply_steps(first, fallback)
            + all_apply_steps(second, fallback));
    }
}

} // verus!
