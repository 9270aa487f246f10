//! What a trace tells of a window.

use vstd::prelude::*;
use vstd::string::StringExecFns;
use vstd::utf8::{decode_utf8, valid_utf8};

use crate::ids::SurfaceId;
use crate::session::pointer::constraints::ConstraintKind;
use crate::steps::text_of;
use crate::text::{decimal, decimal_of, joined, quoted, quoted_text, trim, trimmed};

verus! {

/// A surface that has a focus: the root of its tree, and the number that the protocol
/// gives it.
#[derive(Clone, Copy, Debug, PartialEq, Eq, Structural)]
pub struct FocusedSurface {
    pub surface: SurfaceId,
    pub protocol_id: u32,
}

/// What is known of a window. What only its owner can put into words comes as text.
#[derive(Debug)]
pub struct WindowFacts {
    pub root: SurfaceId,
    pub protocol_id: u32,
    pub pid: Option<u32>,
    pub app: String,
    pub title: String,
    pub mapped: bool,
    pub has_buffer: bool,
    pub buffer_size: String,
    pub drawable: String,
    pub window_geometry: String,
    pub location: String,
    pub geometry: String,
    pub bbox: String,
    pub output_geometry: String,
    pub node: String,
    pub record_geometry: String,
    pub collapsed: Option<bool>,
    pub attached: Option<bool>,
    pub cluster: String,
    pub cluster_active: String,
    pub layout: String,
    pub metadata_layout: String,
    pub cluster_target: String,
    pub opening: bool,
    pub fullscreen: bool,
    pub fullscreen_x11: bool,
    pub maximized: bool,
    pub maximized_x11: bool,
    pub camera: String,
    pub visual: String,
    pub presented_source: String,
    pub presented_visual: String,
    pub presented_hit: String,
    pub compositor_focus: Option<FocusedSurface>,
    pub keyboard_focus: Option<FocusedSurface>,
    pub pointer_focus: Option<FocusedSurface>,
    pub pointer_position: String,
}

/// What is known of the constraint of a surface.
#[derive(Debug)]
pub struct ConstraintDiagnostic {
    pub protocol_resource: Option<String>,
    pub protocol_kind: Option<ConstraintKind>,
    pub protocol_active: bool,
    pub halley_tracked: bool,
    pub tracked_kind: Option<ConstraintKind>,
    pub tracked_surface_id: Option<u32>,
}

/// A constraint as the protocol knows it.
#[derive(Debug)]
pub struct ProtocolConstraint {
    pub resource: String,
    pub kind: ConstraintKind,
    pub active: bool,
}

/// A constraint that the session enforces, with the root of its surface.
#[derive(Clone, Copy, Debug, PartialEq, Eq, Structural)]
pub struct EnforcedConstraint {
    pub root: SurfaceId,
    pub kind: ConstraintKind,
    pub protocol_id: u32,
}

/// What is told of the constraint of a surface. One that the session enforces is told
/// of only where it is in the same tree.
pub fn diagnostic(
    protocol: Option<ProtocolConstraint>,
    enforced: Option<EnforcedConstraint>,
    root: SurfaceId,
) -> (told: ConstraintDiagnostic)
    ensures
        match protocol {
            Some(protocol) => told.protocol_resource == Some(protocol.resource)
                && told.protocol_kind == Some(protocol.kind) && told.protocol_active
                == protocol.active,
            None => told.protocol_resource is None && told.protocol_kind is None
                && !told.protocol_active,
        },
        match enforced {
            Some(enforced) if enforced.root == root => told.halley_tracked && told.tracked_kind
                == Some(enforced.kind) && told.tracked_surface_id == Some(enforced.protocol_id),
            _ => !told.halley_tracked && told.tracked_kind is None
                && told.tracked_surface_id is None,
        },
{
    let (protocol_resource, protocol_kind, protocol_active) = match protocol {
        Some(protocol) => (Some(protocol.resource), Some(protocol.kind), protocol.active),
        None => (None, None, false),
    };
    match enforced {
        Some(enforced) => {
            if enforced.root == root {
                return ConstraintDiagnostic {
                    protocol_resource,
                    protocol_kind,
                    protocol_active,
                    halley_tracked: true,
                    tracked_kind: Some(enforced.kind),
                    tracked_surface_id: Some(enforced.protocol_id),
                };
            }
        },
        None => {},
    }
    ConstraintDiagnostic {
        protocol_resource,
        protocol_kind,
        protocol_active,
        halley_tracked: false,
        tracked_kind: None,
        tracked_surface_id: None,
    }
}

pub open spec fn shown_bool(value: bool) -> Seq<char> {
    if value {
        "true"@
    } else {
        "false"@
    }
}

fn bool_text(value: bool) -> (text: &'static str)
    ensures
        text@ == shown_bool(value),
{
    if value {
        "true"
    } else {
        "false"
    }
}

pub open spec fn shown_number(number: Option<u32>) -> Seq<char> {
    match number {
        Some(number) => "Some("@ + decimal_of(number as nat) + ")"@,
        None => "None"@,
    }
}

pub(crate) fn number_text(number: Option<u32>) -> (text: String)
    ensures
        text@ == shown_number(number),
{
    match number {
        Some(number) => {
            let mut text: String = "Some(".to_owned();
            text.append(decimal(number as u128).as_str());
            text.append(")");
            text
        },
        None => "None".to_owned(),
    }
}

pub open spec fn shown_flag(flag: Option<bool>) -> Seq<char> {
    match flag {
        Some(true) => "Some(true)"@,
        Some(false) => "Some(false)"@,
        None => "None"@,
    }
}

fn flag_text(flag: Option<bool>) -> (text: &'static str)
    ensures
        text@ == shown_flag(flag),
{
    match flag {
        Some(true) => "Some(true)",
        Some(false) => "Some(false)",
        None => "None",
    }
}

pub open spec fn shown_text(value: Option<Seq<char>>) -> Seq<char> {
    match value {
        Some(value) => "Some("@ + quoted_text(value) + ")"@,
        None => "None"@,
    }
}

fn option_text(value: &Option<String>) -> (text: String)
    ensures
        text@ == shown_text(text_of(*value)),
{
    match value {
        Some(value) => {
            let mut text: String = "Some(".to_owned();
            text.append(quoted(value.as_str()).as_str());
            text.append(")");
            text
        },
        None => "None".to_owned(),
    }
}

pub open spec fn shown_kind(kind: Option<ConstraintKind>) -> Seq<char> {
    match kind {
        Some(ConstraintKind::Confined) => "Some(\"confined\")"@,
        Some(ConstraintKind::Locked) => "Some(\"locked\")"@,
        None => "None"@,
    }
}

fn kind_text(kind: Option<ConstraintKind>) -> (text: &'static str)
    ensures
        text@ == shown_kind(kind),
{
    match kind {
        Some(ConstraintKind::Confined) => "Some(\"confined\")",
        Some(ConstraintKind::Locked) => "Some(\"locked\")",
        None => "None",
    }
}

pub open spec fn shown_focus(focus: Option<FocusedSurface>) -> Seq<char> {
    match focus {
        Some(focus) => shown_number(Some(focus.protocol_id)),
        None => shown_number(None),
    }
}

fn focus_text_of(focus: Option<FocusedSurface>) -> (text: String)
    ensures
        text@ == shown_focus(focus),
{
    match focus {
        Some(focus) => number_text(Some(focus.protocol_id)),
        None => number_text(None),
    }
}

/// The window itself has the focus.
pub open spec fn owns(focus: Option<FocusedSurface>, root: SurfaceId) -> bool {
    focus is Some && focus->0.surface == root
}

fn owns_focus(focus: Option<FocusedSurface>, root: SurfaceId) -> (r: bool)
    ensures
        r == owns(focus, root),
{
    match focus {
        Some(focus) => focus.surface == root,
        None => false,
    }
}

/// What is traced of who a window is and what it shows.
pub open spec fn identity_text(facts: WindowFacts) -> Seq<char> {
    "identity={pid:"@
        + shown_number(facts.pid)
        + ",app:"@
        + facts.app@
        + ",title:"@
        + facts.title@
        + "} surface={wl:"@
        + decimal_of(facts.protocol_id as nat)
        + ",mapped:"@
        + shown_bool(facts.mapped)
        + ",buffer:"@
        + shown_bool(facts.has_buffer)
        + ",buffer_size:"@
        + facts.buffer_size@
        + ",drawable:"@
        + facts.drawable@
        + ",window:"@
        + facts.window_geometry@
        + "} "@
}

fn identity_section(facts: &WindowFacts) -> (text: String)
    ensures
        text@ == identity_text(*facts),
{
    let mut text: String = "identity={pid:".to_owned();
    text.append(number_text(facts.pid).as_str());
    text.append(",app:");
    text.append(facts.app.as_str());
    text.append(",title:");
    text.append(facts.title.as_str());
    text.append("} surface={wl:");
    text.append(decimal(facts.protocol_id as u128).as_str());
    text.append(",mapped:");
    text.append(bool_text(facts.mapped));
    text.append(",buffer:");
    text.append(bool_text(facts.has_buffer));
    text.append(",buffer_size:");
    text.append(facts.buffer_size.as_str());
    text.append(",drawable:");
    text.append(facts.drawable.as_str());
    text.append(",window:");
    text.append(facts.window_geometry.as_str());
    text.append("} ");
    text
}

/// What is traced of where a window is.
pub open spec fn space_text(facts: WindowFacts, output: Seq<char>) -> Seq<char> {
    "space={location:"@
        + facts.location@
        + ",geometry:"@
        + facts.geometry@
        + ",bbox:"@
        + facts.bbox@
        + ",output:"@
        + quoted_text(output)
        + ",output_geometry:"@
        + facts.output_geometry@
        + "} "@
}

fn space_section(facts: &WindowFacts, output: &str) -> (text: String)
    ensures
        text@ == space_text(*facts, output@),
{
    let mut text: String = "space={location:".to_owned();
    text.append(facts.location.as_str());
    text.append(",geometry:");
    text.append(facts.geometry.as_str());
    text.append(",bbox:");
    text.append(facts.bbox.as_str());
    text.append(",output:");
    text.append(quoted(output).as_str());
    text.append(",output_geometry:");
    text.append(facts.output_geometry.as_str());
    text.append("} ");
    text
}

/// What is traced of the node and the cluster of a window.
pub open spec fn node_text(facts: WindowFacts) -> Seq<char> {
    "node={id:"@
        + facts.node@
        + ",record_geometry:"@
        + facts.record_geometry@
        + ",collapsed:"@
        + shown_flag(facts.collapsed)
        + ",attached:"@
        + shown_flag(facts.attached)
        + "} cluster={id:"@
        + facts.cluster@
        + ",active:"@
        + facts.cluster_active@
        + ",layout:"@
        + facts.layout@
        + ",metadata_layout:"@
        + facts.metadata_layout@
        + ",target:"@
        + facts.cluster_target@
        + "} "@
}

fn node_section(facts: &WindowFacts) -> (text: String)
    ensures
        text@ == node_text(*facts),
{
    let mut text: String = "node={id:".to_owned();
    text.append(facts.node.as_str());
    text.append(",record_geometry:");
    text.append(facts.record_geometry.as_str());
    text.append(",collapsed:");
    text.append(flag_text(facts.collapsed));
    text.append(",attached:");
    text.append(flag_text(facts.attached));
    text.append("} cluster={id:");
    text.append(facts.cluster.as_str());
    text.append(",active:");
    text.append(facts.cluster_active.as_str());
    text.append(",layout:");
    text.append(facts.layout.as_str());
    text.append(",metadata_layout:");
    text.append(facts.metadata_layout.as_str());
    text.append(",target:");
    text.append(facts.cluster_target.as_str());
    text.append("} ");
    text
}

/// What is traced of how a window is shown.
pub open spec fn lifecycle_text(facts: WindowFacts) -> Seq<char> {
    "lifecycle={opening:"@
        + shown_bool(facts.opening)
        + ",fullscreen_halley:"@
        + shown_bool(facts.fullscreen)
        + ",fullscreen_x11:"@
        + shown_bool(facts.fullscreen_x11)
        + ",maximize_halley:"@
        + shown_bool(facts.maximized)
        + ",maximize_x11:"@
        + shown_bool(facts.maximized_x11)
        + "} camera="@
        + facts.camera@
        + " visual="@
        + facts.visual@
        + " presentation={source:"@
        + facts.presented_source@
        + ",visual:"@
        + facts.presented_visual@
        + ",hit:"@
        + facts.presented_hit@
        + "} "@
}

fn lifecycle_section(facts: &WindowFacts) -> (text: String)
    ensures
        text@ == lifecycle_text(*facts),
{
    let mut text: String = "lifecycle={opening:".to_owned();
    text.append(bool_text(facts.opening));
    text.append(",fullscreen_halley:");
    text.append(bool_text(facts.fullscreen));
    text.append(",fullscreen_x11:");
    text.append(bool_text(facts.fullscreen_x11));
    text.append(",maximize_halley:");
    text.append(bool_text(facts.maximized));
    text.append(",maximize_x11:");
    text.append(bool_text(facts.maximized_x11));
    text.append("} camera=");
    text.append(facts.camera.as_str());
    text.append(" visual=");
    text.append(facts.visual.as_str());
    text.append(" presentation={source:");
    text.append(facts.presented_source.as_str());
    text.append(",visual:");
    text.append(facts.presented_visual.as_str());
    text.append(",hit:");
    text.append(facts.presented_hit.as_str());
    text.append("} ");
    text
}

/// What is traced of the focus, the pointer and its constraint.
pub open spec fn focus_text(facts: WindowFacts, constraint: ConstraintDiagnostic, route: Seq<char>) -> Seq<char> {
    "focus={compositor:"@
        + shown_focus(facts.compositor_focus)
        + ",keyboard:"@
        + shown_focus(facts.keyboard_focus)
        + ",pointer:"@
        + shown_focus(facts.pointer_focus)
        + ",owns_compositor:"@
        + shown_bool(owns(facts.compositor_focus, facts.root))
        + ",owns_keyboard:"@
        + shown_bool(owns(facts.keyboard_focus, facts.root))
        + ",owns_pointer:"@
        + shown_bool(owns(facts.pointer_focus, facts.root))
        + "} pointer={screen:"@
        + facts.pointer_position@
        + ",route:"@
        + route
        + "} constraint={resource:"@
        + shown_text(text_of(constraint.protocol_resource))
        + ",kind:"@
        + shown_kind(constraint.protocol_kind)
        + ",protocol_active:"@
        + shown_bool(constraint.protocol_active)
        + ",halley_tracked:"@
        + shown_bool(constraint.halley_tracked)
        + ",tracked_kind:"@
        + shown_kind(constraint.tracked_kind)
        + ",tracked_surface:"@
        + shown_number(constraint.tracked_surface_id)
        + "}"@
}

fn focus_section(facts: &WindowFacts, constraint: &ConstraintDiagnostic, route: &str) -> (text: String)
    ensures
        text@ == focus_text(*facts, *constraint, route@),
{
    let mut text: String = "focus={compositor:".to_owned();
    text.append(focus_text_of(facts.compositor_focus).as_str());
    text.append(",keyboard:");
    text.append(focus_text_of(facts.keyboard_focus).as_str());
    text.append(",pointer:");
    text.append(focus_text_of(facts.pointer_focus).as_str());
    text.append(",owns_compositor:");
    text.append(bool_text(owns_focus(facts.compositor_focus, facts.root)));
    text.append(",owns_keyboard:");
    text.append(bool_text(owns_focus(facts.keyboard_focus, facts.root)));
    text.append(",owns_pointer:");
    text.append(bool_text(owns_focus(facts.pointer_focus, facts.root)));
    text.append("} pointer={screen:");
    text.append(facts.pointer_position.as_str());
    text.append(",route:");
    text.append(route);
    text.append("} constraint={resource:");
    text.append(option_text(&constraint.protocol_resource).as_str());
    text.append(",kind:");
    text.append(kind_text(constraint.protocol_kind));
    text.append(",protocol_active:");
    text.append(bool_text(constraint.protocol_active));
    text.append(",halley_tracked:");
    text.append(bool_text(constraint.halley_tracked));
    text.append(",tracked_kind:");
    text.append(kind_text(constraint.tracked_kind));
    text.append(",tracked_surface:");
    text.append(number_text(constraint.tracked_surface_id).as_str());
    text.append("}");
    text
}

/// The output that a window is traced on: that of its record, or else the one that it is
/// on, or else the primary one.
pub open spec fn traced_output(
    record: Option<Seq<char>>,
    window: Option<Seq<char>>,
    primary: Seq<char>,
) -> Seq<char> {
    match record {
        Some(output) => output,
        None => match window {
            Some(output) => output,
            None => primary,
        },
    }
}

/// The output that a window is traced on.
pub fn trace_output(record: Option<&str>, window: Option<&str>, primary: &str) -> (output: String)
    ensures
        output@ == traced_output(
            crate::steps::str_of(record),
            crate::steps::str_of(window),
            primary@,
        ),
{
    match record {
        Some(output) => output.to_owned(),
        None => match window {
            Some(output) => output.to_owned(),
            None => primary.to_owned(),
        },
    }
}

/// What a trace tells of a window.
pub open spec fn state_text(
    facts: WindowFacts,
    output: Seq<char>,
    constraint: ConstraintDiagnostic,
    route: Seq<char>,
) -> Seq<char> {
    identity_text(facts) + space_text(facts, output) + node_text(facts) + lifecycle_text(facts)
        + focus_text(facts, constraint, route)
}

/// What a trace tells of a window.
pub fn runtime_state(
    facts: &WindowFacts,
    output: &str,
    constraint: &ConstraintDiagnostic,
    route: &str,
) -> (state: String)
    ensures
        state@ == state_text(*facts, output@, *constraint, route@),
{
    let mut state = identity_section(facts);
    state.append(space_section(facts, output).as_str());
    state.append(node_section(facts).as_str());
    state.append(lifecycle_section(facts).as_str());
    state.append(focus_section(facts, constraint, route).as_str());
    state
}

/// What is under the pointer, for a trace. The windows of X11 have numbers; the part of a
/// titlebar comes as text.
#[derive(Debug)]
pub enum RouteTarget {
    Window { xid: Option<u32> },
    Layer,
    Decoration { xid: Option<u32>, hit: String },
    Background,
}

/// Where the pointer leads, for a trace.
#[derive(Debug)]
pub struct RouteFacts {
    pub output: String,
    pub target: RouteTarget,
    pub location: String,
    pub local: String,
    pub visual: String,
}

pub open spec fn target_text(target: RouteTarget) -> Seq<char> {
    match target {
        RouteTarget::Window { xid: Some(xid) } => "xid:"@ + decimal_of(xid as nat),
        RouteTarget::Window { xid: None } => "wayland-window"@,
        RouteTarget::Layer => "layer"@,
        RouteTarget::Decoration { xid: Some(xid), hit } => "xid:"@ + decimal_of(xid as nat)
            + "-decoration:"@ + hit@,
        RouteTarget::Decoration { xid: None, hit } => "wayland-decoration:"@ + hit@,
        RouteTarget::Background => "background"@,
    }
}

fn target_section(target: &RouteTarget) -> (text: String)
    ensures
        text@ == target_text(*target),
{
    match target {
        RouteTarget::Window { xid: Some(xid) } => joined("xid:", decimal(*xid as u128).as_str()),
        RouteTarget::Window { xid: None } => "wayland-window".to_owned(),
        RouteTarget::Layer => "layer".to_owned(),
        RouteTarget::Decoration { xid: Some(xid), hit } => {
            let mut text = joined("xid:", decimal(*xid as u128).as_str());
            text.append("-decoration:");
            text.append(hit.as_str());
            text
        },
        RouteTarget::Decoration { xid: None, hit } => joined("wayland-decoration:", hit.as_str()),
        RouteTarget::Background => "background".to_owned(),
    }
}

/// What a trace tells of where the pointer leads.
pub open spec fn route_text(route: Option<RouteFacts>) -> Seq<char> {
    match route {
        Some(route) => "{output:"@ + quoted_text(route.output@) + ",target:"@ + target_text(
            route.target,
        ) + ",location:"@ + route.location@ + ",local:"@ + route.local@ + ",visual:"@
            + route.visual@ + "}"@,
        None => "none"@,
    }
}

/// What a trace tells of where the pointer leads.
pub fn pointer_route_state(route: &Option<RouteFacts>) -> (text: String)
    ensures
        text@ == route_text(*route),
{
    match route {
        Some(route) => {
            let mut text: String = "{output:".to_owned();
            text.append(quoted(route.output.as_str()).as_str());
            text.append(",target:");
            text.append(target_section(&route.target).as_str());
            text.append(",location:");
            text.append(route.location.as_str());
            text.append(",local:");
            text.append(route.local.as_str());
            text.append(",visual:");
            text.append(route.visual.as_str());
            text.append("}");
            text
        },
        None => "none".to_owned(),
    }
}

/// The text that bytes stand for, with a mark in place of what is no text, as
/// `String::from_utf8_lossy` gives it.
pub uninterp spec fn lossy_text(bytes: Seq<u8>) -> Seq<char>;

/// `String::from_utf8_lossy`: the text that the bytes encode. Where they are not valid
/// UTF-8 the text has replacement characters, which are not stated here.
#[verifier::external_body]
fn from_utf8_lossy(bytes: &Vec<u8>) -> (text: String)
    ensures
        text@ == lossy_text(bytes@),
        valid_utf8(bytes@) ==> text@ == decode_utf8(bytes@),
{
    String::from_utf8_lossy(bytes).into_owned()
}

/// The arguments of a command line in a row, where `part` has been read of the first and
/// `line` holds those before it. There is a zero byte after each.
pub open spec fn arguments_text(line: Option<Seq<char>>, part: Seq<u8>, bytes: Seq<u8>) -> Option<
    Seq<char>,
>
    decreases bytes.len(),
{
    if bytes.len() == 0 {
        with_argument(line, part)
    } else if bytes[0] == 0 {
        arguments_text(with_argument(line, part), Seq::empty(), bytes.drop_first())
    } else {
        arguments_text(line, part.push(bytes[0]), bytes.drop_first())
    }
}

/// One more argument behind those before it. Empty ones are passed over.
pub open spec fn with_argument(line: Option<Seq<char>>, part: Seq<u8>) -> Option<Seq<char>> {
    if part.len() == 0 {
        line
    } else {
        match line {
            Some(line) => Some(line + " "@ + lossy_text(part)),
            None => Some(lossy_text(part)),
        }
    }
}

fn add_argument(line: Option<String>, part: &Vec<u8>) -> (longer: Option<String>)
    ensures
        text_of(longer) == with_argument(text_of(line), part@),
{
    if part.len() == 0 {
        return line;
    }
    let argument = from_utf8_lossy(part);
    match line {
        Some(line) => {
            let mut text = line;
            text.append(" ");
            text.append(argument.as_str());
            Some(text)
        },
        None => Some(argument),
    }
}

/// The arguments of a command line in a row.
fn command_line(bytes: &Vec<u8>) -> (line: Option<String>)
    ensures
        text_of(line) == arguments_text(None, Seq::empty(), bytes@),
{
    let mut line: Option<String> = None;
    let mut part: Vec<u8> = Vec::new();
    let mut index: usize = 0;
    assert(bytes@.skip(0) =~= bytes@);
    assert(part@ =~= Seq::<u8>::empty());
    while index < bytes.len()
        invariant
            index <= bytes@.len(),
            arguments_text(None, Seq::empty(), bytes@) == arguments_text(
                text_of(line),
                part@,
                bytes@.skip(index as int),
            ),
        decreases bytes@.len() - index,
    {
        proof {
            let rest = bytes@.skip(index as int);
            assert(rest[0] == bytes@[index as int]);
            assert(rest.drop_first() =~= bytes@.skip(index as int + 1));
        }
        if bytes[index] == 0 {
            line = add_argument(line, &part);
            part = Vec::new();
            assert(part@ =~= Seq::<u8>::empty());
        } else {
            part.push(bytes[index]);
        }
        index += 1;
    }
    assert(bytes@.skip(index as int) =~= Seq::<u8>::empty());
    add_argument(line, &part)
}

/// The names that a process goes by: its program, its name and its command line, as far
/// as the system tells. An empty command line is no name.
pub open spec fn process_names(
    executable: Option<Seq<char>>,
    name: Option<Seq<char>>,
    command: Option<Seq<u8>>,
) -> Seq<Seq<char>> {
    let line = match command {
        Some(bytes) => arguments_text(None, Seq::empty(), bytes),
        None => None,
    };
    crate::steps::when(executable is Some, seq![executable->0]) + crate::steps::when(
        name is Some,
        seq![trimmed(name->0)],
    ) + crate::steps::when(line is Some && line->0.len() > 0, seq![line->0])
}

/// The names that a process goes by.
pub fn process_labels(executable: Option<&str>, name: Option<&str>, command: Option<&Vec<u8>>)
    -> (labels: Vec<String>)
    ensures
        crate::session::environment::texts(labels@) == process_names(
            crate::steps::str_of(executable),
            crate::steps::str_of(name),
            match command {
                Some(bytes) => Some(bytes@),
                None => None,
            },
        ),
{
    let mut labels: Vec<String> = Vec::new();
    if let Some(executable) = executable {
        labels.push(executable.to_owned());
    }
    if let Some(name) = name {
        labels.push(trim(name));
    }
    if let Some(bytes) = command {
        if let Some(line) = command_line(bytes) {
            if !line.as_str().is_empty() {
                labels.push(line);
            }
        }
    }
    proof {
        assert(crate::session::environment::texts(labels@) =~= process_names(
            crate::steps::str_of(executable),
            crate::steps::str_of(name),
            match command {
                Some(bytes) => Some(bytes@),
                None => None,
            },
        ));
    }
    labels
}

/// A window is traced on the output of its record, without one where it is, and without that on
/// the primary one.
pub proof fn windows_are_traced_where_they_are(
    output: Seq<char>,
    window: Option<Seq<char>>,
    primary: Seq<char>,
)
    ensures
        traced_output(Some(output), window, primary) == output,
        traced_output(None, Some(output), primary) == output,
        traced_output(None, None, primary) == primary,
{
}

/// A window owns exactly the focus that its own surface has.
pub proof fn windows_own_the_focus_of_their_surface(focus: FocusedSurface, root: SurfaceId)
    ensures
        owns(Some(focus), root) <==> focus.surface == root,
        !owns(None, root),
{
}

/// An argument ends at its zero byte, and joins the line before it with a space between; an
/// empty one is passed over.
pub proof fn arguments_end_at_zero(
    line: Option<Seq<char>>,
    part: Seq<u8>,
    argument: Seq<u8>,
    rest: Seq<u8>,
)
    requires
        forall|i: int| 0 <= i < argument.len() ==> #[trigger] argument[i] != 0,
    ensures
        arguments_text(line, part, argument + seq![0u8] + rest) == arguments_text(
            with_argument(line, part + argument),
            Seq::empty(),
            rest,
        ),
        arguments_text(line, part, argument) == with_argument(line, part + argument),
    decreases argument.len(),
{
    let whole = argument + seq![0u8] + rest;
    if argument.len() == 0 {
        assert(whole.drop_first() =~= rest);
        assert(whole[0] == 0);
        assert(part + argument =~= part);
    } else {
        let tail = argument.drop_first();
        assert(whole[0] == argument[0]);
        assert(whole.drop_first() =~= tail + seq![0u8] + rest);
        assert forall|i: int| 0 <= i < tail.len() implies #[trigger] tail[i] != 0 by {
            assert(argument[i + 1] != 0);
        }
        arguments_end_at_zero(line, part.push(argument[0]), tail, rest);
        assert(part.push(argument[0]) + tail =~= part + argument);
    }
}

/// The first argument that is not empty begins the line, and each after it follows a space.
pub proof fn arguments_follow_spaces(line: Seq<char>, part: Seq<u8>)
    ensures
        with_argument(Some(line), Seq::empty()) == Some(line),
        with_argument(None, Seq::empty()) is None,
        part.len() > 0 ==> with_argument(None, part) == Some(lossy_text(part)),
        part.len() > 0 ==> with_argument(Some(line), part) == Some(
            line.push(' ') + lossy_text(part),
        ),
{
    reveal_strlit(" ");
    assert(line + " "@ + lossy_text(part) =~= line.push(' ') + lossy_text(part));
}

/// A process goes by its program, its trimmed name and its command line, in this order, as far
/// as they are known.
pub proof fn processes_go_by_their_names(executable: Seq<char>, name: Seq<char>, command: Seq<u8>)
    requires
        arguments_text(None, Seq::empty(), command) is Some,
        arguments_text(None, Seq::empty(), command)->0.len() > 0,
    ensures
        ({
            let line = arguments_text(None, Seq::empty(), command)->0;
            &&& process_names(Some(executable), Some(name), Some(command)) == seq![
                executable,
                trimmed(name),
                line,
            ]
            &&& process_names(Some(executable), None, Some(command)) == seq![executable, line]
            &&& process_names(None, Some(name), Some(command)) == seq![trimmed(name), line]
            &&& process_names(None, None, Some(command)) == seq![line]
            &&& process_names(Some(executable), Some(name), None) == seq![executable, trimmed(name)]
            &&& process_names(None, None, None).len() == 0
        }),
{
    let line = arguments_text(None, Seq::empty(), command)->0;
    assert(process_names(Some(executable), Some(name), Some(command)) =~= seq![
        executable,
        trimmed(name),
        line,
    ]);
    assert(process_names(Some(executable), None, Some(command)) =~= seq![executable, line]);
    assert(process_names(None, Some(name), Some(command)) =~= seq![trimmed(name), line]);
    assert(process_names(None, None, Some(command)) =~= seq![line]);
    assert(process_names(Some(executable), Some(name), None) =~= seq![executable, trimmed(name)]);
}

/// Values are told by their own words: what is there in brackets, and what is not as none.
pub proof fn values_are_told_apart(number: u32, text: Seq<char>)
    ensures
        shown_bool(true) == "true"@,
        shown_bool(false) == "false"@,
        shown_flag(Some(true)) == "Some("@ + shown_bool(true) + ")"@,
        shown_flag(Some(false)) == "Some("@ + shown_bool(false) + ")"@,
        shown_flag(None) == "None"@,
        shown_number(Some(number)).len() == decimal_of(number as nat).len() + 6,
        shown_number(Some(number)).subrange(5, shown_number(Some(number)).len() - 1) == decimal_of(
            number as nat,
        ),
        shown_number(None) == "None"@,
        shown_kind(Some(ConstraintKind::Confined)) == "Some(\"confined\")"@,
        shown_kind(Some(ConstraintKind::Locked)) == "Some(\"locked\")"@,
        shown_kind(None) == "None"@,
        shown_text(None) == "None"@,
        shown_text(Some(text)).len() == quoted_text(text).len() + 6,
        shown_text(Some(text)).subrange(5, shown_text(Some(text)).len() - 1) == quoted_text(text),
{
    reveal_strlit("true");
    reveal_strlit("false");
    reveal_strlit("Some(");
    reveal_strlit(")");
    reveal_strlit("Some(true)");
    reveal_strlit("Some(false)");
    assert("Some(true)"@ =~= "Some("@ + "true"@ + ")"@);
    assert("Some(false)"@ =~= "Some("@ + "false"@ + ")"@);
    assert(shown_number(Some(number)).subrange(5, shown_number(Some(number)).len() - 1)
        =~= decimal_of(number as nat));
    assert(shown_text(Some(text)).subrange(5, shown_text(Some(text)).len() - 1) =~= quoted_text(
        text,
    ));
}

} // verus!
