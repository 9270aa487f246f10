//! Processes that the session starts.

use vstd::prelude::*;

use crate::session::environment::{assigned, texts, Assignment, LaunchEnvironment};
use crate::steps::{str_of, text_of};
use crate::text::{decimal, decimal_of};
use crate::text_map::TextMap;

verus! {

/// How a process is separated from the session.
#[derive(Clone, Copy, Debug, PartialEq, Eq, Structural)]
pub enum Detachment {
    /// It forks once more and is nobody's child.
    Fork,
    /// It leads a process group of its own.
    ProcessGroup,
}

/// A process that is to be started, with nothing on its standard streams.
#[derive(Debug)]
pub struct LaunchSpec {
    pub program: String,
    pub args: Vec<String>,
    /// The variables that it gets, or does not inherit.
    pub environment: TextMap<Option<String>>,
    pub detachment: Detachment,
}

/// The variables that are set or removed, by name.
pub open spec fn changes_of(environment: Map<Seq<char>, Option<String>>) -> Map<
    Seq<char>,
    Option<Seq<char>>,
> {
    environment.map_values(|value: Option<String>| text_of(value))
}

/// What a process gets: what is configured, then what the session itself knows, which
/// wins, then what this launch adds. Without an X display none is inherited.
pub open spec fn launch_environment(
    configured: Map<Seq<char>, Seq<char>>,
    wayland_display: Seq<char>,
    x11_display: Option<Seq<char>>,
    cursor_size: nat,
    extra: Map<Seq<char>, Seq<char>>,
) -> Map<Seq<char>, Option<Seq<char>>> {
    configured.map_values(|value: Seq<char>| Some(value)).insert(
        "WAYLAND_DISPLAY"@,
        Some(wayland_display),
    ).insert("XCURSOR_SIZE"@, Some(decimal_of(cursor_size))).insert(
        "DISPLAY"@,
        x11_display,
    ).union_prefer_right(extra.map_values(|value: Seq<char>| Some(value)))
}

fn assign_all(environment: &mut TextMap<Option<String>>, values: &Vec<Assignment>)
    ensures
        changes_of(final(environment)@) == changes_of(old(environment)@).union_prefer_right(
            assigned(values@).map_values(|value: Seq<char>| Some(value)),
        ),
{
    let ghost before = changes_of(environment@);
    let ghost lift = |value: Seq<char>| Some(value);
    let mut index: usize = 0;
    assert(values@.take(0) =~= Seq::<Assignment>::empty());
    assert(changes_of(environment@) =~= before.union_prefer_right(
        assigned(values@.take(0)).map_values(lift),
    ));
    while index < values.len()
        invariant
            index <= values@.len(),
            lift == (|value: Seq<char>| Some(value)),
            changes_of(environment@) == before.union_prefer_right(
                assigned(values@.take(index as int)).map_values(lift),
            ),
        decreases values@.len() - index,
    {
        let ghost earlier = environment@;
        let name = values[index].name.clone();
        let value = values[index].value.clone();
        environment.insert(name, Some(value));
        proof {
            let longer = values@.take(index as int + 1);
            let entry = values@[index as int];
            assert(longer.drop_last() =~= values@.take(index as int));
            assert(longer.last() == entry);
            assert(changes_of(environment@) =~= changes_of(earlier).insert(
                entry.name@,
                Some(entry.value@),
            ));
            assert(changes_of(environment@) =~= before.union_prefer_right(
                assigned(longer).map_values(lift),
            ));
        }
        index += 1;
    }
    assert(values@.take(index as int) =~= values@);
}

fn assign(environment: &mut TextMap<Option<String>>, name: &str, value: Option<String>)
    ensures
        changes_of(final(environment)@) == changes_of(old(environment)@).insert(
            name@,
            text_of(value),
        ),
{
    let ghost before = environment@;
    let ghost text = text_of(value);
    environment.insert(name.to_owned(), value);
    assert(changes_of(environment@) =~= changes_of(before).insert(name@, text));
}

/// A command line of the user, handed to a shell: it may hold arguments, quotes, pipes
/// and substitutions.
pub fn configured_process(
    command_line: &str,
    wayland_display: &str,
    x11_display: Option<&str>,
    cursor_size: u8,
    environment: &LaunchEnvironment,
    extra: &Vec<Assignment>,
    detachment: Detachment,
) -> (spec: LaunchSpec)
    ensures
        spec.program@ == "sh"@,
        texts(spec.args@) == seq!["-c"@, command_line@],
        changes_of(spec.environment@) == launch_environment(
            environment@,
            wayland_display@,
            str_of(x11_display),
            cursor_size as nat,
            assigned(extra@),
        ),
        spec.detachment == detachment,
{
    let mut variables: TextMap<Option<String>> = TextMap::new();
    let configured = environment.entries();
    let ghost lift = |value: Seq<char>| Some(value);
    let ghost empty = changes_of(variables@);
    assert(empty =~= Map::<Seq<char>, Option<Seq<char>>>::empty());
    assign_all(&mut variables, &configured);
    assert(changes_of(variables@) =~= environment@.map_values(lift));
    assign(&mut variables, "WAYLAND_DISPLAY", Some(wayland_display.to_owned()));
    assign(&mut variables, "XCURSOR_SIZE", Some(decimal(cursor_size as u128)));
    let display = crate::steps::owned(x11_display);
    assign(&mut variables, "DISPLAY", display);
    assign_all(&mut variables, extra);
    let mut args: Vec<String> = Vec::new();
    args.push("-c".to_owned());
    args.push(command_line.to_owned());
    assert(texts(args@) =~= seq!["-c"@, command_line@]);
    LaunchSpec { program: "sh".to_owned(), args, environment: variables, detachment }
}

/// A command that outlives the session.
pub fn detached_process(
    command_line: &str,
    wayland_display: &str,
    x11_display: Option<&str>,
    cursor_size: u8,
    environment: &LaunchEnvironment,
) -> (spec: LaunchSpec)
    ensures
        spec.program@ == "sh"@,
        texts(spec.args@) == seq!["-c"@, command_line@],
        changes_of(spec.environment@) == launch_environment(
            environment@,
            wayland_display@,
            str_of(x11_display),
            cursor_size as nat,
            Map::<Seq<char>, Seq<char>>::empty(),
        ),
        spec.detachment == Detachment::Fork,
{
    let extra: Vec<Assignment> = Vec::new();
    configured_process(
        command_line,
        wayland_display,
        x11_display,
        cursor_size,
        environment,
        &extra,
        Detachment::Fork,
    )
}

/// A command that the session keeps hold of.
pub fn managed_process(
    command_line: &str,
    wayland_display: &str,
    x11_display: Option<&str>,
    cursor_size: u8,
    environment: &LaunchEnvironment,
) -> (spec: LaunchSpec)
    ensures
        spec.program@ == "sh"@,
        texts(spec.args@) == seq!["-c"@, command_line@],
        changes_of(spec.environment@) == launch_environment(
            environment@,
            wayland_display@,
            str_of(x11_display),
            cursor_size as nat,
            Map::<Seq<char>, Seq<char>>::empty(),
        ),
        spec.detachment == Detachment::ProcessGroup,
{
    let extra: Vec<Assignment> = Vec::new();
    configured_process(
        command_line,
        wayland_display,
        x11_display,
        cursor_size,
        environment,
        &extra,
        Detachment::ProcessGroup,
    )
}

/// What the session knows itself wins over what is configured, and the rest of what is
/// configured is inherited.
pub proof fn session_values_win(
    configured: Map<Seq<char>, Seq<char>>,
    wayland_display: Seq<char>,
    x11_display: Option<Seq<char>>,
    cursor_size: nat,
    name: Seq<char>,
)
    ensures
        ({
            let launched = launch_environment(
                configured,
                wayland_display,
                x11_display,
                cursor_size,
                Map::<Seq<char>, Seq<char>>::empty(),
            );
            &&& launched["WAYLAND_DISPLAY"@] == Some(wayland_display)
            &&& launched["DISPLAY"@] == x11_display
            &&& launched["XCURSOR_SIZE"@] == Some(decimal_of(cursor_size))
            &&& configured.contains_key(name) && name != "WAYLAND_DISPLAY"@ && name != "DISPLAY"@
                && name != "XCURSOR_SIZE"@ ==> launched.contains_key(name) && launched[name]
                == Some(configured[name])
        }),
{
    reveal_strlit("WAYLAND_DISPLAY");
    reveal_strlit("DISPLAY");
    reveal_strlit("XCURSOR_SIZE");
    assert("WAYLAND_DISPLAY"@.len() != "DISPLAY"@.len());
    assert("WAYLAND_DISPLAY"@.len() != "XCURSOR_SIZE"@.len());
    assert("DISPLAY"@.len() != "XCURSOR_SIZE"@.len());
}

/// What a launch adds wins over everything else, and touches nothing else.
pub proof fn a_launch_adds_to_the_environment(
    configured: Map<Seq<char>, Seq<char>>,
    wayland_display: Seq<char>,
    x11_display: Option<Seq<char>>,
    cursor_size: nat,
    extra: Map<Seq<char>, Seq<char>>,
    name: Seq<char>,
)
    ensures
        ({
            let plain = launch_environment(
                configured,
                wayland_display,
                x11_display,
                cursor_size,
                Map::<Seq<char>, Seq<char>>::empty(),
            );
            let launched = launch_environment(
                configured,
                wayland_display,
                x11_display,
                cursor_size,
                extra,
            );
            &&& extra.contains_key(name) ==> launched.contains_key(name) && launched[name] == Some(
                extra[name],
            )
            &&& !extra.contains_key(name) ==> (launched.contains_key(name) <==> plain.contains_key(
                name,
            )) && (plain.contains_key(name) ==> launched[name] == plain[name])
        }),
{
}

} // verus!
