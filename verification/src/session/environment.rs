//! The environment of the session and of what it starts.

use vstd::prelude::*;

use crate::text::{decimal, decimal_of, joined, text_before};
use crate::text_map::{rising, TextMap};

verus! {

/// The texts that strings hold.
pub open spec fn texts(strings: Seq<String>) -> Seq<Seq<char>> {
    strings.map_values(|text: String| text@)
}

/// A variable and its value.
#[derive(Debug)]
pub struct Assignment {
    pub name: String,
    pub value: String,
}

/// The values that a list of assignments leaves, the last of each name.
pub open spec fn assigned(assignments: Seq<Assignment>) -> Map<Seq<char>, Seq<char>>
    decreases assignments.len(),
{
    if assignments.len() == 0 {
        Map::empty()
    } else {
        assigned(assignments.drop_last()).insert(
            assignments.last().name@,
            assignments.last().value@,
        )
    }
}

/// Effective environment overrides for every process that the session starts.
///
/// Reloads merge rather than replace: a variable that is taken out of a live
/// configuration keeps its value until the session is started again.
#[derive(Debug)]
pub struct LaunchEnvironment {
    values: TextMap<String>,
}

impl View for LaunchEnvironment {
    type V = Map<Seq<char>, Seq<char>>;

    closed spec fn view(&self) -> Map<Seq<char>, Seq<char>> {
        self.values@.map_values(|value: String| value@)
    }
}

impl Default for LaunchEnvironment {
    fn default() -> (r: Self)
        ensures
            r@ == Map::<Seq<char>, Seq<char>>::empty(),
    {
        let environment = LaunchEnvironment { values: TextMap::new() };
        assert(environment@ =~= Map::<Seq<char>, Seq<char>>::empty());
        environment
    }
}

impl LaunchEnvironment {
    pub fn new(values: &Vec<Assignment>) -> (environment: Self)
        ensures
            environment@ == assigned(values@),
    {
        let mut environment = LaunchEnvironment::default();
        environment.reload(values);
        assert(environment@ =~= assigned(values@));
        environment
    }

    /// Adds the values of a new configuration. Those that it does not name stay.
    pub fn reload(&mut self, values: &Vec<Assignment>)
        ensures
            final(self)@ == old(self)@.union_prefer_right(assigned(values@)),
    {
        let ghost before = self@;
        let mut index: usize = 0;
        assert(values@.take(0) =~= Seq::<Assignment>::empty());
        assert(self@ =~= before.union_prefer_right(assigned(values@.take(0))));
        while index < values.len()
            invariant
                index <= values@.len(),
                self@ == before.union_prefer_right(assigned(values@.take(index as int))),
            decreases values@.len() - index,
        {
            let ghost earlier = self.values@;
            let name = values[index].name.clone();
            let value = values[index].value.clone();
            self.values.insert(name, value);
            proof {
                let longer = values@.take(index as int + 1);
                assert(longer.drop_last() =~= values@.take(index as int));
                assert(longer.last() == values@[index as int]);
                assert(self@ =~= earlier.map_values(|value: String| value@).insert(
                    values@[index as int].name@,
                    values@[index as int].value@,
                ));
                assert(self@ =~= before.union_prefer_right(assigned(longer)));
            }
            index += 1;
        }
        assert(values@.take(index as int) =~= values@);
    }

    /// The value of a variable.
    pub fn get(&self, name: &str) -> (value: Option<String>)
        ensures
            match value {
                Some(value) => self@.contains_key(name@) && self@[name@] == value@,
                None => !self@.contains_key(name@),
            },
    {
        match self.values.get(name) {
            Some(value) => Some(value.clone()),
            None => None,
        }
    }

    /// The variables and their values, each variable once, in the order of their names.
    pub fn entries(&self) -> (entries: Vec<Assignment>)
        ensures
            assigned(entries@) == self@,
            entries@.len() == self@.dom().len(),
            forall|i: int, j: int|
                0 <= i < j < entries@.len() ==> text_before(
                    #[trigger] entries@[i].name@,
                    #[trigger] entries@[j].name@,
                ),
    {
        let names = self.values.names();
        let mut entries: Vec<Assignment> = Vec::new();
        let mut index: usize = 0;
        while index < names.len()
            invariant
                index <= names@.len(),
                entries@.len() == index,
                rising(names@),
                forall|i: int| 0 <= i < index ==> #[trigger] entries@[i].name@ == names@[i]@,
                forall|i: int|
                    0 <= i < names@.len() ==> self.values@.contains_key(#[trigger] names@[i]@),
                forall|key: Seq<char>| #[trigger]
                    assigned(entries@).contains_key(key) ==> self@.contains_key(key)
                        && self@[key] == assigned(entries@)[key],
                forall|i: int|
                    0 <= i < index ==> assigned(entries@).contains_key(#[trigger] names@[i]@),
            decreases names@.len() - index,
        {
            assert(self.values@.contains_key(names@[index as int]@));
            let ghost earlier = entries@;
            if let Some(value) = self.values.get(names[index].as_str()) {
                let entry = Assignment { name: names[index].clone(), value: value.clone() };
                entries.push(entry);
                assert(entries@.drop_last() =~= earlier);
                assert(self@.contains_key(names@[index as int]@));
                assert(self@[names@[index as int]@] == value@);
                assert forall|key: Seq<char>| #[trigger] assigned(entries@).contains_key(
                    key,
                ) implies self@.contains_key(key) && self@[key] == assigned(entries@)[key] by {
                    if key != names@[index as int]@ {
                        assert(assigned(earlier).contains_key(key));
                    }
                }
            }
            index += 1;
        }
        proof {
            assert forall|key: Seq<char>| self@.contains_key(key) implies #[trigger] assigned(
                entries@,
            ).contains_key(key) by {
                assert(self.values@.contains_key(key));
                let i = choose|i: int| 0 <= i < names@.len() && #[trigger] names@[i]@ == key;
                assert(assigned(entries@).contains_key(names@[i]@));
            }
            assert(assigned(entries@) =~= self@);
            assert(self@.dom() =~= self.values@.dom());
        }
        entries
    }

    /// The search path of programs: the configured one, else the ambient one.
    pub fn path(&self, ambient: Option<String>) -> (path: Option<String>)
        ensures
            self@.contains_key("PATH"@) ==> path is Some && path->0@ == self@["PATH"@],
            !self@.contains_key("PATH"@) ==> path == ambient,
    {
        match self.get("PATH") {
            Some(path) => Some(path),
            None => ambient,
        }
    }
}

/// What a reload names wins, and what it does not name stays.
pub proof fn reload_keeps_earlier_values(
    before: Map<Seq<char>, Seq<char>>,
    values: Seq<Assignment>,
    name: Seq<char>,
)
    ensures
        ({
            let after = before.union_prefer_right(assigned(values));
            &&& assigned(values).contains_key(name) ==> after.contains_key(name) && after[name]
                == assigned(values)[name]
            &&& before.contains_key(name) && !assigned(values).contains_key(name)
                ==> after.contains_key(name) && after[name] == before[name]
        }),
{
}

/// Reloading the same values again changes nothing.
pub proof fn reload_is_idempotent(before: Map<Seq<char>, Seq<char>>, values: Seq<Assignment>)
    ensures
        before.union_prefer_right(assigned(values)).union_prefer_right(assigned(values))
            == before.union_prefer_right(assigned(values)),
{
    assert(before.union_prefer_right(assigned(values)).union_prefer_right(assigned(values))
        =~= before.union_prefer_right(assigned(values)));
}

/// A helper program and what it is called with.
#[derive(Debug)]
pub struct HelperCommand {
    pub label: String,
    pub program: String,
    pub args: Vec<String>,
}

/// A helper program in texts.
#[verifier::ext_equal]
pub struct CommandText {
    pub label: Seq<char>,
    pub program: Seq<char>,
    pub args: Seq<Seq<char>>,
}

pub open spec fn command_text(command: HelperCommand) -> CommandText {
    CommandText {
        label: command.label@,
        program: command.program@,
        args: texts(command.args@),
    }
}

pub open spec fn command_texts(commands: Seq<HelperCommand>) -> Seq<CommandText> {
    commands.map_values(|command: HelperCommand| command_text(command))
}

fn strings(words: &[&str]) -> (r: Vec<String>)
    ensures
        texts(r@) == words@.map_values(|word: &str| word@),
{
    let mut list: Vec<String> = Vec::new();
    let mut index: usize = 0;
    while index < words.len()
        invariant
            index <= words@.len(),
            list@.len() == index,
            forall|i: int| 0 <= i < index ==> (#[trigger] list@[i])@ == words@[i]@,
        decreases words@.len() - index,
    {
        list.push(words[index].to_owned());
        index += 1;
    }
    assert(texts(list@) =~= words@.map_values(|word: &str| word@));
    list
}

/// What the helper is told first where the service manager runs.
pub open spec fn systemd_flag(systemd: bool) -> Seq<Seq<char>> {
    crate::steps::when(systemd, seq!["--systemd"@])
}

/// The helpers that hand variables on to what is activated later: the message bus, and
/// the service manager where it runs.
pub open spec fn publish_texts(
    systemd: bool,
    bus_label: Seq<char>,
    manager_label: Seq<char>,
    verb: Seq<char>,
    words: Seq<Seq<char>>,
) -> Seq<CommandText> {
    seq![
        CommandText {
            label: bus_label,
            program: "dbus-update-activation-environment"@,
            args: systemd_flag(systemd) + words,
        },
    ] + crate::steps::when(
        systemd,
        seq![
            CommandText {
                label: manager_label,
                program: "systemctl"@,
                args: seq!["--user"@, verb] + words,
            },
        ],
    )
}

fn append_copies(list: &mut Vec<String>, words: &Vec<String>)
    ensures
        texts(final(list)@) == texts(old(list)@) + texts(words@),
{
    let ghost before = list@;
    let mut index: usize = 0;
    assert(texts(list@) =~= texts(before) + texts(words@.take(0)));
    while index < words.len()
        invariant
            index <= words@.len(),
            texts(list@) == texts(before) + texts(words@.take(index as int)),
        decreases words@.len() - index,
    {
        let ghost earlier = list@;
        list.push(words[index].clone());
        proof {
            assert(texts(list@) =~= texts(earlier).push(words@[index as int]@));
            assert(texts(words@.take(index as int + 1)) =~= texts(words@.take(index as int)).push(
                words@[index as int]@,
            ));
            assert(texts(list@) =~= texts(before) + texts(words@.take(index as int + 1)));
        }
        index += 1;
    }
    assert(words@.take(index as int) =~= words@);
}

fn publish(
    systemd: bool,
    bus_label: &str,
    manager_label: &str,
    verb: &str,
    words: &Vec<String>,
) -> (commands: Vec<HelperCommand>)
    ensures
        command_texts(commands@) == publish_texts(
            systemd,
            bus_label@,
            manager_label@,
            verb@,
            texts(words@),
        ),
{
    let mut commands: Vec<HelperCommand> = Vec::new();
    let mut args: Vec<String> = Vec::new();
    if systemd {
        args.push("--systemd".to_owned());
    }
    assert(texts(args@) =~= systemd_flag(systemd));
    append_copies(&mut args, words);
    let bus = HelperCommand {
        label: bus_label.to_owned(),
        program: "dbus-update-activation-environment".to_owned(),
        args,
    };
    commands.push(bus);
    if systemd {
        let mut args = strings(&["--user", verb]);
        assert(texts(args@) =~= seq!["--user"@, verb@]);
        append_copies(&mut args, words);
        let manager = HelperCommand {
            label: manager_label.to_owned(),
            program: "systemctl".to_owned(),
            args,
        };
        commands.push(manager);
    }
    assert(command_texts(commands@) =~= publish_texts(
        systemd,
        bus_label@,
        manager_label@,
        verb@,
        texts(words@),
    ));
    commands
}

/// The settings of the cursor that other programs follow.
pub fn cursor_assignments(theme: &str, size: u8) -> (list: Vec<String>)
    ensures
        texts(list@) == seq![
            "XCURSOR_THEME="@ + theme@,
            "XCURSOR_SIZE="@ + decimal_of(size as nat),
        ],
{
    let mut list: Vec<String> = Vec::new();
    list.push(joined("XCURSOR_THEME=", theme));
    list.push(joined("XCURSOR_SIZE=", decimal(size as u128).as_str()));
    assert(texts(list@) =~= seq![
        "XCURSOR_THEME="@ + theme@,
        "XCURSOR_SIZE="@ + decimal_of(size as nat),
    ]);
    list
}

/// Tells what is started after a reload of the cursor about it.
pub fn publish_cursor(systemd: bool, theme: &str, size: u8) -> (commands: Vec<HelperCommand>)
    ensures
        command_texts(commands@) == publish_texts(
            systemd,
            "cursor D-Bus environment"@,
            "cursor systemd environment"@,
            "set-environment"@,
            seq!["XCURSOR_THEME="@ + theme@, "XCURSOR_SIZE="@ + decimal_of(size as nat)],
        ),
{
    let words = cursor_assignments(theme, size);
    publish(
        systemd,
        "cursor D-Bus environment",
        "cursor systemd environment",
        "set-environment",
        &words,
    )
}

/// Tells what is started later about the X display.
pub fn activate_xwayland(systemd: bool, display: &str) -> (commands: Vec<HelperCommand>)
    ensures
        command_texts(commands@) == publish_texts(
            systemd,
            "XWayland D-Bus environment"@,
            "XWayland systemd environment"@,
            "set-environment"@,
            seq!["DISPLAY="@ + display@],
        ),
{
    let mut words: Vec<String> = Vec::new();
    words.push(joined("DISPLAY=", display));
    assert(texts(words@) =~= seq!["DISPLAY="@ + display@]);
    publish(
        systemd,
        "XWayland D-Bus environment",
        "XWayland systemd environment",
        "set-environment",
        &words,
    )
}

/// The helpers that start the desktop portal over. A backend of it may have used up its
/// starts while there was no socket, so that failure is cleared first.
pub open spec fn portal_texts() -> Seq<CommandText> {
    seq![
        CommandText {
            label: "portal failure reset"@,
            program: "systemctl"@,
            args: seq![
                "--user"@,
                "reset-failed"@,
                "xdg-desktop-portal-gtk.service"@,
                "xdg-desktop-portal-halley.service"@,
            ],
        },
        CommandText {
            label: "portal refresh"@,
            program: "systemctl"@,
            args: seq![
                "--user"@,
                "restart"@,
                "--no-block"@,
                "xdg-desktop-portal.service"@,
            ],
        },
    ]
}

pub open spec fn activation_texts(systemd: bool, theme: Seq<char>, size: nat) -> Seq<CommandText> {
    publish_texts(
        systemd,
        "dbus activation environment"@,
        "systemd user environment"@,
        "import-environment"@,
        session_variable_texts(),
    ) + crate::steps::when(systemd, portal_texts()) + publish_texts(
        systemd,
        "cursor D-Bus environment"@,
        "cursor systemd environment"@,
        "set-environment"@,
        seq!["XCURSOR_THEME="@ + theme, "XCURSOR_SIZE="@ + decimal_of(size)],
    )
}

/// Publishes the session once its socket exists, in the order in which the helpers are
/// run.
pub fn activate_session(systemd: bool, theme: &str, size: u8) -> (commands: Vec<HelperCommand>)
    ensures
        command_texts(commands@) == activation_texts(systemd, theme@, size as nat),
{
    let words = session_variables();
    let mut commands = publish(
        systemd,
        "dbus activation environment",
        "systemd user environment",
        "import-environment",
        &words,
    );
    let ghost first = command_texts(commands@);
    if systemd {
        let reset_args = strings(
            &[
                "--user",
                "reset-failed",
                "xdg-desktop-portal-gtk.service",
                "xdg-desktop-portal-halley.service",
            ],
        );
        let reset = HelperCommand {
            label: "portal failure reset".to_owned(),
            program: "systemctl".to_owned(),
            args: reset_args,
        };
        let restart_args = strings(
            &["--user", "restart", "--no-block", "xdg-desktop-portal.service"],
        );
        let restart = HelperCommand {
            label: "portal refresh".to_owned(),
            program: "systemctl".to_owned(),
            args: restart_args,
        };
        proof {
            assert(texts(reset.args@) =~= portal_texts()[0].args);
            assert(texts(restart.args@) =~= portal_texts()[1].args);
            assert(command_text(reset) == portal_texts()[0]);
            assert(command_text(restart) == portal_texts()[1]);
        }
        commands.push(reset);
        commands.push(restart);
        assert(command_texts(commands@) =~= first + portal_texts());
    }
    let ghost second = command_texts(commands@);
    assert(second =~= first + crate::steps::when(systemd, portal_texts()));
    let mut cursor = publish_cursor(systemd, theme, size);
    let ghost third = command_texts(cursor@);
    let ghost list = commands@;
    let ghost more = cursor@;
    commands.append(&mut cursor);
    proof {
        assert(commands@ =~= list + more);
        assert(command_texts(commands@) =~= second + third);
    }
    commands
}

/// A variable of the session's own environment: a value, or none where it is removed.
#[derive(Debug)]
pub struct EnvironmentChange {
    pub name: String,
    pub value: Option<String>,
}

pub open spec fn change_text(change: EnvironmentChange) -> (Seq<char>, Option<Seq<char>>) {
    (change.name@, crate::steps::text_of(change.value))
}

/// The environment that selects the real session. Without the inherited displays the
/// environment of a display manager cannot make a full login a nested one.
pub open spec fn session_changes() -> Seq<(Seq<char>, Option<Seq<char>>)> {
    seq![
        ("XDG_CURRENT_DESKTOP"@, Some("Halley"@)),
        ("XDG_SESSION_DESKTOP"@, Some("Halley"@)),
        ("XDG_SESSION_TYPE"@, Some("wayland"@)),
        ("DESKTOP_SESSION"@, Some("Halley"@)),
        ("DISPLAY"@, None),
        ("WAYLAND_DISPLAY"@, None),
        ("WAYLAND_SOCKET"@, None),
    ]
}

fn change(name: &str, value: Option<&str>) -> (r: EnvironmentChange)
    ensures
        change_text(r) == (name@, crate::steps::str_of(value)),
{
    EnvironmentChange { name: name.to_owned(), value: crate::steps::owned(value) }
}

pub fn prepare_session() -> (changes: Vec<EnvironmentChange>)
    ensures
        changes@.map_values(|change: EnvironmentChange| change_text(change)) == session_changes(),
{
    let mut changes: Vec<EnvironmentChange> = Vec::new();
    changes.push(change("XDG_CURRENT_DESKTOP", Some("Halley")));
    changes.push(change("XDG_SESSION_DESKTOP", Some("Halley")));
    changes.push(change("XDG_SESSION_TYPE", Some("wayland")));
    changes.push(change("DESKTOP_SESSION", Some("Halley")));
    changes.push(change("DISPLAY", None));
    changes.push(change("WAYLAND_DISPLAY", None));
    changes.push(change("WAYLAND_SOCKET", None));
    assert(changes@.map_values(|change: EnvironmentChange| change_text(change))
        =~= session_changes());
    changes
}

/// The variables that are handed on once the session's socket exists.
pub open spec fn session_variable_texts() -> Seq<Seq<char>> {
    seq![
        "WAYLAND_DISPLAY"@,
        "XDG_CURRENT_DESKTOP"@,
        "XDG_SESSION_DESKTOP"@,
        "XDG_SESSION_TYPE"@,
        "DESKTOP_SESSION"@,
        "PATH"@,
    ]
}

pub fn session_variables() -> (list: Vec<String>)
    ensures
        texts(list@) == session_variable_texts(),
{
    let list = strings(
        &[
            "WAYLAND_DISPLAY",
            "XDG_CURRENT_DESKTOP",
            "XDG_SESSION_DESKTOP",
            "XDG_SESSION_TYPE",
            "DESKTOP_SESSION",
            "PATH",
        ],
    );
    assert(texts(list@) =~= session_variable_texts());
    list
}

/// What is assigned last counts, and an assignment touches no other variable.
pub proof fn the_last_assignment_counts(
    assignments: Seq<Assignment>,
    last: Assignment,
    other: Seq<char>,
)
    ensures
        assigned(Seq::<Assignment>::empty()).dom() == Set::<Seq<char>>::empty(),
        assigned(assignments.push(last)).contains_key(last.name@),
        assigned(assignments.push(last))[last.name@] == last.value@,
        other != last.name@ ==> (assigned(assignments.push(last)).contains_key(other)
            <==> assigned(assignments).contains_key(other)),
        other != last.name@ && assigned(assignments).contains_key(other) ==> assigned(
            assignments.push(last),
        )[other] == assigned(assignments)[other],
{
    assert(assignments.push(last).drop_last() =~= assignments);
}

/// Variables are handed to the message bus always, and to the service manager where it runs;
/// the bus is then told of it. Both get the same words.
pub proof fn variables_are_handed_on_to_both(
    bus_label: Seq<char>,
    manager_label: Seq<char>,
    verb: Seq<char>,
    words: Seq<Seq<char>>,
)
    ensures
        ({
            let alone = publish_texts(false, bus_label, manager_label, verb, words);
            &&& alone.len() == 1
            &&& alone[0].label == bus_label
            &&& alone[0].program == "dbus-update-activation-environment"@
            &&& alone[0].args == words
        }),
        ({
            let both = publish_texts(true, bus_label, manager_label, verb, words);
            &&& both.len() == 2
            &&& both[0].program == "dbus-update-activation-environment"@
            &&& both[0].args == seq!["--systemd"@] + words
            &&& both[1].label == manager_label
            &&& both[1].program == "systemctl"@
            &&& both[1].args == seq!["--user"@, verb] + words
        }),
{
    assert(systemd_flag(false) + words =~= words);
}

/// A session is made known in the order of what depends on it: its variables first, then the
/// portal where the service manager runs, then the cursor.
pub proof fn sessions_are_made_known_in_order(theme: Seq<char>, size: nat)
    ensures
        ({
            let alone = activation_texts(false, theme, size);
            &&& alone.len() == 2
            &&& alone[0].label == "dbus activation environment"@
            &&& alone[0].args == session_variable_texts()
            &&& alone[1].label == "cursor D-Bus environment"@
            &&& alone[1].args == seq!["XCURSOR_THEME="@ + theme, "XCURSOR_SIZE="@ + decimal_of(size)]
        }),
        ({
            let all = activation_texts(true, theme, size);
            &&& all.len() == 6
            &&& all[1].label == "systemd user environment"@
            &&& all[1].args == seq!["--user"@, "import-environment"@] + session_variable_texts()
            &&& all[2].args == seq![
                "--user"@,
                "reset-failed"@,
                "xdg-desktop-portal-gtk.service"@,
                "xdg-desktop-portal-halley.service"@,
            ]
            &&& all[3].args == seq![
                "--user"@,
                "restart"@,
                "--no-block"@,
                "xdg-desktop-portal.service"@,
            ]
            &&& all[2].program == "systemctl"@
            &&& all[3].program == "systemctl"@
            &&& all[4].label == "cursor D-Bus environment"@
            &&& all[5].label == "cursor systemd environment"@
            &&& all[5].args == seq!["--user"@, "set-environment"@] + seq![
                "XCURSOR_THEME="@ + theme,
                "XCURSOR_SIZE="@ + decimal_of(size),
            ]
        }),
{
    let words = seq!["XCURSOR_THEME="@ + theme, "XCURSOR_SIZE="@ + decimal_of(size)];
    assert(systemd_flag(false) + words =~= words);
    assert(systemd_flag(false) + session_variable_texts() =~= session_variable_texts());
}

/// A session of its own is a session of this desktop on this display server, and inherits no
/// display of another.
pub proof fn sessions_inherit_no_display()
    ensures
        session_changes().contains(("DISPLAY"@, None)),
        session_changes().contains(("WAYLAND_DISPLAY"@, None)),
        session_changes().contains(("WAYLAND_SOCKET"@, None)),
        session_changes().contains(("XDG_CURRENT_DESKTOP"@, Some("Halley"@))),
        session_changes().contains(("XDG_SESSION_DESKTOP"@, Some("Halley"@))),
        session_changes().contains(("XDG_SESSION_TYPE"@, Some("wayland"@))),
        session_changes().contains(("DESKTOP_SESSION"@, Some("Halley"@))),
        session_changes().len() == 7,
        session_variable_texts().contains("WAYLAND_DISPLAY"@),
        session_variable_texts().contains("XDG_CURRENT_DESKTOP"@),
        session_variable_texts().contains("XDG_SESSION_DESKTOP"@),
        session_variable_texts().contains("XDG_SESSION_TYPE"@),
        session_variable_texts().contains("DESKTOP_SESSION"@),
        session_variable_texts().contains("PATH"@),
        session_variable_texts().len() == 6,
{
    assert(session_changes()[0] == ("XDG_CURRENT_DESKTOP"@, Some("Halley"@)));
    assert(session_changes()[1] == ("XDG_SESSION_DESKTOP"@, Some("Halley"@)));
    assert(session_changes()[2] == ("XDG_SESSION_TYPE"@, Some("wayland"@)));
    assert(session_changes()[3] == ("DESKTOP_SESSION"@, Some("Halley"@)));
    assert(session_changes()[4] == ("DISPLAY"@, None::<Seq<char>>));
    assert(session_changes()[5] == ("WAYLAND_DISPLAY"@, None::<Seq<char>>));
    assert(session_changes()[6] == ("WAYLAND_SOCKET"@, None::<Seq<char>>));
    assert(session_variable_texts()[0] == "WAYLAND_DISPLAY"@);
    assert(session_variable_texts()[1] == "XDG_CURRENT_DESKTOP"@);
    assert(session_variable_texts()[2] == "XDG_SESSION_DESKTOP"@);
    assert(session_variable_texts()[3] == "XDG_SESSION_TYPE"@);
    assert(session_variable_texts()[4] == "DESKTOP_SESSION"@);
    assert(session_variable_texts()[5] == "PATH"@);
}

} // verus!
