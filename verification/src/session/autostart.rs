//! Commands that are started with the session.

use vstd::prelude::*;

use crate::session::environment::{texts, LaunchEnvironment};
use crate::session::spawn::{changes_of, detached_process, launch_environment, Detachment, LaunchSpec};
use crate::steps::{str_of, text_of};
use crate::text::{trim, trimmed};

verus! {

/// What is left to do once.
#[derive(Debug)]
pub enum OnceState {
    Unarmed,
    Pending(Vec<String>),
    Finished,
}

/// Launches configured startup commands independently of the session.
///
/// This is a convenience, not a service manager. Services that need to be restarted,
/// ordered or ended with the session belong to the user's service manager.
#[derive(Debug)]
pub struct Autostart {
    pub enabled: bool,
    pub once: OnceState,
    pub wayland_display: Option<String>,
}

/// The commands that say anything, without the white space around them.
pub open spec fn commands_of(commands: Seq<String>) -> Seq<Seq<char>>
    decreases commands.len(),
{
    if commands.len() == 0 {
        Seq::empty()
    } else {
        let before = commands_of(commands.drop_last());
        let last = trimmed(commands.last()@);
        if last.len() == 0 {
            before
        } else {
            before.push(last)
        }
    }
}

/// The process runs the command detached from the session.
pub open spec fn runs_detached(
    spec: LaunchSpec,
    command: Seq<char>,
    wayland_display: Seq<char>,
    x11_display: Option<Seq<char>>,
    cursor_size: nat,
    environment: Map<Seq<char>, Seq<char>>,
) -> bool {
    &&& spec.program@ == "sh"@
    &&& texts(spec.args@) == seq!["-c"@, command]
    &&& changes_of(spec.environment@) == launch_environment(
        environment,
        wayland_display,
        x11_display,
        cursor_size,
        Map::<Seq<char>, Seq<char>>::empty(),
    )
    &&& spec.detachment == Detachment::Fork
}

/// The processes run the commands, one each and in their order.
pub open spec fn run_all(
    specs: Seq<LaunchSpec>,
    commands: Seq<Seq<char>>,
    wayland_display: Seq<char>,
    x11_display: Option<Seq<char>>,
    cursor_size: nat,
    environment: Map<Seq<char>, Seq<char>>,
) -> bool {
    &&& specs.len() == commands.len()
    &&& forall|i: int|
        0 <= i < specs.len() ==> runs_detached(
            #[trigger] specs[i],
            commands[i],
            wayland_display,
            x11_display,
            cursor_size,
            environment,
        )
}

impl Autostart {
    /// What is started once: the commands, and the display that they are for.
    pub open spec fn due(self) -> Option<(Seq<Seq<char>>, Seq<char>)> {
        match (self.once, self.wayland_display) {
            (OnceState::Pending(commands), Some(display)) => Some(
                (commands_of(commands@), display@),
            ),
            _ => None,
        }
    }

    /// `next` is what noting `commands` makes of this.
    pub open spec fn arms(self, next: Self, display: Seq<char>, commands: Vec<String>) -> bool {
        &&& next.enabled == self.enabled
        &&& self.enabled && self.once is Unarmed ==> {
            &&& next.once == OnceState::Pending(commands)
            &&& text_of(next.wayland_display) == Some(display)
        }
        &&& !(self.enabled && self.once is Unarmed) ==> next == self
    }

    pub fn enabled() -> (r: Self)
        ensures
            r.enabled,
            r.once is Unarmed,
            r.wayland_display is None,
    {
        Autostart { enabled: true, once: OnceState::Unarmed, wayland_display: None }
    }

    /// The policy of a nested session: nothing is started.
    pub fn disabled() -> (r: Self)
        ensures
            !r.enabled,
            r.once is Finished,
            r.wayland_display is None,
    {
        Autostart { enabled: false, once: OnceState::Finished, wayland_display: None }
    }

    /// Notes what is to be started once. Only the first call counts.
    pub fn arm_once(&mut self, wayland_display: &str, commands: Vec<String>)
        ensures
            old(self).arms(*final(self), wayland_display@, commands),
    {
        let unarmed = match &self.once {
            OnceState::Unarmed => true,
            _ => false,
        };
        if !self.enabled || !unarmed {
            return;
        }
        self.wayland_display = Some(wayland_display.to_owned());
        self.once = OnceState::Pending(commands);
    }

    /// Starts what was noted, once.
    pub fn run_once(
        &mut self,
        x11_display: Option<&str>,
        cursor_size: u8,
        environment: &LaunchEnvironment,
    ) -> (specs: Vec<LaunchSpec>)
        ensures
            final(self).once is Finished,
            final(self).enabled == old(self).enabled,
            final(self).wayland_display == old(self).wayland_display,
            match old(self).due() {
                Some((commands, display)) => run_all(
                    specs@,
                    commands,
                    display,
                    str_of(x11_display),
                    cursor_size as nat,
                    environment@,
                ),
                None => specs@.len() == 0,
            },
    {
        let mut once = OnceState::Finished;
        std::mem::swap(&mut once, &mut self.once);
        match once {
            OnceState::Pending(commands) => self.run_commands(
                &commands,
                x11_display,
                cursor_size,
                environment,
            ),
            _ => Vec::new(),
        }
    }

    /// Starts what a reloaded configuration asks for. What is to be started once stays
    /// as it is.
    pub fn run_reload(
        &self,
        commands: &Vec<String>,
        x11_display: Option<&str>,
        cursor_size: u8,
        environment: &LaunchEnvironment,
    ) -> (specs: Vec<LaunchSpec>)
        ensures
            match self.wayland_display {
                Some(display) if self.enabled => run_all(
                    specs@,
                    commands_of(commands@),
                    display@,
                    str_of(x11_display),
                    cursor_size as nat,
                    environment@,
                ),
                _ => specs@.len() == 0,
            },
    {
        if self.enabled {
            self.run_commands(commands, x11_display, cursor_size, environment)
        } else {
            Vec::new()
        }
    }

    fn run_commands(
        &self,
        commands: &Vec<String>,
        x11_display: Option<&str>,
        cursor_size: u8,
        environment: &LaunchEnvironment,
    ) -> (specs: Vec<LaunchSpec>)
        ensures
            match self.wayland_display {
                Some(display) => run_all(
                    specs@,
                    commands_of(commands@),
                    display@,
                    str_of(x11_display),
                    cursor_size as nat,
                    environment@,
                ),
                None => specs@.len() == 0,
            },
    {
        let mut specs: Vec<LaunchSpec> = Vec::new();
        let display = match &self.wayland_display {
            Some(display) => display,
            None => {
                return specs;
            },
        };
        let mut index: usize = 0;
        while index < commands.len()
            invariant
                index <= commands@.len(),
                self.wayland_display == Some(*display),
                run_all(
                    specs@,
                    commands_of(commands@.take(index as int)),
                    display@,
                    str_of(x11_display),
                    cursor_size as nat,
                    environment@,
                ),
            decreases commands@.len() - index,
        {
            let command = trim(commands[index].as_str());
            proof {
                let longer = commands@.take(index as int + 1);
                assert(longer.drop_last() =~= commands@.take(index as int));
                assert(longer.last() == commands@[index as int]);
            }
            if !command.as_str().is_empty() {
                let spec = detached_process(
                    command.as_str(),
                    display.as_str(),
                    x11_display,
                    cursor_size,
                    environment,
                );
                specs.push(spec);
            }
            index += 1;
        }
        assert(commands@.take(index as int) =~= commands@);
        specs
    }
}

/// What has run once never runs again, whatever is noted afterwards; nor does anything run
/// in a session that starts nothing.
pub proof fn once_is_once(ran: Autostart, next: Autostart, display: Seq<char>, commands: Vec<String>)
    requires
        ran.once is Finished,
        ran.arms(next, display, commands),
    ensures
        next.once is Finished,
        next.due() is None,
{
}

/// Only what is noted first is started.
pub proof fn first_note_counts(
    fresh: Autostart,
    noted: Autostart,
    next: Autostart,
    display: Seq<char>,
    commands: Vec<String>,
    other_display: Seq<char>,
    other_commands: Vec<String>,
)
    requires
        fresh.enabled,
        fresh.once is Unarmed,
        fresh.arms(noted, display, commands),
        noted.arms(next, other_display, other_commands),
    ensures
        next.due() == Some((commands_of(commands@), display)),
{
}

/// Every command that says anything is started, without the white space around it, after
/// those before it; one that says nothing is passed over.
pub proof fn commands_that_say_anything_are_started(commands: Seq<String>, last: String)
    ensures
        commands_of(Seq::<String>::empty()).len() == 0,
        trimmed(last@).len() > 0 ==> commands_of(commands.push(last)) == commands_of(commands).push(
            trimmed(last@),
        ),
        trimmed(last@).len() == 0 ==> commands_of(commands.push(last)) == commands_of(commands),
{
    assert(commands.push(last).drop_last() =~= commands);
}

/// A process that runs a command detached hands the whole of it to a shell, and forks once
/// more.
pub proof fn commands_are_handed_to_a_shell(
    spec: LaunchSpec,
    command: Seq<char>,
    display: Seq<char>,
    x11_display: Option<Seq<char>>,
    size: nat,
    environment: Map<Seq<char>, Seq<char>>,
)
    requires
        runs_detached(spec, command, display, x11_display, size, environment),
    ensures
        spec.program@ == "sh"@,
        texts(spec.args@).len() == 2,
        texts(spec.args@)[0] == "-c"@,
        texts(spec.args@)[1] == command,
        spec.detachment == Detachment::Fork,
        changes_of(spec.environment@)["WAYLAND_DISPLAY"@] == Some(display),
        changes_of(spec.environment@)["DISPLAY"@] == x11_display,
{
    crate::session::spawn::session_values_win(environment, display, x11_display, size, command);
}

/// Something is due exactly where it is noted and the display is known.
pub proof fn what_is_noted_is_due(
    enabled: bool,
    commands: Vec<String>,
    display: String,
)
    ensures
        (Autostart {
            enabled,
            once: OnceState::Pending(commands),
            wayland_display: Some(display),
        }).due() == Some((commands_of(commands@), display@)),
        (Autostart {
            enabled,
            once: OnceState::Pending(commands),
            wayland_display: None,
        }).due() is None,
        (Autostart { enabled, once: OnceState::Unarmed, wayland_display: Some(display) }).due()
            is None,
        (Autostart { enabled, once: OnceState::Finished, wayland_display: Some(display) }).due()
            is None,
{
}

/// Each command has a process of its own, in the order of the commands.
pub proof fn each_command_has_its_process(
    specs: Seq<LaunchSpec>,
    commands: Seq<Seq<char>>,
    display: Seq<char>,
    x11_display: Option<Seq<char>>,
    size: nat,
    environment: Map<Seq<char>, Seq<char>>,
    i: int,
)
    requires
        run_all(specs, commands, display, x11_display, size, environment),
        0 <= i < commands.len(),
    ensures
        specs.len() == commands.len(),
        specs[i].program@ == "sh"@,
        texts(specs[i].args@)[1] == commands[i],
        specs[i].detachment == Detachment::Fork,
{
    commands_are_handed_to_a_shell(
        specs[i],
        commands[i],
        display,
        x11_display,
        size,
        environment,
    );
}

} // verus!
