//! Registering the manager with the login session, so that the
//! application is started unattended.

use vstd::prelude::*;
use vstd::string::*;
use crate::action::{Action, ActionView, Command, CommandView, Outcome, OutcomeView};
use crate::notice::{quote, quoted_text};
use crate::paths::{join, joined, joined3};
use crate::platform::{Environment, EnvironmentView, Platform};
use crate::record::{cli_dir, InstallInfo, InstallInfoView};

verus! {

/// The autostart registrar. On Windows the entry is a value of the
/// per-user run key, on Linux a file in the user's autostart directory.
pub struct Autostart {}

/// The per-user registry key whose values are run at login.
pub open spec fn run_key() -> Seq<char> {
    "HKCU\\Software\\Microsoft\\Windows\\CurrentVersion\\Run"@
}

/// The name of the registry value.
pub open spec fn entry_name() -> Seq<char> {
    "Roxy"@
}

/// The autostart file.
pub open spec fn autostart_path(env: EnvironmentView) -> Seq<char> {
    joined3(env.profile_dir, ".config"@, "autostart"@, "roxy"@, env.platform)
}

/// The name of the executable, of which the registration starts a copy.
pub open spec fn executable_name(platform: Platform) -> Seq<char> {
    match platform {
        Platform::Windows => "roxy-cli.exe"@,
        Platform::Linux => "roxy-cli"@,
    }
}

/// Where the copy of the manager's executable is kept.
pub open spec fn executable_path(env: EnvironmentView) -> Seq<char> {
    joined(cli_dir(env), executable_name(env.platform), env.platform)
}

/// The command line that is registered: the copy, quoted, and `start`.
pub open spec fn launch_line(env: EnvironmentView) -> Seq<char> {
    quoted_text(executable_path(env)) + " start"@
}

/// How to find out whether the registration is there.
pub open spec fn query_action(env: EnvironmentView) -> ActionView {
    match env.platform {
        Platform::Windows => ActionView::Run {
            command: CommandView {
                program: "reg"@,
                args: seq!["query"@, run_key(), "/v"@, entry_name()],
                dir: None,
            },
        },
        Platform::Linux => ActionView::PathExists { path: autostart_path(env) },
    }
}

/// How to register.
pub open spec fn register_action(env: EnvironmentView) -> ActionView {
    match env.platform {
        Platform::Windows => ActionView::Run {
            command: CommandView {
                program: "reg"@,
                args: seq![
                    "add"@,
                    run_key(),
                    "/v"@,
                    entry_name(),
                    "/d"@,
                    launch_line(env),
                    "/f"@,
                ],
                dir: None,
            },
        },
        Platform::Linux => ActionView::AppendLine {
            path: autostart_path(env),
            line: launch_line(env),
        },
    }
}

/// How to take the registration back.
pub open spec fn unregister_action(env: EnvironmentView) -> ActionView {
    match env.platform {
        Platform::Windows => ActionView::Run {
            command: CommandView {
                program: "reg"@,
                args: seq!["delete"@, run_key(), "/v"@, entry_name(), "/f"@],
                dir: None,
            },
        },
        Platform::Linux => ActionView::RemoveFile { path: autostart_path(env) },
    }
}

/// What enabling takes: the copy, then the registration; nothing without
/// an installation.
pub open spec fn enabling(info: InstallInfoView, env: EnvironmentView) -> Option<
    (ActionView, ActionView),
> {
    if info.installed {
        Some((ActionView::CopySelf { dest: executable_path(env) }, register_action(env)))
    } else {
        None
    }
}

/// The view of what `enable` hands out.
pub open spec fn enabling_view(steps: Option<(Action, Action)>) -> Option<(ActionView, ActionView)> {
    match steps {
        Some((copy, register)) => Some((copy@, register@)),
        None => None,
    }
}

/// Whether the answer to the query says that the registration is there.
pub open spec fn registered(outcome: OutcomeView) -> bool {
    outcome == OutcomeView::Flag(true)
}

fn reg(verb: &str) -> (command: Command)
    ensures
        command@ == (CommandView {
            program: "reg"@,
            args: seq![verb@, run_key(), "/v"@, entry_name()],
            dir: None,
        }),
{
    let command = Command::new(String::from_str("reg")).arg(String::from_str(verb)).arg(
        String::from_str("HKCU\\Software\\Microsoft\\Windows\\CurrentVersion\\Run"),
    ).arg(String::from_str("/v")).arg(String::from_str("Roxy"));
    assert(command@.args =~= seq![verb@, run_key(), "/v"@, entry_name()]);
    command
}

impl Autostart {
    /// The autostart file of the Linux variant.
    pub fn file(env: &Environment) -> (path: String)
        ensures
            path@ == autostart_path(env@),
    {
        let config = join(env.profile_dir.as_str(), ".config", env.platform);
        let dir = join(config.as_str(), "autostart", env.platform);
        join(dir.as_str(), "roxy", env.platform)
    }

    /// Where `enable` wants the manager's executable copied to.
    pub fn executable(env: &Environment) -> (path: String)
        ensures
            path@ == executable_path(env@),
    {
        let dir = InstallInfo::get_roxy_cli_path(env);
        match env.platform {
            Platform::Windows => join(dir.as_str(), "roxy-cli.exe", env.platform),
            Platform::Linux => join(dir.as_str(), "roxy-cli", env.platform),
        }
    }

    /// The command line that is registered.
    pub fn command_line(env: &Environment) -> (line: String)
        ensures
            line@ == launch_line(env@),
    {
        let mut line = quote(Autostart::executable(env).as_str());
        line.append(" start");
        line
    }

    /// The question whose answer `is_enabled` reads. Asking changes nothing.
    pub fn query(env: &Environment) -> (action: Action)
        ensures
            action@ == query_action(env@),
    {
        match env.platform {
            Platform::Windows => Action::Run { command: reg("query") },
            Platform::Linux => Action::PathExists { path: Autostart::file(env) },
        }
    }

    /// Whether the manager is registered, from the answer to `query`.
    pub fn is_enabled(outcome: &Outcome) -> (enabled: bool)
        ensures
            enabled == registered(outcome@),
    {
        match outcome {
            Outcome::Flag(flag) => *flag,
            _ => false,
        }
    }

    /// What enabling takes, in this order: the manager's executable is
    /// copied to its private directory, and the copy is registered. Without
    /// an installation there is nothing to enable.
    pub fn enable(info: &InstallInfo, env: &Environment) -> (steps: Option<(Action, Action)>)
        ensures
            enabling_view(steps) == enabling(info@, env@),
    {
        if !info.installed {
            return None;
        }
        let copy = Action::CopySelf { dest: Autostart::executable(env) };
        Some((copy, Autostart::register(env)))
    }

    /// The registration itself.
    pub fn register(env: &Environment) -> (action: Action)
        ensures
            action@ == register_action(env@),
    {
        match env.platform {
            Platform::Windows => {
                let command = reg("add").arg(String::from_str("/d")).arg(
                    Autostart::command_line(env),
                ).arg(String::from_str("/f"));
                assert(command@.args =~= seq![
                    "add"@,
                    run_key(),
                    "/v"@,
                    entry_name(),
                    "/d"@,
                    launch_line(env@),
                    "/f"@,
                ]);
                Action::Run { command }
            },
            Platform::Linux => Action::AppendLine {
                path: Autostart::file(env),
                line: Autostart::command_line(env),
            },
        }
    }

    /// Takes the registration back.
    pub fn disable(env: &Environment) -> (action: Action)
        ensures
            action@ == unregister_action(env@),
    {
        match env.platform {
            Platform::Windows => {
                let command = reg("delete").arg(String::from_str("/f"));
                assert(command@.args =~= seq!["delete"@, run_key(), "/v"@, entry_name(), "/f"@]);
                Action::Run { command }
            },
            Platform::Linux => Action::RemoveFile { path: Autostart::file(env) },
        }
    }
}

/// The entry that a registration names: the file, or the registry key and
/// the value's name.
pub open spec fn entry_of(action: ActionView) -> Seq<Seq<char>> {
    match action {
        ActionView::PathExists { path } => seq![path],
        ActionView::AppendLine { path, .. } => seq![path],
        ActionView::RemoveFile { path } => seq![path],
        ActionView::Run { command } => seq![command.args[1], command.args[3]],
        _ => Seq::empty(),
    }
}

/// Asking, registering and taking back all speak of one and the same
/// entry: what `enable` registers is what `query` looks for and what
/// `disable` removes.
pub proof fn one_entry(env: EnvironmentView)
    ensures
        entry_of(query_action(env)).len() > 0,
        entry_of(register_action(env)) == entry_of(query_action(env)),
        entry_of(unregister_action(env)) == entry_of(query_action(env)),
{
}

} // verus!
