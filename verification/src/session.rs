//! The state an operation carries from one step to the next, and the
//! survey that most operations start with: load the record, then ask the
//! instance whether it is alive.

use vstd::prelude::*;
use vstd::string::*;
use crate::action::{
    entries_view, Action, ActionView, DirEntry, Outcome, OutcomeView,
};
use crate::channel::{
    alive, built_url, config_file, config_path, create_url, is_running, TIMEOUT_SECS,
};
use crate::args::{AutostartSubcommand, RoxySubcommand};
use crate::fault::Fault;
use crate::platform::{Environment, EnvironmentView};
use crate::record::{
    cli_config_path, default_info, loaded_info, record_of, record_view, InstallInfo,
    InstallInfoView, RecordFile, RecordView,
};
use crate::text::text_view;

verus! {

/// The operations of the manager.
#[derive(Clone, Copy, Debug, PartialEq, Eq, Structural)]
pub enum Operation {
    Status,
    Install,
    Uninstall,
    Update,
    Start,
    Restart,
    Stop,
    AutostartEnable,
    AutostartDisable,
    AutostartStatus,
    Config,
    Logs,
}

/// How far the survey has come: what it is waiting for.
#[derive(Clone, Copy, Debug, PartialEq, Eq, Structural)]
pub enum Probe {
    /// Nothing is asked.
    Idle,
    /// The contents of the record file.
    Record,
    /// Whether the recorded root exists.
    Root,
    /// The contents of the application's configuration.
    Config,
    /// The answer of the instance.
    Alive,
}

/// How far an operation has come: the action whose outcome it waits for.
#[derive(Clone, Copy, Debug, PartialEq, Eq, Structural)]
pub enum Phase {
    /// Nothing was handed out yet.
    Begin,
    /// The survey is under way.
    Survey,
    /// The operation is over.
    Over,
    Spawn,
    Terminate,
    Pause,
    Confirm,
    ConfirmData,
    RemoveApp,
    RemoveData,
    Reset,
    CheckStale,
    CleanUp,
    CreateApp,
    FetchRuntime,
    ExtractRuntime,
    DropRuntimeArchive,
    ListApp,
    RenameRuntime,
    FetchApplication,
    ExtractApplication,
    DropApplicationArchive,
    MoveApplication,
    RemoveWrapper,
    WriteEnv,
    WriteScript,
    MakeScriptExecutable,
    InstallDependencies,
    Build,
    ReadManifest,
    PrepareRecord,
    SaveRecord,
    Query,
    Copy,
    Register,
    Unregister,
    Open,
}

/// One operation under way.
#[derive(Clone, Debug, PartialEq, Eq)]
pub struct Session {
    pub env: Environment,
    pub operation: Operation,
    /// The path argument of an install.
    pub requested: Option<String>,
    /// Which part of a composed operation is under way, counted from 0.
    pub stage: u8,
    pub phase: Phase,
    pub probe: Probe,
    /// Whether the survey under way also asks the instance.
    pub liveness: bool,
    /// The record found, until it is known whether its root exists.
    pub record: Option<RecordFile>,
    /// What the last survey loaded.
    pub info: InstallInfo,
    /// The application's configuration as the last survey read it.
    pub config: Option<String>,
    /// Whether the instance answered the last survey.
    pub running: bool,
    /// The installation that is being made or removed.
    pub target: InstallInfo,
    /// The termination token of the installation being made.
    pub token: String,
    /// The record text that is about to be saved.
    pub draft: String,
    /// The listing of the app directory, and how far it was gone through.
    pub entries: Vec<DirEntry>,
    pub cursor: usize,
    /// Whether an uninstall also deletes the data.
    pub delete_all: bool,
    /// How often a restart may still look whether the instance has gone.
    pub polls: u8,
}

/// A session, in the terms of contracts.
pub struct SessionView {
    pub env: EnvironmentView,
    pub operation: Operation,
    pub requested: Option<Seq<char>>,
    pub stage: u8,
    pub phase: Phase,
    pub probe: Probe,
    pub liveness: bool,
    pub record: Option<RecordView>,
    pub info: InstallInfoView,
    pub config: Option<Seq<char>>,
    pub running: bool,
    pub target: InstallInfoView,
    pub token: Seq<char>,
    pub draft: Seq<char>,
    pub entries: Seq<(Seq<char>, bool)>,
    pub cursor: usize,
    pub delete_all: bool,
    pub polls: u8,
}

impl View for Session {
    type V = SessionView;

    open spec fn view(&self) -> SessionView {
        SessionView {
            env: self.env@,
            operation: self.operation,
            requested: text_view(self.requested),
            stage: self.stage,
            phase: self.phase,
            probe: self.probe,
            liveness: self.liveness,
            record: record_view(self.record),
            info: self.info@,
            config: text_view(self.config),
            running: self.running,
            target: self.target@,
            token: self.token@,
            draft: self.draft@,
            entries: entries_view(self.entries@),
            cursor: self.cursor,
            delete_all: self.delete_all,
            polls: self.polls,
        }
    }
}

/// The session an operation starts from.
pub open spec fn fresh(
    operation: Operation,
    requested: Option<Seq<char>>,
    env: EnvironmentView,
) -> SessionView {
    SessionView {
        env,
        operation,
        requested,
        stage: 0,
        phase: Phase::Begin,
        probe: Probe::Idle,
        liveness: false,
        record: None,
        info: default_info(env),
        config: None,
        running: false,
        target: default_info(env),
        token: Seq::empty(),
        draft: Seq::empty(),
        entries: Seq::empty(),
        cursor: 0,
        delete_all: false,
        polls: 0,
    }
}

/// The operation that a command asks for.
pub open spec fn operation_of(command: RoxySubcommand) -> Operation {
    match command {
        RoxySubcommand::Status => Operation::Status,
        RoxySubcommand::Install(_) => Operation::Install,
        RoxySubcommand::Uninstall => Operation::Uninstall,
        RoxySubcommand::Update => Operation::Update,
        RoxySubcommand::Start => Operation::Start,
        RoxySubcommand::Restart => Operation::Restart,
        RoxySubcommand::Stop => Operation::Stop,
        RoxySubcommand::Autostart(sub) => match sub.command {
            AutostartSubcommand::Enable => Operation::AutostartEnable,
            AutostartSubcommand::Disable => Operation::AutostartDisable,
            AutostartSubcommand::Status => Operation::AutostartStatus,
        },
        RoxySubcommand::Config => Operation::Config,
        RoxySubcommand::Logs => Operation::Logs,
    }
}

/// The path argument that a command brings.
pub open spec fn requested_by(command: RoxySubcommand) -> Option<Seq<char>> {
    match command {
        RoxySubcommand::Install(install) => text_view(install.path),
        _ => None,
    }
}

impl Session {
    /// Starts the operation that a command asks for.
    pub fn for_command(command: RoxySubcommand, env: Environment) -> (session: Session)
        ensures
            session@ == fresh(operation_of(command), requested_by(command), env@),
    {
        match command {
            RoxySubcommand::Status => Session::new(Operation::Status, None, env),
            RoxySubcommand::Install(install) => Session::new(Operation::Install, install.path, env),
            RoxySubcommand::Uninstall => Session::new(Operation::Uninstall, None, env),
            RoxySubcommand::Update => Session::new(Operation::Update, None, env),
            RoxySubcommand::Start => Session::new(Operation::Start, None, env),
            RoxySubcommand::Restart => Session::new(Operation::Restart, None, env),
            RoxySubcommand::Stop => Session::new(Operation::Stop, None, env),
            RoxySubcommand::Autostart(sub) => match sub.command {
                AutostartSubcommand::Enable => Session::new(Operation::AutostartEnable, None, env),
                AutostartSubcommand::Disable => Session::new(
                    Operation::AutostartDisable,
                    None,
                    env,
                ),
                AutostartSubcommand::Status => Session::new(Operation::AutostartStatus, None, env),
            },
            RoxySubcommand::Config => Session::new(Operation::Config, None, env),
            RoxySubcommand::Logs => Session::new(Operation::Logs, None, env),
        }
    }

    /// Starts an operation. `requested` is the path argument of an install.
    pub fn new(operation: Operation, requested: Option<String>, env: Environment) -> (session:
        Session)
        ensures
            session@ == fresh(operation, text_view(requested), env@),
    {
        let info = InstallInfo::default(&env);
        let target = InstallInfo::default(&env);
        let session = Session {
            env,
            operation,
            requested,
            stage: 0,
            phase: Phase::Begin,
            probe: Probe::Idle,
            liveness: false,
            record: None,
            info,
            config: None,
            running: false,
            target,
            token: String::new(),
            draft: String::new(),
            entries: Vec::new(),
            cursor: 0,
            delete_all: false,
            polls: 0,
        };
        assert(entries_view(session.entries@) =~= Seq::empty());
        session
    }
}

/// Where a survey stands after a step.
#[derive(Clone, Debug, PartialEq, Eq)]
pub enum Survey {
    /// It needs this action performed.
    Pending(Action),
    /// It is complete: the session holds what it found.
    Ready,
    /// It cannot be completed.
    Broken(Fault),
}

/// Where a survey stands, in the terms of contracts.
pub enum SurveyView {
    Pending(ActionView),
    Ready,
    Broken(Fault),
}

impl View for Survey {
    type V = SurveyView;

    open spec fn view(&self) -> SurveyView {
        match self {
            Survey::Pending(action) => SurveyView::Pending(action@),
            Survey::Ready => SurveyView::Ready,
            Survey::Broken(fault) => SurveyView::Broken(*fault),
        }
    }
}

/// The text that an outcome brings; anything else stands for a file that
/// is missing or unreadable.
pub open spec fn contents(outcome: OutcomeView) -> Option<Seq<char>> {
    match outcome {
        OutcomeView::Text(text) => Some(text),
        _ => None,
    }
}

/// The session once a survey has found that nothing runs.
pub open spec fn settled(s: SessionView, info: InstallInfoView) -> SessionView {
    SessionView { probe: Probe::Idle, record: None, info, config: None, running: false, ..s }
}

/// One step of the survey.
///
/// The record file is read; where it holds a record, the root it names is
/// looked for. Only for an installation that is there, and only where the
/// survey asks for liveness, the application's configuration is read and
/// the instance is asked whether it is alive.
pub open spec fn survey_step(s: SessionView, outcome: OutcomeView) -> (SessionView, SurveyView) {
    match s.probe {
        Probe::Idle => (
            SessionView { probe: Probe::Record, ..s },
            SurveyView::Pending(ActionView::ReadText { path: cli_config_path(s.env) }),
        ),
        Probe::Record => match record_of(contents(outcome)) {
            None => (settled(s, default_info(s.env)), SurveyView::Ready),
            Some(record) => (
                SessionView { probe: Probe::Root, record: Some(record), ..s },
                SurveyView::Pending(ActionView::PathExists { path: record.path }),
            ),
        },
        Probe::Root => {
            let info = loaded_info(s.record, outcome == OutcomeView::Flag(true), s.env);
            if info.installed && s.liveness {
                (
                    SessionView { probe: Probe::Config, record: None, info, ..s },
                    SurveyView::Pending(
                        ActionView::ReadText { path: config_path(info.path, s.env.platform) },
                    ),
                )
            } else {
                (settled(s, info), SurveyView::Ready)
            }
        },
        Probe::Config => match built_url(s.info, contents(outcome), "/alive"@) {
            Err(fault) => (settled(s, s.info), SurveyView::Broken(fault)),
            Ok(url) => if url.len() == 0 {
                (settled(s, s.info), SurveyView::Ready)
            } else {
                (
                    SessionView { probe: Probe::Alive, config: contents(outcome), ..s },
                    SurveyView::Pending(ActionView::Get { url, timeout_secs: TIMEOUT_SECS }),
                )
            },
        },
        Probe::Alive => (
            SessionView { probe: Probe::Idle, running: alive(outcome), ..s },
            SurveyView::Ready,
        ),
    }
}

fn text_in(outcome: Outcome) -> (text: Option<String>)
    ensures
        text_view(text) == contents(outcome@),
{
    match outcome {
        Outcome::Text(text) => Some(text),
        _ => None,
    }
}

fn settle(session: Session, info: InstallInfo) -> (r: Session)
    ensures
        r@ == settled(session@, info@),
{
    let mut s = session;
    s.probe = Probe::Idle;
    s.record = None;
    s.info = info;
    s.config = None;
    s.running = false;
    s
}

/// Advances the survey by one step.
pub fn survey(session: Session, outcome: Outcome) -> (r: (Session, Survey))
    ensures
        (r.0@, r.1@) == survey_step(session@, outcome@),
{
    let mut s = session;
    match s.probe {
        Probe::Idle => {
            s.probe = Probe::Record;
            let path = InstallInfo::get_cli_config_path(&s.env);
            (s, Survey::Pending(Action::ReadText { path }))
        },
        Probe::Record => {
            let text = text_in(outcome);
            let record = match &text {
                Some(t) => RecordFile::parse(Some(t.as_str())),
                None => RecordFile::parse(None),
            };
            match record {
                None => {
                    let info = InstallInfo::default(&s.env);
                    (settle(s, info), Survey::Ready)
                },
                Some(record) => {
                    let path = record.path.clone();
                    s.probe = Probe::Root;
                    s.record = Some(record);
                    (s, Survey::Pending(Action::PathExists { path }))
                },
            }
        },
        Probe::Root => {
            let exists = match outcome {
                Outcome::Flag(flag) => flag,
                _ => false,
            };
            let record = s.record.take();
            let info = InstallInfo::from_record(record, exists, &s.env);
            if info.installed && s.liveness {
                let path = config_file(info.path.as_str(), s.env.platform);
                s.probe = Probe::Config;
                s.info = info;
                (s, Survey::Pending(Action::ReadText { path }))
            } else {
                (settle(s, info), Survey::Ready)
            }
        },
        Probe::Config => {
            let text = text_in(outcome);
            let built = match &text {
                Some(t) => create_url(&s.info, Some(t.as_str()), "/alive"),
                None => create_url(&s.info, None, "/alive"),
            };
            match built {
                Err(fault) => {
                    let info = s.info.duplicate();
                    (settle(s, info), Survey::Broken(fault))
                },
                Ok(url) => {
                    if url.as_str().unicode_len() == 0 {
                        let info = s.info.duplicate();
                        (settle(s, info), Survey::Ready)
                    } else {
                        s.probe = Probe::Alive;
                        s.config = text;
                        (s, Survey::Pending(Action::Get { url, timeout_secs: TIMEOUT_SECS }))
                    }
                },
            }
        },
        Probe::Alive => {
            s.probe = Probe::Idle;
            s.running = is_running(&outcome);
            (s, Survey::Ready)
        },
    }
}

} // verus!
