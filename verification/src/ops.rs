//! The lifecycle controller: each operation as a function from the session
//! and the outcome of the last action to the session's next state and the
//! next action. Illegal transitions end with a note, never with a fault.

use vstd::prelude::*;
use vstd::string::*;
use crate::action::{Action, ActionView, Outcome, OutcomeView, Step, StepView};
use crate::artifacts::{launch, start_command, version_in};
use crate::autostart::{enabling, query_action, registered, unregister_action, Autostart};
use crate::channel::{
    accepted, built_url, config_file, config_path, create_url, log_file, log_path,
    termination_body, termination_text, was_accepted, TIMEOUT_SECS,
};
use crate::console::{affirms, confirm};
use crate::fault::Fault;
use crate::installer::{drafting, enter, entering, install_rule, rename_next, renaming, rule};
use crate::notice::{notes_view, Note, Notice};
use crate::paths::{is_rooted, rooted};
use crate::record::{cli_config_path, planned_info, InstallInfo, InstallInfoView};
use crate::session::{
    contents, survey, survey_step, Operation, Phase, Probe, Session, SessionView, Survey,
    SurveyView,
};
use crate::token::{generate_token, is_token, TOKEN_LENGTH};

verus! {

/// The session once the operation is over.
pub open spec fn over(s: SessionView) -> SessionView {
    SessionView { phase: Phase::Over, ..s }
}

/// Ends the operation without a word.
pub open spec fn finished(s: SessionView) -> (SessionView, StepView) {
    (over(s), StepView::silent(ActionView::Finish))
}

/// Ends the operation with one note.
pub open spec fn finished_saying(s: SessionView, notice: Notice) -> (SessionView, StepView) {
    (over(s), StepView::saying(notice, ActionView::Finish))
}

/// Abandons the operation.
pub open spec fn abandoned(s: SessionView, fault: Fault) -> (SessionView, StepView) {
    (over(s), StepView::silent(ActionView::Fail { fault }))
}

/// The session as the survey of an operation takes it up: at the first
/// step the survey starts from nothing.
pub open spec fn looking(s: SessionView, liveness: bool) -> SessionView {
    if s.phase == Phase::Begin {
        SessionView { phase: Phase::Survey, probe: Probe::Idle, liveness, ..s }
    } else {
        s
    }
}

/// A step on which an action was performed as asked: it was done, or its
/// command exited with success.
pub open spec fn succeeded(outcome: OutcomeView) -> bool {
    outcome is Done || outcome == OutcomeView::Flag(true)
}

fn finish(session: Session) -> (r: (Session, Step))
    ensures
        (r.0@, r.1@) == finished(session@),
{
    let mut s = session;
    s.phase = Phase::Over;
    (s, Step::silent(Action::Finish))
}

fn finish_saying(session: Session, notice: Notice) -> (r: (Session, Step))
    ensures
        (r.0@, r.1@) == finished_saying(session@, notice),
{
    let mut s = session;
    s.phase = Phase::Over;
    (s, Step::saying(notice, Action::Finish))
}

fn abandon(session: Session, fault: Fault) -> (r: (Session, Step))
    ensures
        (r.0@, r.1@) == abandoned(session@, fault),
{
    let mut s = session;
    s.phase = Phase::Over;
    (s, Step::silent(Action::Fail { fault }))
}

fn look(session: Session, outcome: Outcome, liveness: bool) -> (r: (Session, Survey))
    ensures
        (r.0@, r.1@) == survey_step(looking(session@, liveness), outcome@),
{
    let mut s = session;
    if s.phase == Phase::Begin {
        s.phase = Phase::Survey;
        s.probe = Probe::Idle;
        s.liveness = liveness;
    }
    survey(s, outcome)
}

fn succeeds(outcome: &Outcome) -> (r: bool)
    ensures
        r == succeeded(outcome@),
{
    match outcome {
        Outcome::Done => true,
        Outcome::Flag(flag) => *flag,
        _ => false,
    }
}

/// The three lines of a status report.
pub open spec fn status_notes(info: InstallInfoView, running: bool) -> Seq<(Notice, Seq<char>)> {
    seq![
        if info.installed {
            (Notice::StatusInstalled, info.path)
        } else {
            (Notice::StatusNotInstalled, Seq::<char>::empty())
        },
        (Notice::StatusVersion, info.version),
        (
            if running {
                Notice::StatusRunning
            } else {
                Notice::StatusStopped
            },
            Seq::<char>::empty(),
        ),
    ]
}

/// One step of `status`: survey, then report. Nothing is changed.
pub open spec fn status_step(s: SessionView, outcome: OutcomeView) -> (SessionView, StepView) {
    match s.phase {
        Phase::Begin | Phase::Survey => {
            let (s2, found) = survey_step(looking(s, true), outcome);
            match found {
                SurveyView::Pending(action) => (
                    s2,
                    if s.phase == Phase::Begin {
                        StepView::saying(Notice::Loading, action)
                    } else {
                        StepView::silent(action)
                    },
                ),
                SurveyView::Broken(fault) => abandoned(s2, fault),
                SurveyView::Ready => (
                    over(s2),
                    StepView { notes: status_notes(s2.info, s2.running), action: ActionView::Finish },
                ),
            }
        },
        _ => finished(s),
    }
}

/// Reports whether the application is installed, where, in which version,
/// and whether it runs.
pub fn status(session: Session, outcome: Outcome) -> (r: (Session, Step))
    ensures
        (r.0@, r.1@) == status_step(session@, outcome@),
{
    match session.phase {
        Phase::Begin | Phase::Survey => {
            let first = session.phase == Phase::Begin;
            let (s, found) = look(session, outcome, true);
            match found {
                Survey::Pending(action) => if first {
                    (s, Step::saying(Notice::Loading, action))
                } else {
                    (s, Step::silent(action))
                },
                Survey::Broken(fault) => abandon(s, fault),
                Survey::Ready => {
                    let mut s = s;
                    s.phase = Phase::Over;
                    let mut notes: Vec<Note> = Vec::new();
                    if s.info.installed {
                        notes.push(Note::with(Notice::StatusInstalled, s.info.path.clone()));
                    } else {
                        notes.push(Note::plain(Notice::StatusNotInstalled));
                    }
                    notes.push(Note::with(Notice::StatusVersion, s.info.version.clone()));
                    if s.running {
                        notes.push(Note::plain(Notice::StatusRunning));
                    } else {
                        notes.push(Note::plain(Notice::StatusStopped));
                    }
                    assert(notes_view(notes@) =~= status_notes(s.info@, s.running));
                    (s, Step { notes, action: Action::Finish })
                },
            }
        },
        _ => finish(session),
    }
}

/// `update` is not offered yet: it says so.
pub open spec fn update_step(s: SessionView, outcome: OutcomeView) -> (SessionView, StepView) {
    match s.phase {
        Phase::Begin => finished_saying(s, Notice::UpdateUnavailable),
        _ => finished(s),
    }
}

/// Says that updating is not offered yet.
pub fn update(session: Session, outcome: Outcome) -> (r: (Session, Step))
    ensures
        (r.0@, r.1@) == update_step(session@, outcome@),
{
    match session.phase {
        Phase::Begin => finish_saying(session, Notice::UpdateUnavailable),
        _ => finish(session),
    }
}

/// One step of `start`.
///
/// Not installed and already running each end with a note. Otherwise the
/// application's entry point is started with the private runtime, detached;
/// no handle is kept.
pub open spec fn start_step(s: SessionView, outcome: OutcomeView) -> (SessionView, StepView) {
    match s.phase {
        Phase::Begin | Phase::Survey => {
            let (s2, found) = survey_step(looking(s, true), outcome);
            match found {
                SurveyView::Pending(action) => (s2, StepView::silent(action)),
                SurveyView::Broken(fault) => abandoned(s2, fault),
                SurveyView::Ready => if !s2.info.installed {
                    finished_saying(s2, Notice::NotInstalled)
                } else if s2.running {
                    finished_saying(s2, Notice::AlreadyRunning)
                } else {
                    (
                        SessionView { phase: Phase::Spawn, ..s2 },
                        StepView::silent(
                            ActionView::Spawn {
                                command: start_command(s2.info.path, s2.env.platform),
                            },
                        ),
                    )
                },
            }
        },
        Phase::Spawn => if outcome is Done {
            finished_saying(s, Notice::Started)
        } else {
            abandoned(s, Fault::Start)
        },
        _ => finished(s),
    }
}

/// Starts the application, unless it is not installed or runs already.
pub fn start(session: Session, outcome: Outcome) -> (r: (Session, Step))
    ensures
        (r.0@, r.1@) == start_step(session@, outcome@),
{
    match session.phase {
        Phase::Begin | Phase::Survey => {
            let (s, found) = look(session, outcome, true);
            match found {
                Survey::Pending(action) => (s, Step::silent(action)),
                Survey::Broken(fault) => abandon(s, fault),
                Survey::Ready => if !s.info.installed {
                    finish_saying(s, Notice::NotInstalled)
                } else if s.running {
                    finish_saying(s, Notice::AlreadyRunning)
                } else {
                    let mut s = s;
                    let command = launch(&s.info, s.env.platform);
                    s.phase = Phase::Spawn;
                    (s, Step::silent(Action::Spawn { command }))
                },
            }
        },
        Phase::Spawn => match outcome {
            Outcome::Done => finish_saying(session, Notice::Started),
            _ => abandon(session, Fault::Start),
        },
        _ => finish(session),
    }
}

/// The termination request, from what the survey found.
pub open spec fn terminating(s: SessionView) -> (SessionView, StepView) {
    match built_url(s.info, s.config, "/terminate"@) {
        Err(fault) => abandoned(s, fault),
        Ok(url) => (
            SessionView { phase: Phase::Terminate, ..s },
            StepView::silent(
                ActionView::Post {
                    url,
                    body: termination_text(s.info.termination_token),
                    timeout_secs: TIMEOUT_SECS,
                },
            ),
        ),
    }
}

/// The note on what came of the termination request: it tells whether the
/// request was accepted, not whether the process has gone.
pub open spec fn stop_notice(outcome: OutcomeView) -> Notice {
    if accepted(outcome) {
        Notice::Stopped
    } else {
        Notice::StopFailed
    }
}

/// One step of `stop`. `quiet` leaves out the note that nothing runs.
///
/// Where the survey finds nothing running, no request is sent. Otherwise
/// the instance is asked to terminate, with the recorded token.
pub open spec fn stop_step(s: SessionView, outcome: OutcomeView, quiet: bool) -> (
    SessionView,
    StepView,
) {
    match s.phase {
        Phase::Begin | Phase::Survey => {
            let (s2, found) = survey_step(looking(s, true), outcome);
            match found {
                SurveyView::Pending(action) => (
                    s2,
                    if s.phase == Phase::Begin {
                        StepView::saying(Notice::Loading, action)
                    } else {
                        StepView::silent(action)
                    },
                ),
                SurveyView::Broken(fault) => abandoned(s2, fault),
                SurveyView::Ready => if !s2.running {
                    if quiet {
                        finished(s2)
                    } else {
                        finished_saying(s2, Notice::NotRunning)
                    }
                } else {
                    terminating(s2)
                },
            }
        },
        Phase::Terminate => finished_saying(s, stop_notice(outcome)),
        _ => finished(s),
    }
}

fn terminate(session: Session) -> (r: (Session, Step))
    ensures
        (r.0@, r.1@) == terminating(session@),
{
    let mut s = session;
    let built = match &s.config {
        Some(text) => create_url(&s.info, Some(text.as_str()), "/terminate"),
        None => create_url(&s.info, None, "/terminate"),
    };
    match built {
        Err(fault) => abandon(s, fault),
        Ok(url) => {
            let body = termination_body(s.info.termination_token.as_str());
            s.phase = Phase::Terminate;
            (s, Step::silent(Action::Post { url, body, timeout_secs: TIMEOUT_SECS }))
        },
    }
}

fn stop_note(outcome: &Outcome) -> (notice: Notice)
    ensures
        notice == stop_notice(outcome@),
{
    if was_accepted(outcome) {
        Notice::Stopped
    } else {
        Notice::StopFailed
    }
}

fn stop_part(session: Session, outcome: Outcome, quiet: bool) -> (r: (Session, Step))
    ensures
        (r.0@, r.1@) == stop_step(session@, outcome@, quiet),
{
    match session.phase {
        Phase::Begin | Phase::Survey => {
            let first = session.phase == Phase::Begin;
            let (s, found) = look(session, outcome, true);
            match found {
                Survey::Pending(action) => if first {
                    (s, Step::saying(Notice::Loading, action))
                } else {
                    (s, Step::silent(action))
                },
                Survey::Broken(fault) => abandon(s, fault),
                Survey::Ready => if !s.running {
                    if quiet {
                        finish(s)
                    } else {
                        finish_saying(s, Notice::NotRunning)
                    }
                } else {
                    terminate(s)
                },
            }
        },
        Phase::Terminate => {
            let notice = stop_note(&outcome);
            finish_saying(session, notice)
        },
        _ => finish(session),
    }
}

/// Asks the running instance to terminate.
pub fn stop(session: Session, outcome: Outcome) -> (r: (Session, Step))
    ensures
        (r.0@, r.1@) == stop_step(session@, outcome@, false),
{
    stop_part(session, outcome, false)
}

/// The session as the next part of a composed operation takes it up.
pub open spec fn handed_on(s: SessionView, stage: u8) -> SessionView {
    SessionView { stage, phase: Phase::Begin, probe: Probe::Idle, ..s }
}

/// How often a restart looks whether the stopped instance has gone.
pub const RESTART_POLLS: u8 = 10;

/// Milliseconds between two such looks.
pub const POLL_MILLIS: u64 = 500;

/// The pause before the next look.
pub open spec fn pausing(s: SessionView, polls: u8) -> (SessionView, StepView) {
    (
        SessionView { stage: 1, phase: Phase::Pause, polls, ..s },
        StepView::silent(ActionView::Pause { millis: POLL_MILLIS }),
    )
}

/// One look of a restart at the instance it has stopped: while the
/// instance still answers and looks are left, the restart pauses and looks
/// again; then `start` takes over.
pub open spec fn restart_wait(s: SessionView, outcome: OutcomeView) -> (SessionView, StepView) {
    let (s2, found) = survey_step(looking(s, true), outcome);
    match found {
        SurveyView::Pending(action) => (s2, StepView::silent(action)),
        SurveyView::Broken(fault) => abandoned(s2, fault),
        SurveyView::Ready => if s2.running && s2.polls > 1 {
            pausing(s2, (s2.polls - 1) as u8)
        } else {
            start_step(handed_on(s2, 2), outcome)
        },
    }
}

/// One step of `restart`: `stop`, where the instance runs, and then
/// `start` in any case. That nothing was running is not worth a note here.
///
/// Where the instance accepted the request, `start` waits for it to go:
/// the restart looks up to `RESTART_POLLS` times, `POLL_MILLIS` apart,
/// whether the instance still answers, so that the new instance does not
/// find the port taken.
pub open spec fn restart_step(s: SessionView, outcome: OutcomeView) -> (SessionView, StepView) {
    if s.phase == Phase::Over {
        finished(s)
    } else if s.stage == 0 {
        let (s2, step) = stop_step(s, outcome, true);
        if !(step.action is Finish) {
            (s2, step)
        } else if s.phase == Phase::Terminate && accepted(outcome) {
            let (s3, next) = pausing(s2, RESTART_POLLS);
            (s3, next.after(step.notes))
        } else {
            let (s3, next) = start_step(handed_on(s2, 2), outcome);
            (s3, next.after(step.notes))
        }
    } else if s.stage == 1 {
        match s.phase {
            Phase::Pause => restart_wait(handed_on(s, 1), outcome),
            Phase::Begin | Phase::Survey => restart_wait(s, outcome),
            _ => finished(s),
        }
    } else {
        start_step(s, outcome)
    }
}

fn hand_on(session: Session, stage: u8) -> (r: Session)
    ensures
        r@ == handed_on(session@, stage),
{
    let mut s = session;
    s.stage = stage;
    s.phase = Phase::Begin;
    s.probe = Probe::Idle;
    s
}

fn after_notes(step: Step, notes: Vec<Note>) -> (r: Step)
    ensures
        r@ == step@.after(notes_view(notes@)),
{
    let mut all = notes;
    let mut rest = step.notes;
    let ghost first = all@;
    let ghost second = rest@;
    all.append(&mut rest);
    assert(notes_view(all@) =~= notes_view(first) + notes_view(second));
    Step { notes: all, action: step.action }
}

fn pause(session: Session, polls: u8) -> (r: (Session, Step))
    ensures
        (r.0@, r.1@) == pausing(session@, polls),
{
    let mut s = session;
    s.stage = 1;
    s.phase = Phase::Pause;
    s.polls = polls;
    (s, Step::silent(Action::Pause { millis: POLL_MILLIS }))
}

fn restart_look(session: Session, outcome: Outcome) -> (r: (Session, Step))
    ensures
        (r.0@, r.1@) == restart_wait(session@, outcome@),
{
    let (s, found) = look(session, outcome, true);
    match found {
        Survey::Pending(action) => (s, Step::silent(action)),
        Survey::Broken(fault) => abandon(s, fault),
        Survey::Ready => if s.running && s.polls > 1 {
            let polls = s.polls - 1;
            pause(s, polls)
        } else {
            start(hand_on(s, 2), Outcome::Done)
        },
    }
}

/// Stops the instance, where it runs, and starts it.
pub fn restart(session: Session, outcome: Outcome) -> (r: (Session, Step))
    ensures
        (r.0@, r.1@) == restart_step(session@, outcome@),
{
    if session.phase == Phase::Over {
        finish(session)
    } else if session.stage == 0 {
        let wait = session.phase == Phase::Terminate && was_accepted(&outcome);
        let (s, step) = stop_part(session, outcome, true);
        match step.action {
            Action::Finish => {
                let (s, next) = if wait {
                    pause(s, RESTART_POLLS)
                } else {
                    start(hand_on(s, 2), Outcome::Done)
                };
                (s, after_notes(next, step.notes))
            },
            _ => (s, step),
        }
    } else if session.stage == 1 {
        match session.phase {
            Phase::Pause => restart_look(hand_on(session, 1), outcome),
            Phase::Begin | Phase::Survey => restart_look(session, outcome),
            _ => finish(session),
        }
    } else {
        start(session, outcome)
    }
}

/// The file that `config` opens, or `logs`.
pub open spec fn opened_path(s: SessionView, log: bool) -> Seq<char> {
    if log {
        log_path(s.info.path, s.env.platform)
    } else {
        config_path(s.info.path, s.env.platform)
    }
}

/// One step of `config` and of `logs`: the application's configuration, or
/// its log, is opened with the platform's default handler.
pub open spec fn open_step(s: SessionView, outcome: OutcomeView, log: bool) -> (
    SessionView,
    StepView,
) {
    match s.phase {
        Phase::Begin | Phase::Survey => {
            let (s2, found) = survey_step(looking(s, false), outcome);
            match found {
                SurveyView::Pending(action) => (s2, StepView::silent(action)),
                SurveyView::Broken(fault) => abandoned(s2, fault),
                SurveyView::Ready => if !s2.info.installed {
                    finished_saying(s2, Notice::NotInstalled)
                } else {
                    (
                        SessionView { phase: Phase::Open, ..s2 },
                        StepView::silent(ActionView::Open { path: opened_path(s2, log) }),
                    )
                },
            }
        },
        Phase::Open => if outcome is Done {
            finished(s)
        } else {
            abandoned(s, Fault::Open)
        },
        _ => finished(s),
    }
}

fn open_part(session: Session, outcome: Outcome, log: bool) -> (r: (Session, Step))
    ensures
        (r.0@, r.1@) == open_step(session@, outcome@, log),
{
    match session.phase {
        Phase::Begin | Phase::Survey => {
            let (s, found) = look(session, outcome, false);
            match found {
                Survey::Pending(action) => (s, Step::silent(action)),
                Survey::Broken(fault) => abandon(s, fault),
                Survey::Ready => if !s.info.installed {
                    finish_saying(s, Notice::NotInstalled)
                } else {
                    let mut s = s;
                    let path = if log {
                        log_file(s.info.path.as_str(), s.env.platform)
                    } else {
                        config_file(s.info.path.as_str(), s.env.platform)
                    };
                    s.phase = Phase::Open;
                    (s, Step::silent(Action::Open { path }))
                },
            }
        },
        Phase::Open => match outcome {
            Outcome::Done => finish(session),
            _ => abandon(session, Fault::Open),
        },
        _ => finish(session),
    }
}

/// Opens the application's configuration file.
pub fn config(session: Session, outcome: Outcome) -> (r: (Session, Step))
    ensures
        (r.0@, r.1@) == open_step(session@, outcome@, false),
{
    open_part(session, outcome, false)
}

/// Opens the application's log.
pub fn logs(session: Session, outcome: Outcome) -> (r: (Session, Step))
    ensures
        (r.0@, r.1@) == open_step(session@, outcome@, true),
{
    open_part(session, outcome, true)
}

/// One step of `autostart status`.
pub open spec fn autostart_status_step(s: SessionView, outcome: OutcomeView) -> (
    SessionView,
    StepView,
) {
    match s.phase {
        Phase::Begin => (
            SessionView { phase: Phase::Query, ..s },
            StepView::silent(query_action(s.env)),
        ),
        Phase::Query => if outcome is Failed {
            abandoned(s, Fault::AutostartQuery)
        } else if registered(outcome) {
            finished_saying(s, Notice::AutostartOn)
        } else {
            finished_saying(s, Notice::AutostartOff)
        },
        _ => finished(s),
    }
}

fn ask_autostart(session: Session) -> (r: (Session, Step))
    ensures
        r.0@ == (SessionView { phase: Phase::Query, ..session@ }),
        r.1@ == StepView::silent(query_action(session@.env)),
{
    let mut s = session;
    let action = Autostart::query(&s.env);
    s.phase = Phase::Query;
    (s, Step::silent(action))
}

/// Reports whether the manager is registered for autostart.
pub fn autostart_status(session: Session, outcome: Outcome) -> (r: (Session, Step))
    ensures
        (r.0@, r.1@) == autostart_status_step(session@, outcome@),
{
    match session.phase {
        Phase::Begin => ask_autostart(session),
        Phase::Query => match outcome {
            Outcome::Failed => abandon(session, Fault::AutostartQuery),
            _ => if Autostart::is_enabled(&outcome) {
                finish_saying(session, Notice::AutostartOn)
            } else {
                finish_saying(session, Notice::AutostartOff)
            },
        },
        _ => finish(session),
    }
}

/// One step of `autostart enable`.
///
/// A registration that is there is left alone. Without an installation
/// there is nothing to register. Otherwise the manager's executable is
/// copied to its private directory and the copy is registered.
pub open spec fn autostart_enable_step(s: SessionView, outcome: OutcomeView) -> (
    SessionView,
    StepView,
) {
    match s.phase {
        Phase::Begin => (
            SessionView { phase: Phase::Query, ..s },
            StepView::silent(query_action(s.env)),
        ),
        Phase::Query => if outcome is Failed {
            abandoned(s, Fault::AutostartQuery)
        } else if registered(outcome) {
            finished_saying(s, Notice::AutostartAlreadyEnabled)
        } else {
            enable_survey(SessionView { phase: Phase::Begin, ..s }, outcome)
        },
        Phase::Survey => enable_survey(s, outcome),
        Phase::Copy => if !(outcome is Done) {
            abandoned(s, Fault::CopyExecutable)
        } else {
            match enabling(s.info, s.env) {
                None => finished_saying(s, Notice::NotInstalled),
                Some((_, register)) => (
                    SessionView { phase: Phase::Register, ..s },
                    StepView::silent(register),
                ),
            }
        },
        Phase::Register => if succeeded(outcome) {
            finished_saying(s, Notice::AutostartEnabled)
        } else {
            abandoned(s, Fault::AutostartEnable)
        },
        _ => finished(s),
    }
}

/// The survey inside `autostart enable`, and what follows it.
pub open spec fn enable_survey(s: SessionView, outcome: OutcomeView) -> (SessionView, StepView) {
    let (s2, found) = survey_step(looking(s, false), outcome);
    match found {
        SurveyView::Pending(action) => (s2, StepView::silent(action)),
        SurveyView::Broken(fault) => abandoned(s2, fault),
        SurveyView::Ready => match enabling(s2.info, s2.env) {
            None => finished_saying(s2, Notice::NotInstalled),
            Some((copy, _)) => (SessionView { phase: Phase::Copy, ..s2 }, StepView::silent(copy)),
        },
    }
}

fn enable_look(session: Session, outcome: Outcome) -> (r: (Session, Step))
    ensures
        (r.0@, r.1@) == enable_survey(session@, outcome@),
{
    let (s, found) = look(session, outcome, false);
    match found {
        Survey::Pending(action) => (s, Step::silent(action)),
        Survey::Broken(fault) => abandon(s, fault),
        Survey::Ready => match Autostart::enable(&s.info, &s.env) {
            None => finish_saying(s, Notice::NotInstalled),
            Some((copy, _)) => {
                let mut s = s;
                s.phase = Phase::Copy;
                (s, Step::silent(copy))
            },
        },
    }
}

/// Registers the manager for autostart, unless it is registered already.
pub fn autostart_enable(session: Session, outcome: Outcome) -> (r: (Session, Step))
    ensures
        (r.0@, r.1@) == autostart_enable_step(session@, outcome@),
{
    match session.phase {
        Phase::Begin => ask_autostart(session),
        Phase::Query => match outcome {
            Outcome::Failed => abandon(session, Fault::AutostartQuery),
            _ => if Autostart::is_enabled(&outcome) {
                finish_saying(session, Notice::AutostartAlreadyEnabled)
            } else {
                let mut s = session;
                s.phase = Phase::Begin;
                enable_look(s, outcome)
            },
        },
        Phase::Survey => enable_look(session, outcome),
        Phase::Copy => match outcome {
            Outcome::Done => match Autostart::enable(&session.info, &session.env) {
                None => finish_saying(session, Notice::NotInstalled),
                Some((_, register)) => {
                    let mut s = session;
                    s.phase = Phase::Register;
                    (s, Step::silent(register))
                },
            },
            _ => abandon(session, Fault::CopyExecutable),
        },
        Phase::Register => if succeeds(&outcome) {
            finish_saying(session, Notice::AutostartEnabled)
        } else {
            abandon(session, Fault::AutostartEnable)
        },
        _ => finish(session),
    }
}

/// One step of `autostart disable`: a registration that is there is taken
/// back, one that is not is left alone.
pub open spec fn autostart_disable_step(s: SessionView, outcome: OutcomeView) -> (
    SessionView,
    StepView,
) {
    match s.phase {
        Phase::Begin => (
            SessionView { phase: Phase::Query, ..s },
            StepView::silent(query_action(s.env)),
        ),
        Phase::Query => if outcome is Failed {
            abandoned(s, Fault::AutostartQuery)
        } else if !registered(outcome) {
            finished_saying(s, Notice::AutostartNotEnabled)
        } else {
            (
                SessionView { phase: Phase::Unregister, ..s },
                StepView::silent(unregister_action(s.env)),
            )
        },
        Phase::Unregister => if succeeded(outcome) {
            finished_saying(s, Notice::AutostartDisabled)
        } else {
            abandoned(s, Fault::AutostartDisable)
        },
        _ => finished(s),
    }
}

/// Takes the registration for autostart back, where there is one.
pub fn autostart_disable(session: Session, outcome: Outcome) -> (r: (Session, Step))
    ensures
        (r.0@, r.1@) == autostart_disable_step(session@, outcome@),
{
    match session.phase {
        Phase::Begin => ask_autostart(session),
        Phase::Query => match outcome {
            Outcome::Failed => abandon(session, Fault::AutostartQuery),
            _ => if !Autostart::is_enabled(&outcome) {
                finish_saying(session, Notice::AutostartNotEnabled)
            } else {
                let mut s = session;
                let action = Autostart::disable(&s.env);
                s.phase = Phase::Unregister;
                (s, Step::silent(action))
            },
        },
        Phase::Unregister => if succeeds(&outcome) {
            finish_saying(session, Notice::AutostartDisabled)
        } else {
            abandon(session, Fault::AutostartDisable)
        },
        _ => finish(session),
    }
}

/// The notes that close an uninstall.
pub open spec fn farewell(s: SessionView) -> Seq<(Notice, Seq<char>)> {
    if s.delete_all {
        seq![(Notice::UninstalledAll, Seq::<char>::empty())]
    } else {
        seq![(Notice::UninstalledKept, Seq::<char>::empty()), (Notice::DataPath, s.target.path)]
    }
}

/// The removal of the application and its runtime, said after `notes`.
pub open spec fn removing(s: SessionView, notes: Seq<(Notice, Seq<char>)>) -> (
    SessionView,
    StepView,
) {
    (
        SessionView { phase: Phase::RemoveApp, ..s },
        StepView {
            notes: notes.push((Notice::DeletingApplication, Seq::<char>::empty())),
            action: ActionView::RemoveDirAll {
                path: InstallInfo::app_dir(s.target.path, s.env.platform),
            },
        },
    )
}

/// The removal of the record, which ends an uninstall.
pub open spec fn resetting(s: SessionView) -> (SessionView, StepView) {
    (
        SessionView { phase: Phase::Reset, ..s },
        StepView::silent(ActionView::Forget { path: cli_config_path(s.env) }),
    )
}

/// The second survey of an uninstall, which asks the instance, and what
/// follows it: a running instance is stopped before anything is deleted.
pub open spec fn uninstall_probe(s: SessionView, outcome: OutcomeView) -> (SessionView, StepView) {
    let (s2, found) = survey_step(looking(s, true), outcome);
    match found {
        SurveyView::Pending(action) => (
            s2,
            if s.phase == Phase::Begin {
                StepView::saying(Notice::Loading, action)
            } else {
                StepView::silent(action)
            },
        ),
        SurveyView::Broken(fault) => abandoned(s2, fault),
        SurveyView::Ready => if s2.running {
            terminating(s2)
        } else {
            removing(s2, Seq::empty())
        },
    }
}

/// One step of `uninstall`.
///
/// Nothing happens without an installation or without the first yes. The
/// second answer decides whether the data goes too. Then, in this order:
/// a running instance is asked to terminate; the application and its
/// runtime are deleted; the whole install root is deleted, only after a
/// second yes; the record is removed.
pub open spec fn uninstall_step(s: SessionView, outcome: OutcomeView) -> (SessionView, StepView) {
    if s.stage == 0 {
        uninstall_consent(s, outcome)
    } else {
        uninstall_removal(s, outcome)
    }
}

/// The first part of an uninstall: is there an installation, and is it
/// really to go, with its data or without?
pub open spec fn uninstall_consent(s: SessionView, outcome: OutcomeView) -> (
    SessionView,
    StepView,
) {
    match s.phase {
        Phase::Begin | Phase::Survey => {
            let (s2, found) = survey_step(looking(s, false), outcome);
            match found {
                SurveyView::Pending(action) => (s2, StepView::silent(action)),
                SurveyView::Broken(fault) => abandoned(s2, fault),
                SurveyView::Ready => if !s2.info.installed {
                    finished_saying(s2, Notice::NotInstalled)
                } else {
                    (
                        SessionView { phase: Phase::Confirm, target: s2.info, ..s2 },
                        StepView::silent(
                            ActionView::Ask { prompt: (Notice::ConfirmUninstall, Seq::empty()) },
                        ),
                    )
                },
            }
        },
        Phase::Confirm => match contents(outcome) {
            None => abandoned(s, Fault::Prompt),
            Some(answer) => if affirms(answer) {
                (
                    SessionView { phase: Phase::ConfirmData, ..s },
                    StepView::silent(
                        ActionView::Ask { prompt: (Notice::ConfirmDeleteData, Seq::empty()) },
                    ),
                )
            } else {
                finished(s)
            },
        },
        Phase::ConfirmData => match contents(outcome) {
            None => abandoned(s, Fault::Prompt),
            Some(answer) => uninstall_probe(
                SessionView { delete_all: affirms(answer), ..handed_on(s, 1) },
                outcome,
            ),
        },
        _ => finished(s),
    }
}

/// The second part of an uninstall: stop, delete, forget.
pub open spec fn uninstall_removal(s: SessionView, outcome: OutcomeView) -> (
    SessionView,
    StepView,
) {
    match s.phase {
        Phase::Begin | Phase::Survey => uninstall_probe(s, outcome),
        Phase::Terminate => removing(s, seq![(stop_notice(outcome), Seq::<char>::empty())]),
        Phase::RemoveApp => if !(outcome is Done) {
            abandoned(s, Fault::RemoveApplication)
        } else if s.delete_all {
            (
                SessionView { phase: Phase::RemoveData, ..s },
                StepView::saying(
                    Notice::DeletingData,
                    ActionView::RemoveDirAll { path: s.target.path },
                ),
            )
        } else {
            resetting(s)
        },
        Phase::RemoveData => if outcome is Done {
            resetting(s)
        } else {
            abandoned(s, Fault::RemoveData)
        },
        Phase::Reset => if outcome is Done {
            (over(s), StepView { notes: farewell(s), action: ActionView::Finish })
        } else {
            abandoned(s, Fault::ResetRecord)
        },
        _ => finished(s),
    }
}

fn remove(session: Session, notes: Vec<Note>) -> (r: (Session, Step))
    ensures
        (r.0@, r.1@) == removing(session@, notes_view(notes@)),
{
    let mut s = session;
    let mut notes = notes;
    let ghost before = notes@;
    notes.push(Note::plain(Notice::DeletingApplication));
    assert(notes_view(notes@) =~= notes_view(before).push(
        (Notice::DeletingApplication, Seq::<char>::empty()),
    ));
    let path = s.target.app_path(s.env.platform);
    s.phase = Phase::RemoveApp;
    (s, Step { notes, action: Action::RemoveDirAll { path } })
}

fn reset(session: Session) -> (r: (Session, Step))
    ensures
        (r.0@, r.1@) == resetting(session@),
{
    let mut s = session;
    let action = InstallInfo::reset(&s.env);
    s.phase = Phase::Reset;
    (s, Step::silent(action))
}

fn uninstall_look(session: Session, outcome: Outcome) -> (r: (Session, Step))
    ensures
        (r.0@, r.1@) == uninstall_probe(session@, outcome@),
{
    let first = session.phase == Phase::Begin;
    let (s, found) = look(session, outcome, true);
    match found {
        Survey::Pending(action) => if first {
            (s, Step::saying(Notice::Loading, action))
        } else {
            (s, Step::silent(action))
        },
        Survey::Broken(fault) => abandon(s, fault),
        Survey::Ready => if s.running {
            terminate(s)
        } else {
            let notes: Vec<Note> = Vec::new();
            assert(notes_view(notes@) =~= Seq::empty());
            remove(s, notes)
        },
    }
}

fn uninstall_ask(session: Session, outcome: Outcome) -> (r: (Session, Step))
    ensures
        (r.0@, r.1@) == uninstall_consent(session@, outcome@),
{
    match session.phase {
        Phase::Begin | Phase::Survey => {
            let (s, found) = look(session, outcome, false);
            match found {
                Survey::Pending(action) => (s, Step::silent(action)),
                Survey::Broken(fault) => abandon(s, fault),
                Survey::Ready => if !s.info.installed {
                    finish_saying(s, Notice::NotInstalled)
                } else {
                    let mut s = s;
                    s.phase = Phase::Confirm;
                    s.target = s.info.duplicate();
                    (s, Step::silent(Action::Ask { prompt: Note::plain(Notice::ConfirmUninstall) }))
                },
            }
        },
        Phase::Confirm => match outcome {
            Outcome::Text(answer) => if confirm(answer.as_str()) {
                let mut s = session;
                s.phase = Phase::ConfirmData;
                (s, Step::silent(Action::Ask { prompt: Note::plain(Notice::ConfirmDeleteData) }))
            } else {
                finish(session)
            },
            _ => abandon(session, Fault::Prompt),
        },
        Phase::ConfirmData => match outcome {
            Outcome::Text(answer) => {
                let mut s = hand_on(session, 1);
                s.delete_all = confirm(answer.as_str());
                uninstall_look(s, Outcome::Text(answer))
            },
            _ => abandon(session, Fault::Prompt),
        },
        _ => finish(session),
    }
}

fn uninstall_remove(session: Session, outcome: Outcome) -> (r: (Session, Step))
    ensures
        (r.0@, r.1@) == uninstall_removal(session@, outcome@),
{
    match session.phase {
        Phase::Begin | Phase::Survey => uninstall_look(session, outcome),
        Phase::Terminate => {
            let mut notes: Vec<Note> = Vec::new();
            notes.push(Note::plain(stop_note(&outcome)));
            assert(notes_view(notes@) =~= seq![(stop_notice(outcome@), Seq::<char>::empty())]);
            remove(session, notes)
        },
        Phase::RemoveApp => match outcome {
            Outcome::Done => if session.delete_all {
                let mut s = session;
                let path = s.target.path.clone();
                s.phase = Phase::RemoveData;
                (s, Step::saying(Notice::DeletingData, Action::RemoveDirAll { path }))
            } else {
                reset(session)
            },
            _ => abandon(session, Fault::RemoveApplication),
        },
        Phase::RemoveData => match outcome {
            Outcome::Done => reset(session),
            _ => abandon(session, Fault::RemoveData),
        },
        Phase::Reset => match outcome {
            Outcome::Done => {
                let mut s = session;
                let mut notes: Vec<Note> = Vec::new();
                if s.delete_all {
                    notes.push(Note::plain(Notice::UninstalledAll));
                } else {
                    notes.push(Note::plain(Notice::UninstalledKept));
                    notes.push(Note::with(Notice::DataPath, s.target.path.clone()));
                }
                assert(notes_view(notes@) =~= farewell(s@));
                s.phase = Phase::Over;
                (s, Step { notes, action: Action::Finish })
            },
            _ => abandon(session, Fault::ResetRecord),
        },
        _ => finish(session),
    }
}

/// Removes the installation.
pub fn uninstall(session: Session, outcome: Outcome) -> (r: (Session, Step))
    ensures
        (r.0@, r.1@) == uninstall_step(session@, outcome@),
{
    if session.stage == 0 {
        uninstall_ask(session, outcome)
    } else {
        uninstall_remove(session, outcome)
    }
}

/// The opening of an install: the survey, and the question it leads to.
pub open spec fn install_opening(s: SessionView, outcome: OutcomeView) -> (SessionView, StepView) {
    let (s2, found) = survey_step(looking(s, false), outcome);
    match found {
        SurveyView::Pending(action) => (s2, StepView::silent(action)),
        SurveyView::Broken(fault) => abandoned(s2, fault),
        SurveyView::Ready => if s2.info.installed {
            finished_saying(s2, Notice::AlreadyInstalled)
        } else {
            let target = planned_info(s2.requested, s2.env);
            if !rooted(target.path) {
                abandoned(s2, Fault::Root)
            } else {
                (
                    SessionView { phase: Phase::Confirm, target, ..s2 },
                    StepView::silent(
                        ActionView::Ask { prompt: (Notice::ConfirmInstall, target.path) },
                    ),
                )
            }
        },
    }
}

/// One step of the installer proper, up to the saved record.
///
/// An installation that is there is never installed over: that needs an
/// uninstall first. The root has to be absolute and clean. Nothing is
/// touched before the user has confirmed it. From then on every action must succeed, a command by its exit
/// status too; the first that does not abandons the install. The record is
/// written at the end, and only then is the application installed.
///
/// `token` is the termination token to take where this step makes one.
pub open spec fn install_part(s: SessionView, outcome: OutcomeView, token: Seq<char>) -> (
    SessionView,
    StepView,
) {
    match s.phase {
        Phase::Begin | Phase::Survey => install_opening(s, outcome),
        Phase::Confirm => match contents(outcome) {
            None => abandoned(s, Fault::Prompt),
            Some(answer) => if affirms(answer) {
                entering(s, Phase::CheckStale)
            } else {
                finished(s)
            },
        },
        Phase::CheckStale => if outcome == OutcomeView::Flag(true) {
            entering(s, Phase::CleanUp)
        } else {
            entering(s, Phase::CreateApp)
        },
        Phase::ListApp => match outcome {
            OutcomeView::Entries(entries) => renaming(SessionView { entries, cursor: 0, ..s }),
            _ => abandoned(s, Fault::ListAppDir),
        },
        Phase::RenameRuntime => if outcome is Done {
            renaming(s)
        } else {
            abandoned(s, Fault::RenameRuntime)
        },
        Phase::RemoveWrapper => if outcome is Done {
            entering(SessionView { token, ..s }, Phase::WriteEnv)
        } else {
            abandoned(s, Fault::RemoveWrapper)
        },
        Phase::ReadManifest => match drafting(s, contents(outcome)) {
            Err(fault) => abandoned(s, fault),
            Ok(s2) => entering(s2, Phase::PrepareRecord),
        },
        Phase::SaveRecord => if succeeded(outcome) {
            let (s2, next) = autostart_enable_step(handed_on(s, 1), outcome);
            (s2, next.after(seq![(Notice::Installed, Seq::<char>::empty())]))
        } else {
            abandoned(s, Fault::SaveRecord)
        },
        phase => match install_rule(phase, s.env.platform) {
            None => finished(s),
            Some((next, fault)) => if succeeded(outcome) {
                entering(s, next)
            } else {
                abandoned(s, fault)
            },
        },
    }
}

/// One step of `install`: the installer proper, then `autostart enable`,
/// then `start`. What the last two report does not undo the record.
pub open spec fn install_step(s: SessionView, outcome: OutcomeView, token: Seq<char>) -> (
    SessionView,
    StepView,
) {
    if s.phase == Phase::Over {
        finished(s)
    } else if s.stage == 0 {
        install_part(s, outcome, token)
    } else if s.stage == 1 {
        let (s2, step) = autostart_enable_step(s, outcome);
        if step.action is Finish {
            let (s3, next) = start_step(handed_on(s2, 2), outcome);
            (s3, next.after(step.notes))
        } else {
            (s2, step)
        }
    } else {
        start_step(s, outcome)
    }
}

fn install_open(session: Session, outcome: Outcome) -> (r: (Session, Step))
    ensures
        (r.0@, r.1@) == install_opening(session@, outcome@),
        r.0@.token == session@.token,
{
    let (s, found) = look(session, outcome, false);
    match found {
        Survey::Pending(action) => (s, Step::silent(action)),
        Survey::Broken(fault) => abandon(s, fault),
        Survey::Ready => if s.info.installed {
            finish_saying(s, Notice::AlreadyInstalled)
        } else {
            let mut s = s;
            let requested = match &s.requested {
                Some(path) => Some(path.clone()),
                None => None,
            };
            let target = InstallInfo::with_or_default(requested, &s.env);
            if !is_rooted(target.path.as_str()) {
                return abandon(s, Fault::Root);
            }
            let prompt = Note::with(Notice::ConfirmInstall, target.path.clone());
            s.phase = Phase::Confirm;
            s.target = target;
            (s, Step::silent(Action::Ask { prompt }))
        },
    }
}

fn install_first(session: Session, outcome: Outcome) -> (r: (Session, Step))
    ensures
        (r.0@, r.1@) == install_part(session@, outcome@, r.0@.token),
        session.phase == Phase::RemoveWrapper && outcome@ is Done ==> is_token(
            r.0@.token,
            TOKEN_LENGTH as nat,
        ),
        !(session.phase == Phase::RemoveWrapper && outcome@ is Done) ==> r.0@.token
            == session@.token,
{
    match session.phase {
        Phase::Begin | Phase::Survey => install_open(session, outcome),
        Phase::Confirm => match outcome {
            Outcome::Text(answer) => if confirm(answer.as_str()) {
                enter(session, Phase::CheckStale)
            } else {
                finish(session)
            },
            _ => abandon(session, Fault::Prompt),
        },
        Phase::CheckStale => match outcome {
            Outcome::Flag(true) => enter(session, Phase::CleanUp),
            _ => enter(session, Phase::CreateApp),
        },
        Phase::ListApp => match outcome {
            Outcome::Entries(entries) => {
                let mut s = session;
                s.entries = entries;
                s.cursor = 0;
                rename_next(s)
            },
            _ => abandon(session, Fault::ListAppDir),
        },
        Phase::RenameRuntime => match outcome {
            Outcome::Done => rename_next(session),
            _ => abandon(session, Fault::RenameRuntime),
        },
        Phase::RemoveWrapper => match outcome {
            Outcome::Done => {
                let mut s = session;
                s.token = generate_token(TOKEN_LENGTH);
                enter(s, Phase::WriteEnv)
            },
            _ => abandon(session, Fault::RemoveWrapper),
        },
        Phase::ReadManifest => {
            let manifest = match outcome {
                Outcome::Text(text) => Some(text),
                _ => None,
            };
            match draft_or_keep(session, manifest) {
                (s, None) => enter(s, Phase::PrepareRecord),
                (s, Some(fault)) => abandon(s, fault),
            }
        },
        Phase::SaveRecord => if succeeds(&outcome) {
            let (s, next) = autostart_enable(hand_on(session, 1), outcome);
            (s, next.preceded_by(Note::plain(Notice::Installed)))
        } else {
            abandon(session, Fault::SaveRecord)
        },
        phase => match rule(phase, session.env.platform) {
            None => finish(session),
            Some((next, fault)) => if succeeds(&outcome) {
                enter(session, next)
            } else {
                abandon(session, fault)
            },
        },
    }
}

/// Drafts the record; where that fails, the session comes back as it was,
/// with the fault.
fn draft_or_keep(session: Session, manifest: Option<String>) -> (r: (Session, Option<Fault>))
    ensures
        match r.1 {
            None => drafting(session@, crate::text::text_view(manifest)) == Ok::<
                SessionView,
                Fault,
            >(r.0@),
            Some(fault) => r.0@ == session@ && drafting(
                session@,
                crate::text::text_view(manifest),
            ) == Err::<SessionView, Fault>(fault),
        },
{
    let text = match manifest {
        None => {
            return (session, Some(Fault::Manifest));
        },
        Some(text) => text,
    };
    let version = match version_in(text.as_str()) {
        None => {
            return (session, Some(Fault::Manifest));
        },
        Some(version) => version,
    };
    match InstallInfo::write(
        session.target.path.as_str(),
        version.as_str(),
        session.token.as_str(),
    ) {
        Err(fault) => (session, Some(fault)),
        Ok(draft) => {
            let mut s = session;
            s.draft = draft;
            s.target.version = version;
            (s, None)
        },
    }
}

/// Installs the application, registers the manager for autostart and
/// starts the application.
pub fn install(session: Session, outcome: Outcome) -> (r: (Session, Step))
    ensures
        (r.0@, r.1@) == install_step(session@, outcome@, r.0@.token),
        r.0@.token == session@.token || is_token(r.0@.token, TOKEN_LENGTH as nat),
{
    if session.phase == Phase::Over {
        finish(session)
    } else if session.stage == 0 {
        install_first(session, outcome)
    } else if session.stage == 1 {
        let (s, step) = autostart_enable(session, outcome);
        match step.action {
            Action::Finish => {
                let (s, next) = start(hand_on(s, 2), Outcome::Done);
                (s, after_notes(next, step.notes))
            },
            _ => (s, step),
        }
    } else {
        start(session, outcome)
    }
}

/// One step of whatever operation the session was opened for.
pub open spec fn advance_step(s: SessionView, outcome: OutcomeView, token: Seq<char>) -> (
    SessionView,
    StepView,
) {
    match s.operation {
        Operation::Status => status_step(s, outcome),
        Operation::Install => install_step(s, outcome, token),
        Operation::Uninstall => uninstall_step(s, outcome),
        Operation::Update => update_step(s, outcome),
        Operation::Start => start_step(s, outcome),
        Operation::Restart => restart_step(s, outcome),
        Operation::Stop => stop_step(s, outcome, false),
        Operation::AutostartEnable => autostart_enable_step(s, outcome),
        Operation::AutostartDisable => autostart_disable_step(s, outcome),
        Operation::AutostartStatus => autostart_status_step(s, outcome),
        Operation::Config => open_step(s, outcome, false),
        Operation::Logs => open_step(s, outcome, true),
    }
}

/// Takes the outcome of the last action and hands out the next step. The
/// first call's outcome counts for nothing.
pub fn advance(session: Session, outcome: Outcome) -> (r: (Session, Step))
    ensures
        (r.0@, r.1@) == advance_step(session@, outcome@, r.0@.token),
        r.0@.token == session@.token || is_token(r.0@.token, TOKEN_LENGTH as nat),
{
    match session.operation {
        Operation::Status => status(session, outcome),
        Operation::Install => install(session, outcome),
        Operation::Uninstall => uninstall(session, outcome),
        Operation::Update => update(session, outcome),
        Operation::Start => start(session, outcome),
        Operation::Restart => restart(session, outcome),
        Operation::Stop => stop(session, outcome),
        Operation::AutostartEnable => autostart_enable(session, outcome),
        Operation::AutostartDisable => autostart_disable(session, outcome),
        Operation::AutostartStatus => autostart_status(session, outcome),
        Operation::Config => config(session, outcome),
        Operation::Logs => logs(session, outcome),
    }
}

} // verus!
