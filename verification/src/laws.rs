//! What holds of the operations, whatever the machine they run on answers.

use vstd::prelude::*;
use crate::action::{ActionView, OutcomeView, StepView};
use crate::artifacts::{is_runtime_dir, manifest_version};
use crate::autostart::registered;
use crate::console::affirms;
use crate::installer::{
    demands_success, drafting, install_action, install_rule, next_runtime, renaming,
};
use crate::notice::Notice;
use crate::ops::{
    advance_step, autostart_disable_step, autostart_enable_step, autostart_status_step,
    finished_saying, handed_on, install_part, install_step, looking, open_step, restart_step,
    start_step, status_notes, status_step, stop_step, succeeded, uninstall_step,
};
use crate::paths::rooted;
use crate::platform::EnvironmentView;
use crate::record::{
    cli_config_path, default_info, loaded_info, record_of, unknown_version, InstallInfo,
    InstallInfoView, RecordView,
};
use crate::session::{
    contents, fresh, survey_step, Operation, Phase, Probe, SessionView, SurveyView,
};
use crate::token::{is_token, TOKEN_LENGTH};

verus! {

/// The survey only reads: no action it asks for changes anything.
pub proof fn survey_changes_nothing(s: SessionView, outcome: OutcomeView)
    ensures
        survey_step(s, outcome).1 matches SurveyView::Pending(action) ==> !action.mutates(),
{
}

/// The survey goes to the network for one thing only: to ask an
/// installation that is there whether it is alive, where it was asked to.
pub proof fn survey_asks_only_an_installation(s: SessionView, outcome: OutcomeView)
    ensures
        survey_step(s, outcome).1 matches SurveyView::Pending(action) ==> (action.uses_network()
            ==> s.probe == Probe::Config && s.info.installed),
{
}

/// Without a record the survey is over once the record file was looked
/// for: the default record, nothing running, and no request was sent.
pub proof fn survey_without_record(s: SessionView, outcome: OutcomeView)
    requires
        s.probe == Probe::Record,
        record_of(contents(outcome)) is None,
    ensures
        survey_step(s, outcome).1 is Ready,
        survey_step(s, outcome).0.info == default_info(s.env),
        !survey_step(s, outcome).0.running,
{
}

/// `install` is refused while an installation is there, whatever path was
/// asked for: the step that learns of the installation ends the operation
/// with a note, and no step up to it has changed anything.
pub proof fn install_over_installation_is_refused(
    s: SessionView,
    outcome: OutcomeView,
    token: Seq<char>,
)
    requires
        s.stage == 0,
        s.phase == Phase::Begin || s.phase == Phase::Survey,
    ensures
        !install_step(s, outcome, token).1.action.mutates(),
        ({
            let (found, survey) = survey_step(looking(s, false), outcome);
            survey is Ready && found.info.installed ==> install_step(s, outcome, token)
                == finished_saying(found, Notice::AlreadyInstalled)
        }),
{
}

/// The whole of a refused install, from its first step: the record file is
/// read, the root it names is looked for and found, and the install is
/// over, with nothing asked of the user and nothing changed. The path that
/// was asked for plays no part.
pub proof fn install_beside_installation_runs_to_refusal(
    requested: Option<Seq<char>>,
    env: EnvironmentView,
    record: Seq<char>,
    token: Seq<char>,
)
    requires
        record_of(Some(record)) is Some,
    ensures
        ({
            let (s1, first) = install_step(
                fresh(Operation::Install, requested, env),
                OutcomeView::Done,
                token,
            );
            let (s2, second) = install_step(s1, OutcomeView::Text(record), token);
            let (s3, third) = install_step(s2, OutcomeView::Flag(true), token);
            &&& first == StepView::silent(ActionView::ReadText { path: cli_config_path(env) })
            &&& second == StepView::silent(
                ActionView::PathExists { path: record_of(Some(record))->Some_0.path },
            )
            &&& third == StepView::saying(Notice::AlreadyInstalled, ActionView::Finish)
            &&& s3.phase == Phase::Over
        }),
{
}

/// The whole of `status` on a machine without a usable record: the record
/// file is looked for, and the report says not installed, no version,
/// stopped. No request is sent.
pub proof fn status_without_record_runs_offline(env: EnvironmentView, outcome: OutcomeView)
    requires
        record_of(contents(outcome)) is None,
    ensures
        ({
            let (s1, first) = status_step(
                fresh(Operation::Status, None, env),
                OutcomeView::Done,
            );
            let (s2, second) = status_step(s1, outcome);
            &&& first == StepView::saying(
                Notice::Loading,
                ActionView::ReadText { path: cli_config_path(env) },
            )
            &&& second.action == ActionView::Finish
            &&& second.notes == seq![
                (Notice::StatusNotInstalled, Seq::<char>::empty()),
                (Notice::StatusVersion, unknown_version()),
                (Notice::StatusStopped, Seq::<char>::empty()),
            ]
        }),
{
}

/// An install that was not confirmed ends there, without a word and
/// without having changed anything.
pub proof fn declined_install_changes_nothing(
    s: SessionView,
    answer: Seq<char>,
    token: Seq<char>,
)
    requires
        s.stage == 0,
        s.phase == Phase::Confirm,
        !affirms(answer),
    ensures
        install_step(s, OutcomeView::Text(answer), token).1 == StepView::silent(
            ActionView::Finish,
        ),
{
}

/// The record is saved at the very end of the installer: the step that
/// asks for it follows the one that made the manager's directory, which
/// follows the manifest, read well and with a version in it.
pub proof fn record_is_written_last(s: SessionView, outcome: OutcomeView, token: Seq<char>)
    requires
        s.stage == 0,
    ensures
        ({
            let after = install_step(s, outcome, token).0;
            &&& after.stage == 0 && after.phase == Phase::SaveRecord ==> s.phase
                == Phase::PrepareRecord && succeeded(outcome)
            &&& after.stage == 0 && after.phase == Phase::PrepareRecord ==> s.phase
                == Phase::ReadManifest && drafting(s, contents(outcome)) is Ok
            &&& install_rule(Phase::SaveRecord, s.env.platform) is None
        }),
{
}

/// Whatever fails during the install abandons it: the step that learns of
/// the failure hands out no further action, and the record stays unwritten.
pub proof fn failed_step_abandons_install(s: SessionView, token: Seq<char>)
    requires
        s.stage == 0,
        demands_success(s.phase, s.env.platform),
    ensures
        install_step(s, OutcomeView::Failed, token).1.action is Fail,
        install_step(s, OutcomeView::Failed, token).0.phase == Phase::Over,
        s.phase != Phase::ReadManifest ==> install_step(s, OutcomeView::Flag(false), token).1.action
            is Fail,
{
}

/// After an install, `status` reports the installation and the version
/// that the application's manifest gave: the text that the installer saves
/// as the record loads, while the root exists, with that version.
pub proof fn installed_version_is_reported(
    s: SessionView,
    manifest: Seq<char>,
    token: Seq<char>,
    running: bool,
)
    requires
        s.stage == 0,
        s.phase == Phase::ReadManifest,
        !(install_step(s, OutcomeView::Text(manifest), token).1.action is Fail),
    ensures
        manifest_version(manifest) is Some,
        ({
            let saving = install_step(s, OutcomeView::Text(manifest), token).0;
            let version = manifest_version(manifest)->Some_0;
            let loaded = loaded_info(record_of(Some(saving.draft)), true, saving.env);
            &&& install_action(Phase::SaveRecord, saving) == ActionView::WriteText {
                path: cli_config_path(s.env),
                contents: saving.draft,
            }
            &&& loaded == InstallInfoView {
                installed: true,
                version,
                path: s.target.path,
                termination_token: s.token,
            }
            &&& status_notes(loaded, running)[0] == (Notice::StatusInstalled, s.target.path)
            &&& status_notes(loaded, running)[1] == (Notice::StatusVersion, version)
        }),
{
}

/// `stop` with nothing running says so and sends no termination request.
pub proof fn stop_without_instance_sends_nothing(s: SessionView, outcome: OutcomeView)
    requires
        s.phase == Phase::Begin || s.phase == Phase::Survey,
        survey_step(looking(s, true), outcome).1 is Ready,
        !survey_step(looking(s, true), outcome).0.running,
    ensures
        stop_step(s, outcome, false) == finished_saying(
            survey_step(looking(s, true), outcome).0,
            Notice::NotRunning,
        ),
        !stop_step(s, outcome, false).1.action.uses_network(),
{
}

/// A restart waits for the stopped instance a bounded number of times:
/// whenever a look ends in another pause, one look less is left, and with
/// one look left there is no further pause.
pub proof fn restart_wait_is_bounded(s: SessionView, outcome: OutcomeView)
    requires
        s.stage == 1,
        s.phase == Phase::Begin || s.phase == Phase::Survey,
    ensures
        restart_step(s, outcome).1.action is Pause ==> restart_step(s, outcome).0.polls + 1
            == s.polls && s.polls > 1,
        s.polls <= 1 ==> !(restart_step(s, outcome).1.action is Pause),
{
}

/// An uninstall that keeps the data never deletes the install root: what
/// it deletes is the directory of application and runtime below the root.
/// Once the record is removed, loading finds no installation.
pub proof fn kept_data_is_not_deleted(s: SessionView, outcome: OutcomeView, root_exists: bool)
    requires
        !uninstall_step(s, outcome).0.delete_all,
    ensures
        uninstall_step(s, outcome).1.action matches ActionView::RemoveDirAll { path } ==> path
            == InstallInfo::app_dir(uninstall_step(s, outcome).0.target.path, s.env.platform)
            && path != uninstall_step(s, outcome).0.target.path,
        !loaded_info(record_of(None), root_exists, s.env).installed,
{
    reveal_strlit("app");
    let after = uninstall_step(s, outcome).0;
    let root = after.target.path;
    assert(InstallInfo::app_dir(root, s.env.platform).len() > root.len());
}

/// An uninstall removes the application before the data and the record
/// last: the record goes only when the deletions before it were done.
pub proof fn record_is_removed_last(s: SessionView, outcome: OutcomeView)
    ensures
        uninstall_step(s, outcome).1.action is Forget ==> outcome is Done && (s.phase
            == Phase::RemoveApp || s.phase == Phase::RemoveData),
        s.phase == Phase::Reset && outcome is Done ==> uninstall_step(s, outcome).1.action
            is Finish,
{
}

/// A registration that is there is not made again, and one that is not
/// there is not taken back.
pub proof fn autostart_is_guarded(s: SessionView, outcome: OutcomeView)
    requires
        s.phase == Phase::Query,
    ensures
        registered(outcome) ==> autostart_enable_step(s, outcome) == finished_saying(
            s,
            Notice::AutostartAlreadyEnabled,
        ),
        !registered(outcome) && !(outcome is Failed) ==> autostart_disable_step(s, outcome)
            == finished_saying(s, Notice::AutostartNotEnabled),
{
}

/// `status` only looks: none of its steps changes anything.
pub proof fn status_changes_nothing(s: SessionView, outcome: OutcomeView)
    ensures
        !status_step(s, outcome).1.action.mutates(),
{
}

/// An uninstall deletes nothing before both questions were answered, and
/// nothing at all without the first yes.
pub proof fn uninstall_waits_for_consent(s: SessionView, outcome: OutcomeView)
    requires
        s.stage == 0,
        s.phase == Phase::Begin || s.phase == Phase::Survey || s.phase == Phase::Confirm
            || s.phase == Phase::ConfirmData,
    ensures
        !uninstall_step(s, outcome).1.action.mutates(),
        s.phase == Phase::Confirm && !(contents(outcome) matches Some(answer) && affirms(answer))
            ==> uninstall_step(s, outcome).1.action.is_final(),
{
}

/// Where a step sits in the run of its operation: the earlier, the higher.
pub open spec fn phase_rank(phase: Phase) -> nat {
    match phase {
        Phase::Begin => 36,
        Phase::Pause => 35,
        Phase::Query => 34,
        Phase::Survey => 33,
        Phase::Confirm => 32,
        Phase::ConfirmData => 31,
        Phase::CheckStale => 30,
        Phase::CleanUp => 29,
        Phase::CreateApp => 28,
        Phase::FetchRuntime => 27,
        Phase::ExtractRuntime => 26,
        Phase::DropRuntimeArchive => 25,
        Phase::ListApp => 24,
        Phase::RenameRuntime => 23,
        Phase::FetchApplication => 22,
        Phase::ExtractApplication => 21,
        Phase::DropApplicationArchive => 20,
        Phase::MoveApplication => 19,
        Phase::RemoveWrapper => 18,
        Phase::WriteEnv => 17,
        Phase::WriteScript => 16,
        Phase::MakeScriptExecutable => 15,
        Phase::InstallDependencies => 14,
        Phase::Build => 13,
        Phase::ReadManifest => 12,
        Phase::PrepareRecord => 11,
        Phase::SaveRecord => 10,
        Phase::Terminate => 9,
        Phase::RemoveApp => 8,
        Phase::RemoveData => 7,
        Phase::Reset => 6,
        Phase::Spawn => 5,
        Phase::Copy => 4,
        Phase::Register => 3,
        Phase::Unregister => 2,
        Phase::Open => 1,
        Phase::Over => 0,
    }
}

/// Where the survey stands: the earlier, the higher.
pub open spec fn probe_rank(probe: Probe) -> nat {
    match probe {
        Probe::Idle => 4,
        Probe::Record => 3,
        Probe::Root => 2,
        Probe::Config => 1,
        Probe::Alive => 0,
    }
}

/// How much of the listing is still to go through.
pub open spec fn entries_left(s: SessionView) -> nat {
    if s.cursor <= s.entries.len() {
        (s.entries.len() - s.cursor) as nat
    } else {
        0
    }
}

/// How many looks of a waiting restart are still to come; outside of that
/// wait the number plays no part.
pub open spec fn looks_left(s: SessionView) -> nat {
    if s.operation == Operation::Restart && s.stage == 1 {
        s.polls as nat
    } else {
        0
    }
}

/// `after` lies strictly below `before`: a later part of the operation; or
/// the same part with fewer looks left; or with as many, an earlier phase;
/// or in that phase, a later point of the survey or of the listing.
pub open spec fn below(after: SessionView, before: SessionView) -> bool {
    ||| after.stage > before.stage
    ||| after.stage == before.stage && looks_left(after) < looks_left(before)
    ||| after.stage == before.stage && looks_left(after) == looks_left(before) && phase_rank(
        after.phase,
    ) < phase_rank(before.phase)
    ||| after.stage == before.stage && looks_left(after) == looks_left(before) && after.phase
        == before.phase && probe_rank(after.probe) < probe_rank(before.probe)
    ||| after.stage == before.stage && looks_left(after) == looks_left(before) && after.phase
        == before.phase && after.probe == before.probe && entries_left(after) < entries_left(
        before,
    )
}

/// What holds of an install from the confirmed root to the saved record:
/// the root is absolute and clean; once the token is made, it is a token
/// of the full length; and once the record is drafted, the draft loads as
/// the record of this root, this token and the version found.
pub open spec fn install_holds(s: SessionView) -> bool {
    let rank = phase_rank(s.phase);
    s.stage == 0 && phase_rank(Phase::SaveRecord) <= rank <= phase_rank(Phase::Confirm) ==> {
        &&& rooted(s.target.path)
        &&& rank <= phase_rank(Phase::WriteEnv) ==> is_token(s.token, TOKEN_LENGTH as nat)
        &&& rank <= phase_rank(Phase::PrepareRecord) ==> record_of(Some(s.draft)) == Some(
            RecordView {
                path: s.target.path,
                version: s.target.version,
                termination_token: s.token,
            },
        )
    }
}

/// An install starts with `install_holds` and keeps it with every step,
/// given that the tokens it is handed are tokens. So the record that is
/// saved in the end names an absolute and clean root and the very token
/// that was written to the application's environment.
pub proof fn install_keeps_its_word(
    s: SessionView,
    outcome: OutcomeView,
    token: Seq<char>,
    requested: Option<Seq<char>>,
)
    requires
        install_holds(s),
        is_token(token, TOKEN_LENGTH as nat),
    ensures
        install_holds(fresh(Operation::Install, requested, s.env)),
        install_holds(install_step(s, outcome, token).0),
        s.stage == 0 && s.phase == Phase::PrepareRecord && succeeded(outcome) ==> install_step(
            s,
            outcome,
            token,
        ).1.action == (ActionView::WriteText { path: cli_config_path(s.env), contents: s.draft }),
{
    if s.stage == 0 && s.phase != Phase::Over {
        install_part_keeps_its_word(s, outcome, token);
    }
}

proof fn install_part_keeps_its_word(s: SessionView, outcome: OutcomeView, token: Seq<char>)
    requires
        s.stage == 0,
        install_holds(s),
        is_token(token, TOKEN_LENGTH as nat),
    ensures
        install_holds(install_part(s, outcome, token).0),
{
    match s.phase {
        Phase::Begin | Phase::Survey => {
            survey_goes_on(looking(s, false), outcome);
        },
        Phase::ListApp | Phase::RenameRuntime => {},
        Phase::SaveRecord => {
            autostart_descends_stage(handed_on(s, 1), outcome);
        },
        _ => {},
    }
}

proof fn autostart_descends_stage(s: SessionView, outcome: OutcomeView)
    ensures
        autostart_enable_step(s, outcome).0.stage == s.stage,
{
    survey_goes_on(looking(s, false), outcome);
    survey_goes_on(looking(SessionView { phase: Phase::Begin, ..s }, false), outcome);
}

/// What a step does to the session: the operation stays; its parts are
/// never gone back to; a step that ends the operation leaves the session
/// over, any other takes it strictly down in `below`.
pub open spec fn descends(s: SessionView, r: (SessionView, StepView)) -> bool {
    &&& r.0.operation == s.operation
    &&& r.0.stage >= s.stage
    &&& r.0.entries.len() <= usize::MAX
    &&& r.1.action.is_final() ==> r.0.phase == Phase::Over
    &&& !r.1.action.is_final() ==> below(r.0, s)
}

proof fn survey_goes_on(s: SessionView, outcome: OutcomeView)
    ensures
        ({
            let (after, found) = survey_step(s, outcome);
            &&& after.operation == s.operation
            &&& after.stage == s.stage
            &&& after.phase == s.phase
            &&& after.polls == s.polls
            &&& after.entries == s.entries
            &&& after.cursor == s.cursor
            &&& found matches SurveyView::Pending(action) ==> !action.is_final() && probe_rank(
                after.probe,
            ) < probe_rank(s.probe)
        }),
{
}

proof fn status_descends(s: SessionView, outcome: OutcomeView)
    requires
        s.entries.len() <= usize::MAX,
    ensures
        descends(s, status_step(s, outcome)),
{
    survey_goes_on(looking(s, true), outcome);
}

proof fn start_descends(s: SessionView, outcome: OutcomeView)
    requires
        s.entries.len() <= usize::MAX,
    ensures
        descends(s, start_step(s, outcome)),
{
    survey_goes_on(looking(s, true), outcome);
}

proof fn stop_descends(s: SessionView, outcome: OutcomeView, quiet: bool)
    requires
        s.entries.len() <= usize::MAX,
    ensures
        descends(s, stop_step(s, outcome, quiet)),
{
    survey_goes_on(looking(s, true), outcome);
}

proof fn open_descends(s: SessionView, outcome: OutcomeView, log: bool)
    requires
        s.entries.len() <= usize::MAX,
    ensures
        descends(s, open_step(s, outcome, log)),
{
    survey_goes_on(looking(s, false), outcome);
}

proof fn autostart_descends(s: SessionView, outcome: OutcomeView)
    requires
        s.entries.len() <= usize::MAX,
    ensures
        descends(s, autostart_enable_step(s, outcome)),
        descends(s, autostart_disable_step(s, outcome)),
        descends(s, autostart_status_step(s, outcome)),
{
    survey_goes_on(looking(s, false), outcome);
    survey_goes_on(looking(SessionView { phase: Phase::Begin, ..s }, false), outcome);
}

proof fn uninstall_descends(s: SessionView, outcome: OutcomeView)
    requires
        s.entries.len() <= usize::MAX,
    ensures
        descends(s, uninstall_step(s, outcome)),
{
    survey_goes_on(looking(s, false), outcome);
    survey_goes_on(looking(s, true), outcome);
    if s.stage == 0 && s.phase == Phase::ConfirmData {
        if let Some(answer) = contents(outcome) {
            let taken = SessionView { delete_all: affirms(answer), ..handed_on(s, 1) };
            survey_goes_on(looking(taken, true), outcome);
        }
    }
}

proof fn restart_descends(s: SessionView, outcome: OutcomeView)
    requires
        s.operation == Operation::Restart,
        s.entries.len() <= usize::MAX,
    ensures
        descends(s, restart_step(s, outcome)),
{
    if s.phase == Phase::Over {
    } else if s.stage == 0 {
        stop_descends(s, outcome, true);
        let (s2, step) = stop_step(s, outcome, true);
        if step.action is Finish {
            start_descends(handed_on(s2, 2), outcome);
        }
    } else if s.stage == 1 {
        let taken = if s.phase == Phase::Pause {
            handed_on(s, 1)
        } else {
            s
        };
        survey_goes_on(looking(taken, true), outcome);
        let (s2, found) = survey_step(looking(taken, true), outcome);
        start_descends(handed_on(s2, 2), outcome);
    } else {
        start_descends(s, outcome);
    }
}

proof fn listing_advances(entries: Seq<(Seq<char>, bool)>, from: int)
    requires
        0 <= from,
    ensures
        next_runtime(entries, from) matches Some(at) ==> from <= at < entries.len(),
    decreases entries.len() - from,
{
    if from < entries.len() && !is_runtime_dir(entries[from]) {
        listing_advances(entries, from + 1);
    }
}

proof fn renaming_descends(s: SessionView, before: SessionView)
    requires
        s.entries.len() <= usize::MAX,
        before.operation == s.operation,
        before.stage == s.stage,
        looks_left(before) == looks_left(s),
        phase_rank(before.phase) > phase_rank(Phase::RenameRuntime) || (before.phase
            == Phase::RenameRuntime && before.probe == s.probe && before.entries == s.entries
            && before.cursor == s.cursor),
    ensures
        descends(before, renaming(s)),
{
    listing_advances(s.entries, s.cursor as int);
}

proof fn install_part_descends(s: SessionView, outcome: OutcomeView, token: Seq<char>)
    requires
        s.operation == Operation::Install,
        s.stage == 0,
        s.entries.len() <= usize::MAX,
        outcome matches OutcomeView::Entries(entries) ==> entries.len() <= usize::MAX,
    ensures
        descends(s, install_part(s, outcome, token)),
{
    match s.phase {
        Phase::Begin | Phase::Survey => {
            survey_goes_on(looking(s, false), outcome);
        },
        Phase::ListApp => {
            if let OutcomeView::Entries(entries) = outcome {
                renaming_descends(SessionView { entries, cursor: 0, ..s }, s);
            }
        },
        Phase::RenameRuntime => {
            renaming_descends(s, s);
        },
        Phase::SaveRecord => {
            autostart_descends(handed_on(s, 1), outcome);
        },
        _ => {},
    }
}

proof fn install_descends(s: SessionView, outcome: OutcomeView, token: Seq<char>)
    requires
        s.operation == Operation::Install,
        s.entries.len() <= usize::MAX,
        outcome matches OutcomeView::Entries(entries) ==> entries.len() <= usize::MAX,
    ensures
        descends(s, install_step(s, outcome, token)),
{
    if s.phase == Phase::Over {
    } else if s.stage == 0 {
        install_part_descends(s, outcome, token);
    } else if s.stage == 1 {
        autostart_descends(s, outcome);
        let (s2, step) = autostart_enable_step(s, outcome);
        if step.action is Finish {
            start_descends(handed_on(s2, 2), outcome);
        }
    } else {
        start_descends(s, outcome);
    }
}

/// Every operation comes to an end. A step either ends the operation, and
/// then the session is over, or it takes the session strictly down in
/// `below`. That order has no endless descent: the part of an operation is
/// counted up to a bound, the rest are natural numbers compared one after
/// the other. So whatever the outcomes, after finitely many steps the
/// caller is told to stop.
pub proof fn every_step_descends(s: SessionView, outcome: OutcomeView, token: Seq<char>)
    requires
        s.entries.len() <= usize::MAX,
        outcome matches OutcomeView::Entries(entries) ==> entries.len() <= usize::MAX,
    ensures
        descends(s, advance_step(s, outcome, token)),
{
    match s.operation {
        Operation::Status => status_descends(s, outcome),
        Operation::Install => install_descends(s, outcome, token),
        Operation::Uninstall => uninstall_descends(s, outcome),
        Operation::Update => {},
        Operation::Start => start_descends(s, outcome),
        Operation::Restart => restart_descends(s, outcome),
        Operation::Stop => stop_descends(s, outcome, false),
        Operation::AutostartEnable | Operation::AutostartDisable | Operation::AutostartStatus => {
            autostart_descends(s, outcome)
        },
        Operation::Config => open_descends(s, outcome, false),
        Operation::Logs => open_descends(s, outcome, true),
    }
}

} // verus!
