//! The installer: from "not installed" to "installed and stopped" in one
//! run of steps, each of which must succeed before the next is taken. The
//! record is written last; whatever fails before leaves none.

use vstd::prelude::*;
use crate::action::{entries_view, Action, ActionView, DirEntry, Step, StepView};
use crate::artifacts::{
    build, build_command, dependency_command, env_contents, env_file, env_path, env_text,
    install_dependencies, is_runtime_dir, manifest_file, manifest_path, manifest_version,
    runtime_dir, script_contents, script_file, script_path, script_text, unpacked_dir,
    unpacked_path, unzip_command, unzip_file, wrapper_dir, wrapper_path, Artifact,
};
use crate::fault::Fault;
use crate::notice::{notes_view, Note, Notice};
use crate::paths::{join, joined};
use crate::platform::Platform;
use crate::record::{
    cli_config_path, cli_dir, encoded, InstallInfo, InstallInfoView, RecordView,
};
use crate::session::{Phase, Session, SessionView};

verus! {

/// What an install asks for on entering a phase.
pub open spec fn install_action(phase: Phase, s: SessionView) -> ActionView {
    let root = s.target.path;
    let platform = s.env.platform;
    let app = InstallInfo::app_dir(root, platform);
    match phase {
        Phase::CheckStale => ActionView::PathExists { path: app },
        Phase::CleanUp => ActionView::RemoveDirAll { path: app },
        Phase::CreateApp => ActionView::CreateDirAll { path: app },
        Phase::FetchRuntime => ActionView::Download {
            url: Artifact::Runtime.url(platform),
            dest: Artifact::Runtime.archive_path(root, platform),
        },
        Phase::ExtractRuntime => ActionView::Run {
            command: unzip_command(Artifact::Runtime.archive_path(root, platform), app),
        },
        Phase::DropRuntimeArchive => ActionView::RemoveFile {
            path: Artifact::Runtime.archive_path(root, platform),
        },
        Phase::ListApp => ActionView::ListDir { path: app },
        Phase::FetchApplication => ActionView::Download {
            url: Artifact::Application.url(platform),
            dest: Artifact::Application.archive_path(root, platform),
        },
        Phase::ExtractApplication => ActionView::Run {
            command: unzip_command(Artifact::Application.archive_path(root, platform), app),
        },
        Phase::DropApplicationArchive => ActionView::RemoveFile {
            path: Artifact::Application.archive_path(root, platform),
        },
        Phase::MoveApplication => ActionView::Rename {
            from: unpacked_dir(root, platform),
            to: InstallInfo::roxy_dir(root, platform),
        },
        Phase::RemoveWrapper => ActionView::RemoveDirAll { path: wrapper_dir(root, platform) },
        Phase::WriteEnv => ActionView::WriteText {
            path: env_path(root, platform),
            contents: env_text(root, s.token),
        },
        Phase::WriteScript => ActionView::WriteText {
            path: script_path(root, platform),
            contents: script_text(),
        },
        Phase::MakeScriptExecutable => ActionView::MakeExecutable {
            path: script_path(root, platform),
        },
        Phase::InstallDependencies => ActionView::Run {
            command: dependency_command(root, platform),
        },
        Phase::Build => ActionView::Run { command: build_command(root, platform) },
        Phase::ReadManifest => ActionView::ReadText { path: manifest_path(root, platform) },
        Phase::PrepareRecord => ActionView::CreateDirAll { path: cli_dir(s.env) },
        Phase::SaveRecord => ActionView::WriteText {
            path: cli_config_path(s.env),
            contents: s.draft,
        },
        _ => ActionView::Finish,
    }
}

/// The straight stretches of an install: for a phase whose action needs
/// nothing but to succeed, the phase that follows and the fault that is
/// reported when it does not. The other phases decide by more than that.
pub open spec fn install_rule(phase: Phase, platform: Platform) -> Option<(Phase, Fault)> {
    match phase {
        Phase::CleanUp => Some((Phase::CreateApp, Fault::CleanUp)),
        Phase::CreateApp => Some((Phase::FetchRuntime, Fault::CreateAppDir)),
        Phase::FetchRuntime => Some((Phase::ExtractRuntime, Fault::Download)),
        Phase::ExtractRuntime => Some((Phase::DropRuntimeArchive, Fault::Extract)),
        Phase::DropRuntimeArchive => Some((Phase::ListApp, Fault::RemoveArchive)),
        Phase::FetchApplication => Some((Phase::ExtractApplication, Fault::Download)),
        Phase::ExtractApplication => Some((Phase::DropApplicationArchive, Fault::Extract)),
        Phase::DropApplicationArchive => Some((Phase::MoveApplication, Fault::RemoveArchive)),
        Phase::MoveApplication => Some((Phase::RemoveWrapper, Fault::MoveApplication)),
        Phase::WriteEnv => Some(
            (
                match platform {
                    Platform::Windows => Phase::InstallDependencies,
                    Platform::Linux => Phase::WriteScript,
                },
                Fault::WriteFile,
            ),
        ),
        Phase::WriteScript => Some((Phase::MakeScriptExecutable, Fault::WriteFile)),
        Phase::MakeScriptExecutable => Some((Phase::InstallDependencies, Fault::Permissions)),
        Phase::InstallDependencies => Some((Phase::Build, Fault::InstallDependencies)),
        Phase::Build => Some((Phase::ReadManifest, Fault::Build)),
        Phase::PrepareRecord => Some((Phase::SaveRecord, Fault::SaveRecord)),
        _ => None,
    }
}

/// The phases whose action has to succeed for the install to go on:
/// everything between the look for a stale app directory and the saved
/// record.
pub open spec fn demands_success(phase: Phase, platform: Platform) -> bool {
    install_rule(phase, platform) is Some || phase == Phase::ListApp || phase
        == Phase::RenameRuntime || phase == Phase::RemoveWrapper || phase == Phase::ReadManifest
        || phase == Phase::SaveRecord
}

/// What is shown on entering a phase.
pub open spec fn install_notes(phase: Phase) -> Seq<(Notice, Seq<char>)> {
    match phase {
        Phase::CreateApp => seq![(Notice::DownloadingRuntime, Seq::<char>::empty())],
        Phase::FetchApplication => seq![(Notice::DownloadingApplication, Seq::<char>::empty())],
        Phase::WriteEnv => seq![(Notice::Building, Seq::<char>::empty())],
        _ => Seq::empty(),
    }
}

/// Entering a phase: its note, its action.
pub open spec fn entering(s: SessionView, phase: Phase) -> (SessionView, StepView) {
    let s2 = SessionView { phase, ..s };
    (s2, StepView { notes: install_notes(phase), action: install_action(phase, s2) })
}

/// Position of the first entry from `from` on that is the unpacked runtime.
pub open spec fn next_runtime(entries: Seq<(Seq<char>, bool)>, from: int) -> Option<int>
    decreases entries.len() - from,
{
    if from < 0 || from >= entries.len() {
        None
    } else if is_runtime_dir(entries[from]) {
        Some(from)
    } else {
        next_runtime(entries, from + 1)
    }
}

/// The next renaming of an unpacked runtime directory to its canonical
/// name, or, once the listing is gone through, the download of the
/// application.
pub open spec fn renaming(s: SessionView) -> (SessionView, StepView) {
    match next_runtime(s.entries, s.cursor as int) {
        Some(at) => (
            SessionView { phase: Phase::RenameRuntime, cursor: (at + 1) as usize, ..s },
            StepView::silent(
                ActionView::Rename {
                    from: joined(
                        InstallInfo::app_dir(s.target.path, s.env.platform),
                        s.entries[at].0,
                        s.env.platform,
                    ),
                    to: InstallInfo::node_dir(s.target.path, s.env.platform),
                },
            ),
        ),
        None => entering(s, Phase::FetchApplication),
    }
}

/// What follows the manifest: the version it reports goes into the record,
/// whose text is made ready. Nothing is written yet.
pub open spec fn drafting(s: SessionView, manifest: Option<Seq<char>>) -> Result<
    SessionView,
    Fault,
> {
    match manifest {
        None => Err(Fault::Manifest),
        Some(text) => match manifest_version(text) {
            None => Err(Fault::Manifest),
            Some(version) => match encoded(
                RecordView { path: s.target.path, version, termination_token: s.token },
            ) {
                Err(fault) => Err(fault),
                Ok(draft) => Ok(
                    SessionView {
                        draft,
                        target: InstallInfoView { version, ..s.target },
                        ..s
                    },
                ),
            },
        },
    }
}

fn act(phase: Phase, s: &Session) -> (action: Action)
    ensures
        action@ == install_action(phase, SessionView { phase, ..s@ }),
{
    let platform = s.env.platform;
    match phase {
        Phase::CheckStale => Action::PathExists { path: s.target.app_path(platform) },
        Phase::CleanUp => Action::RemoveDirAll { path: s.target.app_path(platform) },
        Phase::CreateApp => Action::CreateDirAll { path: s.target.app_path(platform) },
        Phase::FetchRuntime => Action::Download {
            url: Artifact::Runtime.source(platform),
            dest: Artifact::Runtime.archive(&s.target, platform),
        },
        Phase::ExtractRuntime => Action::Run {
            command: unzip_file(
                Artifact::Runtime.archive(&s.target, platform).as_str(),
                s.target.app_path(platform).as_str(),
            ),
        },
        Phase::DropRuntimeArchive => Action::RemoveFile {
            path: Artifact::Runtime.archive(&s.target, platform),
        },
        Phase::ListApp => Action::ListDir { path: s.target.app_path(platform) },
        Phase::FetchApplication => Action::Download {
            url: Artifact::Application.source(platform),
            dest: Artifact::Application.archive(&s.target, platform),
        },
        Phase::ExtractApplication => Action::Run {
            command: unzip_file(
                Artifact::Application.archive(&s.target, platform).as_str(),
                s.target.app_path(platform).as_str(),
            ),
        },
        Phase::DropApplicationArchive => Action::RemoveFile {
            path: Artifact::Application.archive(&s.target, platform),
        },
        Phase::MoveApplication => Action::Rename {
            from: unpacked_path(&s.target, platform),
            to: s.target.roxy_path(platform),
        },
        Phase::RemoveWrapper => Action::RemoveDirAll { path: wrapper_path(&s.target, platform) },
        Phase::WriteEnv => Action::WriteText {
            path: env_file(&s.target, platform),
            contents: env_contents(s.target.path.as_str(), s.token.as_str()),
        },
        Phase::WriteScript => Action::WriteText {
            path: script_file(&s.target, platform),
            contents: script_contents(),
        },
        Phase::MakeScriptExecutable => Action::MakeExecutable {
            path: script_file(&s.target, platform),
        },
        Phase::InstallDependencies => Action::Run {
            command: install_dependencies(&s.target, platform),
        },
        Phase::Build => Action::Run { command: build(&s.target, platform) },
        Phase::ReadManifest => Action::ReadText { path: manifest_file(&s.target, platform) },
        Phase::PrepareRecord => Action::CreateDirAll { path: InstallInfo::get_roxy_cli_path(&s.env) },
        Phase::SaveRecord => Action::WriteText {
            path: InstallInfo::get_cli_config_path(&s.env),
            contents: s.draft.clone(),
        },
        _ => Action::Finish,
    }
}

pub(crate) fn rule(phase: Phase, platform: Platform) -> (r: Option<(Phase, Fault)>)
    ensures
        r == install_rule(phase, platform),
{
    match phase {
        Phase::CleanUp => Some((Phase::CreateApp, Fault::CleanUp)),
        Phase::CreateApp => Some((Phase::FetchRuntime, Fault::CreateAppDir)),
        Phase::FetchRuntime => Some((Phase::ExtractRuntime, Fault::Download)),
        Phase::ExtractRuntime => Some((Phase::DropRuntimeArchive, Fault::Extract)),
        Phase::DropRuntimeArchive => Some((Phase::ListApp, Fault::RemoveArchive)),
        Phase::FetchApplication => Some((Phase::ExtractApplication, Fault::Download)),
        Phase::ExtractApplication => Some((Phase::DropApplicationArchive, Fault::Extract)),
        Phase::DropApplicationArchive => Some((Phase::MoveApplication, Fault::RemoveArchive)),
        Phase::MoveApplication => Some((Phase::RemoveWrapper, Fault::MoveApplication)),
        Phase::WriteEnv => match platform {
            Platform::Windows => Some((Phase::InstallDependencies, Fault::WriteFile)),
            Platform::Linux => Some((Phase::WriteScript, Fault::WriteFile)),
        },
        Phase::WriteScript => Some((Phase::MakeScriptExecutable, Fault::WriteFile)),
        Phase::MakeScriptExecutable => Some((Phase::InstallDependencies, Fault::Permissions)),
        Phase::InstallDependencies => Some((Phase::Build, Fault::InstallDependencies)),
        Phase::Build => Some((Phase::ReadManifest, Fault::Build)),
        Phase::PrepareRecord => Some((Phase::SaveRecord, Fault::SaveRecord)),
        _ => None,
    }
}

pub(crate) fn enter(session: Session, phase: Phase) -> (r: (Session, Step))
    ensures
        (r.0@, r.1@) == entering(session@, phase),
{
    let mut s = session;
    let action = act(phase, &s);
    s.phase = phase;
    let mut notes: Vec<Note> = Vec::new();
    match phase {
        Phase::CreateApp => {
            notes.push(Note::plain(Notice::DownloadingRuntime));
        },
        Phase::FetchApplication => {
            notes.push(Note::plain(Notice::DownloadingApplication));
        },
        Phase::WriteEnv => {
            notes.push(Note::plain(Notice::Building));
        },
        _ => {},
    }
    assert(notes_view(notes@) =~= install_notes(phase));
    (s, Step { notes, action })
}

fn find_runtime(entries: &Vec<DirEntry>, from: usize) -> (at: Option<usize>)
    ensures
        match at {
            Some(i) => i < entries.len() && next_runtime(entries_view(entries@), from as int)
                == Some(i as int),
            None => next_runtime(entries_view(entries@), from as int) is None,
        },
{
    let ghost view = entries_view(entries@);
    let mut i: usize = from;
    while i < entries.len()
        invariant
            from <= i,
            view == entries_view(entries@),
            next_runtime(view, from as int) == next_runtime(view, i as int),
        decreases entries.len() - i,
    {
        if runtime_dir(&entries[i]) {
            return Some(i);
        }
        i += 1;
    }
    None
}

pub(crate) fn rename_next(session: Session) -> (r: (Session, Step))
    ensures
        (r.0@, r.1@) == renaming(session@),
{
    match find_runtime(&session.entries, session.cursor) {
        Some(at) => {
            let mut s = session;
            let platform = s.env.platform;
            let app = s.target.app_path(platform);
            let from = join(app.as_str(), s.entries[at].name.as_str(), platform);
            let to = s.target.node_path(platform);
            s.phase = Phase::RenameRuntime;
            s.cursor = at + 1;
            (s, Step::silent(Action::Rename { from, to }))
        },
        None => enter(session, Phase::FetchApplication),
    }
}

} // verus!
