//! The boundary between deciding and doing: the library hands out one
//! `Action` at a time, its caller performs it and hands back the `Outcome`.

use vstd::prelude::*;
use vstd::string::*;
use crate::fault::Fault;
use crate::notice::{notes_view, Note, Notice};

verus! {

/// A program to run, with its arguments and the directory to run it in.
#[derive(Clone, Debug, PartialEq, Eq)]
pub struct Command {
    pub program: String,
    pub args: Vec<String>,
    pub dir: Option<String>,
}

/// A command, in the terms of contracts.
pub struct CommandView {
    pub program: Seq<char>,
    pub args: Seq<Seq<char>>,
    pub dir: Option<Seq<char>>,
}

/// The arguments of a command, each by its view.
pub open spec fn args_view(args: Seq<String>) -> Seq<Seq<char>> {
    args.map_values(|a: String| a@)
}

impl View for Command {
    type V = CommandView;

    open spec fn view(&self) -> CommandView {
        CommandView {
            program: self.program@,
            args: args_view(self.args@),
            dir: crate::text::text_view(self.dir),
        }
    }
}

impl Command {
    /// The program alone.
    pub fn new(program: String) -> (command: Command)
        ensures
            command@ == (CommandView { program: program@, args: Seq::empty(), dir: None }),
    {
        let command = Command { program, args: Vec::new(), dir: None };
        assert(args_view(command.args@) =~= Seq::empty());
        command
    }

    /// This command with one more argument.
    pub fn arg(self, value: String) -> (command: Command)
        ensures
            command@ == (CommandView { args: self@.args.push(value@), ..self@ }),
    {
        let mut command = self;
        let ghost before = command.args@;
        command.args.push(value);
        assert(args_view(command.args@) =~= args_view(before).push(value@));
        command
    }

    /// This command, run in `dir`.
    pub fn within(self, dir: String) -> (command: Command)
        ensures
            command@ == (CommandView { dir: Some(dir@), ..self@ }),
    {
        let mut command = self;
        command.dir = Some(dir);
        command
    }
}

/// One entry of a directory listing.
#[derive(Clone, Debug, PartialEq, Eq)]
pub struct DirEntry {
    pub name: String,
    pub is_dir: bool,
}

impl View for DirEntry {
    type V = (Seq<char>, bool);

    open spec fn view(&self) -> (Seq<char>, bool) {
        (self.name@, self.is_dir)
    }
}

/// A listing, each entry by its view.
pub open spec fn entries_view(entries: Seq<DirEntry>) -> Seq<(Seq<char>, bool)> {
    entries.map_values(|e: DirEntry| e@)
}

/// What the caller is asked to do next.
#[derive(Clone, Debug, PartialEq, Eq)]
pub enum Action {
    /// Read a file as text. Answer: `Text`, or `Failed` where it cannot be read.
    ReadText { path: String },
    /// Does this path exist? Answer: `Flag`.
    PathExists { path: String },
    /// List a directory. Answer: `Entries`, or `Failed`.
    ListDir { path: String },
    /// HTTP GET, given up after `timeout_secs`. Answer: `Done` for any
    /// response, `Failed` for none.
    Get { url: String, timeout_secs: u64 },
    /// HTTP POST of `body`, given up after `timeout_secs`. Answer as for `Get`.
    Post { url: String, body: String, timeout_secs: u64 },
    /// Put a yes/no question. Answer: `Text` with the line typed, or `Failed`.
    Ask { prompt: Note },
    RemoveDirAll { path: String },
    RemoveFile { path: String },
    /// Remove a file; that it is not there is no failure.
    Forget { path: String },
    CreateDirAll { path: String },
    Rename { from: String, to: String },
    /// Write a file whole: readers see the old contents or the new.
    WriteText { path: String, contents: String },
    /// Add one line at the end of a file, creating the file where needed.
    AppendLine { path: String, line: String },
    MakeExecutable { path: String },
    Download { url: String, dest: String },
    /// Run to completion. Answer: `Flag` with whether it exited with
    /// success, or `Failed` where it could not be run.
    Run { command: Command },
    /// Start detached, without standard streams, and do not wait.
    Spawn { command: Command },
    /// Copy the manager's own executable.
    CopySelf { dest: String },
    /// Open with the platform's default handler.
    Open { path: String },
    /// Let this much time pass.
    Pause { millis: u64 },
    /// The operation is over.
    Finish,
    /// The operation is abandoned.
    Fail { fault: Fault },
}

/// An action, in the terms of contracts.
pub enum ActionView {
    ReadText { path: Seq<char> },
    PathExists { path: Seq<char> },
    ListDir { path: Seq<char> },
    Get { url: Seq<char>, timeout_secs: u64 },
    Post { url: Seq<char>, body: Seq<char>, timeout_secs: u64 },
    Ask { prompt: (Notice, Seq<char>) },
    RemoveDirAll { path: Seq<char> },
    RemoveFile { path: Seq<char> },
    Forget { path: Seq<char> },
    CreateDirAll { path: Seq<char> },
    Rename { from: Seq<char>, to: Seq<char> },
    WriteText { path: Seq<char>, contents: Seq<char> },
    AppendLine { path: Seq<char>, line: Seq<char> },
    MakeExecutable { path: Seq<char> },
    Download { url: Seq<char>, dest: Seq<char> },
    Run { command: CommandView },
    Spawn { command: CommandView },
    CopySelf { dest: Seq<char> },
    Open { path: Seq<char> },
    Pause { millis: u64 },
    Finish,
    Fail { fault: Fault },
}

impl View for Action {
    type V = ActionView;

    open spec fn view(&self) -> ActionView {
        match self {
            Action::ReadText { path } => ActionView::ReadText { path: path@ },
            Action::PathExists { path } => ActionView::PathExists { path: path@ },
            Action::ListDir { path } => ActionView::ListDir { path: path@ },
            Action::Get { url, timeout_secs } => ActionView::Get {
                url: url@,
                timeout_secs: *timeout_secs,
            },
            Action::Post { url, body, timeout_secs } => ActionView::Post {
                url: url@,
                body: body@,
                timeout_secs: *timeout_secs,
            },
            Action::Ask { prompt } => ActionView::Ask { prompt: prompt@ },
            Action::RemoveDirAll { path } => ActionView::RemoveDirAll { path: path@ },
            Action::RemoveFile { path } => ActionView::RemoveFile { path: path@ },
            Action::Forget { path } => ActionView::Forget { path: path@ },
            Action::CreateDirAll { path } => ActionView::CreateDirAll { path: path@ },
            Action::Rename { from, to } => ActionView::Rename { from: from@, to: to@ },
            Action::WriteText { path, contents } => ActionView::WriteText {
                path: path@,
                contents: contents@,
            },
            Action::AppendLine { path, line } => ActionView::AppendLine { path: path@, line: line@ },
            Action::MakeExecutable { path } => ActionView::MakeExecutable { path: path@ },
            Action::Download { url, dest } => ActionView::Download { url: url@, dest: dest@ },
            Action::Run { command } => ActionView::Run { command: command@ },
            Action::Spawn { command } => ActionView::Spawn { command: command@ },
            Action::CopySelf { dest } => ActionView::CopySelf { dest: dest@ },
            Action::Open { path } => ActionView::Open { path: path@ },
            Action::Pause { millis } => ActionView::Pause { millis: *millis },
            Action::Finish => ActionView::Finish,
            Action::Fail { fault } => ActionView::Fail { fault: *fault },
        }
    }
}

impl ActionView {
    /// Whether performing the action can change what is on disk, start a
    /// process or register anything.
    pub open spec fn mutates(self) -> bool {
        match self {
            ActionView::ReadText { .. }
            | ActionView::PathExists { .. }
            | ActionView::ListDir { .. }
            | ActionView::Get { .. }
            | ActionView::Post { .. }
            | ActionView::Ask { .. }
            | ActionView::Pause { .. }
            | ActionView::Finish
            | ActionView::Fail { .. } => false,
            _ => true,
        }
    }

    /// Whether performing the action sends anything over the network.
    pub open spec fn uses_network(self) -> bool {
        self is Get || self is Post || self is Download
    }

    /// Whether the action ends the operation.
    pub open spec fn is_final(self) -> bool {
        self is Finish || self is Fail
    }
}

/// What came of the action handed out last.
#[derive(Clone, Debug, PartialEq, Eq)]
pub enum Outcome {
    /// The action was performed.
    Done,
    /// The action could not be performed.
    Failed,
    /// The answer to a question.
    Flag(bool),
    /// The text that was read.
    Text(String),
    /// The entries that were listed.
    Entries(Vec<DirEntry>),
}

/// An outcome, in the terms of contracts.
pub enum OutcomeView {
    Done,
    Failed,
    Flag(bool),
    Text(Seq<char>),
    Entries(Seq<(Seq<char>, bool)>),
}

impl View for Outcome {
    type V = OutcomeView;

    open spec fn view(&self) -> OutcomeView {
        match self {
            Outcome::Done => OutcomeView::Done,
            Outcome::Failed => OutcomeView::Failed,
            Outcome::Flag(b) => OutcomeView::Flag(*b),
            Outcome::Text(s) => OutcomeView::Text(s@),
            Outcome::Entries(v) => OutcomeView::Entries(entries_view(v@)),
        }
    }
}

/// One step of an operation: what to tell the user, then what to do.
#[derive(Clone, Debug, PartialEq, Eq)]
pub struct Step {
    pub notes: Vec<Note>,
    pub action: Action,
}

/// A step, in the terms of contracts.
pub struct StepView {
    pub notes: Seq<(Notice, Seq<char>)>,
    pub action: ActionView,
}

impl View for Step {
    type V = StepView;

    open spec fn view(&self) -> StepView {
        StepView { notes: notes_view(self.notes@), action: self.action@ }
    }
}

impl StepView {
    /// A step that says nothing.
    pub open spec fn silent(action: ActionView) -> StepView {
        StepView { notes: Seq::empty(), action }
    }

    /// A step that says one thing without detail.
    pub open spec fn saying(notice: Notice, action: ActionView) -> StepView {
        StepView { notes: seq![(notice, Seq::<char>::empty())], action }
    }

    /// A step that says one thing with its detail.
    pub open spec fn telling(notice: Notice, detail: Seq<char>, action: ActionView) -> StepView {
        StepView { notes: seq![(notice, detail)], action }
    }

    /// This step with `notes` said first.
    pub open spec fn after(self, notes: Seq<(Notice, Seq<char>)>) -> StepView {
        StepView { notes: notes + self.notes, action: self.action }
    }
}

impl Step {
    /// A step that says nothing.
    pub fn silent(action: Action) -> (step: Step)
        ensures
            step@ == StepView::silent(action@),
    {
        let step = Step { notes: Vec::new(), action };
        assert(notes_view(step.notes@) =~= Seq::empty());
        step
    }

    /// A step that says one thing without detail.
    pub fn saying(notice: Notice, action: Action) -> (step: Step)
        ensures
            step@ == StepView::saying(notice, action@),
    {
        let mut notes: Vec<Note> = Vec::new();
        notes.push(Note::plain(notice));
        assert(notes_view(notes@) =~= seq![(notice, Seq::<char>::empty())]);
        Step { notes, action }
    }

    /// A step that says one thing with its detail.
    pub fn telling(notice: Notice, detail: String, action: Action) -> (step: Step)
        ensures
            step@ == StepView::telling(notice, detail@, action@),
    {
        let mut notes: Vec<Note> = Vec::new();
        notes.push(Note::with(notice, detail));
        assert(notes_view(notes@) =~= seq![(notice, detail@)]);
        Step { notes, action }
    }

    /// This step with one more note said first.
    pub fn preceded_by(self, note: Note) -> (step: Step)
        ensures
            step@ == self@.after(seq![note@]),
    {
        let mut notes: Vec<Note> = Vec::new();
        notes.push(note);
        let mut rest = self.notes;
        let ghost first = notes@;
        let ghost second = rest@;
        notes.append(&mut rest);
        assert(notes_view(notes@) =~= notes_view(first) + notes_view(second));
        assert(notes_view(first) =~= seq![note@]);
        Step { notes, action: self.action }
    }
}

} // verus!
