//! What the manager tells its user.

use vstd::prelude::*;
use vstd::string::*;

verus! {

/// How a note is meant: the caller picks colours by it.
#[derive(Clone, Copy, Debug, PartialEq, Eq, Structural)]
pub enum Tone {
    Good,
    Bad,
    Plain,
    /// Shown while work goes on, and cleared by the next note.
    Progress,
    /// A question that waits for yes or no.
    Question,
}

/// The kinds of note.
#[derive(Clone, Copy, Debug, PartialEq, Eq, Structural)]
pub enum Notice {
    NotInstalled,
    AlreadyInstalled,
    AlreadyRunning,
    NotRunning,
    Started,
    Stopped,
    StopFailed,
    Installed,
    UninstalledAll,
    UninstalledKept,
    /// Detail: the install root whose data was kept.
    DataPath,
    AutostartAlreadyEnabled,
    AutostartEnabled,
    AutostartNotEnabled,
    AutostartDisabled,
    AutostartOn,
    AutostartOff,
    UpdateUnavailable,
    /// Detail: the install root.
    StatusInstalled,
    StatusNotInstalled,
    /// Detail: the version.
    StatusVersion,
    StatusRunning,
    StatusStopped,
    /// Detail: the install root asked about.
    ConfirmInstall,
    ConfirmUninstall,
    ConfirmDeleteData,
    Loading,
    DownloadingRuntime,
    DownloadingApplication,
    Building,
    DeletingApplication,
    DeletingData,
}

impl Notice {
    /// How a notice is meant.
    pub open spec fn tone(self) -> Tone {
        match self {
            Notice::Started
            | Notice::Stopped
            | Notice::Installed
            | Notice::UninstalledAll
            | Notice::UninstalledKept
            | Notice::AutostartEnabled
            | Notice::AutostartDisabled
            | Notice::AutostartOn
            | Notice::StatusInstalled
            | Notice::StatusRunning => Tone::Good,
            Notice::NotInstalled
            | Notice::AlreadyInstalled
            | Notice::AlreadyRunning
            | Notice::NotRunning
            | Notice::StopFailed
            | Notice::AutostartAlreadyEnabled
            | Notice::AutostartNotEnabled
            | Notice::AutostartOff
            | Notice::StatusNotInstalled
            | Notice::StatusStopped => Tone::Bad,
            Notice::DataPath | Notice::UpdateUnavailable | Notice::StatusVersion => Tone::Plain,
            Notice::ConfirmInstall | Notice::ConfirmUninstall | Notice::ConfirmDeleteData =>
                Tone::Question,
            Notice::Loading
            | Notice::DownloadingRuntime
            | Notice::DownloadingApplication
            | Notice::Building
            | Notice::DeletingApplication
            | Notice::DeletingData => Tone::Progress,
        }
    }

    pub fn get_tone(self) -> (tone: Tone)
        ensures
            tone == self.tone(),
    {
        match self {
            Notice::Started
            | Notice::Stopped
            | Notice::Installed
            | Notice::UninstalledAll
            | Notice::UninstalledKept
            | Notice::AutostartEnabled
            | Notice::AutostartDisabled
            | Notice::AutostartOn
            | Notice::StatusInstalled
            | Notice::StatusRunning => Tone::Good,
            Notice::NotInstalled
            | Notice::AlreadyInstalled
            | Notice::AlreadyRunning
            | Notice::NotRunning
            | Notice::StopFailed
            | Notice::AutostartAlreadyEnabled
            | Notice::AutostartNotEnabled
            | Notice::AutostartOff
            | Notice::StatusNotInstalled
            | Notice::StatusStopped => Tone::Bad,
            Notice::DataPath | Notice::UpdateUnavailable | Notice::StatusVersion => Tone::Plain,
            Notice::ConfirmInstall | Notice::ConfirmUninstall | Notice::ConfirmDeleteData =>
                Tone::Question,
            Notice::Loading
            | Notice::DownloadingRuntime
            | Notice::DownloadingApplication
            | Notice::Building
            | Notice::DeletingApplication
            | Notice::DeletingData => Tone::Progress,
        }
    }

    /// The words of a notice, before its detail.
    pub open spec fn words(self) -> Seq<char> {
        match self {
            Notice::NotInstalled => "Roxy is not installed"@,
            Notice::AlreadyInstalled => "Roxy is already installed"@,
            Notice::AlreadyRunning => "Roxy is already running"@,
            Notice::NotRunning => "Roxy is not running"@,
            Notice::Started => "Roxy has been started!"@,
            Notice::Stopped => "Successfully stopped roxy"@,
            Notice::StopFailed => "Failed to stop roxy"@,
            Notice::Installed => "Successfully installed roxy!"@,
            Notice::UninstalledAll =>
                "Successfully uninstalled roxy!\n(Database and uploaded files were deleted)"@,
            Notice::UninstalledKept =>
                "Successfully uninstalled roxy!\n(Database and uploaded files were kept)"@,
            Notice::DataPath => "Data path: "@,
            Notice::AutostartAlreadyEnabled => "Autostart already enabled"@,
            Notice::AutostartEnabled => "Enabled autostart"@,
            Notice::AutostartNotEnabled => "Autostart not enabled"@,
            Notice::AutostartDisabled => "Disabled autostart"@,
            Notice::AutostartOn => "Status: Enabled"@,
            Notice::AutostartOff => "Status: Disabled"@,
            Notice::UpdateUnavailable => "Update: not yet implemented"@,
            Notice::StatusInstalled => "Installation: Installed "@,
            Notice::StatusNotInstalled => "Installation: Not Installed "@,
            Notice::StatusVersion => "Version: "@,
            Notice::StatusRunning => "Status: Running"@,
            Notice::StatusStopped => "Status: Stopped"@,
            Notice::ConfirmInstall => "Are you sure you want to install roxy to: "@,
            Notice::ConfirmUninstall => "Are you sure you want to uninstall roxy?"@,
            Notice::ConfirmDeleteData =>
                "Do you want to delete the database and uploaded files too? (There will be no more confirmations)"@,
            Notice::Loading => "Loading..."@,
            Notice::DownloadingRuntime => "Downloading Node.js..."@,
            Notice::DownloadingApplication => "Downloading roxy..."@,
            Notice::Building => "Building..."@,
            Notice::DeletingApplication => "Deleting roxy..."@,
            Notice::DeletingData => "Deleting database and uploaded files..."@,
        }
    }

    pub fn get_words(self) -> (words: &'static str)
        ensures
            words@ == self.words(),
    {
        match self {
            Notice::NotInstalled => "Roxy is not installed",
            Notice::AlreadyInstalled => "Roxy is already installed",
            Notice::AlreadyRunning => "Roxy is already running",
            Notice::NotRunning => "Roxy is not running",
            Notice::Started => "Roxy has been started!",
            Notice::Stopped => "Successfully stopped roxy",
            Notice::StopFailed => "Failed to stop roxy",
            Notice::Installed => "Successfully installed roxy!",
            Notice::UninstalledAll =>
                "Successfully uninstalled roxy!\n(Database and uploaded files were deleted)",
            Notice::UninstalledKept =>
                "Successfully uninstalled roxy!\n(Database and uploaded files were kept)",
            Notice::DataPath => "Data path: ",
            Notice::AutostartAlreadyEnabled => "Autostart already enabled",
            Notice::AutostartEnabled => "Enabled autostart",
            Notice::AutostartNotEnabled => "Autostart not enabled",
            Notice::AutostartDisabled => "Disabled autostart",
            Notice::AutostartOn => "Status: Enabled",
            Notice::AutostartOff => "Status: Disabled",
            Notice::UpdateUnavailable => "Update: not yet implemented",
            Notice::StatusInstalled => "Installation: Installed ",
            Notice::StatusNotInstalled => "Installation: Not Installed ",
            Notice::StatusVersion => "Version: ",
            Notice::StatusRunning => "Status: Running",
            Notice::StatusStopped => "Status: Stopped",
            Notice::ConfirmInstall => "Are you sure you want to install roxy to: ",
            Notice::ConfirmUninstall => "Are you sure you want to uninstall roxy?",
            Notice::ConfirmDeleteData =>
                "Do you want to delete the database and uploaded files too? (There will be no more confirmations)",
            Notice::Loading => "Loading...",
            Notice::DownloadingRuntime => "Downloading Node.js...",
            Notice::DownloadingApplication => "Downloading roxy...",
            Notice::Building => "Building...",
            Notice::DeletingApplication => "Deleting roxy...",
            Notice::DeletingData => "Deleting database and uploaded files...",
        }
    }

    /// How the detail of a notice is shown, if it has one.
    pub open spec fn detail_form(self) -> DetailForm {
        match self {
            Notice::StatusVersion => DetailForm::Plain,
            Notice::DataPath | Notice::ConfirmInstall => DetailForm::Quoted,
            Notice::StatusInstalled => DetailForm::Bracketed,
            _ => DetailForm::Absent,
        }
    }

    pub fn get_detail_form(self) -> (form: DetailForm)
        ensures
            form == self.detail_form(),
    {
        match self {
            Notice::StatusVersion => DetailForm::Plain,
            Notice::DataPath | Notice::ConfirmInstall => DetailForm::Quoted,
            Notice::StatusInstalled => DetailForm::Bracketed,
            _ => DetailForm::Absent,
        }
    }
}

/// How the detail follows the words of a notice.
#[derive(Clone, Copy, Debug, PartialEq, Eq, Structural)]
pub enum DetailForm {
    /// The notice has no detail.
    Absent,
    /// As it is.
    Plain,
    /// In quotation marks.
    Quoted,
    /// In quotation marks, inside round brackets.
    Bracketed,
}

/// A text in quotation marks with what needs it escaped, as the `{:?}`
/// format of `str` writes it.
pub uninterp spec fn quoted_text(text: Seq<char>) -> Seq<char>;

/// Formats `text` with `format!("{:?}", ..)`, the `Debug` form of `str`.
/// The contract only names the result.
#[verifier::external_body]
pub(crate) fn quote(text: &str) -> (quoted: String)
    ensures
        quoted@ == quoted_text(text@),
{
    format!("{:?}", text)
}

/// One note for the user: a notice and, where the notice has one, its
/// detail.
#[derive(Clone, Debug, PartialEq, Eq)]
pub struct Note {
    pub notice: Notice,
    pub detail: String,
}

impl View for Note {
    type V = (Notice, Seq<char>);

    open spec fn view(&self) -> (Notice, Seq<char>) {
        (self.notice, self.detail@)
    }
}

/// The line (or lines) shown for a note.
pub open spec fn note_text(notice: Notice, detail: Seq<char>) -> Seq<char> {
    match notice.detail_form() {
        DetailForm::Absent => notice.words(),
        DetailForm::Plain => notice.words() + detail,
        DetailForm::Quoted => notice.words() + quoted_text(detail),
        DetailForm::Bracketed => notice.words() + "("@ + quoted_text(detail) + ")"@,
    }
}

impl Note {
    /// A note without detail.
    pub fn plain(notice: Notice) -> (note: Note)
        ensures
            note@ == (notice, Seq::<char>::empty()),
    {
        Note { notice, detail: String::new() }
    }

    /// A note with its detail.
    pub fn with(notice: Notice, detail: String) -> (note: Note)
        ensures
            note@ == (notice, detail@),
    {
        Note { notice, detail }
    }

    /// The text to show.
    pub fn text(&self) -> (text: String)
        ensures
            text@ == note_text(self.notice, self.detail@),
    {
        let mut text = String::from_str(self.notice.get_words());
        match self.notice.get_detail_form() {
            DetailForm::Absent => {},
            DetailForm::Plain => {
                text.append(self.detail.as_str());
            },
            DetailForm::Quoted => {
                text.append(quote(self.detail.as_str()).as_str());
            },
            DetailForm::Bracketed => {
                text.append("(");
                text.append(quote(self.detail.as_str()).as_str());
                text.append(")");
            },
        }
        text
    }
}

/// The notes of a step, each by its view.
pub open spec fn notes_view(notes: Seq<Note>) -> Seq<(Notice, Seq<char>)> {
    notes.map_values(|n: Note| n@)
}

} // verus!
