//! The failures that abort an operation.

use vstd::prelude::*;

verus! {

/// Why an operation was abandoned. Each value names the step that failed;
/// none of them leaves a record that claims an installation.
#[derive(Clone, Copy, Debug, PartialEq, Eq, Structural)]
pub enum Fault {
    /// The record text would not load back as the record it was made from.
    Record,
    /// The application's configuration holds no port or no `useHttps`.
    Config,
    /// The application's manifest could not be read or names no version.
    Manifest,
    /// No answer to a question could be read.
    Prompt,
    /// The install root is not absolute, or not clean.
    Root,
    CleanUp,
    CreateAppDir,
    Download,
    Extract,
    RemoveArchive,
    ListAppDir,
    RenameRuntime,
    MoveApplication,
    RemoveWrapper,
    WriteFile,
    Permissions,
    InstallDependencies,
    Build,
    SaveRecord,
    RemoveApplication,
    RemoveData,
    ResetRecord,
    Start,
    AutostartQuery,
    CopyExecutable,
    AutostartEnable,
    AutostartDisable,
    Open,
}

impl Fault {
    /// The diagnostic shown for this fault.
    pub open spec fn text(self) -> Seq<char> {
        match self {
            Fault::Record => "Failed to encode the roxy-cli config"@,
            Fault::Config => "Failed to parse roxy.json"@,
            Fault::Manifest => "Failed to parse package.json"@,
            Fault::Prompt => "Failed to read the answer"@,
            Fault::Root => "Failed to resolve the install path"@,
            Fault::CleanUp => "Failed to clean up existing installation"@,
            Fault::CreateAppDir => "Failed to create app folder"@,
            Fault::Download => "Failed to download"@,
            Fault::Extract => "Failed to extract roxy with tar"@,
            Fault::RemoveArchive => "Failed to delete archive"@,
            Fault::ListAppDir => "Failed to read app directory"@,
            Fault::RenameRuntime => "Failed to rename node folder"@,
            Fault::MoveApplication => "Failed to rename roxy folder"@,
            Fault::RemoveWrapper => "Failed to delete roxy folder"@,
            Fault::WriteFile => "Failed to write file"@,
            Fault::Permissions => "Failed to set file permissions for build.sh"@,
            Fault::InstallDependencies => "Failed to install dependencies with npm"@,
            Fault::Build => "Failed to build roxy"@,
            Fault::SaveRecord => "Failed to write the roxy-cli config"@,
            Fault::RemoveApplication => "Failed to delete roxy"@,
            Fault::RemoveData => "Failed to delete database and uploaded files"@,
            Fault::ResetRecord => "Failed to delete roxy-cli config"@,
            Fault::Start => "Failed to start roxy"@,
            Fault::AutostartQuery => "Failed to check autostart status"@,
            Fault::CopyExecutable => "Failed to copy executable"@,
            Fault::AutostartEnable => "Failed to enable autostart"@,
            Fault::AutostartDisable => "Failed to disable autostart"@,
            Fault::Open => "Failed to open file"@,
        }
    }

    pub fn message(self) -> (text: &'static str)
        ensures
            text@ == self.text(),
    {
        match self {
            Fault::Record => "Failed to encode the roxy-cli config",
            Fault::Config => "Failed to parse roxy.json",
            Fault::Manifest => "Failed to parse package.json",
            Fault::Prompt => "Failed to read the answer",
            Fault::Root => "Failed to resolve the install path",
            Fault::CleanUp => "Failed to clean up existing installation",
            Fault::CreateAppDir => "Failed to create app folder",
            Fault::Download => "Failed to download",
            Fault::Extract => "Failed to extract roxy with tar",
            Fault::RemoveArchive => "Failed to delete archive",
            Fault::ListAppDir => "Failed to read app directory",
            Fault::RenameRuntime => "Failed to rename node folder",
            Fault::MoveApplication => "Failed to rename roxy folder",
            Fault::RemoveWrapper => "Failed to delete roxy folder",
            Fault::WriteFile => "Failed to write file",
            Fault::Permissions => "Failed to set file permissions for build.sh",
            Fault::InstallDependencies => "Failed to install dependencies with npm",
            Fault::Build => "Failed to build roxy",
            Fault::SaveRecord => "Failed to write the roxy-cli config",
            Fault::RemoveApplication => "Failed to delete roxy",
            Fault::RemoveData => "Failed to delete database and uploaded files",
            Fault::ResetRecord => "Failed to delete roxy-cli config",
            Fault::Start => "Failed to start roxy",
            Fault::AutostartQuery => "Failed to check autostart status",
            Fault::CopyExecutable => "Failed to copy executable",
            Fault::AutostartEnable => "Failed to enable autostart",
            Fault::AutostartDisable => "Failed to disable autostart",
            Fault::Open => "Failed to open file",
        }
    }
}

} // verus!
