//! What an install fetches, where it puts it and which commands build it.

use vstd::prelude::*;
use vstd::string::*;
use crate::action::{Command, CommandView, DirEntry};
use crate::json::{json_members, parse_members, text_member, text_of};
use crate::paths::{join, joined, joined2, joined3};
use crate::platform::Platform;
use crate::record::InstallInfo;
use crate::text::{contains, contains_text};

verus! {

/// The two things an install downloads.
#[derive(Clone, Copy, Debug, PartialEq, Eq, Structural)]
pub enum Artifact {
    /// The private runtime.
    Runtime,
    /// The application's sources.
    Application,
}

impl Artifact {
    /// Where the archive is fetched from.
    pub open spec fn url(self, platform: Platform) -> Seq<char> {
        match (self, platform) {
            (Artifact::Runtime, Platform::Windows) =>
                "https://nodejs.org/dist/v18.16.0/node-v18.16.0-win-x64.zip"@,
            (Artifact::Runtime, Platform::Linux) =>
                "https://nodejs.org/dist/v18.16.0/node-v18.16.0-linux-x64.tar.gz"@,
            (Artifact::Application, Platform::Windows) =>
                "https://github.com/keifufu/roxy/archive/main.zip"@,
            (Artifact::Application, Platform::Linux) =>
                "https://github.com/keifufu/roxy/archive/main.tar.gz"@,
        }
    }

    /// The name the archive is stored under, inside the app directory.
    pub open spec fn archive_name(self, platform: Platform) -> Seq<char> {
        match (self, platform) {
            (Artifact::Runtime, Platform::Windows) => "node.zip"@,
            (Artifact::Runtime, Platform::Linux) => "node.tar.gz"@,
            (Artifact::Application, Platform::Windows) => "roxy.zip"@,
            (Artifact::Application, Platform::Linux) => "roxy.tar.gz"@,
        }
    }

    /// Where the archive is stored.
    pub open spec fn archive_path(self, root: Seq<char>, platform: Platform) -> Seq<char> {
        joined(InstallInfo::app_dir(root, platform), self.archive_name(platform), platform)
    }

    pub fn source(self, platform: Platform) -> (url: String)
        ensures
            url@ == self.url(platform),
    {
        match (self, platform) {
            (Artifact::Runtime, Platform::Windows) => String::from_str(
                "https://nodejs.org/dist/v18.16.0/node-v18.16.0-win-x64.zip",
            ),
            (Artifact::Runtime, Platform::Linux) => String::from_str(
                "https://nodejs.org/dist/v18.16.0/node-v18.16.0-linux-x64.tar.gz",
            ),
            (Artifact::Application, Platform::Windows) => String::from_str(
                "https://github.com/keifufu/roxy/archive/main.zip",
            ),
            (Artifact::Application, Platform::Linux) => String::from_str(
                "https://github.com/keifufu/roxy/archive/main.tar.gz",
            ),
        }
    }

    pub fn archive(self, info: &InstallInfo, platform: Platform) -> (path: String)
        ensures
            path@ == self.archive_path(info.path@, platform),
    {
        let app = info.app_path(platform);
        match (self, platform) {
            (Artifact::Runtime, Platform::Windows) => join(app.as_str(), "node.zip", platform),
            (Artifact::Runtime, Platform::Linux) => join(app.as_str(), "node.tar.gz", platform),
            (Artifact::Application, Platform::Windows) => join(app.as_str(), "roxy.zip", platform),
            (Artifact::Application, Platform::Linux) => join(app.as_str(), "roxy.tar.gz", platform),
        }
    }
}

/// The command that unpacks `file` into `dest`.
pub open spec fn unzip_command(file: Seq<char>, dest: Seq<char>) -> CommandView {
    CommandView { program: "tar"@, args: seq!["-xf"@, file, "-C"@, dest], dir: None }
}

pub fn unzip_file(file: &str, dest: &str) -> (command: Command)
    ensures
        command@ == unzip_command(file@, dest@),
{
    let command = Command::new(String::from_str("tar")).arg(String::from_str("-xf")).arg(
        String::from_str(file),
    ).arg(String::from_str("-C")).arg(String::from_str(dest));
    assert(command@.args =~= seq!["-xf"@, file@, "-C"@, dest@]);
    command
}

/// Whether a directory entry is the unpacked runtime: a directory with
/// `node` in its name. The archive names it after platform and version.
pub open spec fn is_runtime_dir(entry: (Seq<char>, bool)) -> bool {
    entry.1 && contains_text(entry.0, "node"@)
}

pub fn runtime_dir(entry: &DirEntry) -> (found: bool)
    ensures
        found == is_runtime_dir(entry@),
{
    entry.is_dir && contains(entry.name.as_str(), "node")
}

/// The directory the application's archive unpacks to.
pub open spec fn wrapper_dir(root: Seq<char>, platform: Platform) -> Seq<char> {
    joined2(root, "app"@, "roxy-main"@, platform)
}

/// The application inside the directory its archive unpacks to.
pub open spec fn unpacked_dir(root: Seq<char>, platform: Platform) -> Seq<char> {
    joined3(root, "app"@, "roxy-main"@, "roxy"@, platform)
}

/// The file the application reads its environment from.
pub open spec fn env_path(root: Seq<char>, platform: Platform) -> Seq<char> {
    joined3(root, "app"@, "roxy"@, ".env"@, platform)
}

/// The script that builds the application on Linux.
pub open spec fn script_path(root: Seq<char>, platform: Platform) -> Seq<char> {
    joined3(root, "app"@, "roxy"@, "build.sh"@, platform)
}

/// The application's manifest.
pub open spec fn manifest_path(root: Seq<char>, platform: Platform) -> Seq<char> {
    joined3(root, "app"@, "roxy"@, "package.json"@, platform)
}

/// The application's entry point.
pub open spec fn entry_path(root: Seq<char>, platform: Platform) -> Seq<char> {
    joined(joined3(root, "app"@, "roxy"@, "dist"@, platform), "index.js"@, platform)
}

/// The private runtime's executable.
pub open spec fn node_program(root: Seq<char>, platform: Platform) -> Seq<char> {
    match platform {
        Platform::Windows => joined3(root, "app"@, "node"@, "node.exe"@, platform),
        Platform::Linux => joined(joined3(root, "app"@, "node"@, "bin"@, platform), "node"@, platform),
    }
}

/// The private runtime's package manager.
pub open spec fn npm_program(root: Seq<char>, platform: Platform) -> Seq<char> {
    match platform {
        Platform::Windows => joined3(root, "app"@, "node"@, "npm.cmd"@, platform),
        Platform::Linux => joined(joined3(root, "app"@, "node"@, "bin"@, platform), "npm"@, platform),
    }
}

pub fn wrapper_path(info: &InstallInfo, platform: Platform) -> (path: String)
    ensures
        path@ == wrapper_dir(info.path@, platform),
{
    join(info.app_path(platform).as_str(), "roxy-main", platform)
}

pub fn unpacked_path(info: &InstallInfo, platform: Platform) -> (path: String)
    ensures
        path@ == unpacked_dir(info.path@, platform),
{
    join(wrapper_path(info, platform).as_str(), "roxy", platform)
}

pub fn env_file(info: &InstallInfo, platform: Platform) -> (path: String)
    ensures
        path@ == env_path(info.path@, platform),
{
    join(info.roxy_path(platform).as_str(), ".env", platform)
}

pub fn script_file(info: &InstallInfo, platform: Platform) -> (path: String)
    ensures
        path@ == script_path(info.path@, platform),
{
    join(info.roxy_path(platform).as_str(), "build.sh", platform)
}

pub fn manifest_file(info: &InstallInfo, platform: Platform) -> (path: String)
    ensures
        path@ == manifest_path(info.path@, platform),
{
    join(info.roxy_path(platform).as_str(), "package.json", platform)
}

pub fn entry_file(info: &InstallInfo, platform: Platform) -> (path: String)
    ensures
        path@ == entry_path(info.path@, platform),
{
    let dist = join(info.roxy_path(platform).as_str(), "dist", platform);
    join(dist.as_str(), "index.js", platform)
}

pub fn node_file(info: &InstallInfo, platform: Platform) -> (path: String)
    ensures
        path@ == node_program(info.path@, platform),
{
    let node = info.node_path(platform);
    match platform {
        Platform::Windows => join(node.as_str(), "node.exe", platform),
        Platform::Linux => {
            let bin = join(node.as_str(), "bin", platform);
            join(bin.as_str(), "node", platform)
        },
    }
}

pub fn npm_file(info: &InstallInfo, platform: Platform) -> (path: String)
    ensures
        path@ == npm_program(info.path@, platform),
{
    let node = info.node_path(platform);
    match platform {
        Platform::Windows => join(node.as_str(), "npm.cmd", platform),
        Platform::Linux => {
            let bin = join(node.as_str(), "bin", platform);
            join(bin.as_str(), "npm", platform)
        },
    }
}

/// What is written to the application's environment file: the data path
/// and the termination token, one `KEY=value` line each.
pub open spec fn env_text(root: Seq<char>, token: Seq<char>) -> Seq<char> {
    "DATA_PATH="@ + root + "\nTERMINATION_TOKEN="@ + token
}

pub fn env_contents(root: &str, token: &str) -> (contents: String)
    ensures
        contents@ == env_text(root@, token@),
{
    let mut contents = String::from_str("DATA_PATH=");
    contents.append(root);
    contents.append("\nTERMINATION_TOKEN=");
    contents.append(token);
    contents
}

/// The build script: it puts the private runtime first on the search path.
pub open spec fn script_text() -> Seq<char> {
    "\n      #!/bin/bash\n      export PATH=\"../node/bin:$PATH\"\n      export NODE_PATH=\"../node/lib/node_modules\"\n      npm run build\n    "@
}

pub fn script_contents() -> (contents: String)
    ensures
        contents@ == script_text(),
{
    String::from_str(
        "\n      #!/bin/bash\n      export PATH=\"../node/bin:$PATH\"\n      export NODE_PATH=\"../node/lib/node_modules\"\n      npm run build\n    ",
    )
}

/// The permission bits of the build script once it is made executable.
pub open spec fn executable_bits(mode: u32) -> u32 {
    mode | 0o755
}

pub fn executable_mode(mode: u32) -> (bits: u32)
    ensures
        bits == executable_bits(mode),
{
    mode | 0o755
}

/// The command that installs the application's dependencies with the
/// private runtime.
pub open spec fn dependency_command(root: Seq<char>, platform: Platform) -> CommandView {
    match platform {
        Platform::Windows => CommandView {
            program: npm_program(root, platform),
            args: seq!["install"@],
            dir: Some(InstallInfo::roxy_dir(root, platform)),
        },
        Platform::Linux => CommandView {
            program: node_program(root, platform),
            args: seq![npm_program(root, platform), "install"@],
            dir: Some(InstallInfo::roxy_dir(root, platform)),
        },
    }
}

/// The command that builds the application.
pub open spec fn build_command(root: Seq<char>, platform: Platform) -> CommandView {
    match platform {
        Platform::Windows => CommandView {
            program: npm_program(root, platform),
            args: seq!["run"@, "build"@],
            dir: Some(InstallInfo::roxy_dir(root, platform)),
        },
        Platform::Linux => CommandView {
            program: "sh"@,
            args: seq![script_path(root, platform)],
            dir: Some(InstallInfo::roxy_dir(root, platform)),
        },
    }
}

/// The command that starts the application with the private runtime.
pub open spec fn start_command(root: Seq<char>, platform: Platform) -> CommandView {
    CommandView {
        program: node_program(root, platform),
        args: seq![entry_path(root, platform)],
        dir: None,
    }
}

pub fn install_dependencies(info: &InstallInfo, platform: Platform) -> (command: Command)
    ensures
        command@ == dependency_command(info.path@, platform),
{
    match platform {
        Platform::Windows => {
            let command = Command::new(npm_file(info, platform)).arg(
                String::from_str("install"),
            ).within(info.roxy_path(platform));
            assert(command@.args =~= seq!["install"@]);
            command
        },
        Platform::Linux => {
            let command = Command::new(node_file(info, platform)).arg(npm_file(info, platform)).arg(
                String::from_str("install"),
            ).within(info.roxy_path(platform));
            assert(command@.args =~= seq![npm_program(info.path@, platform), "install"@]);
            command
        },
    }
}

pub fn build(info: &InstallInfo, platform: Platform) -> (command: Command)
    ensures
        command@ == build_command(info.path@, platform),
{
    match platform {
        Platform::Windows => {
            let command = Command::new(npm_file(info, platform)).arg(String::from_str("run")).arg(
                String::from_str("build"),
            ).within(info.roxy_path(platform));
            assert(command@.args =~= seq!["run"@, "build"@]);
            command
        },
        Platform::Linux => {
            let command = Command::new(String::from_str("sh")).arg(
                script_file(info, platform),
            ).within(info.roxy_path(platform));
            assert(command@.args =~= seq![script_path(info.path@, platform)]);
            command
        },
    }
}

pub fn launch(info: &InstallInfo, platform: Platform) -> (command: Command)
    ensures
        command@ == start_command(info.path@, platform),
{
    let command = Command::new(node_file(info, platform)).arg(entry_file(info, platform));
    assert(command@.args =~= seq![entry_path(info.path@, platform)]);
    command
}

/// The version that the application's manifest reports.
pub open spec fn manifest_version(text: Seq<char>) -> Option<Seq<char>> {
    match json_members(text) {
        None => None,
        Some(members) => text_member(members, "version"@),
    }
}

pub fn version_in(text: &str) -> (version: Option<String>)
    ensures
        crate::text::text_view(version) == manifest_version(text@),
{
    match parse_members(text) {
        None => None,
        Some(members) => text_of(&members, "version"),
    }
}

} // verus!
