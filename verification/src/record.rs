//! The persisted manager state: one small record per machine profile that
//! says where the installation lives, which version it reported and which
//! token ends it.

use vstd::prelude::*;
use vstd::string::*;
use crate::action::{Action, ActionView};
use crate::fault::Fault;
use crate::json::{
    json_members, json_object_text, members_view, object_text, parse_members, text_member,
    text_of, JsonValueView, Member, Pair,
};
use crate::paths::{join, joined, joined2, resolve, resolved};
use crate::platform::{Environment, EnvironmentView, Platform};

verus! {

/// What the record file holds.
#[derive(Clone, Debug, PartialEq, Eq)]
pub struct RecordFile {
    pub path: String,
    pub version: String,
    pub termination_token: String,
}

/// A record file, in the terms of contracts.
pub struct RecordView {
    pub path: Seq<char>,
    pub version: Seq<char>,
    pub termination_token: Seq<char>,
}

impl View for RecordFile {
    type V = RecordView;

    open spec fn view(&self) -> RecordView {
        RecordView {
            path: self.path@,
            version: self.version@,
            termination_token: self.termination_token@,
        }
    }
}

/// The view of an optional record.
pub open spec fn record_view(record: Option<RecordFile>) -> Option<RecordView> {
    match record {
        Some(r) => Some(r@),
        None => None,
    }
}

/// The record that a parsed document holds: its three members, each a
/// string. A document that lacks one of them holds no record.
pub open spec fn record_in(members: Option<Seq<(Seq<char>, JsonValueView)>>) -> Option<RecordView> {
    match members {
        None => None,
        Some(ms) => match (
            text_member(ms, "path"@),
            text_member(ms, "version"@),
            text_member(ms, "termination_token"@),
        ) {
            (Some(path), Some(version), Some(termination_token)) => Some(
                RecordView { path, version, termination_token },
            ),
            _ => None,
        },
    }
}

/// The record that the contents of a record file hold; `None` stands for a
/// file that is missing or unreadable.
pub open spec fn record_of(contents: Option<Seq<char>>) -> Option<RecordView> {
    match contents {
        None => None,
        Some(text) => record_in(json_members(text)),
    }
}

/// The members that a record is printed with.
pub open spec fn record_pairs(record: RecordView) -> Seq<(Seq<char>, Seq<char>)> {
    seq![
        ("path"@, record.path),
        ("version"@, record.version),
        ("termination_token"@, record.termination_token),
    ]
}

/// The text that a record is persisted as.
pub open spec fn record_text(record: RecordView) -> Seq<char> {
    json_object_text(record_pairs(record))
}

impl RecordFile {
    pub fn new(path: String, version: String, termination_token: String) -> (record: RecordFile)
        ensures
            record@ == (RecordView {
                path: path@,
                version: version@,
                termination_token: termination_token@,
            }),
    {
        RecordFile { path, version, termination_token }
    }

    /// Reads a record out of the members of a parsed document.
    pub fn from_members(members: &Vec<Member>) -> (record: Option<RecordFile>)
        ensures
            record_view(record) == record_in(Some(members_view(members@))),
    {
        let path = text_of(members, "path");
        let version = text_of(members, "version");
        let termination_token = text_of(members, "termination_token");
        match (path, version, termination_token) {
            (Some(path), Some(version), Some(termination_token)) => Some(
                RecordFile { path, version, termination_token },
            ),
            _ => None,
        }
    }

    /// Reads a record out of the contents of a record file. A missing file,
    /// text that is not JSON and a document that lacks a member all give
    /// `None`.
    pub fn parse(contents: Option<&str>) -> (record: Option<RecordFile>)
        ensures
            record_view(record) == record_of(crate::text::str_view(contents)),
    {
        match contents {
            None => None,
            Some(text) => match parse_members(text) {
                None => None,
                Some(members) => RecordFile::from_members(&members),
            },
        }
    }

    /// Whether two records hold the same three strings.
    pub fn matches(&self, other: &RecordFile) -> (equal: bool)
        ensures
            equal == (self@ == other@),
    {
        self.path == other.path && self.version == other.version && self.termination_token
            == other.termination_token
    }

    /// The text to persist for this record. The text is parsed once more
    /// before it is handed out: a text that would not load back as this
    /// record is refused, so whatever is written can be read.
    pub fn encode(&self) -> (text: Result<String, Fault>)
        ensures
            match text {
                Ok(t) => t@ == record_text(self@) && record_of(Some(t@)) == Some(self@),
                Err(fault) => fault == Fault::Record && record_of(Some(record_text(self@)))
                    != Some(self@),
            },
    {
        let mut pairs: Vec<Pair> = Vec::new();
        pairs.push(Pair { key: String::from_str("path"), value: self.path.clone() });
        pairs.push(Pair { key: String::from_str("version"), value: self.version.clone() });
        pairs.push(
            Pair {
                key: String::from_str("termination_token"),
                value: self.termination_token.clone(),
            },
        );
        assert(crate::json::pairs_view(pairs@) =~= record_pairs(self@));
        let text = object_text(&pairs);
        match RecordFile::parse(Some(text.as_str())) {
            Some(back) => if back.matches(self) {
                Ok(text)
            } else {
                Err(Fault::Record)
            },
            None => Err(Fault::Record),
        }
    }
}

/// The text a record's `encode` hands out, or the fault it reports.
pub open spec fn encoded(record: RecordView) -> Result<Seq<char>, Fault> {
    if record_of(Some(record_text(record))) == Some(record) {
        Ok(record_text(record))
    } else {
        Err(Fault::Record)
    }
}

/// What is known of the installation after the record was loaded.
#[derive(Clone, Debug, PartialEq, Eq)]
pub struct InstallInfo {
    /// True only when a record exists and the root it names is on disk.
    pub installed: bool,
    pub version: String,
    /// The install root: absolute and cleaned.
    pub path: String,
    pub termination_token: String,
}

/// A loaded record, in the terms of contracts.
pub struct InstallInfoView {
    pub installed: bool,
    pub version: Seq<char>,
    pub path: Seq<char>,
    pub termination_token: Seq<char>,
}

impl View for InstallInfo {
    type V = InstallInfoView;

    open spec fn view(&self) -> InstallInfoView {
        InstallInfoView {
            installed: self.installed,
            version: self.version@,
            path: self.path@,
            termination_token: self.termination_token@,
        }
    }
}

/// The version shown while none is known.
pub open spec fn unknown_version() -> Seq<char> {
    "---"@
}

/// Name of the manager's private directory below the profile directory.
pub open spec fn cli_dir_name(platform: Platform) -> Seq<char> {
    match platform {
        Platform::Windows => "roxy-cli"@,
        Platform::Linux => ".roxy-cli"@,
    }
}

/// The manager's private directory.
pub open spec fn cli_dir(env: EnvironmentView) -> Seq<char> {
    joined(env.profile_dir, cli_dir_name(env.platform), env.platform)
}

/// Where the record file lives.
pub open spec fn cli_config_path(env: EnvironmentView) -> Seq<char> {
    joined(cli_dir(env), "roxy-cli.json"@, env.platform)
}

/// The install root used when none is given.
pub open spec fn default_root(env: EnvironmentView) -> Seq<char> {
    joined(env.profile_dir, "roxy"@, env.platform)
}

/// A record that claims no installation at `path`.
pub open spec fn absent_at(path: Seq<char>) -> InstallInfoView {
    InstallInfoView {
        installed: false,
        version: unknown_version(),
        path,
        termination_token: Seq::empty(),
    }
}

/// The "not installed" record.
pub open spec fn default_info(env: EnvironmentView) -> InstallInfoView {
    absent_at(default_root(env))
}

/// The record an install starts from: not installed, at the root that the
/// optional path argument stands for.
pub open spec fn planned_info(path: Option<Seq<char>>, env: EnvironmentView) -> InstallInfoView {
    match path {
        Some(p) => absent_at(resolved(p, env.current_dir, env.platform)),
        None => default_info(env),
    }
}

/// What loading yields from the record found and from whether the root it
/// names exists on disk.
pub open spec fn loaded_info(
    record: Option<RecordView>,
    root_exists: bool,
    env: EnvironmentView,
) -> InstallInfoView {
    match record {
        None => default_info(env),
        Some(r) => InstallInfoView {
            installed: root_exists,
            version: if root_exists {
                r.version
            } else {
                unknown_version()
            },
            path: r.path,
            termination_token: r.termination_token,
        },
    }
}

impl InstallInfo {
    /// The "not installed" record.
    pub fn default(env: &Environment) -> (info: InstallInfo)
        ensures
            info@ == default_info(env@),
    {
        InstallInfo::absent(InstallInfo::get_default_path(env))
    }

    /// A record that claims no installation at `path`.
    pub fn absent(path: String) -> (info: InstallInfo)
        ensures
            info@ == absent_at(path@),
    {
        InstallInfo {
            installed: false,
            version: String::from_str("---"),
            path,
            termination_token: String::new(),
        }
    }

    /// The record an install starts from. A path argument is made absolute
    /// against the current directory and cleaned; without one the default
    /// root is taken.
    pub fn with_or_default(p: Option<String>, env: &Environment) -> (info: InstallInfo)
        ensures
            info@ == planned_info(crate::text::text_view(p), env@),
    {
        match p {
            Some(p) => InstallInfo::absent(
                resolve(p.as_str(), env.current_dir.as_str(), env.platform),
            ),
            None => InstallInfo::default(env),
        }
    }

    /// Loads from a parsed record and from whether the root it names exists.
    pub fn from_record(record: Option<RecordFile>, root_exists: bool, env: &Environment) -> (info:
        InstallInfo)
        ensures
            info@ == loaded_info(record_view(record), root_exists, env@),
    {
        match record {
            None => InstallInfo::default(env),
            Some(r) => InstallInfo {
                installed: root_exists,
                version: if root_exists {
                    r.version
                } else {
                    String::from_str("---")
                },
                path: r.path,
                termination_token: r.termination_token,
            },
        }
    }

    /// Loads the record from the contents of the record file (`None`: the
    /// file is missing or unreadable) and from whether the root it names
    /// exists on disk. Contents that hold no record give the default
    /// record; this never fails.
    pub fn get(contents: Option<&str>, root_exists: bool, env: &Environment) -> (info: InstallInfo)
        ensures
            info@ == loaded_info(record_of(crate::text::str_view(contents)), root_exists, env@),
    {
        InstallInfo::from_record(RecordFile::parse(contents), root_exists, env)
    }

    /// The text to write to the record file for an installation at `path`.
    pub fn write(path: &str, version: &str, termination_token: &str) -> (text: Result<
        String,
        Fault,
    >)
        ensures
            crate::text::result_view(text) == encoded(
                RecordView {
                    path: path@,
                    version: version@,
                    termination_token: termination_token@,
                },
            ),
    {
        let record = RecordFile {
            path: String::from_str(path),
            version: String::from_str(version),
            termination_token: String::from_str(termination_token),
        };
        record.encode()
    }

    /// What resets the persisted state: the record file is removed, and
    /// that there is none is no failure.
    pub fn reset(env: &Environment) -> (action: Action)
        ensures
            action@ == (ActionView::Forget { path: cli_config_path(env@) }),
    {
        Action::Forget { path: InstallInfo::get_cli_config_path(env) }
    }

    /// The directory that holds the runtime and the application.
    pub open spec fn app_dir(root: Seq<char>, platform: Platform) -> Seq<char> {
        joined(root, "app"@, platform)
    }

    /// The directory of the private runtime.
    pub open spec fn node_dir(root: Seq<char>, platform: Platform) -> Seq<char> {
        joined2(root, "app"@, "node"@, platform)
    }

    /// The directory of the application.
    pub open spec fn roxy_dir(root: Seq<char>, platform: Platform) -> Seq<char> {
        joined2(root, "app"@, "roxy"@, platform)
    }

    pub fn app_path(&self, platform: Platform) -> (path: String)
        ensures
            path@ == InstallInfo::app_dir(self.path@, platform),
    {
        join(self.path.as_str(), "app", platform)
    }

    pub fn node_path(&self, platform: Platform) -> (path: String)
        ensures
            path@ == InstallInfo::node_dir(self.path@, platform),
    {
        join(self.app_path(platform).as_str(), "node", platform)
    }

    pub fn roxy_path(&self, platform: Platform) -> (path: String)
        ensures
            path@ == InstallInfo::roxy_dir(self.path@, platform),
    {
        join(self.app_path(platform).as_str(), "roxy", platform)
    }

    /// The manager's private directory.
    pub fn get_roxy_cli_path(env: &Environment) -> (path: String)
        ensures
            path@ == cli_dir(env@),
    {
        match env.platform {
            Platform::Windows => join(env.profile_dir.as_str(), "roxy-cli", env.platform),
            Platform::Linux => join(env.profile_dir.as_str(), ".roxy-cli", env.platform),
        }
    }

    /// Where the record file lives.
    pub fn get_cli_config_path(env: &Environment) -> (path: String)
        ensures
            path@ == cli_config_path(env@),
    {
        join(InstallInfo::get_roxy_cli_path(env).as_str(), "roxy-cli.json", env.platform)
    }

    /// The install root used when none is given: a function of the
    /// environment alone.
    pub fn get_default_path(env: &Environment) -> (path: String)
        ensures
            path@ == default_root(env@),
    {
        join(env.profile_dir.as_str(), "roxy", env.platform)
    }

    /// A copy of this record.
    pub fn duplicate(&self) -> (info: InstallInfo)
        ensures
            info@ == self@,
    {
        InstallInfo {
            installed: self.installed,
            version: self.version.clone(),
            path: self.path.clone(),
            termination_token: self.termination_token.clone(),
        }
    }
}

/// Whatever the record file holds: while the root that it names is not on
/// disk, it loads as not installed, with the unknown version.
pub proof fn stale_record_is_not_installed(contents: Option<Seq<char>>, env: EnvironmentView)
    ensures
        !loaded_info(record_of(contents), false, env).installed,
        loaded_info(record_of(contents), false, env).version == unknown_version(),
{
}

/// A record file that is missing, that is not the text of a JSON object,
/// or that lacks one of the three members loads as the default record,
/// whatever is on disk. Loading never fails.
pub proof fn unusable_record_is_default(
    contents: Option<Seq<char>>,
    root_exists: bool,
    env: EnvironmentView,
)
    requires
        contents matches Some(text) ==> record_in(json_members(text)) is None,
    ensures
        loaded_info(record_of(contents), root_exists, env) == default_info(env),
{
}

/// Whatever `write` hands out for a root, a version and a token loads back,
/// while the root exists, as an installation with exactly these three.
pub proof fn written_record_loads_back(record: RecordView, env: EnvironmentView)
    requires
        encoded(record) is Ok,
    ensures
        loaded_info(record_of(Some(encoded(record)->Ok_0)), true, env) == (InstallInfoView {
            installed: true,
            version: record.version,
            path: record.path,
            termination_token: record.termination_token,
        }),
{
}

/// The default install root depends on nothing but the platform and the
/// profile directory.
pub proof fn default_root_is_determined(a: EnvironmentView, b: EnvironmentView)
    requires
        a.platform == b.platform,
        a.profile_dir == b.profile_dir,
    ensures
        default_root(a) == default_root(b),
{
}

} // verus!
