//! The two supported host platforms and the environment an operation runs in.

use vstd::prelude::*;
use vstd::string::*;

verus! {

/// The host platform. Everything that differs between hosts (archive
/// formats, executable names, the autostart mechanism) is selected by this
/// value, chosen once when the manager starts.
#[derive(Clone, Copy, Debug, PartialEq, Eq, Structural)]
pub enum Platform {
    Windows,
    Linux,
}

impl Platform {
    /// Name of the environment variable that holds the user's profile
    /// directory, from which every default location is derived.
    pub open spec fn profile_variable_text(self) -> Seq<char> {
        match self {
            Platform::Windows => "LOCALAPPDATA"@,
            Platform::Linux => "HOME"@,
        }
    }

    pub fn profile_variable(self) -> (name: &'static str)
        ensures
            name@ == self.profile_variable_text(),
    {
        match self {
            Platform::Windows => "LOCALAPPDATA",
            Platform::Linux => "HOME",
        }
    }

    /// The separator written between path components.
    pub open spec fn separator(self) -> char {
        match self {
            Platform::Windows => '\\',
            Platform::Linux => '/',
        }
    }

    /// Whether `c` ends a path component. Windows accepts both slashes.
    pub open spec fn is_separator(self, c: char) -> bool {
        match self {
            Platform::Windows => c == '\\' || c == '/',
            Platform::Linux => c == '/',
        }
    }

    pub fn separates(self, c: char) -> (r: bool)
        ensures
            r == self.is_separator(c),
    {
        match self {
            Platform::Windows => c == '\\' || c == '/',
            Platform::Linux => c == '/',
        }
    }
}

/// What the manager knows of its surroundings before it touches anything:
/// the platform, the user's profile directory (the value of
/// `profile_variable`) and the current working directory.
#[derive(Clone, Debug, PartialEq, Eq)]
pub struct Environment {
    pub platform: Platform,
    pub profile_dir: String,
    pub current_dir: String,
}

/// An environment, in the terms of contracts.
pub struct EnvironmentView {
    pub platform: Platform,
    pub profile_dir: Seq<char>,
    pub current_dir: Seq<char>,
}

impl View for Environment {
    type V = EnvironmentView;

    open spec fn view(&self) -> EnvironmentView {
        EnvironmentView {
            platform: self.platform,
            profile_dir: self.profile_dir@,
            current_dir: self.current_dir@,
        }
    }
}

impl Environment {
    pub fn new(platform: Platform, profile_dir: String, current_dir: String) -> (env: Environment)
        ensures
            env@ == (EnvironmentView {
                platform,
                profile_dir: profile_dir@,
                current_dir: current_dir@,
            }),
    {
        Environment { platform, profile_dir, current_dir }
    }

    /// A copy of this environment.
    pub fn duplicate(&self) -> (env: Environment)
        ensures
            env@ == self@,
    {
        Environment {
            platform: self.platform,
            profile_dir: self.profile_dir.clone(),
            current_dir: self.current_dir.clone(),
        }
    }
}

} // verus!
