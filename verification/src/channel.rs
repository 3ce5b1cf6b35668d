//! The liveness and control channel: the manager keeps no handle on the
//! process it started, it asks and signals over HTTP on localhost.

use vstd::prelude::*;
use vstd::string::*;
use crate::action::{Outcome, OutcomeView};
use crate::fault::Fault;
use crate::json::{
    flag_member, flag_of, json_members, json_object_text, members_view, object_text,
    parse_members, text_member, text_of, JsonValueView, Member, Pair,
};
use crate::paths::{join, joined};
use crate::platform::Platform;
use crate::record::{InstallInfo, InstallInfoView};

verus! {

/// Seconds after which a request is given up. There are no retries.
pub const TIMEOUT_SECS: u64 = 1;

/// Where the application keeps its own configuration.
pub open spec fn config_path(root: Seq<char>, platform: Platform) -> Seq<char> {
    joined(root, "roxy.json"@, platform)
}

/// Where the application writes its log.
pub open spec fn log_path(root: Seq<char>, platform: Platform) -> Seq<char> {
    joined(root, "roxy.log"@, platform)
}

pub fn config_file(root: &str, platform: Platform) -> (path: String)
    ensures
        path@ == config_path(root@, platform),
{
    join(root, "roxy.json", platform)
}

pub fn log_file(root: &str, platform: Platform) -> (path: String)
    ensures
        path@ == log_path(root@, platform),
{
    join(root, "roxy.log", platform)
}

/// The address of `path` on the local instance.
pub open spec fn url_text(use_https: bool, port: Seq<char>, path: Seq<char>) -> Seq<char> {
    (if use_https {
        "https"@
    } else {
        "http"@
    }) + "://localhost:"@ + port + path
}

/// The address that a parsed configuration gives for `path`. The
/// configuration has to name a `port`, as a string, and `useHttps`, as a
/// boolean.
pub open spec fn url_in(members: Option<Seq<(Seq<char>, JsonValueView)>>, path: Seq<char>) -> Result<
    Seq<char>,
    Fault,
> {
    match members {
        None => Err(Fault::Config),
        Some(ms) => match (text_member(ms, "port"@), flag_member(ms, "useHttps"@)) {
            (Some(port), Some(use_https)) => Ok(url_text(use_https, port, path)),
            _ => Err(Fault::Config),
        },
    }
}

/// The address of `path`: empty while nothing is installed or the
/// configuration cannot be read (`config` is `None`), else taken from the
/// configuration.
pub open spec fn built_url(
    info: InstallInfoView,
    config: Option<Seq<char>>,
    path: Seq<char>,
) -> Result<Seq<char>, Fault> {
    if !info.installed {
        Ok(Seq::empty())
    } else {
        match config {
            None => Ok(Seq::empty()),
            Some(text) => url_in(json_members(text), path),
        }
    }
}

/// Composes the address of `path` from a parsed configuration.
pub fn url_from_members(members: &Vec<Member>, path: &str) -> (url: Result<String, Fault>)
    ensures
        crate::text::result_view(url) == url_in(Some(members_view(members@)), path@),
{
    match (text_of(members, "port"), flag_of(members, "useHttps")) {
        (Some(port), Some(use_https)) => {
            let mut url = if use_https {
                String::from_str("https")
            } else {
                String::from_str("http")
            };
            url.append("://localhost:");
            url.append(port.as_str());
            url.append(path);
            Ok(url)
        },
        _ => Err(Fault::Config),
    }
}

/// The address of `path` on the local instance, from the loaded record and
/// the contents of the application's configuration as read just now.
pub fn create_url(info: &InstallInfo, config: Option<&str>, path: &str) -> (url: Result<
    String,
    Fault,
>)
    ensures
        crate::text::result_view(url) == built_url(info@, crate::text::str_view(config), path@),
{
    if !info.installed {
        return Ok(String::new());
    }
    match config {
        None => Ok(String::new()),
        Some(text) => match parse_members(text) {
            None => Err(Fault::Config),
            Some(members) => url_from_members(&members, path),
        },
    }
}

/// Whether the instance is up, from what came of asking it: any response
/// means that it is, none that it is not. One failure settles it.
pub open spec fn alive(outcome: OutcomeView) -> bool {
    outcome is Done
}

pub fn is_running(outcome: &Outcome) -> (running: bool)
    ensures
        running == alive(outcome@),
{
    match outcome {
        Outcome::Done => true,
        _ => false,
    }
}

/// Whether a termination request was accepted, from what came of sending
/// it. That says nothing of whether the process has gone.
pub open spec fn accepted(outcome: OutcomeView) -> bool {
    outcome is Done
}

pub fn was_accepted(outcome: &Outcome) -> (yes: bool)
    ensures
        yes == accepted(outcome@),
{
    match outcome {
        Outcome::Done => true,
        _ => false,
    }
}

/// The body of a termination request.
pub open spec fn termination_text(token: Seq<char>) -> Seq<char> {
    json_object_text(seq![("termination_token"@, token)])
}

pub fn termination_body(token: &str) -> (body: String)
    ensures
        body@ == termination_text(token@),
{
    let mut pairs: Vec<Pair> = Vec::new();
    pairs.push(Pair { key: String::from_str("termination_token"), value: String::from_str(token) });
    assert(crate::json::pairs_view(pairs@) =~= seq![("termination_token"@, token@)]);
    object_text(&pairs)
}

} // verus!
