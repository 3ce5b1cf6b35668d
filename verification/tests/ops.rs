use roxy_cli::action::{Action, Command, DirEntry, Outcome, Step};
use roxy_cli::args::{
    AutostartCommand, AutostartSubcommand, InstallCommand, RoxyCliArgs, RoxySubcommand,
};
use roxy_cli::fault::Fault;
use roxy_cli::notice::{Note, Notice};
use roxy_cli::ops::{
    advance, autostart_disable, autostart_enable, autostart_status, config, install, logs,
    restart, start, status, stop, uninstall, update,
};
use roxy_cli::platform::{Environment, Platform};
use roxy_cli::session::{survey, Operation, Phase, Probe, Session, Survey};
use std::collections::{BTreeMap, BTreeSet, VecDeque};

const RECORD: &str = "/home/u/.roxy-cli/roxy-cli.json";
const AUTOSTART: &str = "/home/u/.config/autostart/roxy";

/// A machine in memory, on which the steps of an operation are performed.
struct World {
    files: BTreeMap<String, String>,
    dirs: BTreeSet<String>,
    answers: VecDeque<String>,
    alive: bool,
    accepts_termination: bool,
    manifest: String,
    registry: bool,
    /// How many pauses a stopped instance keeps answering for.
    lingers: u32,
    trace: Vec<Action>,
    broken: Option<fn(&Action) -> bool>,
}

fn env() -> Environment {
    Environment::new(Platform::Linux, "/home/u".to_string(), "/work".to_string())
}

fn windows() -> Environment {
    Environment::new(Platform::Windows, "C:\\Users\\u".to_string(), "C:\\work".to_string())
}

impl World {
    fn empty() -> World {
        let mut dirs = BTreeSet::new();
        dirs.insert("/home/u".to_string());
        dirs.insert("/home/u/.config/autostart".to_string());
        World {
            files: BTreeMap::new(),
            dirs,
            answers: VecDeque::new(),
            alive: false,
            accepts_termination: true,
            manifest: r#"{"name": "roxy", "version": "0.9.2"}"#.to_string(),
            registry: false,
            lingers: 0,
            trace: Vec::new(),
            broken: None,
        }
    }

    fn installed(root: &str) -> World {
        let mut world = World::empty();
        world.dirs.insert(root.to_string());
        world.dirs.insert(format!("{}/app", root));
        world.dirs.insert(format!("{}/app/roxy", root));
        world.dirs.insert("/home/u/.roxy-cli".to_string());
        world.files.insert(format!("{}/app/roxy/package.json", root), world.manifest.clone());
        world.files.insert(format!("{}/data.db", root), "data".to_string());
        world.files.insert(
            format!("{}/roxy.json", root),
            r#"{"port": "4000", "useHttps": false}"#.to_string(),
        );
        world.files.insert(
            RECORD.to_string(),
            format!(r#"{{"path":"{}","termination_token":"SECRETtoken123","version":"0.9.2"}}"#, root),
        );
        world
    }

    fn answer(mut self, line: &str) -> World {
        self.answers.push_back(line.to_string());
        self
    }

    fn present(&self, path: &str) -> bool {
        self.files.contains_key(path) || self.dirs.contains(path)
    }

    fn below(path: &str, dir: &str) -> bool {
        path == dir || path.starts_with(&format!("{}/", dir))
    }

    fn make_dirs(&mut self, path: &str) {
        let mut at = String::new();
        for part in path.split('/').filter(|p| !p.is_empty()) {
            at.push('/');
            at.push_str(part);
            self.dirs.insert(at.clone());
        }
    }

    fn remove_tree(&mut self, dir: &str) -> bool {
        if !self.dirs.contains(dir) {
            return false;
        }
        self.dirs.retain(|d| !World::below(d, dir));
        self.files.retain(|f, _| !World::below(f, dir));
        true
    }

    fn rename(&mut self, from: &str, to: &str) -> bool {
        if !self.present(from) || self.dirs.contains(to) {
            return false;
        }
        let dirs: Vec<String> = self.dirs.iter().filter(|d| World::below(d, from)).cloned().collect();
        for d in dirs {
            self.dirs.remove(&d);
            self.dirs.insert(format!("{}{}", to, &d[from.len()..]));
        }
        let files: Vec<String> = self.files.keys().filter(|f| World::below(f, from)).cloned().collect();
        for f in files {
            let contents = self.files.remove(&f).unwrap();
            self.files.insert(format!("{}{}", to, &f[from.len()..]), contents);
        }
        true
    }

    fn run(&mut self, command: &Command) -> Outcome {
        if command.program == "tar" {
            let archive = &command.args[1];
            let dest = command.args[3].clone();
            if !self.files.contains_key(archive) || !self.dirs.contains(&dest) {
                return Outcome::Flag(false);
            }
            if archive.ends_with("node.tar.gz") {
                self.make_dirs(&format!("{}/node-v18.16.0-linux-x64/bin", dest));
            } else {
                self.make_dirs(&format!("{}/roxy-main/roxy", dest));
                self.files.insert(format!("{}/roxy-main/README.md", dest), "readme".to_string());
                let manifest = self.manifest.clone();
                self.files.insert(format!("{}/roxy-main/roxy/package.json", dest), manifest);
            }
            return Outcome::Flag(true);
        }
        if command.program == "reg" {
            return match command.args[0].as_str() {
                "query" => Outcome::Flag(self.registry),
                "add" => {
                    self.registry = true;
                    Outcome::Flag(true)
                },
                _ => {
                    self.registry = false;
                    Outcome::Flag(true)
                },
            };
        }
        Outcome::Flag(true)
    }

    fn perform(&mut self, action: &Action) -> Outcome {
        self.trace.push(action.clone());
        if let Some(broken) = self.broken {
            if broken(action) {
                return match action {
                    Action::Run { .. } => Outcome::Flag(false),
                    _ => Outcome::Failed,
                };
            }
        }
        let done = |ok: bool| if ok { Outcome::Done } else { Outcome::Failed };
        match action {
            Action::ReadText { path } => match self.files.get(path) {
                Some(text) => Outcome::Text(text.clone()),
                None => Outcome::Failed,
            },
            Action::PathExists { path } => Outcome::Flag(self.present(path)),
            Action::ListDir { path } => {
                if !self.dirs.contains(path) {
                    return Outcome::Failed;
                }
                let prefix = format!("{}/", path);
                let child = |p: &String| p.starts_with(&prefix) && !p[prefix.len()..].contains('/');
                let mut entries = Vec::new();
                for d in self.dirs.iter().filter(|d| child(d)) {
                    entries.push(DirEntry { name: d[prefix.len()..].to_string(), is_dir: true });
                }
                for f in self.files.keys().filter(|f| child(f)) {
                    entries.push(DirEntry { name: f[prefix.len()..].to_string(), is_dir: false });
                }
                Outcome::Entries(entries)
            },
            Action::Get { .. } => done(self.alive),
            Action::Post { .. } => {
                if self.alive && self.accepts_termination {
                    self.alive = self.lingers > 0;
                    Outcome::Done
                } else {
                    Outcome::Failed
                }
            },
            Action::Ask { .. } => match self.answers.pop_front() {
                Some(line) => Outcome::Text(line),
                None => Outcome::Failed,
            },
            Action::RemoveDirAll { path } => done(self.remove_tree(path)),
            Action::RemoveFile { path } => done(self.files.remove(path).is_some()),
            Action::Forget { path } => {
                self.files.remove(path);
                Outcome::Done
            },
            Action::CreateDirAll { path } => {
                self.make_dirs(path);
                Outcome::Done
            },
            Action::Rename { from, to } => done(self.rename(from, to)),
            Action::WriteText { path, contents } => {
                self.files.insert(path.clone(), contents.clone());
                Outcome::Done
            },
            Action::AppendLine { path, line } => {
                let text = self.files.entry(path.clone()).or_default();
                text.push_str(line);
                text.push('\n');
                Outcome::Done
            },
            Action::MakeExecutable { path } => done(self.files.contains_key(path)),
            Action::Download { url, dest } => {
                self.files.insert(dest.clone(), format!("archive from {}", url));
                Outcome::Done
            },
            Action::Run { command } => self.run(command),
            Action::Spawn { command } => {
                if let Some(root) = command.program.strip_suffix("/app/node/bin/node") {
                    self.files.entry(format!("{}/roxy.json", root)).or_insert(
                        r#"{"port": "4000", "useHttps": false}"#.to_string(),
                    );
                }
                self.alive = true;
                Outcome::Done
            },
            Action::CopySelf { dest } => {
                self.files.insert(dest.clone(), "executable".to_string());
                Outcome::Done
            },
            Action::Open { path } => done(self.files.contains_key(path)),
            Action::Pause { .. } => {
                if self.lingers > 0 {
                    self.lingers -= 1;
                    self.alive = self.lingers > 0;
                }
                Outcome::Done
            },
            Action::Finish | Action::Fail { .. } => Outcome::Done,
        }
    }
}

/// Runs an operation to its end; hands back what was said and how it ended.
fn run_in(world: &mut World, operation: Operation, requested: Option<&str>, env: Environment) -> (Vec<String>, Action) {
    let mut session = Session::new(operation, requested.map(|p| p.to_string()), env);
    let mut outcome = Outcome::Done;
    let mut said = Vec::new();
    for _ in 0..200 {
        let (next, step) = advance(session, outcome);
        session = next;
        for note in &step.notes {
            said.push(note.text());
        }
        match step.action {
            Action::Finish | Action::Fail { .. } => {
                assert_eq!(session.phase, Phase::Over);
                return (said, step.action);
            },
            action => outcome = world.perform(&action),
        }
    }
    panic!("the operation did not end");
}

fn run(world: &mut World, operation: Operation) -> (Vec<String>, Action) {
    run_in(world, operation, None, env())
}

fn mutations(world: &World) -> Vec<Action> {
    world
        .trace
        .iter()
        .filter(|a| {
            !matches!(
                a,
                Action::ReadText { .. }
                    | Action::PathExists { .. }
                    | Action::ListDir { .. }
                    | Action::Get { .. }
                    | Action::Post { .. }
                    | Action::Ask { .. }
            )
        })
        .cloned()
        .collect()
}

fn requests(world: &World) -> usize {
    world
        .trace
        .iter()
        .filter(|a| matches!(a, Action::Get { .. } | Action::Post { .. } | Action::Download { .. }))
        .count()
}

#[test]
fn status_of_an_empty_machine() {
    let mut world = World::empty();
    let (said, end) = run(&mut world, Operation::Status);
    assert_eq!(
        said,
        vec!["Loading...", "Installation: Not Installed ", "Version: ---", "Status: Stopped"]
    );
    assert_eq!(end, Action::Finish);
    assert_eq!(world.trace, vec![Action::ReadText { path: RECORD.to_string() }]);
    assert_eq!(requests(&world), 0);
}

#[test]
fn status_of_a_running_installation() {
    let mut world = World::installed("/opt/roxy");
    world.alive = true;
    let (said, end) = run(&mut world, Operation::Status);
    assert_eq!(
        said,
        vec![
            "Loading...",
            "Installation: Installed (\"/opt/roxy\")",
            "Version: 0.9.2",
            "Status: Running"
        ]
    );
    assert_eq!(end, Action::Finish);
    assert_eq!(
        world.trace,
        vec![
            Action::ReadText { path: RECORD.to_string() },
            Action::PathExists { path: "/opt/roxy".to_string() },
            Action::ReadText { path: "/opt/roxy/roxy.json".to_string() },
            Action::Get { url: "http://localhost:4000/alive".to_string(), timeout_secs: 1 },
        ]
    );
}

#[test]
fn status_with_a_stale_record() {
    let mut world = World::installed("/opt/roxy");
    world.remove_tree("/opt/roxy");
    let (said, _) = run(&mut world, Operation::Status);
    assert_eq!(
        said,
        vec!["Loading...", "Installation: Not Installed ", "Version: ---", "Status: Stopped"]
    );
    assert_eq!(requests(&world), 0);
}

#[test]
fn status_with_a_corrupt_record() {
    let mut world = World::installed("/opt/roxy");
    world.files.insert(RECORD.to_string(), "{\"path\": ".to_string());
    let (said, end) = run(&mut world, Operation::Status);
    assert_eq!(said[1], "Installation: Not Installed ");
    assert_eq!(end, Action::Finish);
}

#[test]
fn status_with_a_malformed_config_fails() {
    let mut world = World::installed("/opt/roxy");
    world.files.insert("/opt/roxy/roxy.json".to_string(), r#"{"port": 4000}"#.to_string());
    let (_, end) = run(&mut world, Operation::Status);
    assert_eq!(end, Action::Fail { fault: Fault::Config });
}

#[test]
fn status_without_config_is_stopped() {
    let mut world = World::installed("/opt/roxy");
    world.files.remove("/opt/roxy/roxy.json");
    world.alive = true;
    let (said, _) = run(&mut world, Operation::Status);
    assert_eq!(said[3], "Status: Stopped");
    assert_eq!(requests(&world), 0);
}

#[test]
fn update_is_a_placeholder() {
    let mut world = World::empty();
    let (said, end) = run(&mut world, Operation::Update);
    assert_eq!(said, vec!["Update: not yet implemented"]);
    assert_eq!(end, Action::Finish);
    assert!(world.trace.is_empty());
}

#[test]
fn start_needs_an_installation() {
    let mut world = World::empty();
    let (said, end) = run(&mut world, Operation::Start);
    assert_eq!(said, vec!["Roxy is not installed"]);
    assert_eq!(end, Action::Finish);
    assert!(mutations(&world).is_empty());
}

#[test]
fn start_spawns_the_entry_point() {
    let mut world = World::installed("/opt/roxy");
    let (said, end) = run(&mut world, Operation::Start);
    assert_eq!(said, vec!["Roxy has been started!"]);
    assert_eq!(end, Action::Finish);
    assert_eq!(
        mutations(&world),
        vec![Action::Spawn {
            command: Command {
                program: "/opt/roxy/app/node/bin/node".to_string(),
                args: vec!["/opt/roxy/app/roxy/dist/index.js".to_string()],
                dir: None,
            }
        }]
    );
    assert!(world.alive);
}

#[test]
fn start_twice_reports_running() {
    let mut world = World::installed("/opt/roxy");
    run(&mut world, Operation::Start);
    world.trace.clear();
    let (said, _) = run(&mut world, Operation::Start);
    assert_eq!(said, vec!["Roxy is already running"]);
    assert!(mutations(&world).is_empty());
}

#[test]
fn start_that_cannot_spawn_fails() {
    let mut world = World::installed("/opt/roxy");
    world.broken = Some(|a| matches!(a, Action::Spawn { .. }));
    let (said, end) = run(&mut world, Operation::Start);
    assert!(said.is_empty());
    assert_eq!(end, Action::Fail { fault: Fault::Start });
}

#[test]
fn stop_when_not_running() {
    let mut world = World::installed("/opt/roxy");
    let (said, end) = run(&mut world, Operation::Stop);
    assert_eq!(said, vec!["Loading...", "Roxy is not running"]);
    assert_eq!(end, Action::Finish);
    assert!(!world.trace.iter().any(|a| matches!(a, Action::Post { .. })));
}

#[test]
fn stop_when_not_installed() {
    let mut world = World::empty();
    let (said, _) = run(&mut world, Operation::Stop);
    assert_eq!(said, vec!["Loading...", "Roxy is not running"]);
    assert_eq!(requests(&world), 0);
}

#[test]
fn stop_posts_the_token() {
    let mut world = World::installed("/opt/roxy");
    world.alive = true;
    let (said, end) = run(&mut world, Operation::Stop);
    assert_eq!(said, vec!["Loading...", "Successfully stopped roxy"]);
    assert_eq!(end, Action::Finish);
    assert_eq!(
        world.trace.last(),
        Some(&Action::Post {
            url: "http://localhost:4000/terminate".to_string(),
            body: r#"{"termination_token":"SECRETtoken123"}"#.to_string(),
            timeout_secs: 1,
        })
    );
    assert!(!world.alive);
}

#[test]
fn stop_that_is_not_accepted() {
    let mut world = World::installed("/opt/roxy");
    world.alive = true;
    world.accepts_termination = false;
    let (said, end) = run(&mut world, Operation::Stop);
    assert_eq!(said, vec!["Loading...", "Failed to stop roxy"]);
    assert_eq!(end, Action::Finish);
}

#[test]
fn restart_of_a_stopped_installation_starts_it() {
    let mut world = World::installed("/opt/roxy");
    let (said, end) = run(&mut world, Operation::Restart);
    assert_eq!(said, vec!["Loading...", "Roxy has been started!"]);
    assert_eq!(end, Action::Finish);
    assert!(world.alive);
    assert!(!world.trace.iter().any(|a| matches!(a, Action::Post { .. })));
}

#[test]
fn restart_of_a_running_installation_stops_it_first() {
    let mut world = World::installed("/opt/roxy");
    world.alive = true;
    let (said, end) = run(&mut world, Operation::Restart);
    assert_eq!(said, vec!["Loading...", "Successfully stopped roxy", "Roxy has been started!"]);
    assert_eq!(end, Action::Finish);
    let post = world.trace.iter().position(|a| matches!(a, Action::Post { .. })).unwrap();
    let spawn = world.trace.iter().position(|a| matches!(a, Action::Spawn { .. })).unwrap();
    assert!(post < spawn);
}

#[test]
fn restart_waits_for_the_instance_to_go() {
    let mut world = World::installed("/opt/roxy");
    world.alive = true;
    world.lingers = 3;
    let (said, end) = run(&mut world, Operation::Restart);
    assert_eq!(said, vec!["Loading...", "Successfully stopped roxy", "Roxy has been started!"]);
    assert_eq!(end, Action::Finish);
    let pauses = world.trace.iter().filter(|a| matches!(a, Action::Pause { millis: 500 })).count();
    assert_eq!(pauses, 3);
}

#[test]
fn restart_gives_up_waiting() {
    let mut world = World::installed("/opt/roxy");
    world.alive = true;
    world.lingers = 1000;
    let (said, end) = run(&mut world, Operation::Restart);
    assert_eq!(said, vec!["Loading...", "Successfully stopped roxy", "Roxy is already running"]);
    assert_eq!(end, Action::Finish);
    let pauses = world.trace.iter().filter(|a| matches!(a, Action::Pause { .. })).count();
    assert_eq!(pauses, 10);
    assert!(!world.trace.iter().any(|a| matches!(a, Action::Spawn { .. })));
}

#[test]
fn restart_goes_on_to_start_when_stop_fails() {
    let mut world = World::installed("/opt/roxy");
    world.alive = true;
    world.accepts_termination = false;
    let (said, end) = run(&mut world, Operation::Restart);
    assert_eq!(said, vec!["Loading...", "Failed to stop roxy", "Roxy is already running"]);
    assert_eq!(end, Action::Finish);
}

#[test]
fn restart_without_installation() {
    let mut world = World::empty();
    let (said, _) = run(&mut world, Operation::Restart);
    assert_eq!(said, vec!["Loading...", "Roxy is not installed"]);
}

#[test]
fn config_and_logs_open_files() {
    let mut world = World::installed("/opt/roxy");
    world.files.insert("/opt/roxy/roxy.log".to_string(), "log".to_string());
    let (said, end) = run(&mut world, Operation::Config);
    assert!(said.is_empty());
    assert_eq!(end, Action::Finish);
    assert_eq!(world.trace.last(), Some(&Action::Open { path: "/opt/roxy/roxy.json".to_string() }));
    let (_, end) = run(&mut world, Operation::Logs);
    assert_eq!(end, Action::Finish);
    assert_eq!(world.trace.last(), Some(&Action::Open { path: "/opt/roxy/roxy.log".to_string() }));
}

#[test]
fn config_and_logs_need_an_installation() {
    let mut world = World::empty();
    assert_eq!(run(&mut world, Operation::Config).0, vec!["Roxy is not installed"]);
    assert_eq!(run(&mut world, Operation::Logs).0, vec!["Roxy is not installed"]);
    assert!(mutations(&world).is_empty());
}

#[test]
fn logs_that_cannot_be_opened_fail() {
    let mut world = World::installed("/opt/roxy");
    let (_, end) = run(&mut world, Operation::Logs);
    assert_eq!(end, Action::Fail { fault: Fault::Open });
}

#[test]
fn autostart_enable_then_status_then_disable() {
    let mut world = World::installed("/opt/roxy");
    assert_eq!(run(&mut world, Operation::AutostartStatus).0, vec!["Status: Disabled"]);
    assert_eq!(run(&mut world, Operation::AutostartEnable).0, vec!["Enabled autostart"]);
    assert_eq!(world.files.get(AUTOSTART).unwrap(), "\"/home/u/.roxy-cli/roxy-cli\" start\n");
    assert_eq!(world.files.get("/home/u/.roxy-cli/roxy-cli").unwrap(), "executable");
    assert_eq!(run(&mut world, Operation::AutostartStatus).0, vec!["Status: Enabled"]);
    assert_eq!(run(&mut world, Operation::AutostartDisable).0, vec!["Disabled autostart"]);
    assert!(!world.files.contains_key(AUTOSTART));
    assert_eq!(run(&mut world, Operation::AutostartStatus).0, vec!["Status: Disabled"]);
}

#[test]
fn autostart_enable_twice_registers_once() {
    let mut world = World::installed("/opt/roxy");
    run(&mut world, Operation::AutostartEnable);
    world.trace.clear();
    let (said, end) = run(&mut world, Operation::AutostartEnable);
    assert_eq!(said, vec!["Autostart already enabled"]);
    assert_eq!(end, Action::Finish);
    assert!(mutations(&world).is_empty());
    assert_eq!(world.files.get(AUTOSTART).unwrap().lines().count(), 1);
}

#[test]
fn autostart_disable_when_not_enabled() {
    let mut world = World::installed("/opt/roxy");
    let (said, _) = run(&mut world, Operation::AutostartDisable);
    assert_eq!(said, vec!["Autostart not enabled"]);
    assert!(mutations(&world).is_empty());
}

#[test]
fn autostart_enable_needs_an_installation() {
    let mut world = World::empty();
    let (said, end) = run(&mut world, Operation::AutostartEnable);
    assert_eq!(said, vec!["Roxy is not installed"]);
    assert_eq!(end, Action::Finish);
    assert!(mutations(&world).is_empty());
}

#[test]
fn autostart_on_windows_uses_the_registry() {
    let mut world = World::installed("C:\\roxy");
    world.files.insert(
        "C:\\Users\\u\\roxy-cli\\roxy-cli.json".to_string(),
        r#"{"path":"C:\\roxy","termination_token":"t","version":"1"}"#.to_string(),
    );
    world.dirs.insert("C:\\roxy".to_string());
    assert_eq!(run_in(&mut world, Operation::AutostartStatus, None, windows()).0, vec!["Status: Disabled"]);
    assert_eq!(run_in(&mut world, Operation::AutostartEnable, None, windows()).0, vec!["Enabled autostart"]);
    assert!(world.registry);
    assert!(world.files.contains_key("C:\\Users\\u\\roxy-cli\\roxy-cli.exe"));
    assert_eq!(
        run_in(&mut world, Operation::AutostartEnable, None, windows()).0,
        vec!["Autostart already enabled"]
    );
    assert_eq!(run_in(&mut world, Operation::AutostartDisable, None, windows()).0, vec!["Disabled autostart"]);
    assert!(!world.registry);
}

#[test]
fn autostart_faults() {
    let mut world = World::installed("/opt/roxy");
    world.broken = Some(|a| matches!(a, Action::PathExists { path } if path == AUTOSTART));
    assert_eq!(run(&mut world, Operation::AutostartStatus).1, Action::Fail { fault: Fault::AutostartQuery });
    assert_eq!(run(&mut world, Operation::AutostartEnable).1, Action::Fail { fault: Fault::AutostartQuery });
    assert_eq!(run(&mut world, Operation::AutostartDisable).1, Action::Fail { fault: Fault::AutostartQuery });
    world.broken = Some(|a| matches!(a, Action::CopySelf { .. }));
    assert_eq!(run(&mut world, Operation::AutostartEnable).1, Action::Fail { fault: Fault::CopyExecutable });
    world.broken = Some(|a| matches!(a, Action::AppendLine { .. }));
    assert_eq!(run(&mut world, Operation::AutostartEnable).1, Action::Fail { fault: Fault::AutostartEnable });
    world.broken = None;
    run(&mut world, Operation::AutostartEnable);
    world.broken = Some(|a| matches!(a, Action::RemoveFile { .. }));
    assert_eq!(run(&mut world, Operation::AutostartDisable).1, Action::Fail { fault: Fault::AutostartDisable });
}

#[test]
fn install_then_status() {
    let mut world = World::empty().answer("y\n");
    let (said, end) = run_in(&mut world, Operation::Install, Some("/opt/roxy"), env());
    assert_eq!(end, Action::Finish);
    assert_eq!(
        said,
        vec![
            "Downloading Node.js...",
            "Downloading roxy...",
            "Building...",
            "Successfully installed roxy!",
            "Enabled autostart",
            "Roxy has been started!"
        ]
    );
    assert!(world.dirs.contains("/opt/roxy/app/node"));
    assert!(world.dirs.contains("/opt/roxy/app/roxy"));
    assert!(!world.dirs.contains("/opt/roxy/app/roxy-main"));
    assert!(!world.files.contains_key("/opt/roxy/app/node.tar.gz"));
    assert!(!world.files.contains_key("/opt/roxy/app/roxy.tar.gz"));
    assert!(world.files.contains_key("/opt/roxy/app/roxy/build.sh"));
    assert!(world.files.contains_key(AUTOSTART));
    assert!(world.alive);
    let dot_env = world.files.get("/opt/roxy/app/roxy/.env").unwrap().clone();
    let token = dot_env.strip_prefix("DATA_PATH=/opt/roxy\nTERMINATION_TOKEN=").unwrap().to_string();
    assert_eq!(token.len(), 24);
    assert!(token.chars().all(|c| c.is_ascii_alphanumeric()));
    let record: serde_json::Value = serde_json::from_str(world.files.get(RECORD).unwrap()).unwrap();
    assert_eq!(record["path"].as_str(), Some("/opt/roxy"));
    assert_eq!(record["version"].as_str(), Some("0.9.2"));
    assert_eq!(record["termination_token"].as_str(), Some(token.as_str()));

    let (said, _) = run(&mut world, Operation::Status);
    assert_eq!(
        said,
        vec![
            "Loading...",
            "Installation: Installed (\"/opt/roxy\")",
            "Version: 0.9.2",
            "Status: Running"
        ]
    );
}

#[test]
fn install_asks_where() {
    let mut world = World::empty().answer("no");
    let mut session = Session::new(Operation::Install, Some("sub/../roxy".to_string()), env());
    let mut outcome = Outcome::Done;
    let prompt = loop {
        let (next, step) = install(session, outcome);
        session = next;
        match step.action {
            Action::Ask { prompt } => break prompt,
            action => outcome = world.perform(&action),
        }
    };
    assert_eq!(prompt, Note::with(Notice::ConfirmInstall, "/work/roxy".to_string()));
    assert_eq!(prompt.text(), "Are you sure you want to install roxy to: \"/work/roxy\"");
    assert_eq!(session.target.path, "/work/roxy");
}

#[test]
fn install_to_the_default_root() {
    let mut world = World::empty().answer("Y");
    let (_, end) = run(&mut world, Operation::Install);
    assert_eq!(end, Action::Finish);
    assert!(world.dirs.contains("/home/u/roxy/app/roxy"));
}

#[test]
fn install_is_refused_over_an_installation() {
    for requested in [None, Some("/opt/roxy"), Some("/elsewhere")] {
        let mut world = World::installed("/opt/roxy").answer("y");
        let before = (world.files.clone(), world.dirs.clone());
        let (said, end) = run_in(&mut world, Operation::Install, requested, env());
        assert_eq!(said, vec!["Roxy is already installed"]);
        assert_eq!(end, Action::Finish);
        assert!(mutations(&world).is_empty());
        assert_eq!((world.files.clone(), world.dirs.clone()), before);
        assert_eq!(world.answers.len(), 1);
    }
}

#[test]
fn install_that_is_declined_changes_nothing() {
    let mut world = World::empty().answer("n\n");
    let before = (world.files.clone(), world.dirs.clone());
    let (said, end) = run_in(&mut world, Operation::Install, Some("/opt/roxy"), env());
    assert!(said.is_empty());
    assert_eq!(end, Action::Finish);
    assert!(mutations(&world).is_empty());
    assert_eq!((world.files.clone(), world.dirs.clone()), before);
}

#[test]
fn install_without_an_answer_fails() {
    let mut world = World::empty();
    let (_, end) = run_in(&mut world, Operation::Install, Some("/opt/roxy"), env());
    assert_eq!(end, Action::Fail { fault: Fault::Prompt });
    assert!(mutations(&world).is_empty());
}

#[test]
fn install_needs_an_absolute_root() {
    let relative = Environment::new(Platform::Linux, "/home/u".to_string(), "work".to_string());
    let mut world = World::empty().answer("y");
    let (said, end) = run_in(&mut world, Operation::Install, Some("roxy"), relative);
    assert!(said.is_empty());
    assert_eq!(end, Action::Fail { fault: Fault::Root });
    assert!(mutations(&world).is_empty());
    assert_eq!(world.answers.len(), 1);
    let homeless = Environment::new(Platform::Linux, "home/../u".to_string(), "/work".to_string());
    let (_, end) = run_in(&mut world, Operation::Install, None, homeless);
    assert_eq!(end, Action::Fail { fault: Fault::Root });
}

#[test]
fn install_clears_a_stale_app_directory() {
    let mut world = World::empty().answer("y");
    world.make_dirs("/opt/roxy/app/old");
    world.files.insert("/opt/roxy/app/old/file".to_string(), "x".to_string());
    world.files.insert("/opt/roxy/keep.db".to_string(), "data".to_string());
    let (_, end) = run_in(&mut world, Operation::Install, Some("/opt/roxy"), env());
    assert_eq!(end, Action::Finish);
    assert_eq!(mutations(&world)[0], Action::RemoveDirAll { path: "/opt/roxy/app".to_string() });
    assert!(!world.dirs.contains("/opt/roxy/app/old"));
    assert!(world.files.contains_key("/opt/roxy/keep.db"));
}

#[test]
fn install_steps_in_order() {
    let mut world = World::empty().answer("y");
    run_in(&mut world, Operation::Install, Some("/opt/roxy"), env());
    let names: Vec<String> = mutations(&world)
        .iter()
        .map(|a| match a {
            Action::CreateDirAll { path } => format!("mkdir {}", path),
            Action::Download { dest, .. } => format!("download {}", dest),
            Action::Run { command } => format!("run {} {}", command.program, command.args.join(" ")),
            Action::RemoveFile { path } => format!("rm {}", path),
            Action::RemoveDirAll { path } => format!("rmdir {}", path),
            Action::Rename { from, to } => format!("mv {} {}", from, to),
            Action::WriteText { path, .. } => format!("write {}", path),
            Action::MakeExecutable { path } => format!("chmod {}", path),
            Action::CopySelf { dest } => format!("copy {}", dest),
            Action::AppendLine { path, .. } => format!("append {}", path),
            Action::Spawn { command } => format!("spawn {}", command.program),
            other => format!("{:?}", other),
        })
        .collect();
    assert_eq!(
        names,
        vec![
            "mkdir /opt/roxy/app",
            "download /opt/roxy/app/node.tar.gz",
            "run tar -xf /opt/roxy/app/node.tar.gz -C /opt/roxy/app",
            "rm /opt/roxy/app/node.tar.gz",
            "mv /opt/roxy/app/node-v18.16.0-linux-x64 /opt/roxy/app/node",
            "download /opt/roxy/app/roxy.tar.gz",
            "run tar -xf /opt/roxy/app/roxy.tar.gz -C /opt/roxy/app",
            "rm /opt/roxy/app/roxy.tar.gz",
            "mv /opt/roxy/app/roxy-main/roxy /opt/roxy/app/roxy",
            "rmdir /opt/roxy/app/roxy-main",
            "write /opt/roxy/app/roxy/.env",
            "write /opt/roxy/app/roxy/build.sh",
            "chmod /opt/roxy/app/roxy/build.sh",
            "run /opt/roxy/app/node/bin/node /opt/roxy/app/node/bin/npm install",
            "run sh /opt/roxy/app/roxy/build.sh",
            "mkdir /home/u/.roxy-cli",
            "write /home/u/.roxy-cli/roxy-cli.json",
            "copy /home/u/.roxy-cli/roxy-cli",
            "append /home/u/.config/autostart/roxy",
            "spawn /opt/roxy/app/node/bin/node",
        ]
    );
}

#[test]
fn install_on_windows_builds_with_npm_cmd() {
    let mut session = Session::new(Operation::Install, None, windows());
    session.phase = Phase::WriteEnv;
    let (session, step) = install(session, Outcome::Done);
    assert_eq!(session.phase, Phase::InstallDependencies);
    assert_eq!(
        step.action,
        Action::Run {
            command: Command {
                program: "C:\\Users\\u\\roxy\\app\\node\\npm.cmd".to_string(),
                args: vec!["install".to_string()],
                dir: Some("C:\\Users\\u\\roxy\\app\\roxy".to_string()),
            }
        }
    );
    let (session, step) = install(session, Outcome::Flag(true));
    assert_eq!(session.phase, Phase::Build);
    assert!(matches!(&step.action, Action::Run { command } if command.args == vec!["run", "build"]));
}

fn install_broken_by(broken: fn(&Action) -> bool) -> (World, Action) {
    let mut world = World::empty().answer("y");
    world.make_dirs("/opt/roxy/app");
    world.broken = Some(broken);
    let (_, end) = run_in(&mut world, Operation::Install, Some("/opt/roxy"), env());
    (world, end)
}

#[test]
fn install_faults_leave_no_record() {
    let cases: Vec<(fn(&Action) -> bool, Fault)> = vec![
        (|a| matches!(a, Action::RemoveDirAll { path } if path == "/opt/roxy/app"), Fault::CleanUp),
        (|a| matches!(a, Action::CreateDirAll { path } if path == "/opt/roxy/app"), Fault::CreateAppDir),
        (|a| matches!(a, Action::Download { dest, .. } if dest.ends_with("node.tar.gz")), Fault::Download),
        (|a| matches!(a, Action::Download { dest, .. } if dest.ends_with("roxy.tar.gz")), Fault::Download),
        (|a| matches!(a, Action::Run { command } if command.program == "tar"), Fault::Extract),
        (|a| matches!(a, Action::RemoveFile { path } if path.ends_with("node.tar.gz")), Fault::RemoveArchive),
        (|a| matches!(a, Action::RemoveFile { path } if path.ends_with("roxy.tar.gz")), Fault::RemoveArchive),
        (|a| matches!(a, Action::ListDir { .. }), Fault::ListAppDir),
        (|a| matches!(a, Action::Rename { to, .. } if to.ends_with("node")), Fault::RenameRuntime),
        (|a| matches!(a, Action::Rename { to, .. } if to.ends_with("roxy")), Fault::MoveApplication),
        (|a| matches!(a, Action::RemoveDirAll { path } if path.ends_with("roxy-main")), Fault::RemoveWrapper),
        (|a| matches!(a, Action::WriteText { path, .. } if path.ends_with(".env")), Fault::WriteFile),
        (|a| matches!(a, Action::WriteText { path, .. } if path.ends_with("build.sh")), Fault::WriteFile),
        (|a| matches!(a, Action::MakeExecutable { .. }), Fault::Permissions),
        (|a| matches!(a, Action::Run { command } if command.args.last().unwrap() == "install"), Fault::InstallDependencies),
        (|a| matches!(a, Action::Run { command } if command.program == "sh"), Fault::Build),
        (|a| matches!(a, Action::ReadText { path } if path.ends_with("package.json")), Fault::Manifest),
        (|a| matches!(a, Action::CreateDirAll { path } if path.ends_with(".roxy-cli")), Fault::SaveRecord),
        (|a| matches!(a, Action::WriteText { path, .. } if path == RECORD), Fault::SaveRecord),
    ];
    for (broken, fault) in cases {
        let (world, end) = install_broken_by(broken);
        assert_eq!(end, Action::Fail { fault });
        assert!(!world.files.contains_key(RECORD));
        assert!(!world.alive);
    }
}

#[test]
fn install_without_a_version_fails() {
    let mut world = World::empty().answer("y");
    world.manifest = r#"{"name": "roxy"}"#.to_string();
    let (_, end) = run_in(&mut world, Operation::Install, Some("/opt/roxy"), env());
    assert_eq!(end, Action::Fail { fault: Fault::Manifest });
    assert!(!world.files.contains_key(RECORD));
}

#[test]
fn install_renames_every_runtime_directory() {
    let mut session = Session::new(Operation::Install, Some("/opt/roxy".to_string()), env());
    session.phase = Phase::ListApp;
    session.target.path = "/opt/roxy".to_string();
    let entries = vec![
        DirEntry { name: "notes".to_string(), is_dir: true },
        DirEntry { name: "node.txt".to_string(), is_dir: false },
        DirEntry { name: "node-v18".to_string(), is_dir: true },
        DirEntry { name: "x".to_string(), is_dir: true },
    ];
    let (session, step) = install(session, Outcome::Entries(entries));
    assert_eq!(
        step.action,
        Action::Rename { from: "/opt/roxy/app/node-v18".to_string(), to: "/opt/roxy/app/node".to_string() }
    );
    assert_eq!(session.cursor, 3);
    let (session, step) = install(session, Outcome::Done);
    assert_eq!(session.phase, Phase::FetchApplication);
    assert_eq!(step.notes, vec![Note::plain(Notice::DownloadingApplication)]);
    assert!(matches!(step.action, Action::Download { .. }));
}

#[test]
fn install_after_autostart_was_enabled() {
    let mut world = World::empty().answer("y");
    world.files.insert(AUTOSTART.to_string(), "line\n".to_string());
    let (said, end) = run_in(&mut world, Operation::Install, Some("/opt/roxy"), env());
    assert_eq!(end, Action::Finish);
    assert_eq!(
        &said[3..],
        &["Successfully installed roxy!", "Autostart already enabled", "Roxy has been started!"]
    );
}

#[test]
fn uninstall_keeping_the_data() {
    let mut world = World::installed("/opt/roxy").answer("y").answer("n");
    world.alive = true;
    let (said, end) = run(&mut world, Operation::Uninstall);
    assert_eq!(end, Action::Finish);
    assert_eq!(
        said,
        vec![
            "Loading...",
            "Successfully stopped roxy",
            "Deleting roxy...",
            "Successfully uninstalled roxy!\n(Database and uploaded files were kept)",
            "Data path: \"/opt/roxy\""
        ]
    );
    assert!(!world.dirs.contains("/opt/roxy/app"));
    assert!(world.dirs.contains("/opt/roxy"));
    assert_eq!(world.files.get("/opt/roxy/data.db").unwrap(), "data");
    assert!(!world.files.contains_key(RECORD));
    assert!(!world.alive);
    assert_eq!(
        mutations(&world),
        vec![
            Action::RemoveDirAll { path: "/opt/roxy/app".to_string() },
            Action::Forget { path: RECORD.to_string() },
        ]
    );
    let (said, _) = run(&mut world, Operation::Status);
    assert_eq!(said[1], "Installation: Not Installed ");
}

#[test]
fn uninstall_deleting_the_data() {
    let mut world = World::installed("/opt/roxy").answer("yes").answer("yes");
    let (said, end) = run(&mut world, Operation::Uninstall);
    assert_eq!(end, Action::Finish);
    assert_eq!(
        said,
        vec![
            "Loading...",
            "Deleting roxy...",
            "Deleting database and uploaded files...",
            "Successfully uninstalled roxy!\n(Database and uploaded files were deleted)"
        ]
    );
    assert!(!world.dirs.contains("/opt/roxy"));
    assert!(!world.files.contains_key("/opt/roxy/data.db"));
    assert!(!world.files.contains_key(RECORD));
    assert!(!world.trace.iter().any(|a| matches!(a, Action::Post { .. })));
}

#[test]
fn uninstall_stops_before_it_deletes() {
    let mut world = World::installed("/opt/roxy").answer("y").answer("y");
    world.alive = true;
    run(&mut world, Operation::Uninstall);
    let post = world.trace.iter().position(|a| matches!(a, Action::Post { .. })).unwrap();
    let delete = world.trace.iter().position(|a| matches!(a, Action::RemoveDirAll { .. })).unwrap();
    assert!(post < delete);
}

#[test]
fn uninstall_that_is_declined_changes_nothing() {
    let mut world = World::installed("/opt/roxy").answer("n");
    let (said, end) = run(&mut world, Operation::Uninstall);
    assert!(said.is_empty());
    assert_eq!(end, Action::Finish);
    assert!(mutations(&world).is_empty());
    assert_eq!(requests(&world), 0);
}

#[test]
fn uninstall_needs_an_installation() {
    let mut world = World::empty().answer("y").answer("y");
    let (said, end) = run(&mut world, Operation::Uninstall);
    assert_eq!(said, vec!["Roxy is not installed"]);
    assert_eq!(end, Action::Finish);
    assert_eq!(world.answers.len(), 2);
}

#[test]
fn uninstall_faults() {
    let mut world = World::installed("/opt/roxy");
    assert_eq!(run(&mut world, Operation::Uninstall).1, Action::Fail { fault: Fault::Prompt });
    let mut world = World::installed("/opt/roxy").answer("y");
    assert_eq!(run(&mut world, Operation::Uninstall).1, Action::Fail { fault: Fault::Prompt });
    let mut world = World::installed("/opt/roxy").answer("y").answer("y");
    world.broken = Some(|a| matches!(a, Action::RemoveDirAll { path } if path.ends_with("app")));
    assert_eq!(run(&mut world, Operation::Uninstall).1, Action::Fail { fault: Fault::RemoveApplication });
    assert!(world.files.contains_key(RECORD));
    let mut world = World::installed("/opt/roxy").answer("y").answer("y");
    world.broken = Some(|a| matches!(a, Action::RemoveDirAll { path } if path == "/opt/roxy"));
    assert_eq!(run(&mut world, Operation::Uninstall).1, Action::Fail { fault: Fault::RemoveData });
    assert!(world.files.contains_key(RECORD));
    let mut world = World::installed("/opt/roxy").answer("y").answer("n");
    world.broken = Some(|a| matches!(a, Action::Forget { .. }));
    assert_eq!(run(&mut world, Operation::Uninstall).1, Action::Fail { fault: Fault::ResetRecord });
}

#[test]
fn survey_without_liveness_stays_off_the_network() {
    let mut world = World::installed("/opt/roxy");
    world.alive = true;
    let mut session = Session::new(Operation::Config, None, env());
    let mut outcome = Outcome::Done;
    loop {
        let (next, found) = survey(session, outcome);
        session = next;
        match found {
            Survey::Pending(action) => outcome = world.perform(&action),
            Survey::Ready => break,
            Survey::Broken(fault) => panic!("{:?}", fault),
        }
    }
    assert!(session.info.installed);
    assert!(!session.running);
    assert_eq!(session.probe, Probe::Idle);
    assert_eq!(session.info.termination_token, "SECRETtoken123");
    assert_eq!(requests(&world), 0);
}

#[test]
fn single_operations_agree_with_advance() {
    let ops: Vec<(Operation, fn(Session, Outcome) -> (Session, Step))> = vec![
        (Operation::Status, status),
        (Operation::Install, install),
        (Operation::Uninstall, uninstall),
        (Operation::Update, update),
        (Operation::Start, start),
        (Operation::Restart, restart),
        (Operation::Stop, stop),
        (Operation::AutostartEnable, autostart_enable),
        (Operation::AutostartDisable, autostart_disable),
        (Operation::AutostartStatus, autostart_status),
        (Operation::Config, config),
        (Operation::Logs, logs),
    ];
    for (operation, step) in ops {
        let (a, first) = advance(Session::new(operation, None, env()), Outcome::Done);
        let (b, second) = step(Session::new(operation, None, env()), Outcome::Done);
        assert_eq!(a, b);
        assert_eq!(first, second);
    }
}

#[test]
fn finished_operations_stay_finished() {
    for operation in [Operation::Status, Operation::Restart, Operation::Install, Operation::Stop] {
        let mut session = Session::new(operation, None, env());
        session.phase = Phase::Over;
        let (session, step) = advance(session, Outcome::Done);
        assert_eq!(session.phase, Phase::Over);
        assert_eq!(step, Step { notes: vec![], action: Action::Finish });
    }
}

#[test]
fn commands_open_their_operations() {
    let cases = vec![
        (RoxySubcommand::Status, Operation::Status),
        (RoxySubcommand::Uninstall, Operation::Uninstall),
        (RoxySubcommand::Update, Operation::Update),
        (RoxySubcommand::Start, Operation::Start),
        (RoxySubcommand::Restart, Operation::Restart),
        (RoxySubcommand::Stop, Operation::Stop),
        (RoxySubcommand::Config, Operation::Config),
        (RoxySubcommand::Logs, Operation::Logs),
        (
            RoxySubcommand::Autostart(AutostartCommand { command: AutostartSubcommand::Enable }),
            Operation::AutostartEnable,
        ),
        (
            RoxySubcommand::Autostart(AutostartCommand { command: AutostartSubcommand::Disable }),
            Operation::AutostartDisable,
        ),
        (
            RoxySubcommand::Autostart(AutostartCommand { command: AutostartSubcommand::Status }),
            Operation::AutostartStatus,
        ),
    ];
    for (command, operation) in cases {
        let args = RoxyCliArgs { command };
        let session = Session::for_command(args.command, env());
        assert_eq!(session, Session::new(operation, None, env()));
    }
    let install = RoxySubcommand::Install(InstallCommand { path: Some("x".to_string()) });
    let session = Session::for_command(install, env());
    assert_eq!(session.operation, Operation::Install);
    assert_eq!(session.requested, Some("x".to_string()));
    assert_eq!(session.phase, Phase::Begin);
}

#[test]
fn operations_end_whatever_the_outcomes() {
    let record = r#"{"path":"/opt/roxy","termination_token":"t","version":"1"}"#;
    let config = r#"{"port": "1", "useHttps": true}"#;
    let answers: Vec<fn() -> Outcome> = vec![
        || Outcome::Done,
        || Outcome::Failed,
        || Outcome::Flag(true),
        || Outcome::Flag(false),
        || Outcome::Text("y".to_string()),
        || Outcome::Entries(vec![
            DirEntry { name: "node-a".to_string(), is_dir: true },
            DirEntry { name: "node-b".to_string(), is_dir: true },
        ]),
    ];
    let operations = [
        Operation::Status,
        Operation::Install,
        Operation::Uninstall,
        Operation::Update,
        Operation::Start,
        Operation::Restart,
        Operation::Stop,
        Operation::AutostartEnable,
        Operation::AutostartDisable,
        Operation::AutostartStatus,
        Operation::Config,
        Operation::Logs,
    ];
    for operation in operations {
        for answer in &answers {
            let mut session = Session::new(operation, None, env());
            let mut outcome = Outcome::Done;
            let mut steps = 0;
            loop {
                let (next, step) = advance(session, outcome);
                session = next;
                steps += 1;
                assert!(steps < 100);
                outcome = match step.action {
                    Action::Finish | Action::Fail { .. } => break,
                    Action::ReadText { path } if path == RECORD => Outcome::Text(record.to_string()),
                    Action::ReadText { path } if path.ends_with("roxy.json") => {
                        Outcome::Text(config.to_string())
                    },
                    Action::PathExists { path } if path == "/opt/roxy" => Outcome::Flag(true),
                    _ => answer(),
                };
            }
            assert_eq!(session.phase, Phase::Over);
        }
    }
}
