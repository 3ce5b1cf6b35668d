use roxy_cli::action::{Action, Command, DirEntry, Outcome};
use roxy_cli::artifacts::{
    build, entry_file, env_contents, env_file, executable_mode, install_dependencies, launch,
    manifest_file, runtime_dir, script_contents, unzip_file, version_in, Artifact,
};
use roxy_cli::autostart::Autostart;
use roxy_cli::channel::{
    config_file, create_url, is_running, log_file, termination_body, url_from_members,
    TIMEOUT_SECS,
};
use roxy_cli::console::confirm;
use roxy_cli::fault::Fault;
use roxy_cli::json::{flag_of, text_of, JsonValue, Member};
use roxy_cli::notice::{Note, Notice, Tone};
use roxy_cli::paths::{anchor, is_rooted, join, resolve};
use roxy_cli::platform::{Environment, Platform};
use roxy_cli::record::{InstallInfo, RecordFile};
use roxy_cli::text::{contains, same};
use roxy_cli::token::{generate_token, token_char, ALPHABET_SIZE, TOKEN_LENGTH};

fn linux() -> Environment {
    Environment::new(Platform::Linux, "/home/u".to_string(), "/work/dir".to_string())
}

fn windows() -> Environment {
    Environment::new(
        Platform::Windows,
        "C:\\Users\\u\\AppData\\Local".to_string(),
        "C:\\work".to_string(),
    )
}

fn installed_at(root: &str) -> InstallInfo {
    InstallInfo {
        installed: true,
        version: "1.2.3".to_string(),
        path: root.to_string(),
        termination_token: "tok".to_string(),
    }
}

#[test]
fn join_puts_one_separator_between() {
    assert_eq!(join("/home/u", "roxy", Platform::Linux), "/home/u/roxy");
    assert_eq!(join("/home/u/", "roxy", Platform::Linux), "/home/u/roxy");
    assert_eq!(join("", "roxy", Platform::Linux), "roxy");
    assert_eq!(join("/", "app", Platform::Linux), "/app");
    assert_eq!(join("C:\\x", "app", Platform::Windows), "C:\\x\\app");
    assert_eq!(join("C:\\x\\", "app", Platform::Windows), "C:\\x\\app");
    assert_eq!(join("C:/x/", "app", Platform::Windows), "C:/x/app");
    assert_eq!(join("/x\\", "app", Platform::Linux), "/x\\/app");
}

#[test]
fn join_agrees_with_std_on_this_platform() {
    let joined = std::path::Path::new("/home/u").join("app").join("node");
    let info = installed_at("/home/u");
    assert_eq!(info.node_path(Platform::Linux), joined.to_str().unwrap());
}

#[test]
fn anchor_keeps_absolute_paths() {
    assert_eq!(anchor("/opt/roxy", true, "/work", Platform::Linux), "/opt/roxy");
    assert_eq!(anchor("roxy", false, "/work", Platform::Linux), "/work/roxy");
}

#[test]
fn resolve_cleans_and_anchors() {
    assert_eq!(resolve("/opt/x/../roxy/./", "/work", Platform::Linux), "/opt/roxy");
    assert_eq!(resolve("a/../b", "/work/dir", Platform::Linux), "/work/dir/b");
    assert_eq!(resolve("../b", "/work/dir", Platform::Linux), "/work/b");
    assert_eq!(resolve("b//c", "/work", Platform::Linux), "/work/b/c");
}

#[test]
fn rooted_paths_are_absolute_and_clean() {
    assert!(is_rooted("/opt/roxy"));
    assert!(is_rooted("/"));
    assert!(!is_rooted("opt/roxy"));
    assert!(!is_rooted("/opt/../roxy"));
    assert!(!is_rooted("/opt//roxy"));
    assert!(!is_rooted("/opt/roxy/"));
    assert!(!is_rooted(""));
    assert!(is_rooted(&resolve("a/./b/..", "/work", Platform::Linux)));
}

#[test]
fn same_compares_characters() {
    assert!(same("path", "path"));
    assert!(!same("path", "paths"));
    assert!(!same("path", "pate"));
    assert!(same("", ""));
}

#[test]
fn contains_finds_substrings() {
    assert!(contains("node-v18.16.0-linux-x64", "node"));
    assert!(contains("my-node", "node"));
    assert!(contains("node", "node"));
    assert!(contains("anything", ""));
    assert!(!contains("nod", "node"));
    assert!(!contains("no-de", "node"));
    assert!(!contains("", "node"));
}

#[test]
fn token_has_the_length_and_alphabet() {
    let token = generate_token(TOKEN_LENGTH);
    assert_eq!(token.chars().count(), 24);
    assert!(token.chars().all(|c| c.is_ascii_alphanumeric()));
    assert_eq!(generate_token(0), "");
    assert_eq!(generate_token(100).len(), 100);
}

#[test]
fn tokens_differ() {
    assert_ne!(generate_token(24), generate_token(24));
}

#[test]
fn token_char_walks_the_alphabet() {
    assert_eq!(ALPHABET_SIZE, 62);
    assert_eq!(token_char(0), 'A');
    assert_eq!(token_char(25), 'Z');
    assert_eq!(token_char(26), 'a');
    assert_eq!(token_char(51), 'z');
    assert_eq!(token_char(52), '0');
    assert_eq!(token_char(61), '9');
}

#[test]
fn confirm_reads_yes() {
    assert!(confirm("y"));
    assert!(confirm("Y\n"));
    assert!(confirm("yes\n"));
    assert!(confirm("  \t yup"));
    assert!(confirm("\u{3000}Yes"));
    assert!(!confirm(""));
    assert!(!confirm("\n"));
    assert!(!confirm("n"));
    assert!(!confirm("no, yes"));
    assert!(!confirm("oy"));
    assert!(!confirm("x y"));
}

#[test]
fn confirm_agrees_with_trim_and_lowercase() {
    for answer in ["y", " Y", "\r\ny", "\u{85}y", "\u{a0}Y", "\u{2003}y", "\u{200b}y", "n", ""] {
        let expected = answer.trim().to_lowercase().starts_with('y');
        assert_eq!(confirm(answer), expected);
    }
}

#[test]
fn members_are_found_by_key() {
    let members = vec![
        Member { key: "port".to_string(), value: JsonValue::Text("8080".to_string()) },
        Member { key: "useHttps".to_string(), value: JsonValue::Flag(true) },
        Member { key: "other".to_string(), value: JsonValue::Number },
        Member { key: "port".to_string(), value: JsonValue::Null },
    ];
    assert_eq!(text_of(&members, "port"), Some("8080".to_string()));
    assert_eq!(text_of(&members, "useHttps"), None);
    assert_eq!(text_of(&members, "missing"), None);
    assert_eq!(flag_of(&members, "useHttps"), Some(true));
    assert_eq!(flag_of(&members, "port"), None);
    assert_eq!(flag_of(&members, "other"), None);
}

#[test]
fn manifest_members_of_every_kind() {
    let text = r#"{"a": null, "b": [1], "c": {"version": "9"}, "d": 1.5, "version": "3", "e": true}"#;
    assert_eq!(version_in(text), Some("3".to_string()));
    assert_eq!(version_in(r#"{"version": "1", "version": "2"}"#), Some("2".to_string()));
    assert_eq!(version_in(r#"{"version": null}"#), None);
    assert_eq!(version_in(r#"{"version": ["1"]}"#), None);
    assert_eq!(version_in(r#"{"version": {"version": "1"}}"#), None);
    assert_eq!(version_in(r#"{"version": "1"} x"#), None);
    assert_eq!(version_in(r#"["version", "1"]"#), None);
}

#[test]
fn record_is_parsed_from_json() {
    let text = r#"{"path": "/opt/roxy", "version": "0.4.1", "termination_token": "abc", "x": 1}"#;
    let record = RecordFile::parse(Some(text)).unwrap();
    assert_eq!(record.path, "/opt/roxy");
    assert_eq!(record.version, "0.4.1");
    assert_eq!(record.termination_token, "abc");
}

#[test]
fn record_needs_all_three_members() {
    assert_eq!(RecordFile::parse(None), None);
    assert_eq!(RecordFile::parse(Some("")), None);
    assert_eq!(RecordFile::parse(Some("{not json")), None);
    assert_eq!(RecordFile::parse(Some("[1, 2]")), None);
    assert_eq!(RecordFile::parse(Some("\"path\"")), None);
    assert_eq!(RecordFile::parse(Some(r#"{"path": "/x", "version": "1"}"#)), None);
    assert_eq!(
        RecordFile::parse(Some(r#"{"path": 5, "version": "1", "termination_token": "t"}"#)),
        None
    );
}

#[test]
fn record_is_encoded_as_compact_json() {
    let record = RecordFile::new("/opt/roxy".to_string(), "0.4.1".to_string(), "abc".to_string());
    assert_eq!(
        record.encode(),
        Ok(r#"{"path":"/opt/roxy","termination_token":"abc","version":"0.4.1"}"#.to_string())
    );
}

#[test]
fn record_round_trips() {
    let env = linux();
    for (p, v, t) in [
        ("/opt/roxy", "1.0.0", "Ab3"),
        ("C:\\Program Files\\roxy", "1.0.0-\"beta\"", "x\ny"),
        ("/tmp/\u{1F600}/roxy", "", ""),
    ] {
        let text = InstallInfo::write(p, v, t).unwrap();
        let info = InstallInfo::get(Some(&text), true, &env);
        assert!(info.installed);
        assert_eq!(info.path, p);
        assert_eq!(info.version, v);
        assert_eq!(info.termination_token, t);
        let value: serde_json::Value = serde_json::from_str(&text).unwrap();
        assert_eq!(value["path"].as_str(), Some(p));
    }
}

#[test]
fn stale_record_is_not_installed() {
    let env = linux();
    let text = r#"{"path": "/gone", "version": "0.4.1", "termination_token": "abc"}"#;
    let info = InstallInfo::get(Some(text), false, &env);
    assert!(!info.installed);
    assert_eq!(info.version, "---");
    assert_eq!(info.path, "/gone");
    assert_eq!(info.termination_token, "abc");
    let other = InstallInfo::get(Some("{}"), false, &env);
    assert!(!other.installed);
    assert_eq!(other.version, "---");
}

#[test]
fn missing_or_broken_record_is_default() {
    let env = linux();
    let expected = InstallInfo {
        installed: false,
        version: "---".to_string(),
        path: "/home/u/roxy".to_string(),
        termination_token: String::new(),
    };
    assert_eq!(InstallInfo::get(None, false, &env), expected);
    assert_eq!(InstallInfo::get(None, true, &env), expected);
    assert_eq!(InstallInfo::get(Some("garbage"), true, &env), expected);
    assert_eq!(InstallInfo::get(Some("{\"path\": \"/x\""), true, &env), expected);
    assert_eq!(InstallInfo::default(&env), expected);
}

#[test]
fn default_paths_follow_the_profile() {
    let env = linux();
    assert_eq!(Platform::Linux.profile_variable(), "HOME");
    assert_eq!(Platform::Windows.profile_variable(), "LOCALAPPDATA");
    assert_eq!(InstallInfo::get_default_path(&env), "/home/u/roxy");
    assert_eq!(InstallInfo::get_default_path(&env), InstallInfo::get_default_path(&env));
    assert_eq!(InstallInfo::get_roxy_cli_path(&env), "/home/u/.roxy-cli");
    assert_eq!(InstallInfo::get_cli_config_path(&env), "/home/u/.roxy-cli/roxy-cli.json");
    assert_eq!(
        InstallInfo::reset(&env),
        Action::Forget { path: "/home/u/.roxy-cli/roxy-cli.json".to_string() }
    );
    let win = windows();
    assert_eq!(InstallInfo::get_default_path(&win), "C:\\Users\\u\\AppData\\Local\\roxy");
    assert_eq!(InstallInfo::get_roxy_cli_path(&win), "C:\\Users\\u\\AppData\\Local\\roxy-cli");
    assert_eq!(
        InstallInfo::get_cli_config_path(&win),
        "C:\\Users\\u\\AppData\\Local\\roxy-cli\\roxy-cli.json"
    );
}

#[test]
fn with_or_default_resolves_the_argument() {
    let env = linux();
    let given = InstallInfo::with_or_default(Some("sub/../roxy".to_string()), &env);
    assert!(!given.installed);
    assert_eq!(given.version, "---");
    assert_eq!(given.path, "/work/dir/roxy");
    assert_eq!(given.termination_token, "");
    let absolute = InstallInfo::with_or_default(Some("/srv//roxy/".to_string()), &env);
    assert_eq!(absolute.path, "/srv/roxy");
    let none = InstallInfo::with_or_default(None, &env);
    assert_eq!(none.path, "/home/u/roxy");
}

#[test]
fn install_paths() {
    let info = installed_at("/opt/roxy");
    assert_eq!(info.app_path(Platform::Linux), "/opt/roxy/app");
    assert_eq!(info.node_path(Platform::Linux), "/opt/roxy/app/node");
    assert_eq!(info.roxy_path(Platform::Linux), "/opt/roxy/app/roxy");
    assert_eq!(env_file(&info, Platform::Linux), "/opt/roxy/app/roxy/.env");
    assert_eq!(manifest_file(&info, Platform::Linux), "/opt/roxy/app/roxy/package.json");
    assert_eq!(entry_file(&info, Platform::Linux), "/opt/roxy/app/roxy/dist/index.js");
    assert_eq!(config_file("/opt/roxy", Platform::Linux), "/opt/roxy/roxy.json");
    assert_eq!(log_file("/opt/roxy", Platform::Linux), "/opt/roxy/roxy.log");
    let win = installed_at("D:\\roxy");
    assert_eq!(win.roxy_path(Platform::Windows), "D:\\roxy\\app\\roxy");
}

#[test]
fn artifacts_by_platform() {
    let info = installed_at("/opt/roxy");
    assert_eq!(
        Artifact::Runtime.source(Platform::Linux),
        "https://nodejs.org/dist/v18.16.0/node-v18.16.0-linux-x64.tar.gz"
    );
    assert_eq!(
        Artifact::Runtime.source(Platform::Windows),
        "https://nodejs.org/dist/v18.16.0/node-v18.16.0-win-x64.zip"
    );
    assert_eq!(
        Artifact::Application.source(Platform::Linux),
        "https://github.com/keifufu/roxy/archive/main.tar.gz"
    );
    assert_eq!(
        Artifact::Application.source(Platform::Windows),
        "https://github.com/keifufu/roxy/archive/main.zip"
    );
    assert_eq!(Artifact::Runtime.archive(&info, Platform::Linux), "/opt/roxy/app/node.tar.gz");
    assert_eq!(Artifact::Application.archive(&info, Platform::Linux), "/opt/roxy/app/roxy.tar.gz");
    let win = installed_at("D:\\roxy");
    assert_eq!(Artifact::Runtime.archive(&win, Platform::Windows), "D:\\roxy\\app\\node.zip");
    assert_eq!(Artifact::Application.archive(&win, Platform::Windows), "D:\\roxy\\app\\roxy.zip");
}

#[test]
fn commands() {
    let info = installed_at("/opt/roxy");
    assert_eq!(
        unzip_file("/a/node.tar.gz", "/a"),
        Command {
            program: "tar".to_string(),
            args: vec!["-xf".to_string(), "/a/node.tar.gz".to_string(), "-C".to_string(), "/a".to_string()],
            dir: None,
        }
    );
    assert_eq!(
        install_dependencies(&info, Platform::Linux),
        Command {
            program: "/opt/roxy/app/node/bin/node".to_string(),
            args: vec!["/opt/roxy/app/node/bin/npm".to_string(), "install".to_string()],
            dir: Some("/opt/roxy/app/roxy".to_string()),
        }
    );
    assert_eq!(
        build(&info, Platform::Linux),
        Command {
            program: "sh".to_string(),
            args: vec!["/opt/roxy/app/roxy/build.sh".to_string()],
            dir: Some("/opt/roxy/app/roxy".to_string()),
        }
    );
    assert_eq!(
        launch(&info, Platform::Linux),
        Command {
            program: "/opt/roxy/app/node/bin/node".to_string(),
            args: vec!["/opt/roxy/app/roxy/dist/index.js".to_string()],
            dir: None,
        }
    );
    let win = installed_at("D:\\roxy");
    assert_eq!(
        install_dependencies(&win, Platform::Windows),
        Command {
            program: "D:\\roxy\\app\\node\\npm.cmd".to_string(),
            args: vec!["install".to_string()],
            dir: Some("D:\\roxy\\app\\roxy".to_string()),
        }
    );
    assert_eq!(
        build(&win, Platform::Windows),
        Command {
            program: "D:\\roxy\\app\\node\\npm.cmd".to_string(),
            args: vec!["run".to_string(), "build".to_string()],
            dir: Some("D:\\roxy\\app\\roxy".to_string()),
        }
    );
    assert_eq!(launch(&win, Platform::Windows).program, "D:\\roxy\\app\\node\\node.exe");
}

#[test]
fn env_file_holds_data_path_and_token() {
    assert_eq!(
        env_contents("/opt/roxy", "abcDEF123"),
        "DATA_PATH=/opt/roxy\nTERMINATION_TOKEN=abcDEF123"
    );
}

#[test]
fn build_script_and_mode() {
    let script = script_contents();
    assert!(script.contains("export PATH=\"../node/bin:$PATH\""));
    assert!(script.contains("npm run build"));
    assert_eq!(executable_mode(0o644), 0o755);
    assert_eq!(executable_mode(0o100600), 0o100755);
    assert_eq!(executable_mode(0o777), 0o777);
}

#[test]
fn runtime_directory_is_recognised() {
    let dir = |name: &str, is_dir: bool| DirEntry { name: name.to_string(), is_dir };
    assert!(runtime_dir(&dir("node-v18.16.0-linux-x64", true)));
    assert!(!runtime_dir(&dir("node.tar.gz", false)));
    assert!(!runtime_dir(&dir("roxy-main", true)));
}

#[test]
fn manifest_version_is_read() {
    assert_eq!(version_in(r#"{"name": "roxy", "version": "2.0.1"}"#), Some("2.0.1".to_string()));
    assert_eq!(version_in(r#"{"name": "roxy"}"#), None);
    assert_eq!(version_in(r#"{"version": 2}"#), None);
    assert_eq!(version_in("nope"), None);
}

#[test]
fn url_is_built_from_the_config() {
    let info = installed_at("/opt/roxy");
    let config = r#"{"port": "3000", "useHttps": false, "more": [1]}"#;
    assert_eq!(create_url(&info, Some(config), "/alive"), Ok("http://localhost:3000/alive".to_string()));
    let secure = r#"{"useHttps": true, "port": "8443"}"#;
    assert_eq!(
        create_url(&info, Some(secure), "/terminate"),
        Ok("https://localhost:8443/terminate".to_string())
    );
}

#[test]
fn url_is_empty_without_installation_or_config() {
    let mut info = installed_at("/opt/roxy");
    assert_eq!(create_url(&info, None, "/alive"), Ok(String::new()));
    info.installed = false;
    let config = r#"{"port": "3000", "useHttps": false}"#;
    assert_eq!(create_url(&info, Some(config), "/alive"), Ok(String::new()));
    assert_eq!(create_url(&info, Some("broken"), "/alive"), Ok(String::new()));
}

#[test]
fn malformed_config_is_a_fault() {
    let info = installed_at("/opt/roxy");
    assert_eq!(create_url(&info, Some("broken"), "/alive"), Err(Fault::Config));
    assert_eq!(create_url(&info, Some(r#"{"port": 3000, "useHttps": false}"#), "/alive"), Err(Fault::Config));
    assert_eq!(create_url(&info, Some(r#"{"port": "3000"}"#), "/alive"), Err(Fault::Config));
    assert_eq!(create_url(&info, Some(r#"{"port": "3000", "useHttps": "no"}"#), "/alive"), Err(Fault::Config));
    assert_eq!(url_from_members(&Vec::new(), "/alive"), Err(Fault::Config));
}

#[test]
fn liveness_is_any_response() {
    assert_eq!(TIMEOUT_SECS, 1);
    assert!(is_running(&Outcome::Done));
    assert!(!is_running(&Outcome::Failed));
    assert!(!is_running(&Outcome::Flag(true)));
}

#[test]
fn termination_body_is_json() {
    assert_eq!(termination_body("abc123"), r#"{"termination_token":"abc123"}"#);
    assert_eq!(termination_body("a\"b"), r#"{"termination_token":"a\"b"}"#);
}

#[test]
fn autostart_on_linux() {
    let env = linux();
    assert_eq!(Autostart::file(&env), "/home/u/.config/autostart/roxy");
    assert_eq!(Autostart::executable(&env), "/home/u/.roxy-cli/roxy-cli");
    assert_eq!(Autostart::command_line(&env), "\"/home/u/.roxy-cli/roxy-cli\" start");
    assert_eq!(
        Autostart::query(&env),
        Action::PathExists { path: "/home/u/.config/autostart/roxy".to_string() }
    );
    let append = Action::AppendLine {
        path: "/home/u/.config/autostart/roxy".to_string(),
        line: "\"/home/u/.roxy-cli/roxy-cli\" start".to_string(),
    };
    assert_eq!(Autostart::register(&env), append);
    assert_eq!(
        Autostart::enable(&installed_at("/opt/roxy"), &env),
        Some((Action::CopySelf { dest: "/home/u/.roxy-cli/roxy-cli".to_string() }, append))
    );
    assert_eq!(Autostart::enable(&InstallInfo::default(&env), &env), None);
    assert_eq!(
        Autostart::disable(&env),
        Action::RemoveFile { path: "/home/u/.config/autostart/roxy".to_string() }
    );
}

#[test]
fn autostart_on_windows() {
    let env = windows();
    let key = "HKCU\\Software\\Microsoft\\Windows\\CurrentVersion\\Run".to_string();
    let reg = |args: Vec<&str>| Action::Run {
        command: Command {
            program: "reg".to_string(),
            args: args.into_iter().map(|a| a.to_string()).collect(),
            dir: None,
        },
    };
    assert_eq!(Autostart::query(&env), reg(vec!["query", &key, "/v", "Roxy"]));
    assert_eq!(
        Autostart::register(&env),
        reg(vec![
            "add",
            &key,
            "/v",
            "Roxy",
            "/d",
            "\"C:\\\\Users\\\\u\\\\AppData\\\\Local\\\\roxy-cli\\\\roxy-cli.exe\" start",
            "/f",
        ])
    );
    assert_eq!(Autostart::disable(&env), reg(vec!["delete", &key, "/v", "Roxy", "/f"]));
}

#[test]
fn autostart_answer() {
    assert!(Autostart::is_enabled(&Outcome::Flag(true)));
    assert!(!Autostart::is_enabled(&Outcome::Flag(false)));
    assert!(!Autostart::is_enabled(&Outcome::Failed));
    assert!(!Autostart::is_enabled(&Outcome::Done));
}

#[test]
fn notes_are_worded() {
    assert_eq!(Note::plain(Notice::NotInstalled).text(), "Roxy is not installed");
    assert_eq!(Note::plain(Notice::StatusNotInstalled).text(), "Installation: Not Installed ");
    assert_eq!(
        Note::with(Notice::StatusInstalled, "/opt/roxy".to_string()).text(),
        "Installation: Installed (\"/opt/roxy\")"
    );
    assert_eq!(Note::with(Notice::StatusVersion, "---".to_string()).text(), "Version: ---");
    assert_eq!(Note::plain(Notice::StatusStopped).text(), "Status: Stopped");
    assert_eq!(
        Note::with(Notice::ConfirmInstall, "/opt/roxy".to_string()).text(),
        "Are you sure you want to install roxy to: \"/opt/roxy\""
    );
    assert_eq!(Note::with(Notice::DataPath, "/a b".to_string()).text(), "Data path: \"/a b\"");
    assert_eq!(Note::plain(Notice::UpdateUnavailable).text(), "Update: not yet implemented");
    assert_eq!(
        Note::plain(Notice::UninstalledKept).text(),
        "Successfully uninstalled roxy!\n(Database and uploaded files were kept)"
    );
    assert_eq!(Notice::NotRunning.get_tone(), Tone::Bad);
    assert_eq!(Notice::Started.get_tone(), Tone::Good);
    assert_eq!(Notice::Loading.get_tone(), Tone::Progress);
    assert_eq!(Notice::ConfirmUninstall.get_tone(), Tone::Question);
    assert_eq!(Notice::StatusVersion.get_tone(), Tone::Plain);
}

#[test]
fn faults_have_diagnostics() {
    assert_eq!(Fault::Extract.message(), "Failed to extract roxy with tar");
    assert_eq!(Fault::Start.message(), "Failed to start roxy");
    assert_eq!(Fault::ResetRecord.message(), "Failed to delete roxy-cli config");
}
