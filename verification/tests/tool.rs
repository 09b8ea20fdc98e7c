use ssh_tool::cli::Request;
use ssh_tool::command::Operation;
use ssh_tool::config::{Config, FileState, Server};
use ssh_tool::error::ToolError;
use ssh_tool::provision::{
    config_path, helper_path, provision_step, resolve_install_dir, ProvisionAction, ProvisionEvent,
    ProvisionState,
};
use ssh_tool::ssh_util::{completion_notice, launch_mode, LaunchMode, SshUtil, Step};

fn entry(label: &str, host: &str, password: &str, identity_file: &str) -> Server {
    Server {
        label: label.to_string(),
        host: host.to_string(),
        port: 22,
        username: "bob".to_string(),
        password: password.to_string(),
        private_key: String::new(),
        identity_file: identity_file.to_string(),
    }
}

fn tool() -> SshUtil {
    let config = Config {
        servers: vec![entry("dev", "dev.local", "hunter2", ""), entry("prod", "10.0.0.5", "", "/keys/id_rsa")],
    };
    SshUtil::new("/opt/tool".to_string(), false, FileState::Loaded(config)).unwrap()
}

fn words(line: &[&str]) -> Vec<String> {
    line.iter().map(|word| word.to_string()).collect()
}

#[test]
fn install_dir_is_where_the_program_is() {
    assert_eq!(resolve_install_dir("/usr/local/bin".to_string(), "/src/tool".to_string()), "/usr/local/bin");
    assert_eq!(resolve_install_dir("".to_string(), "/src/tool".to_string()), "");
}

#[test]
fn install_dir_of_a_debug_build_is_the_fallback() {
    assert_eq!(resolve_install_dir("/src/tool/target/debug".to_string(), "/src/tool".to_string()), "/src/tool");
    assert_eq!(
        resolve_install_dir("/src/tool/target/debug/deps".to_string(), "/src/tool".to_string()),
        "/src/tool"
    );
    assert_eq!(
        resolve_install_dir("/src/tool/target/release".to_string(), "/src/tool".to_string()),
        "/src/tool/target/release"
    );
}

#[test]
fn files_of_the_install_dir() {
    assert_eq!(helper_path("/opt/tool"), "/opt/tool/sshpass");
    assert_eq!(config_path("/opt/tool"), "/opt/tool/sshConfig.toml");
}

#[test]
fn present_helper_is_left_alone() {
    assert_eq!(
        provision_step(ProvisionState::Checking, ProvisionEvent::Present),
        (ProvisionState::Ready, ProvisionAction::Proceed)
    );
}

#[test]
fn absent_helper_is_written_then_marked() {
    let (s1, a1) = provision_step(ProvisionState::Checking, ProvisionEvent::Absent);
    assert_eq!((s1, a1), (ProvisionState::Writing, ProvisionAction::WriteHelper));
    let (s2, a2) = provision_step(s1, ProvisionEvent::Written);
    assert_eq!((s2, a2), (ProvisionState::Marking, ProvisionAction::MarkExecutable));
    let (s3, a3) = provision_step(s2, ProvisionEvent::Marked);
    assert_eq!((s3, a3), (ProvisionState::Ready, ProvisionAction::Proceed));
}

#[test]
fn failed_steps_abort() {
    assert_eq!(
        provision_step(ProvisionState::Writing, ProvisionEvent::WriteFailed),
        (ProvisionState::Failed, ProvisionAction::Abort)
    );
    assert_eq!(
        provision_step(ProvisionState::Marking, ProvisionEvent::MarkFailed),
        (ProvisionState::Failed, ProvisionAction::Abort)
    );
    assert_eq!(
        provision_step(ProvisionState::Checking, ProvisionEvent::Written),
        (ProvisionState::Failed, ProvisionAction::Abort)
    );
    assert_eq!(
        provision_step(ProvisionState::Writing, ProvisionEvent::Marked),
        (ProvisionState::Failed, ProvisionAction::Abort)
    );
}

#[test]
fn final_states_stay() {
    let events = [
        ProvisionEvent::Present,
        ProvisionEvent::Absent,
        ProvisionEvent::Written,
        ProvisionEvent::WriteFailed,
        ProvisionEvent::Marked,
        ProvisionEvent::MarkFailed,
    ];
    for event in events {
        assert_eq!(provision_step(ProvisionState::Ready, event), (ProvisionState::Ready, ProvisionAction::Proceed));
        assert_eq!(provision_step(ProvisionState::Failed, event), (ProvisionState::Failed, ProvisionAction::Abort));
    }
}

#[test]
fn sessions_replace_and_transfers_wait() {
    assert_eq!(launch_mode(&Operation::Login), LaunchMode::Replace);
    assert_eq!(launch_mode(&Operation::Upload { local: "a".to_string(), remote: "b".to_string() }), LaunchMode::Wait);
    assert_eq!(
        launch_mode(&Operation::Download { remote: "a".to_string(), local: "b".to_string() }),
        LaunchMode::Wait
    );
}

#[test]
fn notice_does_not_depend_on_the_exit_status() {
    let up = Operation::Upload { local: "a".to_string(), remote: "b".to_string() };
    let down = Operation::Download { remote: "a".to_string(), local: "b".to_string() };
    for status in [Some(0), Some(1), Some(255), Some(-1), None] {
        assert_eq!(completion_notice(&up, status), Some("文件上传完成！".to_string()));
        assert_eq!(completion_notice(&down, status), Some("文件下载完成！".to_string()));
        assert_eq!(completion_notice(&Operation::Login, status), None);
    }
}

#[test]
fn tool_opens_on_the_file_of_its_directory() {
    let t = SshUtil::new("/opt/tool".to_string(), true, FileState::Missing).unwrap();
    assert_eq!(t.directory(), "/opt/tool");
    assert_eq!(t.config().path, "/opt/tool/sshConfig.toml");
    assert!(t.config().list().is_empty());
    assert!(t.labels().is_empty());
}

#[test]
fn tool_fails_as_the_catalogue_does() {
    assert_eq!(
        SshUtil::new("/opt/tool".to_string(), false, FileState::Missing).unwrap_err(),
        ToolError::NotConfigured
    );
    assert_eq!(
        SshUtil::new("/opt/tool".to_string(), true, FileState::Malformed).unwrap_err(),
        ToolError::ParseError
    );
    let twice = Config { servers: vec![entry("a", "h", "", ""), entry("a", "g", "", "")] };
    assert_eq!(
        SshUtil::new("/opt/tool".to_string(), false, FileState::Loaded(twice)).unwrap_err(),
        ToolError::ParseError
    );
}

#[test]
fn list_request_shows_numbered_lines() {
    let mut t = tool();
    assert_eq!(
        t.exec(Request::List),
        Ok(Step::Show(vec!["1: dev - dev.local".to_string(), "2: prod - 10.0.0.5".to_string()]))
    );
    assert_eq!(t, tool());
}

#[test]
fn add_request_changes_the_catalogue_and_asks_to_persist() {
    let mut t = tool();
    assert_eq!(t.exec(Request::Add(entry("lab", "lab.local", "", ""))), Ok(Step::Persist));
    assert_eq!(t.labels(), vec!["dev", "prod", "lab"]);
    assert_eq!(t.config().list()[2], entry("lab", "lab.local", "", ""));
}

#[test]
fn add_request_with_a_taken_label_fails() {
    let mut t = tool();
    assert_eq!(t.exec(Request::Add(entry("dev", "other", "", ""))), Err(ToolError::DuplicateLabel));
    assert_eq!(t, tool());
}

#[test]
fn remove_request_persists_only_a_change() {
    let mut t = tool();
    assert_eq!(t.exec(Request::Remove("nobody".to_string())), Ok(Step::Rest));
    assert_eq!(t, tool());
    assert_eq!(t.exec(Request::Remove("dev".to_string())), Ok(Step::Persist));
    assert_eq!(t.labels(), vec!["prod"]);
}

#[test]
fn other_requests_ask_for_a_choice() {
    let mut t = tool();
    assert_eq!(
        t.exec(Request::Login),
        Ok(Step::Choose { labels: vec!["dev".to_string(), "prod".to_string()], operation: Operation::Login })
    );
    assert_eq!(
        t.exec(Request::Upload { local: "a.txt".to_string(), remote: "/tmp/a.txt".to_string() }),
        Ok(Step::Choose {
            labels: vec!["dev".to_string(), "prod".to_string()],
            operation: Operation::Upload { local: "a.txt".to_string(), remote: "/tmp/a.txt".to_string() },
        })
    );
    assert_eq!(
        t.exec(Request::Download { remote: "/var/log".to_string(), local: "logs".to_string() }),
        Ok(Step::Choose {
            labels: vec!["dev".to_string(), "prod".to_string()],
            operation: Operation::Download { remote: "/var/log".to_string(), local: "logs".to_string() },
        })
    );
    assert_eq!(t, tool());
}

#[test]
fn launch_builds_the_command_of_the_profile_picked() {
    let t = tool();
    let login = t.launch(0, &Operation::Login).unwrap();
    assert_eq!(login.mode, LaunchMode::Replace);
    assert_eq!(login.argv, words(&["/opt/tool/sshpass", "-p", "hunter2", "ssh", "-p", "22", "bob@dev.local"]));
    let up = t
        .launch(1, &Operation::Upload { local: "a.txt".to_string(), remote: "/tmp/a.txt".to_string() })
        .unwrap();
    assert_eq!(up.mode, LaunchMode::Wait);
    assert_eq!(up.argv, words(&["scp", "-i", "/keys/id_rsa", "-P", "22", "a.txt", "bob@10.0.0.5:/tmp/a.txt"]));
}

#[test]
fn launch_of_no_such_place_is_nothing() {
    let t = tool();
    assert_eq!(t.launch(2, &Operation::Login), None);
    let empty = SshUtil::new("/opt/tool".to_string(), true, FileState::Missing).unwrap();
    assert_eq!(empty.launch(0, &Operation::Login), None);
}
