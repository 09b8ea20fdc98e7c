use ssh_tool::cli::{
    profile_from, resolve_request, AddArguments, Arguments, RemoveArguments, Request, TransferArguments,
    DEFAULT_PORT,
};
use ssh_tool::config::Server;
use ssh_tool::error::{Field, ToolError};

fn text(s: &str) -> Option<String> {
    Some(s.to_string())
}

fn nothing() -> Arguments {
    Arguments { list: false, add: None, rm: None, up: None, down: None }
}

fn full_add() -> AddArguments {
    AddArguments {
        label: text("prod"),
        host: text("10.0.0.5"),
        port: text("2222"),
        username: text("deploy"),
        password: text("pw"),
        private_key: text("pk"),
        identity_file: text("/keys/id_rsa"),
    }
}

#[test]
fn no_subcommand_is_a_login() {
    assert_eq!(resolve_request(nothing()), Ok(Request::Login));
}

#[test]
fn list_is_looked_for_first() {
    let mut args = nothing();
    args.list = true;
    args.add = Some(full_add());
    args.rm = Some(RemoveArguments { label: None });
    assert_eq!(resolve_request(args), Ok(Request::List));
}

#[test]
fn add_with_everything() {
    let mut args = nothing();
    args.add = Some(full_add());
    let expected = Server {
        label: "prod".to_string(),
        host: "10.0.0.5".to_string(),
        port: 2222,
        username: "deploy".to_string(),
        password: "pw".to_string(),
        private_key: "pk".to_string(),
        identity_file: "/keys/id_rsa".to_string(),
    };
    assert_eq!(resolve_request(args), Ok(Request::Add(expected)));
}

#[test]
fn add_with_the_least() {
    let add = AddArguments {
        label: text("dev"),
        host: text("dev.local"),
        port: None,
        username: text("bob"),
        password: None,
        private_key: None,
        identity_file: None,
    };
    let expected = Server {
        label: "dev".to_string(),
        host: "dev.local".to_string(),
        port: 22,
        username: "bob".to_string(),
        password: String::new(),
        private_key: String::new(),
        identity_file: String::new(),
    };
    assert_eq!(DEFAULT_PORT, 22);
    assert_eq!(profile_from(add), Ok(expected));
}

#[test]
fn add_without_a_label() {
    let mut add = full_add();
    add.label = None;
    add.host = None;
    add.port = text("x");
    assert_eq!(profile_from(add), Err(ToolError::MissingRequiredField(Field::Label)));
}

#[test]
fn add_without_a_host() {
    let mut add = full_add();
    add.host = None;
    add.port = text("x");
    add.username = None;
    assert_eq!(profile_from(add), Err(ToolError::MissingRequiredField(Field::Host)));
}

#[test]
fn add_with_a_port_that_is_no_number() {
    for port in ["", "ssh", "22a", "99999999999999999999", " 22"] {
        let mut add = full_add();
        add.port = text(port);
        add.username = None;
        assert_eq!(profile_from(add), Err(ToolError::InvalidPort));
    }
}

#[test]
fn add_without_a_user_name() {
    let mut add = full_add();
    add.username = None;
    let mut args = nothing();
    args.add = Some(add);
    assert_eq!(resolve_request(args), Err(ToolError::MissingRequiredField(Field::Username)));
}

#[test]
fn add_is_looked_for_before_rm() {
    let mut args = nothing();
    args.add = Some(full_add());
    args.rm = Some(RemoveArguments { label: text("x") });
    assert!(matches!(resolve_request(args), Ok(Request::Add(_))));
}

#[test]
fn rm_with_and_without_a_label() {
    let mut args = nothing();
    args.rm = Some(RemoveArguments { label: text("prod") });
    args.up = Some(TransferArguments { file: None, target: None });
    assert_eq!(resolve_request(args), Ok(Request::Remove("prod".to_string())));
    let mut args = nothing();
    args.rm = Some(RemoveArguments { label: None });
    assert_eq!(resolve_request(args), Err(ToolError::MissingRequiredField(Field::Label)));
}

#[test]
fn up_takes_a_local_file_to_a_remote_target() {
    let mut args = nothing();
    args.up = Some(TransferArguments { file: text("a.txt"), target: text("/tmp/a.txt") });
    args.down = Some(TransferArguments { file: text("x"), target: text("y") });
    assert_eq!(
        resolve_request(args),
        Ok(Request::Upload { local: "a.txt".to_string(), remote: "/tmp/a.txt".to_string() })
    );
}

#[test]
fn up_with_a_path_missing() {
    let mut args = nothing();
    args.up = Some(TransferArguments { file: None, target: None });
    assert_eq!(resolve_request(args), Err(ToolError::MissingRequiredField(Field::LocalPath)));
    let mut args = nothing();
    args.up = Some(TransferArguments { file: text("a.txt"), target: None });
    assert_eq!(resolve_request(args), Err(ToolError::MissingRequiredField(Field::RemotePath)));
}

#[test]
fn down_takes_a_remote_file_to_a_local_target() {
    let mut args = nothing();
    args.down = Some(TransferArguments { file: text("/var/log"), target: text("logs") });
    assert_eq!(
        resolve_request(args),
        Ok(Request::Download { remote: "/var/log".to_string(), local: "logs".to_string() })
    );
}

#[test]
fn down_with_a_path_missing() {
    let mut args = nothing();
    args.down = Some(TransferArguments { file: None, target: None });
    assert_eq!(resolve_request(args), Err(ToolError::MissingRequiredField(Field::RemotePath)));
    let mut args = nothing();
    args.down = Some(TransferArguments { file: text("/var/log"), target: None });
    assert_eq!(resolve_request(args), Err(ToolError::MissingRequiredField(Field::LocalPath)));
}
