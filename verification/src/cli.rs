//! From what the user typed to what is asked of the tool.

use crate::config::{Server, ServerView};
use crate::error::{Field, ToolError};
use crate::text::{parse_decimal, parse_int};
use vstd::prelude::*;

verus! {

/// The values given with a request to add a profile, each as it was typed.
#[derive(Debug, Clone, PartialEq, Eq)]
pub struct AddArguments {
    pub label: Option<String>,
    pub host: Option<String>,
    pub port: Option<String>,
    pub username: Option<String>,
    pub password: Option<String>,
    pub private_key: Option<String>,
    pub identity_file: Option<String>,
}

/// The values given with a request to remove a profile.
#[derive(Debug, Clone, PartialEq, Eq)]
pub struct RemoveArguments {
    pub label: Option<String>,
}

/// The values given with a request to move a file: the file to take and the
/// place to put it.
#[derive(Debug, Clone, PartialEq, Eq)]
pub struct TransferArguments {
    pub file: Option<String>,
    pub target: Option<String>,
}

/// What the user typed, sorted by subcommand.
#[derive(Debug, Clone, PartialEq, Eq)]
pub struct Arguments {
    pub list: bool,
    pub add: Option<AddArguments>,
    pub rm: Option<RemoveArguments>,
    pub up: Option<TransferArguments>,
    pub down: Option<TransferArguments>,
}

/// What is asked of the tool.
#[derive(Debug, Clone, PartialEq, Eq)]
pub enum Request {
    /// Show the profiles.
    List,
    /// Add this profile.
    Add(Server),
    /// Remove the profile with this label.
    Remove(String),
    /// Copy a file of this machine to a server.
    Upload { local: String, remote: String },
    /// Copy what is on a server to this machine.
    Download { remote: String, local: String },
    /// Open a session on a server.
    Login,
}

/// A request as mathematical values.
pub ghost enum RequestView {
    List,
    Add(ServerView),
    Remove(Seq<char>),
    Upload { local: Seq<char>, remote: Seq<char> },
    Download { remote: Seq<char>, local: Seq<char> },
    Login,
}

impl View for Request {
    type V = RequestView;

    open spec fn view(&self) -> RequestView {
        match self {
            Request::List => RequestView::List,
            Request::Add(server) => RequestView::Add(server@),
            Request::Remove(label) => RequestView::Remove(label@),
            Request::Upload { local, remote } => RequestView::Upload {
                local: local@,
                remote: remote@,
            },
            Request::Download { remote, local } => RequestView::Download {
                remote: remote@,
                local: local@,
            },
            Request::Login => RequestView::Login,
        }
    }
}

/// The port of a profile that names none.
pub const DEFAULT_PORT: i64 = 22;

/// A value that may be left out, as a text: empty where it was left out.
pub open spec fn text_or_empty(value: Option<String>) -> Seq<char> {
    match value {
        Some(text) => text@,
        None => Seq::<char>::empty(),
    }
}

/// The profile that a request to add describes, or the first thing that is
/// wrong with it: label, host and user name must be there, in that order of
/// complaint, and the port, where one is given, must be a decimal numeral.
/// A port left out is the default port; a secret left out is empty.
pub open spec fn profile_of(arguments: AddArguments) -> Result<ServerView, ToolError> {
    if arguments.label is None {
        Err(ToolError::MissingRequiredField(Field::Label))
    } else if arguments.host is None {
        Err(ToolError::MissingRequiredField(Field::Host))
    } else if arguments.port is Some && parse_decimal(arguments.port->0@) is None {
        Err(ToolError::InvalidPort)
    } else if arguments.username is None {
        Err(ToolError::MissingRequiredField(Field::Username))
    } else {
        Ok(
            ServerView {
                label: arguments.label->0@,
                host: arguments.host->0@,
                port: match arguments.port {
                    Some(port) => parse_decimal(port@)->0,
                    None => DEFAULT_PORT as int,
                },
                username: arguments.username->0@,
                password: text_or_empty(arguments.password),
                private_key: text_or_empty(arguments.private_key),
                identity_file: text_or_empty(arguments.identity_file),
            },
        )
    }
}

/// What the user asks for. The subcommands are looked for in the order list,
/// add, rm, up, down; with none of them the request is to log in. `up` takes
/// a local file to a remote target, `down` a remote file to a local target.
pub open spec fn request_of(arguments: Arguments) -> Result<RequestView, ToolError> {
    if arguments.list {
        Ok(RequestView::List)
    } else if arguments.add is Some {
        match profile_of(arguments.add->0) {
            Ok(server) => Ok(RequestView::Add(server)),
            Err(e) => Err(e),
        }
    } else if arguments.rm is Some {
        match arguments.rm->0.label {
            Some(label) => Ok(RequestView::Remove(label@)),
            None => Err(ToolError::MissingRequiredField(Field::Label)),
        }
    } else if arguments.up is Some {
        match (arguments.up->0.file, arguments.up->0.target) {
            (Some(file), Some(target)) => Ok(
                RequestView::Upload { local: file@, remote: target@ },
            ),
            (None, _) => Err(ToolError::MissingRequiredField(Field::LocalPath)),
            (Some(_), None) => Err(ToolError::MissingRequiredField(Field::RemotePath)),
        }
    } else if arguments.down is Some {
        match (arguments.down->0.file, arguments.down->0.target) {
            (Some(file), Some(target)) => Ok(
                RequestView::Download { remote: file@, local: target@ },
            ),
            (None, _) => Err(ToolError::MissingRequiredField(Field::RemotePath)),
            (Some(_), None) => Err(ToolError::MissingRequiredField(Field::LocalPath)),
        }
    } else {
        Ok(RequestView::Login)
    }
}

fn or_empty(value: Option<String>) -> (r: String)
    ensures
        r@ == text_or_empty(value),
{
    match value {
        Some(text) => text,
        None => String::new(),
    }
}

/// Makes the profile that a request to add describes.
pub fn profile_from(arguments: AddArguments) -> (r: Result<Server, ToolError>)
    ensures
        match r {
            Ok(server) => profile_of(arguments) == Ok::<ServerView, ToolError>(server@),
            Err(e) => profile_of(arguments) == Err::<ServerView, ToolError>(e),
        },
{
    let AddArguments { label, host, port, username, password, private_key, identity_file } =
        arguments;
    let label = match label {
        Some(label) => label,
        None => {
            return Err(ToolError::MissingRequiredField(Field::Label));
        },
    };
    let host = match host {
        Some(host) => host,
        None => {
            return Err(ToolError::MissingRequiredField(Field::Host));
        },
    };
    let port: i64 = match port {
        Some(text) => match parse_int(text.as_str()) {
            Some(port) => port,
            None => {
                return Err(ToolError::InvalidPort);
            },
        },
        None => DEFAULT_PORT,
    };
    let username = match username {
        Some(username) => username,
        None => {
            return Err(ToolError::MissingRequiredField(Field::Username));
        },
    };
    Ok(
        Server {
            label,
            host,
            port,
            username,
            password: or_empty(password),
            private_key: or_empty(private_key),
            identity_file: or_empty(identity_file),
        },
    )
}

/// Reads what the user typed as a request.
pub fn resolve_request(arguments: Arguments) -> (r: Result<Request, ToolError>)
    ensures
        match r {
            Ok(request) => request_of(arguments) == Ok::<RequestView, ToolError>(request@),
            Err(e) => request_of(arguments) == Err::<RequestView, ToolError>(e),
        },
{
    let Arguments { list, add, rm, up, down } = arguments;
    if list {
        return Ok(Request::List);
    }
    if let Some(add) = add {
        return match profile_from(add) {
            Ok(server) => Ok(Request::Add(server)),
            Err(e) => Err(e),
        };
    }
    if let Some(rm) = rm {
        return match rm.label {
            Some(label) => Ok(Request::Remove(label)),
            None => Err(ToolError::MissingRequiredField(Field::Label)),
        };
    }
    if let Some(up) = up {
        let local = match up.file {
            Some(file) => file,
            None => {
                return Err(ToolError::MissingRequiredField(Field::LocalPath));
            },
        };
        return match up.target {
            Some(remote) => Ok(Request::Upload { local, remote }),
            None => Err(ToolError::MissingRequiredField(Field::RemotePath)),
        };
    }
    if let Some(down) = down {
        let remote = match down.file {
            Some(file) => file,
            None => {
                return Err(ToolError::MissingRequiredField(Field::RemotePath));
            },
        };
        return match down.target {
            Some(local) => Ok(Request::Download { remote, local }),
            None => Err(ToolError::MissingRequiredField(Field::LocalPath)),
        };
    }
    Ok(Request::Login)
}

} // verus!
