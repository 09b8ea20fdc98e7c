//! The command lines that open a session or move a file.

use crate::auth::{select_strategy, strategy_of, AuthStrategy, StrategyView};
use crate::config::{Server, ServerView};
use crate::text::{decimal, int_to_string};
use vstd::prelude::*;
use vstd::string::StringExecFns;

verus! {

/// What is to be done on a server.
#[derive(Debug, Clone, PartialEq, Eq)]
pub enum Operation {
    /// Open an interactive session.
    Login,
    /// Copy the file at `local` on this machine to `remote` on the server.
    Upload { local: String, remote: String },
    /// Copy what is at `remote` on the server to `local` on this machine.
    Download { remote: String, local: String },
}

/// An operation as mathematical values.
pub ghost enum OperationView {
    Login,
    Upload { local: Seq<char>, remote: Seq<char> },
    Download { remote: Seq<char>, local: Seq<char> },
}

impl View for Operation {
    type V = OperationView;

    open spec fn view(&self) -> OperationView {
        match self {
            Operation::Login => OperationView::Login,
            Operation::Upload { local, remote } => OperationView::Upload {
                local: local@,
                remote: remote@,
            },
            Operation::Download { remote, local } => OperationView::Download {
                remote: remote@,
                local: local@,
            },
        }
    }
}

/// The words of an argument vector.
pub open spec fn words_of(argv: Seq<String>) -> Seq<Seq<char>> {
    argv.map_values(|word: String| word@)
}

/// The account on the host, as the clients want it: `user@host`.
pub open spec fn account(server: ServerView) -> Seq<char> {
    server.username + "@"@ + server.host
}

/// A path on the server, as `scp` wants it: `user@host:path`.
pub open spec fn remote_place(server: ServerView, path: Seq<char>) -> Seq<char> {
    account(server) + ":"@ + path
}

/// The argument vector, program first, for an operation on a server under a
/// strategy, with the password helper at `helper`. A key goes to the client
/// by `-i`; a password goes to the helper, which runs the client; a download
/// is always recursive and compressed, an upload never.
pub open spec fn command_words(
    server: ServerView,
    strategy: StrategyView,
    helper: Seq<char>,
    operation: OperationView,
) -> Seq<Seq<char>> {
    let port = decimal(server.port);
    let host = account(server);
    match (operation, strategy) {
        (OperationView::Login, StrategyView::KeyAuth(key)) => seq![
            "ssh"@,
            "-i"@,
            key,
            "-p"@,
            port,
            host,
        ],
        (OperationView::Login, StrategyView::PasswordAuth(password)) => seq![
            helper,
            "-p"@,
            password,
            "ssh"@,
            "-p"@,
            port,
            host,
        ],
        (OperationView::Login, StrategyView::NoSecret) => seq!["ssh"@, "-p"@, port, host],
        (OperationView::Upload { local, remote }, StrategyView::KeyAuth(key)) => seq![
            "scp"@,
            "-i"@,
            key,
            "-P"@,
            port,
            local,
            remote_place(server, remote),
        ],
        (OperationView::Upload { local, remote }, StrategyView::PasswordAuth(password)) => seq![
            helper,
            "-p"@,
            password,
            "scp"@,
            "-P"@,
            port,
            local,
            remote_place(server, remote),
        ],
        (OperationView::Upload { local, remote }, StrategyView::NoSecret) => seq![
            "scp"@,
            "-P"@,
            port,
            local,
            remote_place(server, remote),
        ],
        (OperationView::Download { remote, local }, StrategyView::KeyAuth(key)) => seq![
            "scp"@,
            "-i"@,
            key,
            "-P"@,
            port,
            "-r"@,
            "-C"@,
            remote_place(server, remote),
            local,
        ],
        (OperationView::Download { remote, local }, StrategyView::PasswordAuth(password)) => seq![
            helper,
            "-p"@,
            password,
            "scp"@,
            "-P"@,
            port,
            "-r"@,
            "-C"@,
            remote_place(server, remote),
            local,
        ],
        (OperationView::Download { remote, local }, StrategyView::NoSecret) => seq![
            "scp"@,
            "-P"@,
            port,
            "-r"@,
            "-C"@,
            remote_place(server, remote),
            local,
        ],
    }
}

/// The argument vector for an operation on a server, under the strategy that
/// the server's credentials call for.
pub open spec fn command_of(server: ServerView, helper: Seq<char>, operation: OperationView) -> Seq<
    Seq<char>,
> {
    command_words(server, strategy_of(server), helper, operation)
}

/// The words of a command on one line, a single space between any two.
pub open spec fn joined(words: Seq<Seq<char>>) -> Seq<char>
    decreases words.len(),
{
    if words.len() == 0 {
        Seq::<char>::empty()
    } else if words.len() == 1 {
        words[0]
    } else {
        joined(words.drop_last()) + " "@ + words.last()
    }
}

fn push_word(argv: &mut Vec<String>, word: &str)
    ensures
        words_of(final(argv)@) == words_of(old(argv)@).push(word@),
{
    argv.push(String::from_str(word));
    assert(words_of(final(argv)@) =~= words_of(old(argv)@).push(word@));
}

fn account_of(server: &Server) -> (r: String)
    ensures
        r@ == account(server@),
{
    let mut out = server.username.clone();
    out.append("@");
    out.append(server.host.as_str());
    out
}

fn remote_place_of(server: &Server, path: &str) -> (r: String)
    ensures
        r@ == remote_place(server@, path@),
{
    let mut out = account_of(server);
    out.append(":");
    out.append(path);
    out
}

/// Builds the argument vector, program first, for an operation on a server
/// under a given strategy.
pub fn command_for(server: &Server, strategy: &AuthStrategy, helper: &str, operation: &Operation) -> (r:
    Vec<String>)
    ensures
        words_of(r@) == command_words(server@, strategy@, helper@, operation@),
{
    let client: &'static str = match operation {
        Operation::Login => "ssh",
        _ => "scp",
    };
    let mut argv: Vec<String> = Vec::new();
    assert(words_of(argv@) =~= Seq::<Seq<char>>::empty());
    match strategy {
        AuthStrategy::KeyAuth(key) => {
            push_word(&mut argv, client);
            push_word(&mut argv, "-i");
            push_word(&mut argv, key.as_str());
        },
        AuthStrategy::PasswordAuth(password) => {
            push_word(&mut argv, helper);
            push_word(&mut argv, "-p");
            push_word(&mut argv, password.as_str());
            push_word(&mut argv, client);
        },
        AuthStrategy::NoSecret => {
            push_word(&mut argv, client);
        },
    }
    let port = int_to_string(server.port);
    match operation {
        Operation::Login => {
            push_word(&mut argv, "-p");
            push_word(&mut argv, port.as_str());
            let host = account_of(server);
            push_word(&mut argv, host.as_str());
        },
        Operation::Upload { local, remote } => {
            push_word(&mut argv, "-P");
            push_word(&mut argv, port.as_str());
            push_word(&mut argv, local.as_str());
            let place = remote_place_of(server, remote.as_str());
            push_word(&mut argv, place.as_str());
        },
        Operation::Download { remote, local } => {
            push_word(&mut argv, "-P");
            push_word(&mut argv, port.as_str());
            push_word(&mut argv, "-r");
            push_word(&mut argv, "-C");
            let place = remote_place_of(server, remote.as_str());
            push_word(&mut argv, place.as_str());
            push_word(&mut argv, local.as_str());
        },
    }
    assert(words_of(argv@) =~= command_words(server@, strategy@, helper@, operation@));
    argv
}

/// Builds the argument vector, program first, for an operation on a server.
/// It depends on nothing but the profile, the helper's path and the
/// operation.
pub fn build_command(server: &Server, helper: &str, operation: &Operation) -> (r: Vec<String>)
    ensures
        words_of(r@) == command_of(server@, helper@, operation@),
{
    let strategy = select_strategy(server);
    command_for(server, &strategy, helper, operation)
}

/// Writes a command on one line, a single space between any two words.
pub fn render_command(argv: &Vec<String>) -> (r: String)
    ensures
        r@ == joined(words_of(argv@)),
{
    let n: usize = argv.len();
    let mut line = String::new();
    let mut i: usize = 0;
    while i < n
        invariant
            n == argv@.len(),
            i <= n,
            line@ == joined(words_of(argv@).subrange(0, i as int)),
        decreases n - i,
    {
        let ghost before = words_of(argv@).subrange(0, i as int);
        let ghost after = words_of(argv@).subrange(0, i + 1);
        assert(after.drop_last() =~= before);
        assert(after.last() == argv@[i as int]@);
        if i > 0 {
            line.append(" ");
        } else {
            assert(line@ =~= Seq::<char>::empty());
        }
        line.append(argv[i].as_str());
        assert(line@ =~= joined(after));
        i = i + 1;
    }
    assert(words_of(argv@).subrange(0, n as int) =~= words_of(argv@));
    line
}

} // verus!
