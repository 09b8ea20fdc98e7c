//! The tool as a whole: a catalogue, the directory it lives in, and what each
//! request leads to.

use crate::cli::{Request, RequestView};
use crate::command::{build_command, command_of, words_of, Operation, OperationView};
use crate::config::{
    find_label, found_in, has_label, labels_unique, listing_line, with_added, with_removed,
    ConfingUtil, FileState, Server, ServerView,
};
use crate::error::ToolError;
use crate::provision::{config_path, config_place, helper_path, helper_place};
use vstd::prelude::*;
use vstd::string::StringExecFns;

verus! {

/// How a command is run.
#[derive(Debug, Clone, Copy, PartialEq, Eq, Structural)]
pub enum LaunchMode {
    /// The command takes the place of this program, which ends with it.
    Replace,
    /// The command runs as a child whose output is dropped, and this program
    /// waits for it.
    Wait,
}

/// How the command of an operation is run: a session replaces this program,
/// a transfer is waited for.
pub open spec fn mode_of(operation: OperationView) -> LaunchMode {
    match operation {
        OperationView::Login => LaunchMode::Replace,
        _ => LaunchMode::Wait,
    }
}

/// The line shown when the command of an operation has ended: one for each
/// kind of transfer, none for a session.
pub open spec fn notice_of(operation: OperationView) -> Option<Seq<char>> {
    match operation {
        OperationView::Login => None,
        OperationView::Upload { .. } => Some("文件上传完成！"@),
        OperationView::Download { .. } => Some("文件下载完成！"@),
    }
}

/// How the command of an operation is run.
pub fn launch_mode(operation: &Operation) -> (r: LaunchMode)
    ensures
        r == mode_of(operation@),
{
    match operation {
        Operation::Login => LaunchMode::Replace,
        _ => LaunchMode::Wait,
    }
}

/// The line to show when the command of an operation has ended, whatever
/// status it ended with (`None` where it could not be told): the status
/// changes nothing.
pub fn completion_notice(operation: &Operation, exit_code: Option<i32>) -> (r: Option<String>)
    ensures
        match r {
            Some(line) => notice_of(operation@) == Some(line@),
            None => notice_of(operation@).is_none(),
        },
{
    match operation {
        Operation::Login => None,
        Operation::Upload { .. } => Some(String::from_str("文件上传完成！")),
        Operation::Download { .. } => Some(String::from_str("文件下载完成！")),
    }
}

/// What the caller is to do after a request was taken.
#[derive(Debug, Clone, PartialEq, Eq)]
pub enum Step {
    /// Print these lines.
    Show(Vec<String>),
    /// Write the catalogue to its file: it has changed.
    Persist,
    /// Nothing: the catalogue is as it was.
    Rest,
    /// Let the user pick one of these labels, then launch the operation on
    /// the profile at the place picked.
    Choose { labels: Vec<String>, operation: Operation },
}

/// A command, ready to run.
#[derive(Debug, Clone, PartialEq, Eq)]
pub struct Launch {
    /// How to run it.
    pub mode: LaunchMode,
    /// The program, then its arguments.
    pub argv: Vec<String>,
}

/// The operation that a request asks to launch, if it asks for one.
pub open spec fn operation_of(request: RequestView) -> Option<OperationView> {
    match request {
        RequestView::Upload { local, remote } => Some(OperationView::Upload { local, remote }),
        RequestView::Download { remote, local } => Some(OperationView::Download { remote, local }),
        RequestView::Login => Some(OperationView::Login),
        _ => None,
    }
}

/// The labels of a sequence of profiles, in order.
pub open spec fn labels_of(servers: Seq<ServerView>) -> Seq<Seq<char>> {
    servers.map_values(|server: ServerView| server.label)
}

/// The tool: its catalogue and the directory in which it keeps its files.
#[derive(Debug, Clone, PartialEq, Eq)]
pub struct SshUtil {
    config_util: ConfingUtil,
    path: String,
}

impl SshUtil {
    /// The catalogue, as mathematical values.
    pub closed spec fn servers(&self) -> Seq<ServerView> {
        self.config_util@
    }

    /// The path of the file that keeps the catalogue.
    pub closed spec fn config_file(&self) -> Seq<char> {
        self.config_util.path@
    }

    /// The directory in which the tool keeps its files.
    pub closed spec fn install_dir(&self) -> Seq<char> {
        self.path@
    }

    /// Sets the tool up in an install directory, given what was found at the
    /// place of the profile file in it. Fails as opening the catalogue does.
    pub fn new(install_dir: String, is_add: bool, stored: FileState) -> (r: Result<
        SshUtil,
        ToolError,
    >)
        ensures
            match r {
                Ok(tool) => {
                    &&& found_in(is_add, stored) == Ok::<Seq<ServerView>, ToolError>(tool.servers())
                    &&& tool.install_dir() == install_dir@
                    &&& tool.config_file() == config_place(install_dir@)
                    &&& labels_unique(tool.servers())
                },
                Err(e) => found_in(is_add, stored) == Err::<Seq<ServerView>, ToolError>(e),
            },
    {
        let file = config_path(install_dir.as_str());
        match ConfingUtil::get_config(file, is_add, stored) {
            Ok(config_util) => Ok(SshUtil { config_util, path: install_dir }),
            Err(e) => Err(e),
        }
    }

    /// The catalogue.
    pub fn config(&self) -> (r: &ConfingUtil)
        ensures
            r@ == self.servers(),
            r.path@ == self.config_file(),
    {
        &self.config_util
    }

    /// The directory in which the tool keeps its files.
    pub fn directory(&self) -> (r: &str)
        ensures
            r@ == self.install_dir(),
    {
        self.path.as_str()
    }

    /// The labels of the profiles, in the order of the catalogue: what the
    /// user picks from.
    pub fn labels(&self) -> (r: Vec<String>)
        ensures
            words_of(r@) == labels_of(self.servers()),
    {
        let n: usize = self.config_util.config.servers.len();
        let mut out: Vec<String> = Vec::new();
        let mut i: usize = 0;
        while i < n
            invariant
                n == self.config_util.config.servers@.len(),
                i <= n,
                out@.len() == i,
                forall|k: int| 0 <= k < i ==> (#[trigger] out@[k])@ == self.servers()[k].label,
            decreases n - i,
        {
            out.push(self.config_util.config.servers[i].label.clone());
            i = i + 1;
        }
        assert(words_of(out@) =~= labels_of(self.servers()));
        out
    }

    /// Takes a request and says what the caller is to do. A request to list
    /// gives the lines to print. A request to add or remove changes the
    /// catalogue as adding and removing do, and asks for the catalogue to be
    /// written where it changed. Any other request asks for a profile to be
    /// picked, and leaves the catalogue alone.
    pub fn exec(&mut self, request: Request) -> (r: Result<Step, ToolError>)
        ensures
            final(self).install_dir() == old(self).install_dir(),
            final(self).config_file() == old(self).config_file(),
            labels_unique(old(self).servers()) ==> labels_unique(final(self).servers()),
            match request@ {
                RequestView::List => {
                    &&& final(self).servers() == old(self).servers()
                    &&& r matches Ok(Step::Show(lines))
                    &&& lines@.len() == old(self).servers().len()
                    &&& forall|i: int|
                        0 <= i < lines@.len() ==> (#[trigger] lines@[i])@ == listing_line(
                            i,
                            old(self).servers()[i],
                        )
                },
                RequestView::Add(server) => {
                    &&& final(self).servers() == with_added(old(self).servers(), server)
                    &&& if has_label(old(self).servers(), server.label) {
                        r == Err::<Step, ToolError>(ToolError::DuplicateLabel)
                    } else {
                        r == Ok::<Step, ToolError>(Step::Persist)
                    }
                },
                RequestView::Remove(label) => {
                    &&& final(self).servers() == with_removed(old(self).servers(), label)
                    &&& if has_label(old(self).servers(), label) {
                        r == Ok::<Step, ToolError>(Step::Persist)
                    } else {
                        r == Ok::<Step, ToolError>(Step::Rest)
                    }
                },
                _ => {
                    &&& final(self).servers() == old(self).servers()
                    &&& r matches Ok(Step::Choose { labels, operation })
                    &&& words_of(labels@) == labels_of(old(self).servers())
                    &&& Some(operation@) == operation_of(request@)
                },
            },
    {
        match request {
            Request::List => Ok(Step::Show(self.config_util.listing())),
            Request::Add(server) => match self.config_util.add(server) {
                Ok(_) => Ok(Step::Persist),
                Err(e) => Err(e),
            },
            Request::Remove(label) => {
                let known = find_label(&self.config_util.config.servers, &label);
                let _ = self.config_util.remove(label);
                if known.is_some() {
                    Ok(Step::Persist)
                } else {
                    Ok(Step::Rest)
                }
            },
            Request::Upload { local, remote } => Ok(
                Step::Choose { labels: self.labels(), operation: Operation::Upload { local, remote } },
            ),
            Request::Download { remote, local } => Ok(
                Step::Choose {
                    labels: self.labels(),
                    operation: Operation::Download { remote, local },
                },
            ),
            Request::Login => Ok(Step::Choose { labels: self.labels(), operation: Operation::Login }),
        }
    }

    /// The command for an operation on the profile at the place picked, and
    /// how to run it; nothing where the catalogue has no such place.
    pub fn launch(&self, index: usize, operation: &Operation) -> (r: Option<Launch>)
        ensures
            match r {
                Some(launch) => {
                    &&& index < self.servers().len()
                    &&& launch.mode == mode_of(operation@)
                    &&& words_of(launch.argv@) == command_of(
                        self.servers()[index as int],
                        helper_place(self.install_dir()),
                        operation@,
                    )
                },
                None => index >= self.servers().len(),
            },
    {
        if index >= self.config_util.config.servers.len() {
            return None;
        }
        let server: &Server = &self.config_util.config.servers[index];
        let helper = helper_path(self.path.as_str());
        let argv = build_command(server, helper.as_str(), operation);
        Some(Launch { mode: launch_mode(operation), argv })
    }
}

} // verus!
