//! The failures that the tool reports, each as one line for the user.

use vstd::prelude::*;
use vstd::string::StringExecFns;

verus! {

/// A value that a request needs and that the user did not give.
#[derive(Debug, Clone, Copy, PartialEq, Eq, Structural)]
pub enum Field {
    /// The label of a profile.
    Label,
    /// The host of a profile.
    Host,
    /// The user name of a profile.
    Username,
    /// The path of a file on this machine.
    LocalPath,
    /// The path of a file on the server.
    RemotePath,
}

/// Why an operation was not carried out.
#[derive(Debug, Clone, Copy, PartialEq, Eq, Structural)]
pub enum ToolError {
    /// There is no profile file, and the request was not to add a profile.
    NotConfigured,
    /// The profile file could not be read as a catalogue of profiles.
    ParseError,
    /// A profile with the same label is already in the catalogue.
    DuplicateLabel,
    /// A required value is absent from the request.
    MissingRequiredField(Field),
    /// The port is not a number.
    InvalidPort,
    /// The password helper could not be written or made executable.
    HelperInstallFailure,
    /// The client program could not be started.
    ProcessSpawnFailure,
}

/// The line that tells the user of a missing value.
pub open spec fn field_text(field: Field) -> Seq<char> {
    match field {
        Field::Label => "没有服务器名称"@,
        Field::Host => "没有IP"@,
        Field::Username => "没有用户名"@,
        Field::LocalPath => "没有本地文件路径"@,
        Field::RemotePath => "没有远程文件路径"@,
    }
}

/// The line that tells the user of a failure.
pub open spec fn message_text(error: ToolError) -> Seq<char> {
    match error {
        ToolError::NotConfigured => "请先添加服务器配置！"@,
        ToolError::ParseError => "服务器配置文件无法解析！"@,
        ToolError::DuplicateLabel => "服务器已存在！"@,
        ToolError::MissingRequiredField(field) => field_text(field),
        ToolError::InvalidPort => "端口必须为数字"@,
        ToolError::HelperInstallFailure => "无法安装sshpass！"@,
        ToolError::ProcessSpawnFailure => "无法启动ssh客户端！"@,
    }
}

impl ToolError {
    /// The one line shown to the user for this failure.
    pub fn message(&self) -> (r: String)
        ensures
            r@ == message_text(*self),
    {
        let line: &'static str = match self {
            ToolError::NotConfigured => "请先添加服务器配置！",
            ToolError::ParseError => "服务器配置文件无法解析！",
            ToolError::DuplicateLabel => "服务器已存在！",
            ToolError::MissingRequiredField(Field::Label) => "没有服务器名称",
            ToolError::MissingRequiredField(Field::Host) => "没有IP",
            ToolError::MissingRequiredField(Field::Username) => "没有用户名",
            ToolError::MissingRequiredField(Field::LocalPath) => "没有本地文件路径",
            ToolError::MissingRequiredField(Field::RemotePath) => "没有远程文件路径",
            ToolError::InvalidPort => "端口必须为数字",
            ToolError::HelperInstallFailure => "无法安装sshpass！",
            ToolError::ProcessSpawnFailure => "无法启动ssh客户端！",
        };
        String::from_str(line)
    }
}

} // verus!
