//! Why an operation ends without having done its work.

use crate::attribute::SYSTEM_CONFIGS;
use crate::text::{join, joined};
use vstd::prelude::*;

verus! {

/// Why a run of Nix gave no text.
#[derive(Debug, PartialEq, Eq)]
pub enum NixError {
    /// The command could not be started, for the given reason.
    NotStarted(String),
    /// The command ended with a failure; `status` is its exit status as shown to
    /// the user and `stderr` what it said, without white space at the ends.
    Failed { status: String, stderr: String },
    /// What the command wrote is not UTF-8, for the given reason.
    NotUtf8(String),
}

/// The mathematical value of a [`NixError`].
#[verifier::ext_equal]
pub enum NixErrorModel {
    NotStarted(Seq<char>),
    Failed { status: Seq<char>, stderr: Seq<char> },
    NotUtf8(Seq<char>),
}

impl View for NixError {
    type V = NixErrorModel;

    open spec fn view(&self) -> NixErrorModel {
        match *self {
            NixError::NotStarted(cause) => NixErrorModel::NotStarted(cause@),
            NixError::Failed { status, stderr } => NixErrorModel::Failed {
                status: status@,
                stderr: stderr@,
            },
            NixError::NotUtf8(cause) => NixErrorModel::NotUtf8(cause@),
        }
    }
}

impl NixErrorModel {
    /// The sentence that tells the user.
    pub open spec fn message(self) -> Seq<char> {
        match self {
            NixErrorModel::NotStarted(_) => "Failed to run nix command"@,
            NixErrorModel::Failed { status, stderr } => {
                let head = "nix command failed (exit status "@ + status + ")"@;
                if stderr.len() == 0 {
                    head
                } else {
                    head + "\nstderr:\n"@ + stderr
                }
            },
            NixErrorModel::NotUtf8(_) => "nix command emitted non-UTF-8 stdout"@,
        }
    }

    /// The sentence, then the reason that came from outside, if there is one.
    pub open spec fn chain(self) -> Seq<Seq<char>> {
        match self {
            NixErrorModel::NotStarted(cause) => seq![self.message(), cause],
            NixErrorModel::Failed { .. } => seq![self.message()],
            NixErrorModel::NotUtf8(cause) => seq![self.message(), cause],
        }
    }
}

impl NixError {
    /// The sentence that tells the user.
    pub fn message(&self) -> (result: String)
        ensures
            result@ == self@.message(),
    {
        match self {
            NixError::NotStarted(_) => "Failed to run nix command".to_owned(),
            NixError::Failed { status, stderr } => {
                let head = "nix command failed (exit status ".to_owned().concat(
                    status.as_str(),
                ).concat(")");
                if stderr.as_str().is_empty() {
                    head
                } else {
                    head.concat("\nstderr:\n").concat(stderr.as_str())
                }
            },
            NixError::NotUtf8(_) => "nix command emitted non-UTF-8 stdout".to_owned(),
        }
    }

    /// The sentence, then the reason that came from outside, if there is one.
    pub fn chain(&self) -> (result: Vec<String>)
        ensures
            result.deep_view() == self@.chain(),
    {
        let mut result: Vec<String> = Vec::new();
        result.push(self.message());
        match self {
            NixError::NotStarted(cause) => result.push(cause.clone()),
            NixError::Failed { .. } => {},
            NixError::NotUtf8(cause) => result.push(cause.clone()),
        }
        assert(result.deep_view() =~= self@.chain());
        result
    }
}

/// What was under way when something outside failed.
#[derive(Debug, Clone, Copy, PartialEq, Eq, Structural)]
pub enum Context {
    ConnectBuildHost,
    ConnectTargetHost,
    ResolveStorePath,
    Build,
    ResolveOutLink,
    CopyClosure,
    ValidateClosure,
    CheckEngine,
    Register,
    Activate,
}

impl Context {
    /// The sentence that tells the user.
    pub open spec fn text(self) -> Seq<char> {
        match self {
            Context::ConnectBuildHost => "Failed to establish SSH connection to build host"@,
            Context::ConnectTargetHost => "Failed to establish SSH connection to target host"@,
            Context::ResolveStorePath =>
                "Failed to resolve store path installable to canonical store path"@,
            Context::Build => "Failed to build System Manager configuration"@,
            Context::ResolveOutLink => "Failed to resolve output path to actual store path"@,
            Context::CopyClosure => "Failed to copy system-manager closure to target host"@,
            Context::ValidateClosure => "Failed to validate system-manager closure on target host"@,
            Context::CheckEngine => "Failed to check if system-manager-engine exists"@,
            Context::Register => "Failed to register System Manager profile"@,
            Context::Activate => "System Manager activation failed"@,
        }
    }

    /// The sentence that tells the user.
    pub fn message(self) -> (result: String)
        ensures
            result@ == self.text(),
    {
        let text = match self {
            Context::ConnectBuildHost => "Failed to establish SSH connection to build host",
            Context::ConnectTargetHost => "Failed to establish SSH connection to target host",
            Context::ResolveStorePath =>
                "Failed to resolve store path installable to canonical store path",
            Context::Build => "Failed to build System Manager configuration",
            Context::ResolveOutLink => "Failed to resolve output path to actual store path",
            Context::CopyClosure => "Failed to copy system-manager closure to target host",
            Context::ValidateClosure => "Failed to validate system-manager closure on target host",
            Context::CheckEngine => "Failed to check if system-manager-engine exists",
            Context::Register => "Failed to register System Manager profile",
            Context::Activate => "System Manager activation failed",
        };
        text.to_owned()
    }
}

/// Why an operation ended without having done its work.
#[derive(Debug, PartialEq, Eq)]
pub enum Error {
    /// The operation was started by root, without leave to be.
    RunningAsRoot,
    /// The name of the configuration is no attribute path.
    InvalidConfiguration(String),
    /// The name of the configuration has no segment.
    EmptyConfiguration,
    /// A configuration was named, and so was an attribute path.
    ConfigurationWithAttribute,
    /// The attribute path reaches below a configuration.
    TooSpecific(Vec<String>),
    /// A configuration must be looked for, and the host has no name.
    MissingHostname,
    /// The named configuration is not there.
    ConfigurationNotFound(Vec<String>),
    /// A flake has none of the configurations that were looked for.
    NoneInFlake,
    /// A file or an expression has none of the configurations that were looked for.
    NoneInFile,
    /// Nix could not say whether the candidate is there.
    LookupFailed { candidate: Vec<String>, nix: NixError },
    /// The user did not want the configuration.
    Rejected,
    /// The build has no engine at the given place.
    EngineMissing(String),
    /// A store path was given to the interactive session.
    StoreInRepl,
    /// The interactive session ended with the given exit status.
    ReplFailed(String),
    /// Something outside failed for the given reason.
    Failed { context: Option<Context>, cause: String },
}

/// The mathematical value of an [`Error`].
#[verifier::ext_equal]
pub enum ErrorModel {
    RunningAsRoot,
    InvalidConfiguration(Seq<char>),
    EmptyConfiguration,
    ConfigurationWithAttribute,
    TooSpecific(Seq<Seq<char>>),
    MissingHostname,
    ConfigurationNotFound(Seq<Seq<char>>),
    NoneInFlake,
    NoneInFile,
    LookupFailed { candidate: Seq<Seq<char>>, nix: NixErrorModel },
    Rejected,
    EngineMissing(Seq<char>),
    StoreInRepl,
    ReplFailed(Seq<char>),
    Failed { context: Option<Context>, cause: Seq<char> },
}

impl View for Error {
    type V = ErrorModel;

    open spec fn view(&self) -> ErrorModel {
        match *self {
            Error::RunningAsRoot => ErrorModel::RunningAsRoot,
            Error::InvalidConfiguration(cause) => ErrorModel::InvalidConfiguration(cause@),
            Error::EmptyConfiguration => ErrorModel::EmptyConfiguration,
            Error::ConfigurationWithAttribute => ErrorModel::ConfigurationWithAttribute,
            Error::TooSpecific(path) => ErrorModel::TooSpecific(path.deep_view()),
            Error::MissingHostname => ErrorModel::MissingHostname,
            Error::ConfigurationNotFound(path) => ErrorModel::ConfigurationNotFound(
                path.deep_view(),
            ),
            Error::NoneInFlake => ErrorModel::NoneInFlake,
            Error::NoneInFile => ErrorModel::NoneInFile,
            Error::LookupFailed { candidate, nix } => ErrorModel::LookupFailed {
                candidate: candidate.deep_view(),
                nix: nix@,
            },
            Error::Rejected => ErrorModel::Rejected,
            Error::EngineMissing(path) => ErrorModel::EngineMissing(path@),
            Error::StoreInRepl => ErrorModel::StoreInRepl,
            Error::ReplFailed(status) => ErrorModel::ReplFailed(status@),
            Error::Failed { context, cause } => ErrorModel::Failed { context, cause: cause@ },
        }
    }
}

/// A path below the attribute set of the configurations, with dots between its
/// segments and no quotes.
pub open spec fn dotted(path: Seq<Seq<char>>) -> Seq<char> {
    SYSTEM_CONFIGS@ + "."@ + joined(path, "."@)
}

impl ErrorModel {
    /// The sentence that tells the user.
    pub open spec fn message(self) -> Seq<char> {
        match self {
            ErrorModel::RunningAsRoot =>
                "Don't run nh system as root. I will call sudo internally as needed"@,
            ErrorModel::InvalidConfiguration(cause) => "--configuration "@ + cause,
            ErrorModel::EmptyConfiguration => "--configuration cannot be empty"@,
            ErrorModel::ConfigurationWithAttribute =>
                "Cannot use --configuration together with an installable attribute path"@,
            ErrorModel::TooSpecific(path) => "Attribute path is too specific: "@ + joined(path, "."@)
                + ". Please specify only the configuration name (e.g., '.#default')"@,
            ErrorModel::MissingHostname =>
                "Missing hostname for system-manager configuration discovery"@,
            ErrorModel::ConfigurationNotFound(path) =>
                "Explicitly provided system-manager configuration not found: "@ + dotted(path),
            ErrorModel::NoneInFlake =>
                "No suitable system-manager configuration found automatically. Use --configuration or pass an explicit flake attribute (e.g. '.#default')."@,
            ErrorModel::NoneInFile =>
                "No suitable system-manager configuration found automatically. Use --configuration or pass an explicit attribute path."@,
            ErrorModel::LookupFailed { candidate, .. } =>
                "Failed running nix eval to check for system-manager configuration "@ + dotted(
                candidate,
            ),
            ErrorModel::Rejected => "User rejected the new config"@,
            ErrorModel::EngineMissing(path) =>
                "Built output does not contain system-manager-engine at "@ + path,
            ErrorModel::StoreInRepl =>
                "Nix doesn't support nix store installables in repl mode."@,
            ErrorModel::ReplFailed(status) => "nix repl failed (exit status "@ + status + ")"@,
            ErrorModel::Failed { context, cause } => match context {
                Some(c) => c.text(),
                None => cause,
            },
        }
    }

    /// The sentence, then what lies behind it, from the nearest cause to the
    /// farthest.
    pub open spec fn chain(self) -> Seq<Seq<char>> {
        match self {
            ErrorModel::LookupFailed { nix, .. } => seq![self.message()] + nix.chain(),
            ErrorModel::Failed { context: Some(_), cause } => seq![self.message(), cause],
            _ => seq![self.message()],
        }
    }
}

/// Writes a path below the attribute set of the configurations.
fn write_dotted(path: &Vec<String>) -> (result: String)
    ensures
        result@ == dotted(path.deep_view()),
{
    SYSTEM_CONFIGS.to_owned().concat(".").concat(join(path.as_slice(), ".").as_str())
}

impl Error {
    /// The sentence that tells the user.
    pub fn message(&self) -> (result: String)
        ensures
            result@ == self@.message(),
    {
        match self {
            Error::RunningAsRoot =>
                "Don't run nh system as root. I will call sudo internally as needed".to_owned(),
            Error::InvalidConfiguration(cause) => "--configuration ".to_owned().concat(
                cause.as_str(),
            ),
            Error::EmptyConfiguration => "--configuration cannot be empty".to_owned(),
            Error::ConfigurationWithAttribute =>
                "Cannot use --configuration together with an installable attribute path".to_owned(),
            Error::TooSpecific(path) => "Attribute path is too specific: ".to_owned().concat(
                join(path.as_slice(), ".").as_str(),
            ).concat(". Please specify only the configuration name (e.g., '.#default')"),
            Error::MissingHostname =>
                "Missing hostname for system-manager configuration discovery".to_owned(),
            Error::ConfigurationNotFound(path) =>
                "Explicitly provided system-manager configuration not found: ".to_owned().concat(
                write_dotted(path).as_str(),
            ),
            Error::NoneInFlake =>
                "No suitable system-manager configuration found automatically. Use --configuration or pass an explicit flake attribute (e.g. '.#default').".to_owned(),
            Error::NoneInFile =>
                "No suitable system-manager configuration found automatically. Use --configuration or pass an explicit attribute path.".to_owned(),
            Error::LookupFailed { candidate, .. } =>
                "Failed running nix eval to check for system-manager configuration ".to_owned().concat(
                write_dotted(candidate).as_str(),
            ),
            Error::Rejected => "User rejected the new config".to_owned(),
            Error::EngineMissing(path) =>
                "Built output does not contain system-manager-engine at ".to_owned().concat(
                path.as_str(),
            ),
            Error::StoreInRepl =>
                "Nix doesn't support nix store installables in repl mode.".to_owned(),
            Error::ReplFailed(status) => "nix repl failed (exit status ".to_owned().concat(
                status.as_str(),
            ).concat(")"),
            Error::Failed { context, cause } => match context {
                Some(c) => c.message(),
                None => cause.clone(),
            },
        }
    }

    /// The sentence, then what lies behind it, from the nearest cause to the
    /// farthest.
    pub fn chain(&self) -> (result: Vec<String>)
        ensures
            result.deep_view() == self@.chain(),
    {
        let mut result: Vec<String> = Vec::new();
        result.push(self.message());
        match self {
            Error::LookupFailed { nix, .. } => {
                let mut behind = nix.chain();
                let ghost tail = behind.deep_view();
                result.append(&mut behind);
                assert(result.deep_view() =~= seq![self@.message()] + tail);
            },
            Error::Failed { context: Some(_), cause } => {
                result.push(cause.clone());
                assert(result.deep_view() =~= self@.chain());
            },
            _ => {
                assert(result.deep_view() =~= self@.chain());
            },
        }
        result
    }
}

} // verus!
