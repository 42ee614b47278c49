//! What the commands ask of the outside, and what they are told in return.

use crate::args::ElevationStrategy;
use crate::installable::{Installable, InstallableModel};
use crate::nix::{NixCall, NixCallModel};
use crate::os_text::OsText;
use crate::toplevel::{Answer, Query, QueryModel};
use vstd::prelude::*;

verus! {

/// The part that another host has in a command.
#[derive(Debug, Clone, Copy, PartialEq, Eq, Structural)]
pub enum HostRole {
    /// It builds.
    Build,
    /// The configuration is for it.
    Target,
}

/// Something that the user is told on the way.
#[derive(Debug, Clone, Copy, PartialEq, Eq, Structural)]
pub enum Notice {
    /// A warning: `--ask` and `--dry` mean nothing to `nh system build`.
    BuildIgnoresAskAndDry,
    /// A warning: a store path is an exact build, so the named configuration is
    /// ignored.
    StorePathIgnoresConfiguration,
    /// A warning: `--ask` means nothing where nothing is activated.
    DryRunIgnoresAsk,
    /// Another host begins to build.
    BuildingRemotely,
}

impl Notice {
    /// The sentence that tells the user.
    pub open spec fn text(self) -> Seq<char> {
        match self {
            Notice::BuildIgnoresAskAndDry =>
                "`--ask` and `--dry` have no effect for `nh system build`"@,
            Notice::StorePathIgnoresConfiguration =>
                "Ignoring --configuration because store path installables already point to an exact build output"@,
            Notice::DryRunIgnoresAsk => "--ask has no effect as dry run was requested"@,
            Notice::BuildingRemotely => "Building System Manager configuration"@,
        }
    }

    /// The sentence that tells the user.
    pub fn message(self) -> (result: String)
        ensures
            result@ == self.text(),
    {
        let text = match self {
            Notice::BuildIgnoresAskAndDry =>
                "`--ask` and `--dry` have no effect for `nh system build`",
            Notice::StorePathIgnoresConfiguration =>
                "Ignoring --configuration because store path installables already point to an exact build output",
            Notice::DryRunIgnoresAsk => "--ask has no effect as dry run was requested",
            Notice::BuildingRemotely => "Building System Manager configuration",
        };
        text.to_owned()
    }
}

/// A run of the engine that registers and activates builds.
#[derive(Debug, PartialEq, Eq)]
pub struct EngineRun {
    pub engine: OsText,
    pub args: Vec<String>,
    /// How the run gets more privileges, if it is to have them.
    pub elevation: Option<ElevationStrategy>,
    pub show_output: bool,
    /// What the user is told meanwhile.
    pub message: String,
}

/// The mathematical value of an [`EngineRun`].
#[verifier::ext_equal]
pub struct EngineRunModel {
    pub engine: Seq<u8>,
    pub args: Seq<Seq<char>>,
    pub elevation: Option<ElevationStrategy>,
    pub show_output: bool,
    pub message: Seq<char>,
}

impl View for EngineRun {
    type V = EngineRunModel;

    open spec fn view(&self) -> EngineRunModel {
        EngineRunModel {
            engine: self.engine@,
            args: self.args.deep_view(),
            elevation: self.elevation,
            show_output: self.show_output,
            message: self.message@,
        }
    }
}

/// What kind of system a build is for.
#[derive(Debug, Clone, Copy, PartialEq, Eq, Structural)]
pub enum Platform {
    /// One that system-manager looks after.
    SystemManager,
}

/// What becomes of a build on the host that it is for.
#[derive(Debug, Clone, Copy, PartialEq, Eq, Structural)]
pub enum ActivationType {
    /// It becomes the current configuration at once.
    Switch,
}

/// How a host is to activate a build.
#[derive(Debug, Clone, Copy, PartialEq, Eq, Structural)]
pub struct RemoteActivation {
    pub platform: Platform,
    pub activation_type: ActivationType,
    pub install_bootloader: bool,
    pub ephemeral: bool,
    pub show_logs: bool,
    /// How the host gets more privileges, if it is to have them.
    pub elevation: Option<ElevationStrategy>,
}

/// How a build is brought to life.
#[derive(Debug, PartialEq, Eq)]
pub enum Activation {
    /// By the host that it is for.
    Remote { store_path: OsText, config: RemoteActivation },
    /// By its own engine, which is run twice.
    Local { register: EngineRun, activate: EngineRun },
}

/// The mathematical value of an [`Activation`].
#[verifier::ext_equal]
pub enum ActivationModel {
    Remote { store_path: Seq<u8>, config: RemoteActivation },
    Local { register: EngineRunModel, activate: EngineRunModel },
}

impl View for Activation {
    type V = ActivationModel;

    open spec fn view(&self) -> ActivationModel {
        match *self {
            Activation::Remote { store_path, config } => ActivationModel::Remote {
                store_path: store_path@,
                config,
            },
            Activation::Local { register, activate } => ActivationModel::Local {
                register: register@,
                activate: activate@,
            },
        }
    }
}

/// Something that a command needs done or needs to know.
#[derive(Debug, PartialEq, Eq)]
pub enum Request {
    /// Make sure that a login by key works.
    SshKeyLogin,
    /// Make a temporary directory whose name begins with `prefix`.
    TemporaryDirectory { prefix: String },
    /// What the user wants built or loaded, or what that is by default.
    ResolveInstallable,
    /// Bring inputs up to date, those that are listed or all, with the options that
    /// are handed on to Nix.
    UpdateInputs { installable: Installable, inputs: Option<Vec<String>> },
    /// The given name, or that of this host if none is given.
    Hostname { host: Option<String> },
    /// Get ready to share connections.
    InitSshControl,
    /// Connect to the host.
    OpenSshMaster(HostRole),
    /// Tell the user.
    Notify(Notice),
    /// The path that the given one stands for.
    Canonicalize { path: OsText },
    /// What the search for the configuration wants to know.
    Search(Query),
    /// Let the build host build.
    BuildRemotely {
        toplevel: Installable,
        use_nom: bool,
        use_substitutes: bool,
        execution_args: Vec<OsText>,
        out_link: OsText,
        evaluation_args: Vec<OsText>,
    },
    /// Build here, with the options that are handed on to Nix.
    BuildLocally { toplevel: Installable, extra_args: Vec<OsText>, use_nom: bool, message: String },
    /// Whether the path is there; it is not, if that cannot be found out.
    PathExists { path: OsText },
    /// Show what is different in `new`.
    ShowDiff { old: OsText, new: OsText },
    /// The number of the user on the target host.
    RemoteUid,
    /// Whether the user agrees.
    Confirm { prompt: String, default_answer: bool },
    /// Copy the build to the target host.
    CopyToTarget { store_path: OsText, use_substitutes: bool, evaluation_args: Vec<OsText> },
    /// Make sure that the build is on the target host, with the file in it;
    /// `provenance` says where it came from.
    ValidateOnTarget {
        store_path: OsText,
        file: String,
        description: String,
        provenance: Option<String>,
    },
    /// Whether the path is there, if that can be found out.
    TryExists { path: OsText },
    /// Activate the build on the target host: there system-manager makes it the
    /// current configuration, and no boot loader is touched.
    ActivateRemotely { store_path: OsText, config: RemoteActivation },
    /// Run the engine here. Every such run is elevated by the strategy that the
    /// command was given.
    RunEngine(EngineRun),
    /// Run the command as an interactive session.
    Repl(NixCall),
}

/// The mathematical value of a [`Request`].
#[verifier::ext_equal]
pub enum RequestModel {
    SshKeyLogin,
    TemporaryDirectory { prefix: Seq<char> },
    ResolveInstallable,
    UpdateInputs { installable: InstallableModel, inputs: Option<Seq<Seq<char>>> },
    Hostname { host: Option<Seq<char>> },
    InitSshControl,
    OpenSshMaster(HostRole),
    Notify(Notice),
    Canonicalize { path: Seq<u8> },
    Search(QueryModel),
    BuildRemotely {
        toplevel: InstallableModel,
        use_nom: bool,
        use_substitutes: bool,
        execution_args: Seq<Seq<u8>>,
        out_link: Seq<u8>,
        evaluation_args: Seq<Seq<u8>>,
    },
    BuildLocally {
        toplevel: InstallableModel,
        extra_args: Seq<Seq<u8>>,
        use_nom: bool,
        message: Seq<char>,
    },
    PathExists { path: Seq<u8> },
    ShowDiff { old: Seq<u8>, new: Seq<u8> },
    RemoteUid,
    Confirm { prompt: Seq<char>, default_answer: bool },
    CopyToTarget { store_path: Seq<u8>, use_substitutes: bool, evaluation_args: Seq<Seq<u8>> },
    ValidateOnTarget {
        store_path: Seq<u8>,
        file: Seq<char>,
        description: Seq<char>,
        provenance: Option<Seq<char>>,
    },
    TryExists { path: Seq<u8> },
    ActivateRemotely { store_path: Seq<u8>, config: RemoteActivation },
    RunEngine(EngineRunModel),
    Repl(NixCallModel),
}

impl View for Request {
    type V = RequestModel;

    open spec fn view(&self) -> RequestModel {
        match *self {
            Request::SshKeyLogin => RequestModel::SshKeyLogin,
            Request::TemporaryDirectory { prefix } => RequestModel::TemporaryDirectory {
                prefix: prefix@,
            },
            Request::ResolveInstallable => RequestModel::ResolveInstallable,
            Request::UpdateInputs { installable, inputs } => RequestModel::UpdateInputs {
                installable: installable@,
                inputs: inputs.deep_view(),
            },
            Request::Hostname { host } => RequestModel::Hostname { host: host.deep_view() },
            Request::InitSshControl => RequestModel::InitSshControl,
            Request::OpenSshMaster(role) => RequestModel::OpenSshMaster(role),
            Request::Notify(notice) => RequestModel::Notify(notice),
            Request::Canonicalize { path } => RequestModel::Canonicalize { path: path@ },
            Request::Search(query) => RequestModel::Search(query@),
            Request::BuildRemotely {
                toplevel,
                use_nom,
                use_substitutes,
                execution_args,
                out_link,
                evaluation_args,
            } => RequestModel::BuildRemotely {
                toplevel: toplevel@,
                use_nom,
                use_substitutes,
                execution_args: execution_args.deep_view(),
                out_link: out_link@,
                evaluation_args: evaluation_args.deep_view(),
            },
            Request::BuildLocally { toplevel, extra_args, use_nom, message } =>
                RequestModel::BuildLocally {
                toplevel: toplevel@,
                extra_args: extra_args.deep_view(),
                use_nom,
                message: message@,
            },
            Request::PathExists { path } => RequestModel::PathExists { path: path@ },
            Request::ShowDiff { old, new } => RequestModel::ShowDiff { old: old@, new: new@ },
            Request::RemoteUid => RequestModel::RemoteUid,
            Request::Confirm { prompt, default_answer } => RequestModel::Confirm {
                prompt: prompt@,
                default_answer,
            },
            Request::CopyToTarget { store_path, use_substitutes, evaluation_args } =>
                RequestModel::CopyToTarget {
                store_path: store_path@,
                use_substitutes,
                evaluation_args: evaluation_args.deep_view(),
            },
            Request::ValidateOnTarget { store_path, file, description, provenance } =>
                RequestModel::ValidateOnTarget {
                store_path: store_path@,
                file: file@,
                description: description@,
                provenance: provenance.deep_view(),
            },
            Request::TryExists { path } => RequestModel::TryExists { path: path@ },
            Request::ActivateRemotely { store_path, config } => RequestModel::ActivateRemotely {
                store_path: store_path@,
                config,
            },
            Request::RunEngine(run) => RequestModel::RunEngine(run@),
            Request::Repl(call) => RequestModel::Repl(call@),
        }
    }
}

impl DeepView for Request {
    type V = RequestModel;

    open spec fn deep_view(&self) -> RequestModel {
        self@
    }
}

/// What a command is told in return.
#[derive(Debug, PartialEq, Eq)]
pub enum Reply {
    /// It is done.
    Done,
    /// Yes or no.
    Flag(bool),
    /// A path.
    Path(OsText),
    /// What the user wants built or loaded.
    Installable(Installable),
    /// A name.
    Text(String),
    /// The number of a user.
    Uid(u32),
    /// What the search for the configuration wanted to know.
    Search(Answer),
    /// The session is over; `status` is its exit status as shown to the user.
    Exit { success: bool, status: String },
    /// It could not be done, for the given reason.
    Failed(String),
}

} // verus!
