//! The course of `nh system switch` and `nh system build`.
//!
//! A run is a record of what is known so far. What it asks for next is the first
//! thing in the course that is called for and not known yet:
//! [`SystemRebuildArgs::rebuild`] begins a run, [`Rebuild::request`] says what it
//! asks for, [`Rebuild::resume`] takes the reply, and [`Rebuild::outcome`] is what
//! it came to.

use crate::activation::{ENGINE_BIN, ENGINE_DESCRIPTION, SYSTEM_MANAGER_PROFILE};
use crate::args::{
    resolve_discovery_hostname, DiffType, DiscoveryHostname, ElevationStrategy, SystemRebuildArgs,
};
use crate::error::{Context, Error, ErrorModel};
use crate::installable::{Installable, InstallableModel};
use crate::os_text::{copy_args, displayed, encode_all, encoded, path_joined, OsText};
use crate::protocol::{
    Activation, ActivationModel, HostRole, Notice, Reply, Request, RequestModel,
};
use crate::text::{copy_option, copy_texts};
use crate::toplevel::{begin_if_ready, begun_if_ready, can_begin, Toplevel, ToplevelModel};
use vstd::prelude::*;
use vstd::utf8::encode_utf8;

verus! {

/// Whether a build is activated.
#[derive(Debug, Clone, Copy, PartialEq, Eq, Structural)]
pub enum SystemRebuildVariant {
    Switch,
    Build,
}

/// The steps of the course.
#[derive(Debug, Clone, Copy, PartialEq, Eq, Structural)]
pub enum Stage {
    CheckSsh,
    MakeTempDir,
    ResolveInstallable,
    UpdateInputs,
    FindHostname,
    InitSsh,
    ConnectBuildHost,
    ConnectTargetHost,
    NoteConfiguration,
    ResolveStorePath,
    Search,
    NoteRemoteBuild,
    BuildRemotely,
    BuildLocally,
    ResolveOutLink,
    CheckProfile,
    ShowDiff,
    NoteDryRun,
    ProbeUid,
    Confirm,
    CopyClosure,
    ValidateClosure,
    CheckEngine,
    ActivateRemotely,
    Register,
    Activate,
}

impl Stage {
    /// What an error at this step is reported as.
    pub open spec fn reported_as(self) -> Option<Context> {
        match self {
            Stage::ConnectBuildHost => Some(Context::ConnectBuildHost),
            Stage::ConnectTargetHost => Some(Context::ConnectTargetHost),
            Stage::ResolveStorePath => Some(Context::ResolveStorePath),
            Stage::BuildRemotely => Some(Context::Build),
            Stage::BuildLocally => Some(Context::Build),
            Stage::ResolveOutLink => Some(Context::ResolveOutLink),
            Stage::CopyClosure => Some(Context::CopyClosure),
            Stage::ValidateClosure => Some(Context::ValidateClosure),
            Stage::CheckEngine => Some(Context::CheckEngine),
            Stage::Register => Some(Context::Register),
            Stage::Activate => Some(Context::Activate),
            _ => None,
        }
    }

    /// What an error at this step is reported as.
    fn context(self) -> (result: Option<Context>)
        ensures
            result == self.reported_as(),
    {
        match self {
            Stage::ConnectBuildHost => Some(Context::ConnectBuildHost),
            Stage::ConnectTargetHost => Some(Context::ConnectTargetHost),
            Stage::ResolveStorePath => Some(Context::ResolveStorePath),
            Stage::BuildRemotely => Some(Context::Build),
            Stage::BuildLocally => Some(Context::Build),
            Stage::ResolveOutLink => Some(Context::ResolveOutLink),
            Stage::CopyClosure => Some(Context::CopyClosure),
            Stage::ValidateClosure => Some(Context::ValidateClosure),
            Stage::CheckEngine => Some(Context::CheckEngine),
            Stage::Register => Some(Context::Register),
            Stage::Activate => Some(Context::Activate),
            _ => None,
        }
    }

    /// Whether the outside can fail at this step.
    pub open spec fn can_fail(self) -> bool {
        match self {
            Stage::InitSsh => false,
            Stage::NoteConfiguration => false,
            Stage::Search => false,
            Stage::NoteRemoteBuild => false,
            Stage::CheckProfile => false,
            Stage::NoteDryRun => false,
            _ => true,
        }
    }

    /// Whether the outside can fail at this step.
    fn fallible(self) -> (result: bool)
        ensures
            result == self.can_fail(),
    {
        match self {
            Stage::InitSsh => false,
            Stage::NoteConfiguration => false,
            Stage::Search => false,
            Stage::NoteRemoteBuild => false,
            Stage::CheckProfile => false,
            Stage::NoteDryRun => false,
            _ => true,
        }
    }
}

/// What is done and what was found out, as far as it is a yes or no or a number.
#[derive(Debug, Clone, Copy, PartialEq, Eq)]
pub struct Marks {
    pub ssh_login_works: bool,
    pub inputs_updated: bool,
    pub ssh_initialised: bool,
    pub build_host_connected: bool,
    pub target_host_connected: bool,
    pub configuration_noted: bool,
    pub remote_build_noted: bool,
    pub built_here: bool,
    pub profile_exists: Option<bool>,
    pub diff_shown: bool,
    pub dry_run_noted: bool,
    pub target_uid: Option<u32>,
    pub confirmed: Option<bool>,
    pub copied: bool,
    pub validated: bool,
    pub engine_exists: Option<bool>,
    pub activated_remotely: bool,
    pub registered: bool,
    pub activated: bool,
}

impl Marks {
    /// Nothing is done and nothing is known.
    pub open spec fn blank() -> Marks {
        Marks {
            ssh_login_works: false,
            inputs_updated: false,
            ssh_initialised: false,
            build_host_connected: false,
            target_host_connected: false,
            configuration_noted: false,
            remote_build_noted: false,
            built_here: false,
            profile_exists: None,
            diff_shown: false,
            dry_run_noted: false,
            target_uid: None,
            confirmed: None,
            copied: false,
            validated: false,
            engine_exists: None,
            activated_remotely: false,
            registered: false,
            activated: false,
        }
    }
}

/// What a run knows.
#[verifier::ext_equal]
pub struct RebuildModel {
    pub args: SystemRebuildArgs,
    pub variant: SystemRebuildVariant,
    pub elevation: ElevationStrategy,
    /// The number of the user who runs it.
    pub uid: u32,
    pub marks: Marks,
    pub temp_dir: Option<Seq<u8>>,
    pub installable: Option<InstallableModel>,
    pub hostname: Option<Seq<char>>,
    /// The search for the configuration, once it has what it begins with.
    pub search: Option<ToplevelModel>,
    /// The build.
    pub store_path: Option<Seq<u8>>,
    /// What went wrong outside.
    pub failure: Option<ErrorModel>,
}

/// Where a run stands.
#[verifier::ext_equal]
pub enum Standing {
    /// It asks for what the step needs.
    Asking(Stage),
    /// It has failed.
    Failed(ErrorModel),
    /// It has done its work.
    Finished,
}

impl RebuildModel {
    /// Whether the build is activated.
    pub open spec fn applies(self) -> bool {
        self.variant is Switch && !self.args.common.dry
    }

    /// Whether an exact build was asked for.
    pub open spec fn given_store_path(self) -> bool {
        self.installable matches Some(installable) && installable is Store
    }

    /// Where the link to the build is left.
    pub open spec fn out_path(self) -> Seq<u8> {
        match self.args.common.out_link {
            Some(path) => path@,
            None => path_joined(self.temp_dir->0, encode_utf8("result"@)),
        }
    }

    /// Where the build has its engine.
    pub open spec fn engine_path(self) -> Seq<u8> {
        path_joined(self.store_path->0, encode_utf8(ENGINE_BIN@))
    }

    /// The configuration that the search found.
    pub open spec fn toplevel(self) -> InstallableModel {
        match self.search {
            Some(ToplevelModel::Finished(Ok(installable))) => installable,
            _ => arbitrary(),
        }
    }

    /// Whether the target host has the build already, because it made it.
    pub open spec fn already_on_target(self) -> bool {
        !self.given_store_path() && self.args.builds_on_target()
    }

    /// Whether the target host needs more privileges.
    pub open spec fn elevates_remotely(self) -> bool {
        self.args.remote_elevation(self.elevation, self.marks.target_uid) == Some(true)
    }

    /// Whether root runs it, without leave.
    pub open spec fn refused(self) -> bool {
        self.uid == 0 && !self.args.bypass_root_check
    }

    /// Before anything is built: who runs this, where the build goes, what is
    /// built, whose configuration it is, and the connections to other hosts.
    pub open spec fn preparing(self) -> Option<Standing> {
        if self.refused() {
            Some(Standing::Failed(ErrorModel::RunningAsRoot))
        } else if self.args.involves_remote() && !self.marks.ssh_login_works {
            Some(Standing::Asking(Stage::CheckSsh))
        } else if self.args.common.out_link is None && self.temp_dir is None {
            Some(Standing::Asking(Stage::MakeTempDir))
        } else if self.installable is None {
            Some(Standing::Asking(Stage::ResolveInstallable))
        } else if self.args.wants_update() && !self.marks.inputs_updated {
            Some(Standing::Asking(Stage::UpdateInputs))
        } else if self.args.configuration is None && self.hostname is None {
            Some(Standing::Asking(Stage::FindHostname))
        } else if self.args.involves_remote() && !self.marks.ssh_initialised {
            Some(Standing::Asking(Stage::InitSsh))
        } else if self.args.build_host is Some && !self.marks.build_host_connected {
            Some(Standing::Asking(Stage::ConnectBuildHost))
        } else if self.args.target_host is Some && !self.marks.target_host_connected {
            Some(Standing::Asking(Stage::ConnectTargetHost))
        } else {
            None
        }
    }

    /// The build: the store path that was given, or else what the configuration
    /// builds to, on the build host or here.
    pub open spec fn building(self) -> Option<Standing> {
        if self.given_store_path() {
            if self.args.configuration is Some && !self.marks.configuration_noted {
                Some(Standing::Asking(Stage::NoteConfiguration))
            } else if self.store_path is None {
                Some(Standing::Asking(Stage::ResolveStorePath))
            } else {
                None
            }
        } else {
            match self.search {
                Some(ToplevelModel::Finished(Err(error))) => Some(Standing::Failed(error)),
                Some(ToplevelModel::Finished(Ok(_))) => if self.args.build_host is Some {
                    if !self.marks.remote_build_noted {
                        Some(Standing::Asking(Stage::NoteRemoteBuild))
                    } else if self.store_path is None {
                        Some(Standing::Asking(Stage::BuildRemotely))
                    } else {
                        None
                    }
                } else {
                    if !self.marks.built_here {
                        Some(Standing::Asking(Stage::BuildLocally))
                    } else if self.store_path is None {
                        Some(Standing::Asking(Stage::ResolveOutLink))
                    } else {
                        None
                    }
                },
                _ => Some(Standing::Asking(Stage::Search)),
            }
        }
    }

    /// What the build changes, against the profile if there is one.
    pub open spec fn comparing(self) -> Option<Standing> {
        if self.args.common.diff is Never {
            None
        } else if self.marks.profile_exists is None {
            Some(Standing::Asking(Stage::CheckProfile))
        } else if self.marks.profile_exists == Some(true) && !self.marks.diff_shown {
            Some(Standing::Asking(Stage::ShowDiff))
        } else {
            None
        }
    }

    /// The activation: who is asked, what must be in place, and who does it.
    pub open spec fn applying(self) -> Standing {
        if !self.applies() {
            if self.args.common.ask && !self.marks.dry_run_noted {
                Standing::Asking(Stage::NoteDryRun)
            } else {
                Standing::Finished
            }
        } else if self.args.remote_elevation(self.elevation, self.marks.target_uid) is None {
            Standing::Asking(Stage::ProbeUid)
        } else if self.args.common.ask && self.marks.confirmed is None {
            Standing::Asking(Stage::Confirm)
        } else if self.args.common.ask && self.marks.confirmed == Some(false) {
            Standing::Failed(ErrorModel::Rejected)
        } else if self.args.target_host is Some {
            if !self.already_on_target() && !self.marks.copied {
                Standing::Asking(Stage::CopyClosure)
            } else if !self.marks.validated {
                Standing::Asking(Stage::ValidateClosure)
            } else if !self.marks.activated_remotely {
                Standing::Asking(Stage::ActivateRemotely)
            } else {
                Standing::Finished
            }
        } else {
            if self.marks.engine_exists is None {
                Standing::Asking(Stage::CheckEngine)
            } else if self.marks.engine_exists == Some(false) {
                Standing::Failed(ErrorModel::EngineMissing(displayed(self.engine_path())))
            } else if !self.marks.registered {
                Standing::Asking(Stage::Register)
            } else if !self.marks.activated {
                Standing::Asking(Stage::Activate)
            } else {
                Standing::Finished
            }
        }
    }

    /// Where the run stands.
    pub open spec fn standing(self) -> Standing {
        match self.failure {
            Some(error) => Standing::Failed(error),
            None => match self.preparing() {
                Some(standing) => standing,
                None => match self.building() {
                    Some(standing) => standing,
                    None => match self.comparing() {
                        Some(standing) => standing,
                        None => self.applying(),
                    },
                },
            },
        }
    }

    /// What the step needs.
    pub open spec fn needs(self, stage: Stage) -> RequestModel {
        match stage {
            Stage::CheckSsh => RequestModel::SshKeyLogin,
            Stage::MakeTempDir => RequestModel::TemporaryDirectory { prefix: "nh-system"@ },
            Stage::ResolveInstallable => RequestModel::ResolveInstallable,
            Stage::UpdateInputs => RequestModel::UpdateInputs {
                installable: self.installable->0,
                inputs: self.args.update_args.update_input.deep_view(),
            },
            Stage::FindHostname => RequestModel::Hostname {
                host: match self.args.target_host {
                    Some(host) => Some(host.hostname@),
                    None => None,
                },
            },
            Stage::InitSsh => RequestModel::InitSshControl,
            Stage::ConnectBuildHost => RequestModel::OpenSshMaster(HostRole::Build),
            Stage::ConnectTargetHost => RequestModel::OpenSshMaster(HostRole::Target),
            Stage::NoteConfiguration => RequestModel::Notify(Notice::StorePathIgnoresConfiguration),
            Stage::ResolveStorePath => RequestModel::Canonicalize {
                path: self.installable->0->Store_path,
            },
            Stage::Search => RequestModel::Search(self.search->0.question()->0),
            Stage::NoteRemoteBuild => RequestModel::Notify(Notice::BuildingRemotely),
            Stage::BuildRemotely => RequestModel::BuildRemotely {
                toplevel: self.toplevel(),
                use_nom: !self.args.common.no_nom,
                use_substitutes: self.args.may_substitute(),
                execution_args: encoded(self.args.extra_args.deep_view())
                    + self.args.common.passthrough.remote_build_args.deep_view(),
                out_link: self.out_path(),
                evaluation_args: self.args.common.passthrough.evaluation_args.deep_view(),
            },
            Stage::BuildLocally => RequestModel::BuildLocally {
                toplevel: self.toplevel(),
                extra_args: seq![encode_utf8("--out-link"@), self.out_path()] + encoded(
                    self.args.extra_args.deep_view(),
                ),
                use_nom: !self.args.common.no_nom,
                message: "Building System Manager configuration"@,
            },
            Stage::ResolveOutLink => RequestModel::Canonicalize { path: self.out_path() },
            Stage::CheckProfile => RequestModel::PathExists {
                path: encode_utf8(SYSTEM_MANAGER_PROFILE@),
            },
            Stage::ShowDiff => RequestModel::ShowDiff {
                old: encode_utf8(SYSTEM_MANAGER_PROFILE@),
                new: self.store_path->0,
            },
            Stage::NoteDryRun => RequestModel::Notify(Notice::DryRunIgnoresAsk),
            Stage::ProbeUid => RequestModel::RemoteUid,
            Stage::Confirm => RequestModel::Confirm {
                prompt: "Apply the config?"@,
                default_answer: false,
            },
            Stage::CopyClosure => RequestModel::CopyToTarget {
                store_path: self.store_path->0,
                use_substitutes: self.args.may_substitute(),
                evaluation_args: self.args.common.passthrough.evaluation_args.deep_view(),
            },
            Stage::ValidateClosure => RequestModel::ValidateOnTarget {
                store_path: self.store_path->0,
                file: ENGINE_BIN@,
                description: ENGINE_DESCRIPTION@,
                provenance: match self.args.build_host {
                    Some(host) => Some("built on '"@ + host.text@ + "'"@),
                    None => None,
                },
            },
            Stage::CheckEngine => RequestModel::TryExists { path: self.engine_path() },
            Stage::ActivateRemotely => match self.activation() {
                ActivationModel::Remote { store_path, config } => RequestModel::ActivateRemotely {
                    store_path,
                    config,
                },
                _ => arbitrary(),
            },
            Stage::Register => match self.activation() {
                ActivationModel::Local { register, .. } => RequestModel::RunEngine(register),
                _ => arbitrary(),
            },
            Stage::Activate => match self.activation() {
                ActivationModel::Local { activate, .. } => RequestModel::RunEngine(activate),
                _ => arbitrary(),
            },
        }
    }

    /// How the build is brought to life.
    pub open spec fn activation(self) -> ActivationModel {
        self.args.activation(
            self.store_path->0,
            self.engine_path(),
            self.args.target_host is Some,
            self.elevates_remotely(),
            self.elevation,
        )
    }

    /// Whether the reply is one to what the step needs.
    pub open spec fn fits(self, stage: Stage, reply: Reply) -> bool {
        ||| stage.can_fail() && reply is Failed
        ||| match stage {
            Stage::MakeTempDir => reply is Path,
            Stage::ResolveInstallable => reply is Installable,
            Stage::FindHostname => reply is Text,
            Stage::ResolveStorePath => reply is Path,
            Stage::Search => reply matches Reply::Search(answer) && self.search->0.takes(answer),
            Stage::BuildRemotely => reply is Path,
            Stage::ResolveOutLink => reply is Path,
            Stage::CheckProfile => reply is Flag,
            Stage::ProbeUid => reply is Uid,
            Stage::Confirm => reply is Flag,
            Stage::CheckEngine => reply is Flag,
            _ => reply is Done,
        }
    }

    /// Whether the reply is one to what the run asks for.
    pub open spec fn takes(self, reply: Reply) -> bool {
        self.standing() matches Standing::Asking(stage) && self.fits(stage, reply)
    }

    /// The run, with the search begun once it is known what is built and by what
    /// name the configuration goes.
    pub open spec fn prepared(self) -> RebuildModel {
        if self.search is None {
            RebuildModel {
                search: begun_if_ready(
                    self.installable,
                    self.args.extra_args.deep_view(),
                    self.args.configuration.deep_view(),
                    self.hostname,
                ),
                ..self
            }
        } else {
            self
        }
    }

    /// The run, with something known to be wrong outside. What the build changes
    /// is not worth failing for.
    pub open spec fn disappointed(self, stage: Stage, cause: Seq<char>) -> RebuildModel {
        if stage is ShowDiff {
            RebuildModel { marks: Marks { diff_shown: true, ..self.marks }, ..self }
        } else {
            RebuildModel {
                failure: Some(ErrorModel::Failed { context: stage.reported_as(), cause }),
                ..self
            }
        }
    }

    /// The run, once it has been told that the step is done.
    pub open spec fn marked(self, stage: Stage) -> Marks {
        let marks = self.marks;
        match stage {
            Stage::CheckSsh => Marks { ssh_login_works: true, ..marks },
            Stage::UpdateInputs => Marks { inputs_updated: true, ..marks },
            Stage::InitSsh => Marks { ssh_initialised: true, ..marks },
            Stage::ConnectBuildHost => Marks { build_host_connected: true, ..marks },
            Stage::ConnectTargetHost => Marks { target_host_connected: true, ..marks },
            Stage::NoteConfiguration => Marks { configuration_noted: true, ..marks },
            Stage::NoteRemoteBuild => Marks { remote_build_noted: true, ..marks },
            Stage::BuildLocally => Marks { built_here: true, ..marks },
            Stage::ShowDiff => Marks { diff_shown: true, ..marks },
            Stage::NoteDryRun => Marks { dry_run_noted: true, ..marks },
            Stage::CopyClosure => Marks { copied: true, ..marks },
            Stage::ValidateClosure => Marks { validated: true, ..marks },
            Stage::ActivateRemotely => Marks { activated_remotely: true, ..marks },
            Stage::Register => Marks { registered: true, ..marks },
            Stage::Activate => Marks { activated: true, ..marks },
            _ => marks,
        }
    }

    /// The run, once it has been told what the step needs.
    pub open spec fn learned(self, stage: Stage, reply: Reply) -> RebuildModel {
        match reply {
            Reply::Failed(cause) => self.disappointed(stage, cause@),
            Reply::Done => RebuildModel { marks: self.marked(stage), ..self },
            Reply::Flag(flag) => RebuildModel {
                marks: match stage {
                    Stage::CheckProfile => Marks { profile_exists: Some(flag), ..self.marks },
                    Stage::Confirm => Marks { confirmed: Some(flag), ..self.marks },
                    Stage::CheckEngine => Marks { engine_exists: Some(flag), ..self.marks },
                    _ => self.marks,
                },
                ..self
            },
            Reply::Path(path) => if stage is MakeTempDir {
                RebuildModel { temp_dir: Some(path@), ..self }
            } else {
                RebuildModel { store_path: Some(path@), ..self }
            },
            Reply::Installable(installable) => (RebuildModel {
                installable: Some(installable@),
                ..self
            }).prepared(),
            Reply::Text(name) => (RebuildModel { hostname: Some(name@), ..self }).prepared(),
            Reply::Uid(number) => RebuildModel {
                marks: Marks { target_uid: Some(number), ..self.marks },
                ..self
            },
            Reply::Search(answer) => RebuildModel {
                search: Some(self.search->0.told(answer)),
                ..self
            },
            Reply::Exit { .. } => self,
        }
    }

    /// The run, once it has been told what it asked for.
    pub open spec fn told(self, reply: Reply) -> RebuildModel {
        match self.standing() {
            Standing::Asking(stage) => self.learned(stage, reply),
            _ => self,
        }
    }

    /// Whether a search has begun exactly when it has what it begins with.
    pub open spec fn searches(self) -> bool {
        self.search is Some <==> can_begin(
            self.installable,
            self.args.configuration.deep_view(),
            self.hostname,
        )
    }
}

/// A run at its beginning.
pub open spec fn rebuild_begun(
    args: SystemRebuildArgs,
    variant: SystemRebuildVariant,
    elevation: ElevationStrategy,
    uid: u32,
) -> RebuildModel {
    RebuildModel {
        args,
        variant,
        elevation,
        uid,
        marks: Marks::blank(),
        temp_dir: None,
        installable: None,
        hostname: None,
        search: None,
        store_path: None,
        failure: None,
    }
}

/// A run of `nh system switch` or `nh system build`.
#[derive(Debug, PartialEq, Eq)]
pub struct Rebuild {
    args: SystemRebuildArgs,
    variant: SystemRebuildVariant,
    elevation: ElevationStrategy,
    uid: u32,
    marks: Marks,
    temp_dir: Option<OsText>,
    installable: Option<Installable>,
    hostname: Option<String>,
    search: Option<Toplevel>,
    store_path: Option<OsText>,
    failure: Option<Error>,
}

impl View for Rebuild {
    type V = RebuildModel;

    closed spec fn view(&self) -> RebuildModel {
        RebuildModel {
            args: self.args,
            variant: self.variant,
            elevation: self.elevation,
            uid: self.uid,
            marks: self.marks,
            temp_dir: self.temp_dir.deep_view(),
            installable: self.installable.deep_view(),
            hostname: self.hostname.deep_view(),
            search: match self.search {
                Some(search) => Some(search@),
                None => None,
            },
            store_path: self.store_path.deep_view(),
            failure: match self.failure {
                Some(error) => Some(error@),
                None => None,
            },
        }
    }
}

/// Why a run has failed.
#[derive(Debug, Clone, Copy, PartialEq, Eq, Structural)]
enum Fault {
    /// Something outside failed.
    Outside,
    /// Root runs it.
    Root,
    /// The search found nothing.
    Search,
    /// The user declined.
    Declined,
    /// The build has no engine.
    NoEngine,
}

/// Where a run stands.
#[derive(Debug, Clone, Copy, PartialEq, Eq, Structural)]
enum Point {
    Ask(Stage),
    Fail(Fault),
    Finish,
}

/// Where a run with the given knowledge stands if it is at `point`.
spec fn standing_at(run: RebuildModel, point: Point) -> Standing {
    match point {
        Point::Ask(stage) => Standing::Asking(stage),
        Point::Finish => Standing::Finished,
        Point::Fail(fault) => Standing::Failed(
            match fault {
                Fault::Outside => run.failure->0,
                Fault::Root => ErrorModel::RunningAsRoot,
                Fault::Search => match run.search {
                    Some(ToplevelModel::Finished(Err(error))) => error,
                    _ => arbitrary(),
                },
                Fault::Declined => ErrorModel::Rejected,
                Fault::NoEngine => ErrorModel::EngineMissing(displayed(run.engine_path())),
            },
        ),
    }
}

/// Whether what a run at `point` fails for is among what it knows.
spec fn grounded(run: RebuildModel, point: Point) -> bool {
    match point {
        Point::Fail(Fault::Outside) => run.failure is Some,
        Point::Fail(Fault::Search) => run.search matches Some(ToplevelModel::Finished(Err(_))),
        Point::Fail(Fault::NoEngine) => run.store_path is Some,
        _ => true,
    }
}

impl Rebuild {
    #[verifier::type_invariant]
    spec fn inv(self) -> bool {
        self@.searches()
    }

    /// Whether an exact build was asked for.
    fn is_store_path(&self) -> (result: bool)
        ensures
            result == self@.given_store_path(),
    {
        matches!(&self.installable, Some(Installable::Store { .. }))
    }

    /// The first thing before the build that is called for and not known.
    fn prepare(&self) -> (result: Option<Point>)
        ensures
            match result {
                Some(point) => self@.preparing() == Some(standing_at(self@, point)) && grounded(
                    self@,
                    point,
                ),
                None => self@.preparing() is None,
            },
    {
        if self.uid == 0 && !self.args.bypass_root_check {
            Some(Point::Fail(Fault::Root))
        } else if self.args.remote() && !self.marks.ssh_login_works {
            Some(Point::Ask(Stage::CheckSsh))
        } else if self.args.common.out_link.is_none() && self.temp_dir.is_none() {
            Some(Point::Ask(Stage::MakeTempDir))
        } else if self.installable.is_none() {
            Some(Point::Ask(Stage::ResolveInstallable))
        } else if self.args.updates() && !self.marks.inputs_updated {
            Some(Point::Ask(Stage::UpdateInputs))
        } else if self.args.configuration.is_none() && self.hostname.is_none() {
            Some(Point::Ask(Stage::FindHostname))
        } else if self.args.remote() && !self.marks.ssh_initialised {
            Some(Point::Ask(Stage::InitSsh))
        } else if self.args.build_host.is_some() && !self.marks.build_host_connected {
            Some(Point::Ask(Stage::ConnectBuildHost))
        } else if self.args.target_host.is_some() && !self.marks.target_host_connected {
            Some(Point::Ask(Stage::ConnectTargetHost))
        } else {
            None
        }
    }

    /// The first thing about the build that is called for and not known.
    fn build(&self) -> (result: Option<Point>)
        ensures
            match result {
                Some(point) => self@.building() == Some(standing_at(self@, point)) && grounded(
                    self@,
                    point,
                ),
                None => self@.building() is None,
            },
    {
        if self.is_store_path() {
            if self.args.configuration.is_some() && !self.marks.configuration_noted {
                return Some(Point::Ask(Stage::NoteConfiguration));
            }
            if self.store_path.is_none() {
                return Some(Point::Ask(Stage::ResolveStorePath));
            }
            return None;
        }
        let search = match &self.search {
            None => {
                return Some(Point::Ask(Stage::Search));
            },
            Some(search) => search,
        };
        if !search.is_finished() {
            return Some(Point::Ask(Stage::Search));
        }
        if search.resolved().is_none() {
            return Some(Point::Fail(Fault::Search));
        }
        if self.args.build_host.is_some() {
            if !self.marks.remote_build_noted {
                return Some(Point::Ask(Stage::NoteRemoteBuild));
            }
            if self.store_path.is_none() {
                return Some(Point::Ask(Stage::BuildRemotely));
            }
        } else {
            if !self.marks.built_here {
                return Some(Point::Ask(Stage::BuildLocally));
            }
            if self.store_path.is_none() {
                return Some(Point::Ask(Stage::ResolveOutLink));
            }
        }
        None
    }

    /// The first thing about what the build changes that is called for and not
    /// known.
    fn compare(&self) -> (result: Option<Point>)
        ensures
            match result {
                Some(point) => self@.comparing() == Some(standing_at(self@, point)) && grounded(
                    self@,
                    point,
                ),
                None => self@.comparing() is None,
            },
    {
        if matches!(self.args.common.diff, DiffType::Never) {
            return None;
        }
        match self.marks.profile_exists {
            None => Some(Point::Ask(Stage::CheckProfile)),
            Some(exists) => {
                if exists && !self.marks.diff_shown {
                    Some(Point::Ask(Stage::ShowDiff))
                } else {
                    None
                }
            },
        }
    }

    /// Where the run stands when the build is there.
    fn apply(&self) -> (result: Point)
        requires
            self@.building() is None,
        ensures
            self@.applying() == standing_at(self@, result),
            grounded(self@, result),
    {
        if self.args.common.dry || matches!(self.variant, SystemRebuildVariant::Build) {
            if self.args.common.ask && !self.marks.dry_run_noted {
                return Point::Ask(Stage::NoteDryRun);
            }
            return Point::Finish;
        }
        if self.args.determine_remote_elevation(self.elevation, self.marks.target_uid).is_none() {
            return Point::Ask(Stage::ProbeUid);
        }
        if self.args.common.ask {
            match self.marks.confirmed {
                None => {
                    return Point::Ask(Stage::Confirm);
                },
                Some(agreed) => {
                    if !agreed {
                        return Point::Fail(Fault::Declined);
                    }
                },
            }
        }
        if self.args.target_host.is_some() {
            let already_there = !self.is_store_path() && self.args.same_host();
            if !already_there && !self.marks.copied {
                return Point::Ask(Stage::CopyClosure);
            }
            if !self.marks.validated {
                return Point::Ask(Stage::ValidateClosure);
            }
            if !self.marks.activated_remotely {
                return Point::Ask(Stage::ActivateRemotely);
            }
            return Point::Finish;
        }
        match self.marks.engine_exists {
            None => {
                return Point::Ask(Stage::CheckEngine);
            },
            Some(exists) => {
                if !exists {
                    return Point::Fail(Fault::NoEngine);
                }
            },
        }
        if !self.marks.registered {
            return Point::Ask(Stage::Register);
        }
        if !self.marks.activated {
            return Point::Ask(Stage::Activate);
        }
        Point::Finish
    }

    /// Where the run stands.
    fn point(&self) -> (result: Point)
        ensures
            self@.standing() == standing_at(self@, result),
            grounded(self@, result),
    {
        if self.failure.is_some() {
            return Point::Fail(Fault::Outside);
        }
        if let Some(point) = self.prepare() {
            return point;
        }
        if let Some(point) = self.build() {
            return point;
        }
        if let Some(point) = self.compare() {
            return point;
        }
        self.apply()
    }

    /// Where the link to the build is left.
    fn out_link(&self) -> (result: OsText)
        requires
            self@.args.common.out_link is Some || self@.temp_dir is Some,
        ensures
            result@ == self@.out_path(),
    {
        match &self.args.common.out_link {
            Some(path) => path.clone(),
            None => self.temp_dir.as_ref().unwrap().join("result"),
        }
    }

    /// The build.
    fn built(&self) -> (result: &OsText)
        requires
            self@.store_path is Some,
        ensures
            result@ == self@.store_path->0,
    {
        self.store_path.as_ref().unwrap()
    }

    /// The configuration that the search found.
    fn found(&self) -> (result: Installable)
        requires
            self@.search matches Some(ToplevelModel::Finished(Ok(_))),
        ensures
            result@ == self@.toplevel(),
    {
        self.search.as_ref().unwrap().resolved().unwrap().clone()
    }

    /// How the build is brought to life.
    fn activation(&self) -> (result: Activation)
        requires
            self@.store_path is Some,
        ensures
            result@ == self@.activation(),
    {
        let engine = self.built().join(ENGINE_BIN);
        let elevate = match self.args.determine_remote_elevation(
            self.elevation,
            self.marks.target_uid,
        ) {
            Some(elevate) => elevate,
            None => false,
        };
        self.args.register_and_activate(
            self.built(),
            &engine,
            &self.args.target_host,
            elevate,
            self.elevation,
        )
    }

    /// What a step before the build needs.
    fn need_before_build(&self, stage: Stage) -> (result: Option<Request>)
        requires
            self@.standing() == Standing::Asking(stage),
        ensures
            result matches Some(request) ==> request@ == self@.needs(stage),
            result is None <==> self@.preparing() is None,
    {
        if self.prepare().is_none() {
            return None;
        }
        Some(
            match stage {
                Stage::CheckSsh => Request::SshKeyLogin,
                Stage::MakeTempDir => Request::TemporaryDirectory {
                    prefix: "nh-system".to_owned(),
                },
                Stage::ResolveInstallable => Request::ResolveInstallable,
                Stage::UpdateInputs => Request::UpdateInputs {
                    installable: self.installable.as_ref().unwrap().clone(),
                    inputs: match &self.args.update_args.update_input {
                        Some(inputs) => Some(copy_texts(inputs)),
                        None => None,
                    },
                },
                Stage::FindHostname => Request::Hostname {
                    host: match resolve_discovery_hostname(
                        &self.args.configuration,
                        &self.args.target_host,
                    ) {
                        DiscoveryHostname::Of(host) => host,
                        DiscoveryHostname::NotNeeded => None,
                    },
                },
                Stage::InitSsh => Request::InitSshControl,
                Stage::ConnectBuildHost => Request::OpenSshMaster(HostRole::Build),
                _ => Request::OpenSshMaster(HostRole::Target),
            },
        )
    }

    /// What a step of the build needs.
    fn need_for_build(&self, stage: Stage) -> (result: Option<Request>)
        requires
            self@.standing() == Standing::Asking(stage),
            self@.preparing() is None,
        ensures
            result matches Some(request) ==> request@ == self@.needs(stage),
            result is None <==> self@.building() is None,
    {
        if self.build().is_none() {
            return None;
        }
        proof {
            use_type_invariant(self);
        }
        Some(
            match stage {
                Stage::NoteConfiguration => Request::Notify(Notice::StorePathIgnoresConfiguration),
                Stage::ResolveStorePath => match self.installable.as_ref().unwrap() {
                    Installable::Store { path } => Request::Canonicalize { path: path.clone() },
                    _ => Request::ResolveInstallable,
                },
                Stage::Search => Request::Search(
                    self.search.as_ref().unwrap().question().unwrap(),
                ),
                Stage::NoteRemoteBuild => Request::Notify(Notice::BuildingRemotely),
                Stage::BuildRemotely => {
                    let mut execution_args = encode_all(self.args.extra_args.as_slice());
                    let ghost given = execution_args.deep_view();
                    let passthrough = &self.args.common.passthrough;
                    let mut rest = copy_args(&passthrough.remote_build_args);
                    let ghost handed_on = rest.deep_view();
                    execution_args.append(&mut rest);
                    assert(execution_args.deep_view() =~= given + handed_on);
                    Request::BuildRemotely {
                        toplevel: self.found(),
                        use_nom: !self.args.common.no_nom,
                        use_substitutes: self.args.substitutes(),
                        execution_args,
                        out_link: self.out_link(),
                        evaluation_args: copy_args(&passthrough.evaluation_args),
                    }
                },
                Stage::BuildLocally => {
                    let mut extra_args = vec![OsText::from_text("--out-link"), self.out_link()];
                    assert(extra_args.deep_view() =~= seq![
                        encode_utf8("--out-link"@),
                        self@.out_path(),
                    ]);
                    let ghost first = extra_args.deep_view();
                    let mut rest = encode_all(self.args.extra_args.as_slice());
                    let ghost given = rest.deep_view();
                    extra_args.append(&mut rest);
                    assert(extra_args.deep_view() =~= first + given);
                    Request::BuildLocally {
                        toplevel: self.found(),
                        extra_args,
                        use_nom: !self.args.common.no_nom,
                        message: "Building System Manager configuration".to_owned(),
                    }
                },
                _ => Request::Canonicalize { path: self.out_link() },
            },
        )
    }

    /// What a step after the build needs.
    fn need_after_build(&self, stage: Stage) -> (result: Request)
        requires
            self@.standing() == Standing::Asking(stage),
            self@.preparing() is None,
            self@.building() is None,
        ensures
            result@ == self@.needs(stage),
    {
        match stage {
            Stage::CheckProfile => Request::PathExists {
                path: OsText::from_text(SYSTEM_MANAGER_PROFILE),
            },
            Stage::ShowDiff => Request::ShowDiff {
                old: OsText::from_text(SYSTEM_MANAGER_PROFILE),
                new: self.built().clone(),
            },
            Stage::NoteDryRun => Request::Notify(Notice::DryRunIgnoresAsk),
            Stage::ProbeUid => Request::RemoteUid,
            Stage::Confirm => Request::Confirm {
                prompt: "Apply the config?".to_owned(),
                default_answer: false,
            },
            Stage::CopyClosure => Request::CopyToTarget {
                store_path: self.built().clone(),
                use_substitutes: self.args.substitutes(),
                evaluation_args: copy_args(&self.args.common.passthrough.evaluation_args),
            },
            Stage::ValidateClosure => Request::ValidateOnTarget {
                store_path: self.built().clone(),
                file: ENGINE_BIN.to_owned(),
                description: ENGINE_DESCRIPTION.to_owned(),
                provenance: match &self.args.build_host {
                    Some(host) => Some(
                        "built on '".to_owned().concat(host.text.as_str()).concat("'"),
                    ),
                    None => None,
                },
            },
            Stage::CheckEngine => Request::TryExists { path: self.built().join(ENGINE_BIN) },
            _ => match self.activation() {
                Activation::Remote { store_path, config } => Request::ActivateRemotely {
                    store_path,
                    config,
                },
                Activation::Local { register, activate } => if matches!(stage, Stage::Register) {
                    Request::RunEngine(register)
                } else {
                    Request::RunEngine(activate)
                },
            },
        }
    }

    /// What the run asks for next; nothing when it is over.
    pub fn request(&self) -> (result: Option<Request>)
        ensures
            match (self@.standing(), result) {
                (Standing::Asking(stage), Some(request)) => request@ == self@.needs(stage),
                (Standing::Asking(_), None) => false,
                (_, request) => request is None,
            },
    {
        let stage = match self.point() {
            Point::Ask(stage) => stage,
            _ => {
                return None;
            },
        };
        if let Some(request) = self.need_before_build(stage) {
            return Some(request);
        }
        if let Some(request) = self.need_for_build(stage) {
            return Some(request);
        }
        Some(self.need_after_build(stage))
    }

    /// Whether the reply is one to what the run asks for.
    pub fn accepts(&self, reply: &Reply) -> (result: bool)
        ensures
            result == self@.takes(*reply),
    {
        let stage = match self.point() {
            Point::Ask(stage) => stage,
            _ => {
                return false;
            },
        };
        match reply {
            Reply::Failed(_) => stage.fallible(),
            Reply::Flag(_) => matches!(
                stage,
                Stage::CheckProfile | Stage::Confirm | Stage::CheckEngine
            ),
            Reply::Path(_) => matches!(
                stage,
                Stage::MakeTempDir
                | Stage::ResolveStorePath
                | Stage::BuildRemotely
                | Stage::ResolveOutLink
            ),
            Reply::Installable(_) => matches!(stage, Stage::ResolveInstallable),
            Reply::Text(_) => matches!(stage, Stage::FindHostname),
            Reply::Uid(_) => matches!(stage, Stage::ProbeUid),
            Reply::Search(answer) => {
                proof {
                    use_type_invariant(self);
                }
                match stage {
                    Stage::Search => self.search.as_ref().unwrap().accepts(answer),
                    _ => false,
                }
            },
            Reply::Exit { .. } => false,
            Reply::Done => matches!(
                stage,
                Stage::CheckSsh
                | Stage::UpdateInputs
                | Stage::InitSsh
                | Stage::ConnectBuildHost
                | Stage::ConnectTargetHost
                | Stage::NoteConfiguration
                | Stage::NoteRemoteBuild
                | Stage::BuildLocally
                | Stage::ShowDiff
                | Stage::NoteDryRun
                | Stage::CopyClosure
                | Stage::ValidateClosure
                | Stage::ActivateRemotely
                | Stage::Register
                | Stage::Activate
            ),
        }
    }

    /// The marks, with the step done.
    fn mark(&self, stage: Stage) -> (result: Marks)
        ensures
            result == self@.marked(stage),
    {
        let marks = self.marks;
        match stage {
            Stage::CheckSsh => Marks { ssh_login_works: true, ..marks },
            Stage::UpdateInputs => Marks { inputs_updated: true, ..marks },
            Stage::InitSsh => Marks { ssh_initialised: true, ..marks },
            Stage::ConnectBuildHost => Marks { build_host_connected: true, ..marks },
            Stage::ConnectTargetHost => Marks { target_host_connected: true, ..marks },
            Stage::NoteConfiguration => Marks { configuration_noted: true, ..marks },
            Stage::NoteRemoteBuild => Marks { remote_build_noted: true, ..marks },
            Stage::BuildLocally => Marks { built_here: true, ..marks },
            Stage::ShowDiff => Marks { diff_shown: true, ..marks },
            Stage::NoteDryRun => Marks { dry_run_noted: true, ..marks },
            Stage::CopyClosure => Marks { copied: true, ..marks },
            Stage::ValidateClosure => Marks { validated: true, ..marks },
            Stage::ActivateRemotely => Marks { activated_remotely: true, ..marks },
            Stage::Register => Marks { registered: true, ..marks },
            Stage::Activate => Marks { activated: true, ..marks },
            _ => marks,
        }
    }

    /// The run with the given marks.
    fn with_marks(self, marks: Marks) -> (result: Rebuild)
        ensures
            result@ == (RebuildModel { marks, ..self@ }),
    {
        proof {
            use_type_invariant(&self);
        }
        Rebuild { marks, ..self }
    }

    /// The run with what is built and by what name the configuration goes, and
    /// with the search begun once both are known.
    fn with_subject(self, installable: Option<Installable>, hostname: Option<String>) -> (result:
        Rebuild)
        requires
            self@.search is None,
        ensures
            result@ == (RebuildModel {
                installable: installable.deep_view(),
                hostname: hostname.deep_view(),
                ..self@
            }).prepared(),
    {
        let search = begin_if_ready(
            &installable,
            &self.args.extra_args,
            &self.args.configuration,
            &hostname,
        );
        Rebuild { installable, hostname, search, ..self }
    }

    /// Takes the reply to what the run asked for.
    pub fn resume(self, reply: Reply) -> (result: Rebuild)
        requires
            self@.takes(reply),
        ensures
            result@ == self@.told(reply),
    {
        proof {
            use_type_invariant(&self);
        }
        match self.point() {
            Point::Ask(stage) => self.learn(stage, reply),
            _ => self,
        }
    }

    /// Takes the reply to what the step needs.
    fn learn(self, stage: Stage, reply: Reply) -> (result: Rebuild)
        requires
            self@.fits(stage, reply),
            stage is ResolveInstallable || stage is FindHostname ==> self@.search is None,
            stage is Search ==> self@.search is Some,
        ensures
            result@ == self@.learned(stage, reply),
    {
        proof {
            use_type_invariant(&self);
        }
        let marks = self.marks;
        match reply {
            Reply::Failed(cause) => {
                if matches!(stage, Stage::ShowDiff) {
                    self.with_marks(Marks { diff_shown: true, ..marks })
                } else {
                    Rebuild {
                        failure: Some(Error::Failed { context: stage.context(), cause }),
                        ..self
                    }
                }
            },
            Reply::Done => {
                let marks = self.mark(stage);
                self.with_marks(marks)
            },
            Reply::Flag(flag) => {
                let marks = match stage {
                    Stage::CheckProfile => Marks { profile_exists: Some(flag), ..marks },
                    Stage::Confirm => Marks { confirmed: Some(flag), ..marks },
                    Stage::CheckEngine => Marks { engine_exists: Some(flag), ..marks },
                    _ => marks,
                };
                self.with_marks(marks)
            },
            Reply::Path(path) => {
                if matches!(stage, Stage::MakeTempDir) {
                    Rebuild { temp_dir: Some(path), ..self }
                } else {
                    Rebuild { store_path: Some(path), ..self }
                }
            },
            Reply::Installable(installable) => {
                let hostname = copy_option(&self.hostname);
                self.with_subject(Some(installable), hostname)
            },
            Reply::Text(name) => {
                let installable = match &self.installable {
                    Some(installable) => Some(installable.clone()),
                    None => None,
                };
                self.with_subject(installable, Some(name))
            },
            Reply::Uid(number) => self.with_marks(Marks { target_uid: Some(number), ..marks }),
            Reply::Search(answer) => {
                let search = match self.search {
                    Some(search) => Some(search.resume(answer)),
                    None => None,
                };
                Rebuild { search, ..self }
            },
            Reply::Exit { .. } => self,
        }
    }

    /// What the run came to; nothing while it is under way.
    pub fn outcome(self) -> (result: Option<Result<(), Error>>)
        ensures
            match result {
                Some(Ok(_)) => self@.standing() is Finished,
                Some(Err(error)) => self@.standing() == Standing::Failed(error@),
                None => self@.standing() is Asking,
            },
    {
        match self.point() {
            Point::Ask(_) => None,
            Point::Finish => Some(Ok(())),
            Point::Fail(fault) => Some(
                Err(
                    match fault {
                        Fault::Outside => self.failure.unwrap(),
                        Fault::Root => Error::RunningAsRoot,
                        Fault::Search => self.search.unwrap().outcome().unwrap().unwrap_err(),
                        Fault::Declined => Error::Rejected,
                        Fault::NoEngine => Error::EngineMissing(
                            self.built().join(ENGINE_BIN).to_text(),
                        ),
                    },
                ),
            ),
        }
    }
}

/// Calls `Uid::effective` of the `nix` crate and takes the number out of what it
/// returns. Who runs the process is for the operating system to say, so nothing is
/// claimed of the number.
#[verifier::external_body]
fn effective_uid() -> (result: u32) {
    ::nix::unistd::Uid::effective().as_raw()
}

impl SystemRebuildArgs {
    /// Begins to build a configuration, and to activate it if `variant` says so, for
    /// the user who runs the process. Which number that user has is for the operating
    /// system to say; [`SystemRebuildArgs::rebuild_as`] says what follows from it.
    pub fn rebuild(
        self,
        variant: SystemRebuildVariant,
        elevation: ElevationStrategy,
    ) -> (result: Rebuild)
        ensures
            exists|uid: u32| result@ == #[trigger] rebuild_begun(self, variant, elevation, uid),
    {
        let uid: u32 = effective_uid();
        self.rebuild_as(variant, elevation, uid)
    }

    /// Begins to build a configuration, and to activate it if `variant` says so, for
    /// the user with the given number.
    pub fn rebuild_as(
        self,
        variant: SystemRebuildVariant,
        elevation: ElevationStrategy,
        uid: u32,
    ) -> (result: Rebuild)
        ensures
            result@ == rebuild_begun(self, variant, elevation, uid),
    {
        Rebuild {
            args: self,
            variant,
            elevation,
            uid,
            marks: Marks {
                ssh_login_works: false,
                inputs_updated: false,
                ssh_initialised: false,
                build_host_connected: false,
                target_host_connected: false,
                configuration_noted: false,
                remote_build_noted: false,
                built_here: false,
                profile_exists: None,
                diff_shown: false,
                dry_run_noted: false,
                target_uid: None,
                confirmed: None,
                copied: false,
                validated: false,
                engine_exists: None,
                activated_remotely: false,
                registered: false,
                activated: false,
            },
            temp_dir: None,
            installable: None,
            hostname: None,
            search: None,
            store_path: None,
            failure: None,
        }
    }
}

} // verus!
