//! What the user asks `nh system` to do.

use crate::installable::Installable;
use crate::os_text::OsText;
use vstd::prelude::*;

verus! {

/// Whether the user wants to see what a build changes.
#[derive(Debug, Clone, Copy, PartialEq, Eq, Structural)]
pub enum DiffType {
    Never,
    Shown,
}

/// How commands that need it get more privileges. Which program grants them does
/// not matter to what is decided here.
#[derive(Debug, Clone, Copy, PartialEq, Eq, Structural)]
pub enum ElevationStrategy {
    /// They do not.
    Disabled,
    /// By a program that grants them.
    Elevate,
}

/// Options that are handed on to Nix.
#[derive(Debug, PartialEq, Eq)]
pub struct Passthrough {
    pub use_substitutes: bool,
    /// Whether one of the options keeps Nix from the network.
    pub network_restricted: bool,
    /// The options as a build on another host takes them.
    pub remote_build_args: Vec<OsText>,
    /// The options as an evaluation takes them.
    pub evaluation_args: Vec<OsText>,
}

/// Options of every command that builds.
#[derive(Debug, PartialEq, Eq)]
pub struct CommonRebuildArgs {
    /// Ask before anything is activated.
    pub ask: bool,
    /// Activate nothing.
    pub dry: bool,
    /// Show the build as Nix itself does.
    pub no_nom: bool,
    pub diff: DiffType,
    /// Where to leave a link to the build.
    pub out_link: Option<OsText>,
    /// What to build, if the user said so.
    pub installable: Option<Installable>,
    pub passthrough: Passthrough,
}

/// Options that bring the inputs of a flake up to date.
#[derive(Debug, PartialEq, Eq)]
pub struct UpdateArgs {
    pub update_all: bool,
    pub update_input: Option<Vec<String>>,
}

/// Another host.
#[derive(Debug, PartialEq, Eq)]
pub struct RemoteHost {
    /// The host as shown to the user.
    pub text: String,
    pub hostname: String,
}

/// Arguments of `nh system switch` and `nh system build`.
#[derive(Debug, PartialEq, Eq)]
pub struct SystemRebuildArgs {
    pub common: CommonRebuildArgs,
    pub update_args: UpdateArgs,
    /// Name of the configuration; if there is none, the name of the host is
    /// tried and then `default`.
    pub configuration: Option<String>,
    /// Extra arguments for the build.
    pub extra_args: Vec<String>,
    /// Allow root to run the command.
    pub bypass_root_check: bool,
    /// Write under `/run/etc` instead of `/etc`.
    pub ephemeral: bool,
    pub show_activation_logs: bool,
    /// The host that builds, if it is another one.
    pub build_host: Option<RemoteHost>,
    /// The host that the configuration is for, if it is another one.
    pub target_host: Option<RemoteHost>,
}

/// Arguments of `nh system repl`.
#[derive(Debug, PartialEq, Eq)]
pub struct SystemReplArgs {
    /// What to load, if the user said so.
    pub installable: Option<Installable>,
    /// Name of the configuration; if there is none, the name of the host is
    /// tried and then `default`.
    pub configuration: Option<String>,
    /// Extra arguments for the lookups.
    pub extra_args: Vec<String>,
}

/// The commands of `nh system`.
#[derive(Debug, PartialEq, Eq)]
pub enum SystemSubcommand {
    /// Build and activate a configuration.
    Switch(SystemRebuildArgs),
    /// Build a configuration.
    Build(SystemRebuildArgs),
    /// Load a configuration in an interactive session.
    Repl(SystemReplArgs),
}

/// Arguments of `nh system`.
#[derive(Debug, PartialEq, Eq)]
pub struct SystemArgs {
    pub subcommand: SystemSubcommand,
}

/// What an installation of Nix must be able to do.
#[derive(Debug, Clone, Copy, PartialEq, Eq, Structural)]
pub enum FeatureRequirements {
    /// Evaluate flakes.
    FlakeFeatures,
    /// Nothing beyond the commands without flakes.
    LegacyFeatures,
}

impl SystemRebuildArgs {
    /// Whether the command is about a flake: the variable `NH_SYSTEM_FLAKE`
    /// names one, or the user does.
    pub open spec fn about_flake(self, nh_system_flake: Option<String>) -> bool {
        ||| nh_system_flake matches Some(value) && value@.len() > 0
        ||| self.common.installable matches Some(installable) && installable is Flake
    }

    /// Whether the command is about a flake; `nh_system_flake` is what the
    /// environment has under `NH_SYSTEM_FLAKE`.
    #[must_use]
    pub fn uses_flakes(&self, nh_system_flake: &Option<String>) -> (result: bool)
        ensures
            result == self.about_flake(*nh_system_flake),
    {
        if let Some(value) = nh_system_flake {
            if !value.as_str().is_empty() {
                return true;
            }
        }
        matches!(&self.common.installable, Some(Installable::Flake { .. }))
    }

    /// Whether another host takes part.
    pub open spec fn involves_remote(self) -> bool {
        self.build_host is Some || self.target_host is Some
    }

    /// Whether another host takes part.
    pub fn remote(&self) -> (result: bool)
        ensures
            result == self.involves_remote(),
    {
        self.build_host.is_some() || self.target_host.is_some()
    }

    /// Whether inputs are to be brought up to date.
    pub open spec fn wants_update(self) -> bool {
        self.update_args.update_all || self.update_args.update_input is Some
    }

    /// Whether inputs are to be brought up to date.
    pub fn updates(&self) -> (result: bool)
        ensures
            result == self.wants_update(),
    {
        self.update_args.update_all || self.update_args.update_input.is_some()
    }

    /// Whether other hosts may fetch from substituters.
    pub open spec fn may_substitute(self) -> bool {
        self.common.passthrough.use_substitutes && !self.common.passthrough.network_restricted
    }

    /// Whether other hosts may fetch from substituters.
    pub fn substitutes(&self) -> (result: bool)
        ensures
            result == self.may_substitute(),
    {
        self.common.passthrough.use_substitutes && !self.common.passthrough.network_restricted
    }

    /// Whether the host that builds is the host that the configuration is for.
    pub open spec fn builds_on_target(self) -> bool {
        match (self.build_host, self.target_host) {
            (Some(build), Some(target)) => build.hostname@ == target.hostname@,
            _ => false,
        }
    }

    /// Whether the host that builds is the host that the configuration is for.
    pub fn same_host(&self) -> (result: bool)
        ensures
            result == self.builds_on_target(),
    {
        match (&self.build_host, &self.target_host) {
            (Some(build), Some(target)) => build.hostname == target.hostname,
            _ => false,
        }
    }
}

impl SystemArgs {
    /// Whether the command builds something that is about a flake.
    pub open spec fn builds_flake(self, nh_system_flake: Option<String>) -> bool {
        match self.subcommand {
            SystemSubcommand::Switch(args) => args.about_flake(nh_system_flake),
            SystemSubcommand::Build(args) => args.about_flake(nh_system_flake),
            SystemSubcommand::Repl(_) => false,
        }
    }

    /// What the installation of Nix must be able to do for a command that
    /// builds; `nh_system_flake` is what the environment has under
    /// `NH_SYSTEM_FLAKE`. Of the interactive session this says nothing.
    #[must_use]
    pub fn get_feature_requirements(&self, nh_system_flake: &Option<String>) -> (result:
        FeatureRequirements)
        requires
            !(self.subcommand is Repl),
        ensures
            self.subcommand matches SystemSubcommand::Switch(args) ==> (result is FlakeFeatures
                <==> args.about_flake(*nh_system_flake)),
            self.subcommand matches SystemSubcommand::Build(args) ==> (result is FlakeFeatures
                <==> args.about_flake(*nh_system_flake)),
            result is FlakeFeatures <==> self.builds_flake(*nh_system_flake),
    {
        let flakes = match &self.subcommand {
            SystemSubcommand::Switch(args) => args.uses_flakes(nh_system_flake),
            SystemSubcommand::Build(args) => args.uses_flakes(nh_system_flake),
            SystemSubcommand::Repl(_) => false,
        };
        if flakes {
            FeatureRequirements::FlakeFeatures
        } else {
            FeatureRequirements::LegacyFeatures
        }
    }
}

/// Which name the host has that a configuration is looked for.
#[derive(Debug, PartialEq, Eq)]
pub enum DiscoveryHostname {
    /// It does not matter: the configuration has a name of its own.
    NotNeeded,
    /// The given name, or that of this host if none is given.
    Of(Option<String>),
}

/// Whose name is used to look for a configuration: nobody's where it has a name of its
/// own, else that of the target host if there is one, else that of this host.
pub open spec fn discovery_hostname(
    configuration: Option<String>,
    target_host: Option<RemoteHost>,
) -> DiscoveryHostname {
    match (configuration, target_host) {
        (Some(_), _) => DiscoveryHostname::NotNeeded,
        (None, Some(host)) => DiscoveryHostname::Of(Some(host.hostname)),
        (None, None) => DiscoveryHostname::Of(None),
    }
}

/// Decides whose name is used to look for a configuration.
pub fn resolve_discovery_hostname(
    configuration: &Option<String>,
    target_host: &Option<RemoteHost>,
) -> (result: DiscoveryHostname)
    ensures
        result == (match (*configuration, *target_host) {
            (Some(_), _) => DiscoveryHostname::NotNeeded,
            (None, Some(host)) => DiscoveryHostname::Of(Some(host.hostname)),
            (None, None) => DiscoveryHostname::Of(None),
        }),
        result == discovery_hostname(*configuration, *target_host),
{
    if configuration.is_some() {
        return DiscoveryHostname::NotNeeded;
    }
    match target_host {
        Some(host) => DiscoveryHostname::Of(Some(host.hostname.clone())),
        None => DiscoveryHostname::Of(None),
    }
}

} // verus!
