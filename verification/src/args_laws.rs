//! What holds of what the user asks for, and of how a build is brought to life.

use crate::args::{
    discovery_hostname, DiscoveryHostname, ElevationStrategy, RemoteHost, SystemArgs,
    SystemRebuildArgs, SystemSubcommand,
};
use crate::os_text::displayed;
use crate::protocol::{ActivationModel, ActivationType, Notice, Platform};
use vstd::prelude::*;

verus! {

/// Law: a variable that names a flake makes every command one about a flake; one that
/// is empty or not set leaves it to what the user names.
pub proof fn law_flake_is_named_by_the_variable_or_the_user(
    args: SystemRebuildArgs,
    variable: Option<String>,
)
    ensures
        variable matches Some(value) ==> value@.len() > 0 ==> args.about_flake(variable),
        (variable matches Some(value) ==> value@.len() == 0) ==> (args.about_flake(variable)
            <==> args.common.installable is Some && args.common.installable->0 is Flake),
{
}

/// Law: other hosts take part exactly where one is given to build or to deploy to;
/// inputs are updated exactly where all or some of them are to be; and other hosts may
/// fetch exactly where they are to and nothing keeps Nix from the network.
pub proof fn law_options_mean_what_they_say(args: SystemRebuildArgs)
    ensures
        !args.involves_remote() <==> args.build_host is None && args.target_host is None,
        !args.wants_update() <==> !args.update_args.update_all
            && args.update_args.update_input is None,
        args.may_substitute() <==> args.common.passthrough.use_substitutes
            && !args.common.passthrough.network_restricted,
{
}

/// Law: a command that builds needs what flakes need exactly where it is about one,
/// whether or not it activates what it builds.
pub proof fn law_features_depend_on_what_is_built(
    args: SystemRebuildArgs,
    variable: Option<String>,
)
    ensures
        (SystemArgs { subcommand: SystemSubcommand::Switch(args) }).builds_flake(variable)
            <==> args.about_flake(variable),
        (SystemArgs { subcommand: SystemSubcommand::Switch(args) }).builds_flake(variable)
            == (SystemArgs { subcommand: SystemSubcommand::Build(args) }).builds_flake(variable),
{
}

/// Law: the first thing a user hears is that `--ask` and `--dry` mean nothing to a
/// command that only builds, exactly if one of them was given to it; the other commands
/// begin without a word.
pub proof fn law_only_a_build_begins_with_a_remark(args: SystemArgs)
    ensures
        !(args.subcommand is Build) ==> args.first_remark() is None,
        args.subcommand matches SystemSubcommand::Build(build) ==> {
            &&& !build.common.ask && !build.common.dry ==> args.first_remark() is None
            &&& build.common.ask ==> args.first_remark() == Some(Notice::BuildIgnoresAskAndDry)
            &&& build.common.dry ==> args.first_remark() == Some(Notice::BuildIgnoresAskAndDry)
        },
{
}

/// Law: a configuration with a name needs nobody else's; without one, the target host
/// gives its name, and this host where there is no target.
pub proof fn law_configuration_is_looked_for_by_its_host(
    name: String,
    host: RemoteHost,
    any_host: Option<RemoteHost>,
)
    ensures
        discovery_hostname(Some(name), any_host) is NotNeeded,
        discovery_hostname(None, Some(host)) == DiscoveryHostname::Of(Some(host.hostname)),
        discovery_hostname(None, None) == DiscoveryHostname::Of(None),
{
}

/// Law: a host builds for itself exactly where both hosts are given and have one
/// name; how they are shown to the user, and which of them builds, does not matter.
pub proof fn law_hosts_are_told_apart_by_name(args: SystemRebuildArgs)
    ensures
        args.builds_on_target() ==> args.build_host is Some && args.target_host is Some,
        args.build_host is Some && args.target_host is Some ==> (args.builds_on_target()
            <==> args.build_host->0.hostname@ == args.target_host->0.hostname@),
        args.builds_on_target() == (SystemRebuildArgs {
            build_host: args.target_host,
            target_host: args.build_host,
            ..args
        }).builds_on_target(),
{
}

/// Law: who the user is on the target host matters only where there is one and more
/// privileges are to be had; there, root needs none and everyone else does.
pub proof fn law_elevation_depends_on_the_user_there(
    args: SystemRebuildArgs,
    elevation: ElevationStrategy,
    uid: u32,
)
    ensures
        args.target_host is None ==> args.remote_elevation(elevation, None) == Some(false)
            && args.remote_elevation(elevation, Some(uid)) == Some(false),
        args.remote_elevation(ElevationStrategy::Disabled, None) == Some(false),
        args.remote_elevation(ElevationStrategy::Disabled, Some(uid)) == Some(false),
        args.target_host is Some ==> {
            &&& args.remote_elevation(ElevationStrategy::Elevate, None) is None
            &&& args.remote_elevation(ElevationStrategy::Elevate, Some(0u32)) == Some(false)
            &&& uid != 0 ==> args.remote_elevation(ElevationStrategy::Elevate, Some(uid)) == Some(
                true,
            )
        },
{
}

/// Law: the engine is run twice, first to register the build and then to activate it,
/// both times elevated as asked and shown as asked; both runs are told the path, and
/// only the second that the activation is not to last, exactly if the user said so.
pub proof fn law_engine_registers_and_activates(
    args: SystemRebuildArgs,
    engine: Seq<u8>,
    path: Seq<char>,
    elevation: ElevationStrategy,
)
    ensures
        args.local_activation(engine, path, elevation) matches ActivationModel::Local {
            register,
            activate,
        } && {
            &&& register.engine == engine
            &&& activate.engine == engine
            &&& register.elevation == Some(elevation)
            &&& activate.elevation == Some(elevation)
            &&& register.show_output <==> args.show_activation_logs
            &&& activate.show_output <==> args.show_activation_logs
            &&& register.message == "Registering System Manager profile"@
            &&& activate.message == "Activating System Manager profile"@
            &&& register.args.len() == 3
            &&& register.args[0] == "register"@
            &&& register.args[1] == "--store-path"@
            &&& register.args[2] == path
            &&& activate.args[0] == "activate"@
            &&& activate.args[1] == "--store-path"@
            &&& activate.args[2] == path
            &&& args.ephemeral ==> activate.args.len() == 4 && activate.args[3] == "--ephemeral"@
            &&& !args.ephemeral ==> activate.args.len() == 3
        },
{
}

/// Law: two commands that agree on `--ephemeral` give the engine the same arguments,
/// whatever else the user asked for; what they show is another matter.
pub proof fn law_engine_arguments_depend_on_ephemeral_alone(
    args: SystemRebuildArgs,
    other: SystemRebuildArgs,
    engine: Seq<u8>,
    path: Seq<char>,
    elevation: ElevationStrategy,
    other_elevation: ElevationStrategy,
)
    requires
        args.ephemeral == other.ephemeral,
    ensures
        args.local_activation(engine, path, elevation)->register.args == other.local_activation(
            engine,
            path,
            other_elevation,
        )->register.args,
        args.local_activation(engine, path, elevation)->activate.args == other.local_activation(
            engine,
            path,
            other_elevation,
        )->activate.args,
{
}

/// Law: on the target host system-manager makes the build the current configuration
/// and leaves the boot loader alone; what the user said of logs and of how long it
/// lasts is handed on, and more privileges are had exactly where they are needed, as
/// the user wants them got.
pub proof fn law_target_activates_as_asked(
    args: SystemRebuildArgs,
    store_path: Seq<u8>,
    engine: Seq<u8>,
    elevate: bool,
    elevation: ElevationStrategy,
)
    ensures
        args.activation(store_path, engine, true, elevate, elevation) matches
            ActivationModel::Remote { store_path: activated, config } && {
            &&& activated == store_path
            &&& config.platform == Platform::SystemManager
            &&& config.activation_type == ActivationType::Switch
            &&& !config.install_bootloader
            &&& config.ephemeral <==> args.ephemeral
            &&& config.show_logs <==> args.show_activation_logs
            &&& elevate ==> config.elevation == Some(elevation)
            &&& !elevate ==> config.elevation is None
        },
{
}

/// Law: without a target host the engine of the build does the work, and is told the
/// path as it is shown; whether the target would need more privileges does not matter.
pub proof fn law_build_is_activated_here_without_a_target(
    args: SystemRebuildArgs,
    store_path: Seq<u8>,
    engine: Seq<u8>,
    elevate: bool,
    elevation: ElevationStrategy,
)
    ensures
        args.activation(store_path, engine, false, elevate, elevation) == args.local_activation(
            engine,
            displayed(store_path),
            elevation,
        ),
{
}

} // verus!
