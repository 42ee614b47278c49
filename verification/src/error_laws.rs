//! What holds of what the user is told.

use crate::error::{dotted, Context, ErrorModel, NixErrorModel};
use crate::protocol::Notice;
use crate::text::joined;
use vstd::prelude::*;

verus! {

/// Law: a path is named below `systemConfigs`, with dots and without quotes.
pub proof fn law_path_is_named_with_dots(path: Seq<Seq<char>>)
    ensures
        dotted(path) == "systemConfigs"@ + "."@ + joined(path, "."@),
{
}

/// Law: whoever is refused or stopped is told the rule that stopped them, whatever
/// else is the case.
pub proof fn law_rules_are_told()
    ensures
        ErrorModel::RunningAsRoot.message()
            == "Don't run nh system as root. I will call sudo internally as needed"@,
        ErrorModel::EmptyConfiguration.message() == "--configuration cannot be empty"@,
        ErrorModel::ConfigurationWithAttribute.message()
            == "Cannot use --configuration together with an installable attribute path"@,
        ErrorModel::MissingHostname.message()
            == "Missing hostname for system-manager configuration discovery"@,
        ErrorModel::NoneInFlake.message()
            == "No suitable system-manager configuration found automatically. Use --configuration or pass an explicit flake attribute (e.g. '.#default')."@,
        ErrorModel::NoneInFile.message()
            == "No suitable system-manager configuration found automatically. Use --configuration or pass an explicit attribute path."@,
        ErrorModel::Rejected.message() == "User rejected the new config"@,
        ErrorModel::StoreInRepl.message()
            == "Nix doesn't support nix store installables in repl mode."@,
{
}

/// Law: what the message is about stands in it whole, between words that do not
/// depend on it.
pub proof fn law_subject_stands_in_the_message(
    text: Seq<char>,
    path: Seq<Seq<char>>,
    nix: NixErrorModel,
)
    ensures
        ErrorModel::InvalidConfiguration(text).message() == "--configuration "@ + text,
        ErrorModel::TooSpecific(path).message() == "Attribute path is too specific: "@ + joined(
            path,
            "."@,
        ) + ". Please specify only the configuration name (e.g., '.#default')"@,
        ErrorModel::ConfigurationNotFound(path).message()
            == "Explicitly provided system-manager configuration not found: systemConfigs."@
            + joined(path, "."@),
        (ErrorModel::LookupFailed { candidate: path, nix }).message()
            == "Failed running nix eval to check for system-manager configuration systemConfigs."@
            + joined(path, "."@),
        ErrorModel::EngineMissing(text).message()
            == "Built output does not contain system-manager-engine at "@ + text,
        ErrorModel::ReplFailed(text).message() == "nix repl failed (exit status "@ + text + ")"@,
{
    reveal_strlit("systemConfigs");
    reveal_strlit(".");
    reveal_strlit("Explicitly provided system-manager configuration not found: ");
    reveal_strlit("Explicitly provided system-manager configuration not found: systemConfigs.");
    reveal_strlit("Failed running nix eval to check for system-manager configuration ");
    reveal_strlit(
        "Failed running nix eval to check for system-manager configuration systemConfigs.",
    );
    assert("Explicitly provided system-manager configuration not found: "@ + "systemConfigs"@
        + "."@ =~= "Explicitly provided system-manager configuration not found: systemConfigs."@);
    assert("Failed running nix eval to check for system-manager configuration "@
        + "systemConfigs"@ + "."@
        =~= "Failed running nix eval to check for system-manager configuration systemConfigs."@);
    assert(ErrorModel::ConfigurationNotFound(path).message()
        =~= "Explicitly provided system-manager configuration not found: "@ + "systemConfigs"@
        + "."@ + joined(path, "."@));
    assert((ErrorModel::LookupFailed { candidate: path, nix }).message()
        =~= "Failed running nix eval to check for system-manager configuration "@
        + "systemConfigs"@ + "."@ + joined(path, "."@));
}

/// Law: what failed outside is told as what was under way, and where nothing is to be
/// said of that, as the reason itself.
pub proof fn law_failure_is_told_as_what_was_under_way(context: Context, cause: Seq<char>)
    ensures
        (ErrorModel::Failed { context: Some(context), cause }).message() == context.text(),
        (ErrorModel::Failed { context: None, cause }).message() == cause,
        Context::ConnectBuildHost.text() == "Failed to establish SSH connection to build host"@,
        Context::ConnectTargetHost.text() == "Failed to establish SSH connection to target host"@,
        Context::ResolveStorePath.text()
            == "Failed to resolve store path installable to canonical store path"@,
        Context::Build.text() == "Failed to build System Manager configuration"@,
        Context::ResolveOutLink.text() == "Failed to resolve output path to actual store path"@,
        Context::CopyClosure.text() == "Failed to copy system-manager closure to target host"@,
        Context::ValidateClosure.text()
            == "Failed to validate system-manager closure on target host"@,
        Context::CheckEngine.text() == "Failed to check if system-manager-engine exists"@,
        Context::Register.text() == "Failed to register System Manager profile"@,
        Context::Activate.text() == "System Manager activation failed"@,
{
}

/// Law: what Nix did wrong is told with its exit status and, if it said anything, with
/// what it said.
pub proof fn law_nix_is_quoted(status: Seq<char>, stderr: Seq<char>, cause: Seq<char>)
    ensures
        NixErrorModel::NotStarted(cause).message() == "Failed to run nix command"@,
        NixErrorModel::NotUtf8(cause).message() == "nix command emitted non-UTF-8 stdout"@,
        (NixErrorModel::Failed { status, stderr: seq![] }).message()
            == "nix command failed (exit status "@ + status + ")"@,
        stderr.len() > 0 ==> (NixErrorModel::Failed { status, stderr }).message()
            == "nix command failed (exit status "@ + status + ")"@ + "\nstderr:\n"@ + stderr,
{
}

/// Law: behind every message stand the reasons, the nearest first, and none is lost:
/// what Nix did wrong behind a lookup, and what the outside said behind what was under
/// way and behind a command that did not start or wrote no text.
pub proof fn law_reasons_stand_behind_the_message(error: ErrorModel, nix: NixErrorModel)
    ensures
        error.chain().len() > 0 && error.chain()[0] == error.message(),
        nix.chain().len() > 0 && nix.chain()[0] == nix.message(),
        error matches ErrorModel::LookupFailed { nix: behind, .. } ==> error.chain().drop_first()
            == behind.chain(),
        error matches ErrorModel::Failed { context: Some(_), cause } ==> error.chain().drop_first()
            == seq![cause],
        error matches ErrorModel::Failed { context: None, .. } ==> error.chain().len() == 1,
        !(error is LookupFailed) && !(error is Failed) ==> error.chain().len() == 1,
        nix matches NixErrorModel::NotStarted(cause) ==> nix.chain().drop_first() == seq![cause],
        nix matches NixErrorModel::NotUtf8(cause) ==> nix.chain().drop_first() == seq![cause],
        nix is Failed ==> nix.chain().len() == 1,
{
    if let ErrorModel::LookupFailed { nix: behind, .. } = error {
        assert(error.chain().drop_first() =~= behind.chain());
    }
}

/// Law: every remark has its own words.
pub proof fn law_remarks_are_made_in_words()
    ensures
        Notice::BuildIgnoresAskAndDry.text()
            == "`--ask` and `--dry` have no effect for `nh system build`"@,
        Notice::StorePathIgnoresConfiguration.text()
            == "Ignoring --configuration because store path installables already point to an exact build output"@,
        Notice::DryRunIgnoresAsk.text() == "--ask has no effect as dry run was requested"@,
        Notice::BuildingRemotely.text() == "Building System Manager configuration"@,
{
}

} // verus!
