//! What is said of mathematical values is said of the values themselves: nothing is
//! left out and nothing is mixed up.

use crate::error::{Error, ErrorModel, NixError, NixErrorModel};
use crate::installable::{Installable, InstallableModel, Source, SourceModel};
use crate::nix::NixCall;
use crate::protocol::{Activation, ActivationModel, EngineRun, Request, RequestModel};
use crate::toplevel::{Query, QueryModel};
use vstd::prelude::*;

verus! {

/// Law: an installable and a place are seen whole.
pub proof fn law_installable_is_seen_whole(installable: Installable, source: Source)
    ensures
        installable matches Installable::Flake { reference: r, attribute: a } ==> (installable@ matches
            InstallableModel::Flake { reference, attribute } && reference == r@ && attribute
            == a.deep_view()),
        installable matches Installable::File { path: p, attribute: a } ==> (installable@ matches
            InstallableModel::File { path, attribute } && path == p@ && attribute
            == a.deep_view()),
        installable matches Installable::Expression { expression: e, attribute: a } ==> (
        installable@ matches InstallableModel::Expression { expression, attribute } && expression
            == e@ && attribute == a.deep_view()),
        installable matches Installable::Store { path: p } ==> (installable@ matches
            InstallableModel::Store { path } && path == p@),
        installable.deep_view() == installable@,
        source matches Source::Flake { reference: r } ==> (source@ matches SourceModel::Flake {
            reference,
        } && reference == r@),
        source matches Source::File { path: p } ==> (source@ matches SourceModel::File { path }
            && path == p@),
        source matches Source::Expression { expression: e } ==> (source@ matches
            SourceModel::Expression { expression } && expression == e@),
{
}

/// Law: an attribute in a place can be taken apart into the place and the path again,
/// and a store path cannot be taken apart.
pub proof fn law_place_and_path_make_up_an_installable(
    source: SourceModel,
    path: Seq<Seq<char>>,
    installable: InstallableModel,
)
    ensures
        source.at(path).parts() == Some((source, path)),
        installable.parts() is None <==> installable is Store,
        installable.parts() matches Some((place, rest)) ==> place.at(rest) == installable,
        source is Flake <==> source.at(path) is Flake,
        source is File <==> source.at(path) is File,
        source matches SourceModel::Flake { reference } ==> source.at(path) == (
        InstallableModel::Flake { reference, attribute: path }),
        source matches SourceModel::File { path: file } ==> source.at(path) == (
        InstallableModel::File { path: file, attribute: path }),
        source matches SourceModel::Expression { expression } ==> source.at(path) == (
        InstallableModel::Expression { expression, attribute: path }),
{
}

/// Law: a command and a question are seen whole.
pub proof fn law_command_is_seen_whole(call: NixCall, query: Query)
    ensures
        call@.kind == call.kind,
        call@.args.len() == call.args.len(),
        forall|i: int| 0 <= i < call.args.len() ==> #[trigger] call@.args[i] == call.args[i]@,
        call@.installable is Some <==> call.installable is Some,
        call.installable matches Some(installable) ==> call@.installable == Some(installable@),
        query matches Query::ParseAttribute(n) ==> (query@ matches QueryModel::ParseAttribute(name)
            && name == n@),
        query matches Query::Nix(c) ==> (query@ matches QueryModel::Nix(asked) && asked == c@),
        query.deep_view() == query@,
{
}

/// Law: a run of the engine and an activation are seen whole.
pub proof fn law_activation_is_seen_whole(run: EngineRun, activation: Activation)
    ensures
        run@.engine == run.engine@,
        run@.args.len() == run.args.len(),
        forall|i: int| 0 <= i < run.args.len() ==> #[trigger] run@.args[i] == run.args[i]@,
        run@.elevation == run.elevation,
        run@.show_output == run.show_output,
        run@.message == run.message@,
        activation matches Activation::Remote { store_path: s, config: c } ==> (activation@ matches
            ActivationModel::Remote { store_path, config } && store_path == s@ && config == c),
        activation matches Activation::Local { register: r, activate: a } ==> (activation@ matches
            ActivationModel::Local { register, activate } && register == r@ && activate == a@),
{
}

/// Law: a request is seen whole.
pub proof fn law_request_is_seen_whole(request: Request)
    ensures
        request.deep_view() == request@,
        request is SshKeyLogin <==> request@ is SshKeyLogin,
        request is ResolveInstallable <==> request@ is ResolveInstallable,
        request is InitSshControl <==> request@ is InitSshControl,
        request is RemoteUid <==> request@ is RemoteUid,
        request matches Request::TemporaryDirectory { prefix: p } ==> (request@ matches
            RequestModel::TemporaryDirectory { prefix } && prefix == p@),
        request matches Request::UpdateInputs { installable: i, inputs: n } ==> (request@ matches
            RequestModel::UpdateInputs { installable, inputs } && installable == i@ && inputs
            == n.deep_view()),
        request matches Request::Hostname { host: h } ==> (request@ matches
            RequestModel::Hostname { host } && host == h.deep_view()),
        request matches Request::OpenSshMaster(r) ==> (request@ matches
            RequestModel::OpenSshMaster(role) && role == r),
        request matches Request::Notify(n) ==> (request@ matches RequestModel::Notify(notice)
            && notice == n),
        request matches Request::Canonicalize { path: p } ==> (request@ matches
            RequestModel::Canonicalize { path } && path == p@),
        request matches Request::Search(q) ==> (request@ matches RequestModel::Search(query)
            && query == q@),
        request matches Request::PathExists { path: p } ==> (request@ matches
            RequestModel::PathExists { path } && path == p@),
        request matches Request::ShowDiff { old: o, new: n } ==> (request@ matches
            RequestModel::ShowDiff { old: before, new: after } && before == o@ && after == n@),
        request matches Request::Confirm { prompt: p, default_answer: d } ==> (request@ matches
            RequestModel::Confirm { prompt, default_answer } && prompt == p@ && default_answer
            == d),
        request matches Request::TryExists { path: p } ==> (request@ matches
            RequestModel::TryExists { path } && path == p@),
        request matches Request::ActivateRemotely { store_path: s, config: c } ==> (
        request@ matches RequestModel::ActivateRemotely { store_path, config } && store_path == s@
            && config == c),
        request matches Request::RunEngine(e) ==> (request@ matches RequestModel::RunEngine(run)
            && run == e@),
        request matches Request::Repl(c) ==> (request@ matches RequestModel::Repl(call) && call
            == c@),
{
}

/// Law: a request to build, to copy a build or to look it over is seen whole.
pub proof fn law_request_about_a_build_is_seen_whole(request: Request)
    ensures
        request matches Request::BuildRemotely {
            toplevel: t,
            use_nom: n,
            use_substitutes: u,
            execution_args: x,
            out_link: o,
            evaluation_args: v,
        } ==> (request@ matches RequestModel::BuildRemotely {
            toplevel,
            use_nom,
            use_substitutes,
            execution_args,
            out_link,
            evaluation_args,
        } && toplevel == t@ && use_nom == n && use_substitutes == u && execution_args
            == x.deep_view() && out_link == o@ && evaluation_args == v.deep_view()),
        request matches Request::BuildLocally {
            toplevel: t,
            extra_args: x,
            use_nom: n,
            message: m,
        } ==> (request@ matches RequestModel::BuildLocally {
            toplevel,
            extra_args,
            use_nom,
            message,
        } && toplevel == t@ && extra_args == x.deep_view() && use_nom == n && message == m@),
        request matches Request::CopyToTarget {
            store_path: s,
            use_substitutes: u,
            evaluation_args: v,
        } ==> (request@ matches RequestModel::CopyToTarget {
            store_path,
            use_substitutes,
            evaluation_args,
        } && store_path == s@ && use_substitutes == u && evaluation_args == v.deep_view()),
        request matches Request::ValidateOnTarget {
            store_path: s,
            file: f,
            description: d,
            provenance: p,
        } ==> (request@ matches RequestModel::ValidateOnTarget {
            store_path,
            file,
            description,
            provenance,
        } && store_path == s@ && file == f@ && description == d@ && provenance == p.deep_view()),
{
}

/// Law: an error is seen whole.
pub proof fn law_error_is_seen_whole(error: Error, nix: NixError)
    ensures
        error is RunningAsRoot <==> error@ is RunningAsRoot,
        error is EmptyConfiguration <==> error@ is EmptyConfiguration,
        error is ConfigurationWithAttribute <==> error@ is ConfigurationWithAttribute,
        error is MissingHostname <==> error@ is MissingHostname,
        error is NoneInFlake <==> error@ is NoneInFlake,
        error is NoneInFile <==> error@ is NoneInFile,
        error is Rejected <==> error@ is Rejected,
        error is StoreInRepl <==> error@ is StoreInRepl,
        error matches Error::InvalidConfiguration(c) ==> (error@ matches
            ErrorModel::InvalidConfiguration(cause) && cause == c@),
        error matches Error::TooSpecific(p) ==> (error@ matches ErrorModel::TooSpecific(path)
            && path == p.deep_view()),
        error matches Error::ConfigurationNotFound(p) ==> (error@ matches
            ErrorModel::ConfigurationNotFound(path) && path == p.deep_view()),
        error matches Error::LookupFailed { candidate: c, nix: n } ==> (error@ matches
            ErrorModel::LookupFailed { candidate, nix: behind } && candidate == c.deep_view()
            && behind == n@),
        error matches Error::EngineMissing(p) ==> (error@ matches ErrorModel::EngineMissing(path)
            && path == p@),
        error matches Error::ReplFailed(s) ==> (error@ matches ErrorModel::ReplFailed(status)
            && status == s@),
        error matches Error::Failed { context: x, cause: c } ==> (error@ matches
            ErrorModel::Failed { context, cause } && context == x && cause == c@),
        nix matches NixError::NotStarted(c) ==> (nix@ matches NixErrorModel::NotStarted(cause)
            && cause == c@),
        nix matches NixError::Failed { status: s, stderr: e } ==> (nix@ matches
            NixErrorModel::Failed { status, stderr } && status == s@ && stderr == e@),
        nix matches NixError::NotUtf8(c) ==> (nix@ matches NixErrorModel::NotUtf8(cause) && cause
            == c@),
{
}

} // verus!
